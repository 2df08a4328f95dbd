//! The input snapshot of one frame: held keys and mouse motion.

use vstd::prelude::*;

verus! {

/// Which of the six movement keys are down.
#[derive(Clone, Copy, Debug, PartialEq, Eq, Structural)]
pub struct HeldKeys {
    /// W: forward.
    pub w: bool,
    /// S: back.
    pub s: bool,
    /// A: strafe left.
    pub a: bool,
    /// D: strafe right.
    pub d: bool,
    /// Space: up.
    pub space: bool,
    /// Left Control: down.
    pub control_left: bool,
}

/// What a pair of opposed keys asks for: `1`, `-1`, or `0` when neither or
/// both are down.
pub open spec fn axis(positive: bool, negative: bool) -> int {
    (if positive { 1int } else { 0int }) - (if negative { 1int } else { 0int })
}

fn axis_of(positive: bool, negative: bool) -> (v: i64)
    ensures
        v == axis(positive, negative),
{
    let p: i64 = if positive { 1 } else { 0 };
    let n: i64 = if negative { 1 } else { 0 };
    p - n
}

impl HeldKeys {
    /// No key down.
    pub open spec fn spec_none() -> HeldKeys {
        HeldKeys { w: false, s: false, a: false, d: false, space: false, control_left: false }
    }

    #[verifier::when_used_as_spec(spec_none)]
    pub fn none() -> (k: HeldKeys)
        ensures
            k == HeldKeys::spec_none(),
    {
        HeldKeys { w: false, s: false, a: false, d: false, space: false, control_left: false }
    }

    /// W against S.
    pub open spec fn forward_axis(&self) -> int {
        axis(self.w, self.s)
    }

    /// D against A.
    pub open spec fn strafe_axis(&self) -> int {
        axis(self.d, self.a)
    }

    /// Space against Left Control.
    pub open spec fn vertical_axis(&self) -> int {
        axis(self.space, self.control_left)
    }

    /// Forward (`1`) or back (`-1`) along the heading.
    pub fn forward(&self) -> (v: i64)
        ensures
            v == self.forward_axis(),
    {
        axis_of(self.w, self.s)
    }

    /// Right (`1`) or left (`-1`) across the heading.
    pub fn strafe(&self) -> (v: i64)
        ensures
            v == self.strafe_axis(),
    {
        axis_of(self.d, self.a)
    }

    /// Up (`1`) or down (`-1`).
    pub fn vertical(&self) -> (v: i64)
        ensures
            v == self.vertical_axis(),
    {
        axis_of(self.space, self.control_left)
    }
}

impl Default for HeldKeys {
    fn default() -> (k: HeldKeys)
        ensures
            k == HeldKeys::spec_none(),
    {
        HeldKeys::none()
    }
}

/// Mouse motion gathered since the last frame, in thousandths of a count.
/// Positive `x` is to the right, positive `y` is down the screen.
#[derive(Clone, Copy, Debug, PartialEq, Eq, Structural)]
pub struct MouseDelta {
    pub x: i32,
    pub y: i32,
}

impl MouseDelta {
    pub fn new(x: i32, y: i32) -> (m: MouseDelta)
        ensures
            m == (MouseDelta { x, y }),
    {
        MouseDelta { x, y }
    }

    /// Whether the mouse did not move at all.
    pub open spec fn spec_is_zero(&self) -> bool {
        self.x == 0 && self.y == 0
    }

    #[verifier::when_used_as_spec(spec_is_zero)]
    pub fn is_zero(&self) -> (b: bool)
        ensures
            b == self.spec_is_zero(),
    {
        self.x == 0 && self.y == 0
    }
}

/// What the host's input layer hands over before a frame: read, never changed.
#[derive(Clone, Copy, Debug, PartialEq, Eq, Structural)]
pub struct InputSnapshot {
    pub keys: HeldKeys,
    pub mouse: MouseDelta,
}

} // verus!
