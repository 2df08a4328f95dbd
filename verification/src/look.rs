//! The look integrator: mouse motion into yaw and pitch.

use vstd::prelude::*;
use vstd::arithmetic::div_mod::lemma_mod_multiples_vanish;
use crate::input::MouseDelta;
use crate::units::{clamp, FULL_TURN, HALF_TURN, PITCH_LIMIT};

verus! {

/// Yaw, pitch and roll in mathematical integers: what an [`Orientation`]
/// stands for.
pub struct Angles {
    pub yaw: int,
    pub pitch: int,
    pub roll: int,
}

impl Angles {
    /// The yaw is in its one-turn range and the pitch is within the limit:
    /// the look integrator has nothing to correct.
    pub open spec fn is_settled(self) -> bool {
        &&& -HALF_TURN <= self.yaw <= HALF_TURN
        &&& -PITCH_LIMIT <= self.pitch <= PITCH_LIMIT
    }
}

/// An orientation as yaw about world up, then pitch about local right, then
/// roll about local forward, each in nanoradians.
#[derive(Clone, Copy, Debug, PartialEq, Eq, Structural)]
pub struct Orientation {
    pub yaw: i64,
    pub pitch: i64,
    pub roll: i64,
}

impl View for Orientation {
    type V = Angles;

    open spec fn view(&self) -> Angles {
        Angles { yaw: self.yaw as int, pitch: self.pitch as int, roll: self.roll as int }
    }
}

/// How far one count of mouse motion turns the view, in microradians: `x`
/// for yaw, `y` for pitch.
#[derive(Clone, Copy, Debug, PartialEq, Eq, Structural)]
pub struct CameraSensitivity {
    pub x: i32,
    pub y: i32,
}

impl CameraSensitivity {
    pub fn new(x: i32, y: i32) -> (s: CameraSensitivity)
        ensures
            s == (CameraSensitivity { x, y }),
    {
        CameraSensitivity { x, y }
    }
}

impl Default for CameraSensitivity {
    /// 0.003 radians a count for yaw, 0.002 for pitch.
    fn default() -> (s: CameraSensitivity)
        ensures
            s == (CameraSensitivity { x: 3_000, y: 2_000 }),
    {
        CameraSensitivity { x: 3_000, y: 2_000 }
    }
}

/// The angle in `-HALF_TURN ..= HALF_TURN` that differs from `a` by whole
/// turns.
pub open spec fn wrap_angle(a: int) -> int {
    (a + HALF_TURN) % (FULL_TURN as int) - HALF_TURN
}

/// `p` held within the pitch limit.
pub open spec fn clamp_pitch(p: int) -> int {
    clamp(p, -PITCH_LIMIT as int, PITCH_LIMIT as int)
}

/// The change of yaw that `mouse` asks for: motion to the right turns the
/// view to the right, which is towards negative yaw.
pub open spec fn yaw_change(mouse: MouseDelta, sensitivity: CameraSensitivity) -> int {
    -(mouse.x * sensitivity.x)
}

/// The change of pitch that `mouse` asks for: motion down the screen turns
/// the view down, which is towards negative pitch.
pub open spec fn pitch_change(mouse: MouseDelta, sensitivity: CameraSensitivity) -> int {
    -(mouse.y * sensitivity.y)
}

/// The orientation after the look integrator has taken in `mouse`.
///
/// A mouse that did not move leaves the orientation as it is, settled or
/// not. Any other motion adds to yaw and pitch, wraps the yaw into its
/// one-turn range, holds the pitch within its limit and keeps the roll.
pub open spec fn looked(o: Angles, mouse: MouseDelta, sensitivity: CameraSensitivity) -> Angles {
    if mouse.is_zero() {
        o
    } else {
        Angles {
            yaw: wrap_angle(o.yaw + yaw_change(mouse, sensitivity)),
            pitch: clamp_pitch(o.pitch + pitch_change(mouse, sensitivity)),
            roll: o.roll,
        }
    }
}

/// The product of a mouse motion and a sensitivity, negated.
fn turn(motion: i32, per_count: i32) -> (angle: i64)
    ensures
        angle == -(motion * per_count),
        -0x4000_0000_0000_0000 <= angle <= 0x4000_0000_0000_0000,
{
    assert(-0x4000_0000_0000_0000 <= motion * per_count <= 0x4000_0000_0000_0000)
        by (nonlinear_arith)
        requires
            -0x8000_0000 <= motion <= 0x7fff_ffff,
            -0x8000_0000 <= per_count <= 0x7fff_ffff,
    ;
    -((motion as i64) * (per_count as i64))
}

/// `a` wrapped into the one-turn range.
fn wrapped(a: i128) -> (r: i64)
    requires
        -0x1_0000_0000_0000_0000 <= a <= 0x1_0000_0000_0000_0000,
    ensures
        r == wrap_angle(a as int),
        -HALF_TURN <= r <= HALF_TURN,
{
    // Whole turns enough to lift every admitted angle above zero.
    let lift: i128 = (FULL_TURN as i128) * 0x1_0000_0000;
    let lifted: u128 = (a + HALF_TURN as i128 + lift) as u128;
    let rest: u128 = lifted % (FULL_TURN as u128);
    proof {
        lemma_mod_multiples_vanish(0x1_0000_0000, a + HALF_TURN, FULL_TURN as int);
    }
    (rest as i64) - HALF_TURN
}

impl Orientation {
    /// No rotation: looking along negative Z, level.
    pub fn identity() -> (o: Orientation)
        ensures
            o == (Orientation { yaw: 0, pitch: 0, roll: 0 }),
    {
        Orientation { yaw: 0, pitch: 0, roll: 0 }
    }

    pub fn new(yaw: i64, pitch: i64, roll: i64) -> (o: Orientation)
        ensures
            o == (Orientation { yaw, pitch, roll }),
    {
        Orientation { yaw, pitch, roll }
    }

    /// This orientation after the look integrator has taken in `mouse`.
    pub fn look(self, mouse: MouseDelta, sensitivity: &CameraSensitivity) -> (o: Orientation)
        ensures
            o@ == looked(self@, mouse, *sensitivity),
            mouse.is_zero() ==> o == self,
            !mouse.is_zero() ==> o@.is_settled(),
            o.roll == self.roll,
    {
        if mouse.is_zero() {
            return self;
        }
        let yaw = wrapped(self.yaw as i128 + turn(mouse.x, sensitivity.x) as i128);
        let raised: i128 = self.pitch as i128 + turn(mouse.y, sensitivity.y) as i128;
        let pitch: i64 = if raised < -(PITCH_LIMIT as i128) {
            -PITCH_LIMIT
        } else if raised > PITCH_LIMIT as i128 {
            PITCH_LIMIT
        } else {
            raised as i64
        };
        Orientation { yaw, pitch, roll: self.roll }
    }
}

} // verus!
