//! What holds of the two integrators on every input.

use vstd::prelude::*;
use crate::heading::{
    heading_of, is_unit, lemma_heading_is_unit, lemma_heading_of_multiple, resolve, within_one,
    Heading,
};
use crate::input::{HeldKeys, MouseDelta};
use crate::look::{looked, pitch_change, wrap_angle, yaw_change, Angles, CameraSensitivity};
use crate::movement::displacement;
use crate::units::{FULL_TURN, HALF_TURN, MOVE_SPEED, PITCH_LIMIT};
use crate::vector::{Direction, Vector};

verus! {

/// In a frame that takes no time the player does not move, whatever keys
/// are down.
pub proof fn lemma_no_time_no_motion(heading: Heading, keys: HeldKeys)
    ensures
        displacement(heading, keys, 0) == Vector::zero(),
{
}

/// With no key down the player does not move.
pub proof fn lemma_no_keys_no_motion(heading: Heading, dt: int)
    ensures
        displacement(heading, HeldKeys::none(), dt) == Vector::zero(),
{
    assert(displacement(heading, HeldKeys::none(), dt) == Vector::zero()) by (nonlinear_arith)
        requires
            HeldKeys::none().forward_axis() == 0,
            HeldKeys::none().strafe_axis() == 0,
            HeldKeys::none().vertical_axis() == 0,
    ;
}

/// A position that fits its type and is moved by nothing stays where it is.
pub proof fn lemma_zero_displacement_keeps_position(position: Vector)
    requires
        position.fits(),
    ensures
        position.plus(Vector::zero()).saturated() == position,
{
}

/// With only the forward key down the player moves along the heading at
/// `MOVE_SPEED`, and not up or down.
pub proof fn lemma_forward_moves_along_heading(heading: Heading, keys: HeldKeys, dt: int)
    requires
        keys == (HeldKeys { w: true, ..HeldKeys::none() }),
    ensures
        displacement(heading, keys, dt) == (Vector {
            x: heading.x * MOVE_SPEED * dt,
            y: 0,
            z: heading.z * MOVE_SPEED * dt,
        }),
{
    assert(displacement(heading, keys, dt) == (Vector {
        x: heading.x * MOVE_SPEED * dt,
        y: 0,
        z: heading.z * MOVE_SPEED * dt,
    })) by (nonlinear_arith)
        requires
            keys.forward_axis() == 1,
            keys.strafe_axis() == 0,
            keys.vertical_axis() == 0,
    ;
}

/// The heading that the player moves along is of unit length, and the
/// vertical part of the direction it looks along has no say in it.
pub proof fn lemma_heading_ignores_vertical_part(last: Heading, looking: Direction, other: Direction)
    requires
        is_unit(last),
        looking.x == other.x,
        looking.z == other.z,
    ensures
        is_unit(resolve(last, looking.x as int, looking.z as int)),
        resolve(last, looking.x as int, looking.z as int) == resolve(
            last,
            other.x as int,
            other.z as int,
        ),
{
    if !looking.is_vertical() {
        lemma_heading_is_unit(looking.x as int, looking.z as int);
    }
}

/// Looking up or down shortens the ground part of the direction the player
/// looks along and leaves the heading alone: two directions whose ground
/// parts are `j` times and `k` times one vector give headings that differ by
/// at most a millionth in each component.
pub proof fn lemma_heading_does_not_depend_on_pitch(x: int, z: int, j: int, k: int)
    requires
        x != 0 || z != 0,
        1 <= j,
        1 <= k,
    ensures
        within_one(heading_of(j * x, j * z), heading_of(k * x, k * z)),
        is_unit(heading_of(j * x, j * z)),
        is_unit(heading_of(k * x, k * z)),
{
    lemma_heading_of_multiple(x, z, j);
    lemma_heading_of_multiple(x, z, k);
    assert((j * x != 0 || j * z != 0) && (k * x != 0 || k * z != 0)) by (nonlinear_arith)
        requires
            x != 0 || z != 0,
            1 <= j,
            1 <= k,
    ;
    lemma_heading_is_unit(j * x, j * z);
    lemma_heading_is_unit(k * x, k * z);
}

/// Keys that oppose each other cancel: with both down the player moves as
/// with neither down.
pub proof fn lemma_opposed_keys_cancel(heading: Heading, keys: HeldKeys, dt: int)
    ensures
        keys.w && keys.s ==> displacement(heading, keys, dt) == displacement(
            heading,
            HeldKeys { w: false, s: false, ..keys },
            dt,
        ),
        keys.a && keys.d ==> displacement(heading, keys, dt) == displacement(
            heading,
            HeldKeys { a: false, d: false, ..keys },
            dt,
        ),
        keys.space && keys.control_left ==> displacement(heading, keys, dt) == displacement(
            heading,
            HeldKeys { space: false, control_left: false, ..keys },
            dt,
        ),
{
}

/// After the look integrator has taken in a mouse motion the pitch is within
/// its limit, however large the motion. A mouse that did not move leaves
/// the pitch as it was, so then the pitch is within its limit if it was.
pub proof fn lemma_pitch_within_limit(o: Angles, mouse: MouseDelta, sensitivity: CameraSensitivity)
    requires
        !mouse.is_zero() || -PITCH_LIMIT <= o.pitch <= PITCH_LIMIT,
    ensures
        -PITCH_LIMIT <= looked(o, mouse, sensitivity).pitch <= PITCH_LIMIT,
{
}

/// After the look integrator has taken in a mouse motion the orientation is
/// settled, and a settled orientation stays settled.
pub proof fn lemma_look_settles(o: Angles, mouse: MouseDelta, sensitivity: CameraSensitivity)
    requires
        !mouse.is_zero() || o.is_settled(),
    ensures
        looked(o, mouse, sensitivity).is_settled(),
{
}

/// A mouse that did not move leaves the orientation exactly as it was.
pub proof fn lemma_still_mouse_changes_nothing(o: Angles, sensitivity: CameraSensitivity)
    ensures
        looked(o, MouseDelta { x: 0, y: 0 }, sensitivity) == o,
{
}

/// Pitch that is pushed past its limit stays at the limit: once there,
/// further motion the same way changes nothing.
pub proof fn lemma_pitch_saturates(o: Angles, mouse: MouseDelta, sensitivity: CameraSensitivity)
    requires
        !mouse.is_zero(),
    ensures
        o.pitch == PITCH_LIMIT && pitch_change(mouse, sensitivity) >= 0 ==> looked(
            o,
            mouse,
            sensitivity,
        ).pitch == PITCH_LIMIT,
        o.pitch == -PITCH_LIMIT && pitch_change(mouse, sensitivity) <= 0 ==> looked(
            o,
            mouse,
            sensitivity,
        ).pitch == -PITCH_LIMIT,
{
}

/// A sideways mouse motion.
pub open spec fn sideways(x: int) -> MouseDelta {
    MouseDelta { x: x as i32, y: 0 }
}

/// Wrapping twice is wrapping once, and wrapping forgets whole turns.
proof fn lemma_wrap_add(a: int, b: int)
    ensures
        wrap_angle(wrap_angle(a) + b) == wrap_angle(a + b),
        -HALF_TURN <= a <= HALF_TURN ==> wrap_angle(a) == a,
{
}

/// Two sideways mouse motions in a row turn a settled orientation as their
/// sum does in one go.
pub proof fn lemma_yaw_motions_add(o: Angles, a: i32, b: i32, sensitivity: CameraSensitivity)
    requires
        o.is_settled(),
        i32::MIN <= a + b <= i32::MAX,
    ensures
        looked(looked(o, sideways(a as int), sensitivity), sideways(b as int), sensitivity)
            == looked(o, sideways(a + b), sensitivity),
{
    let s = sensitivity;
    let first = looked(o, sideways(a as int), s);
    assert(yaw_change(sideways(a as int), s) + yaw_change(sideways(b as int), s) == yaw_change(
        sideways(a + b),
        s,
    )) by (nonlinear_arith)
        requires
            i32::MIN <= a + b <= i32::MAX,
    ;
    assert(pitch_change(sideways(a as int), s) == 0) by (nonlinear_arith);
    assert(pitch_change(sideways(b as int), s) == 0) by (nonlinear_arith);
    assert(pitch_change(sideways(a + b), s) == 0) by (nonlinear_arith);
    assert(a + b == 0 ==> yaw_change(sideways(a + b), s) == 0) by (nonlinear_arith);
    lemma_wrap_add(o.yaw + yaw_change(sideways(a as int), s), yaw_change(sideways(b as int), s));
    lemma_wrap_add(o.yaw, 0);
}

/// Whatever the orientation, two sideways mouse motions in a row leave the
/// yaw a whole number of turns from where their sum leaves it in one go.
pub proof fn lemma_yaw_motions_add_up_to_turns(
    o: Angles,
    a: i32,
    b: i32,
    sensitivity: CameraSensitivity,
)
    requires
        i32::MIN <= a + b <= i32::MAX,
    ensures
        (looked(looked(o, sideways(a as int), sensitivity), sideways(b as int), sensitivity).yaw
            - looked(o, sideways(a + b), sensitivity).yaw) % (FULL_TURN as int) == 0,
{
    let s = sensitivity;
    assert(yaw_change(sideways(a as int), s) + yaw_change(sideways(b as int), s) == yaw_change(
        sideways(a + b),
        s,
    )) by (nonlinear_arith)
        requires
            i32::MIN <= a + b <= i32::MAX,
    ;
    assert(a + b == 0 ==> yaw_change(sideways(a + b), s) == 0) by (nonlinear_arith);
    assert(a == 0 ==> yaw_change(sideways(a as int), s) == 0) by (nonlinear_arith);
    assert(b == 0 ==> yaw_change(sideways(b as int), s) == 0) by (nonlinear_arith);
}

/// The orientation after the same mouse motion has been taken in `n` times.
pub open spec fn looked_times(
    o: Angles,
    mouse: MouseDelta,
    sensitivity: CameraSensitivity,
    n: nat,
) -> Angles
    decreases n,
{
    if n == 0 {
        o
    } else {
        looked(looked_times(o, mouse, sensitivity, (n - 1) as nat), mouse, sensitivity)
    }
}

/// A sideways mouse motion taken in `n` times turns a settled orientation as
/// `n` times the motion does in one go.
pub proof fn lemma_repeated_yaw_motion(o: Angles, a: i32, n: nat, sensitivity: CameraSensitivity)
    requires
        o.is_settled(),
        i32::MIN <= n * a <= i32::MAX,
    ensures
        looked_times(o, sideways(a as int), sensitivity, n) == looked(
            o,
            sideways(n * a),
            sensitivity,
        ),
    decreases n,
{
    if n == 0 {
        assert(0 * a == 0) by (nonlinear_arith);
    } else {
        let m = (n - 1) as nat;
        assert(m * a + a == n * a && (a >= 0 ==> 0 <= m * a <= n * a) && (a <= 0 ==> n * a <= m
            * a <= 0)) by (nonlinear_arith)
            requires
                m == n - 1,
                n >= 1,
        ;
        lemma_repeated_yaw_motion(o, a, m, sensitivity);
        lemma_yaw_motions_add(o, (m * a) as i32, a, sensitivity);
    }
}

} // verus!
