//! The movement integrator: held keys and elapsed time into a displacement.

use vstd::prelude::*;
use crate::facing::GroundFacing;
use crate::heading::Heading;
use crate::input::HeldKeys;
use crate::units::{MOVE_SPEED, UNIT};
use crate::vector::{Vec3, Vector};

verus! {

/// The displacement of one frame of `dt` microseconds, for a player who
/// moves along `heading` with `keys` down.
///
/// Forward and back run along the heading, strafing runs across it, a
/// quarter turn to its right, and up and down run along world Y whatever
/// the heading. Each runs at `MOVE_SPEED`; opposed keys cancel; the
/// displacement grows in proportion to `dt`.
pub open spec fn displacement(heading: Heading, keys: HeldKeys, dt: int) -> Vector {
    Vector {
        x: (heading.x * keys.forward_axis() - keys.strafe_axis() * heading.z) * MOVE_SPEED * dt,
        y: keys.vertical_axis() * UNIT * MOVE_SPEED * dt,
        z: (heading.z * keys.forward_axis() + keys.strafe_axis() * heading.x) * MOVE_SPEED * dt,
    }
}

/// `rate` times `dt`, for a rate of at most two units at `MOVE_SPEED`.
fn over_time(rate: i64, dt: u32) -> (length: i64)
    requires
        -2 * UNIT * MOVE_SPEED <= rate <= 2 * UNIT * MOVE_SPEED,
    ensures
        length == rate * dt,
{
    assert(-0x7fff_ffff_ffff_ffff <= rate * dt <= 0x7fff_ffff_ffff_ffff) by (nonlinear_arith)
        requires
            -2_000_000_000 <= rate <= 2_000_000_000,
            0 <= dt <= 0xffff_ffff,
    ;
    rate * (dt as i64)
}

/// `component` along an axis that is `1`, `-1` or `0`.
fn along(component: i64, axis: i64) -> (part: i64)
    requires
        -UNIT <= component <= UNIT,
        -1 <= axis <= 1,
    ensures
        part == component * axis,
        -UNIT <= part <= UNIT,
{
    assert(axis == 1 ==> component * axis == component) by (nonlinear_arith);
    assert(axis == -1 ==> component * axis == -component) by (nonlinear_arith);
    assert(axis == 0 ==> component * axis == 0) by (nonlinear_arith);
    if axis > 0 {
        component
    } else if axis < 0 {
        -component
    } else {
        0
    }
}

/// The displacement of one frame of `dt` microseconds along `facing` with
/// `keys` down.
pub fn movement_delta(facing: &GroundFacing, keys: &HeldKeys, dt: u32) -> (delta: Vec3)
    ensures
        delta@ == displacement(facing@, *keys, dt as int),
        dt == 0 ==> delta@ == Vector::zero(),
{
    let forward = keys.forward();
    let strafe = keys.strafe();
    let vertical = keys.vertical();
    let x = along(facing.x(), forward) - along(facing.z(), strafe);
    let z = along(facing.z(), forward) + along(facing.x(), strafe);
    let y = along(UNIT, vertical);
    proof {
        assert(x == facing@.x * keys.forward_axis() - keys.strafe_axis() * facing@.z)
            by (nonlinear_arith)
            requires
                x == facing@.x * forward - facing@.z * strafe,
                forward == keys.forward_axis(),
                strafe == keys.strafe_axis(),
        ;
        assert(z == facing@.z * keys.forward_axis() + keys.strafe_axis() * facing@.x)
            by (nonlinear_arith)
            requires
                z == facing@.z * forward + facing@.x * strafe,
                forward == keys.forward_axis(),
                strafe == keys.strafe_axis(),
        ;
        assert(y == keys.vertical_axis() * UNIT) by (nonlinear_arith)
            requires
                y == UNIT * vertical,
                vertical == keys.vertical_axis(),
        ;
    }
    Vec3 {
        x: over_time(x * MOVE_SPEED, dt),
        y: over_time(y * MOVE_SPEED, dt),
        z: over_time(z * MOVE_SPEED, dt),
    }
}

} // verus!
