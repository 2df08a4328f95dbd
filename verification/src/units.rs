//! Units of the fixed-point model, and the arithmetic that keeps values in them.
//!
//! | quantity                 | unit                         | one        |
//! |--------------------------|------------------------------|------------|
//! | direction component      | millionth                    | `UNIT`     |
//! | time                     | microsecond                  | `SECOND`   |
//! | length, position, scale  | 10^-12 world units           | `WORLD`    |
//! | angle                    | nanoradian                   | `RADIAN`   |
//! | mouse motion             | thousandth of a count        | `COUNT`    |
//! | look sensitivity         | microradian per count        |            |
//!
//! The units are chosen so that the integrators multiply and never divide:
//! a direction component times a time is a length at one world unit per
//! second, and a mouse motion times a sensitivity is an angle.

use vstd::prelude::*;

verus! {

/// One, as a direction component.
pub const UNIT: i64 = 1_000_000;

/// One second, in time units.
pub const SECOND: u32 = 1_000_000;

/// One world unit of length, in position units: `UNIT` times `SECOND`.
pub const WORLD: i64 = 1_000_000_000_000;

/// One radian, in angle units.
pub const RADIAN: i64 = 1_000_000_000;

/// One mouse count, in mouse-motion units.
pub const COUNT: i32 = 1_000;

/// Walking speed, in world units per second.
pub const MOVE_SPEED: i64 = 1_000;

/// Half a turn: pi radians, rounded down.
pub const HALF_TURN: i64 = 3_141_592_653;

/// A full turn: two pi radians, rounded down. It is odd, so the yaw range
/// `-HALF_TURN ..= HALF_TURN` holds exactly one angle of each residue.
pub const FULL_TURN: i64 = 6_283_185_307;

/// How far short of a quarter turn the pitch is held: 0.01 radians.
pub const PITCH_MARGIN: i64 = 10_000_000;

/// The largest pitch, up or down: a quarter turn less `PITCH_MARGIN`.
pub const PITCH_LIMIT: i64 = 1_560_796_326;

/// `v` held at the ends of the `i64` range.
pub open spec fn saturate(v: int) -> int {
    if v > i64::MAX {
        i64::MAX as int
    } else if v < i64::MIN {
        i64::MIN as int
    } else {
        v
    }
}

/// `v` held between `lo` and `hi`.
pub open spec fn clamp(v: int, lo: int, hi: int) -> int {
    if v < lo {
        lo
    } else if v > hi {
        hi
    } else {
        v
    }
}

/// The sum of `a` and `b`, held at the ends of the `i64` range.
pub fn saturating_sum(a: i64, b: i64) -> (r: i64)
    ensures
        r == saturate(a + b),
{
    let s: i128 = a as i128 + b as i128;
    if s > i64::MAX as i128 {
        i64::MAX
    } else if s < i64::MIN as i128 {
        i64::MIN
    } else {
        s as i64
    }
}

} // verus!
