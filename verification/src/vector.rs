//! Three-component vectors: positions, displacements and directions.

use vstd::prelude::*;
use crate::units::{saturate, saturating_sum, WORLD};

verus! {

/// A vector of three mathematical integers: what a [`Vec3`] stands for.
pub struct Vector {
    pub x: int,
    pub y: int,
    pub z: int,
}

impl Vector {
    /// The vector with every component zero.
    pub open spec fn zero() -> Vector {
        Vector { x: 0, y: 0, z: 0 }
    }

    /// The componentwise sum.
    pub open spec fn plus(self, other: Vector) -> Vector {
        Vector { x: self.x + other.x, y: self.y + other.y, z: self.z + other.z }
    }

    /// Each component held at the ends of the `i64` range.
    pub open spec fn saturated(self) -> Vector {
        Vector { x: saturate(self.x), y: saturate(self.y), z: saturate(self.z) }
    }

    /// Every component fits an `i64`.
    pub open spec fn fits(self) -> bool {
        &&& i64::MIN <= self.x <= i64::MAX
        &&& i64::MIN <= self.y <= i64::MAX
        &&& i64::MIN <= self.z <= i64::MAX
    }
}

/// A position, displacement or scale in world space, `WORLD` units to one.
/// X and Z span the ground, Y points up.
#[derive(Clone, Copy, Debug, PartialEq, Eq, Structural)]
pub struct Vec3 {
    pub x: i64,
    pub y: i64,
    pub z: i64,
}

impl View for Vec3 {
    type V = Vector;

    open spec fn view(&self) -> Vector {
        Vector { x: self.x as int, y: self.y as int, z: self.z as int }
    }
}

impl Vec3 {
    pub fn new(x: i64, y: i64, z: i64) -> (v: Vec3)
        ensures
            v == (Vec3 { x, y, z }),
    {
        Vec3 { x, y, z }
    }

    /// The origin, and the displacement that moves nothing.
    pub fn zero() -> (v: Vec3)
        ensures
            v@ == Vector::zero(),
    {
        Vec3 { x: 0, y: 0, z: 0 }
    }

    /// One in every component: the scale that changes nothing.
    pub fn one() -> (v: Vec3)
        ensures
            v == (Vec3 { x: WORLD, y: WORLD, z: WORLD }),
    {
        Vec3 { x: WORLD, y: WORLD, z: WORLD }
    }

    /// This position moved by `delta`. A component that would leave the
    /// `i64` range stays at its end.
    pub fn translated(self, delta: Vec3) -> (v: Vec3)
        ensures
            v@ == self@.plus(delta@).saturated(),
    {
        Vec3 {
            x: saturating_sum(self.x, delta.x),
            y: saturating_sum(self.y, delta.y),
            z: saturating_sum(self.z, delta.z),
        }
    }
}

/// A direction in world space, of any positive length: only the ratio of its
/// components counts.
#[derive(Clone, Copy, Debug, PartialEq, Eq, Structural)]
pub struct Direction {
    pub x: i32,
    pub y: i32,
    pub z: i32,
}

impl Direction {
    pub fn new(x: i32, y: i32, z: i32) -> (d: Direction)
        ensures
            d == (Direction { x, y, z }),
    {
        Direction { x, y, z }
    }

    /// Whether the direction has no part along the ground: straight up,
    /// straight down, or no direction at all.
    pub open spec fn spec_is_vertical(&self) -> bool {
        self.x == 0 && self.z == 0
    }

    #[verifier::when_used_as_spec(spec_is_vertical)]
    pub fn is_vertical(&self) -> (b: bool)
        ensures
            b == self.spec_is_vertical(),
    {
        self.x == 0 && self.z == 0
    }
}

} // verus!
