//! The ground-facing vector: where the player looks, laid flat and brought to
//! unit length.

use vstd::prelude::*;
use crate::heading::{
    heading_of, is_unit, lemma_heading_is_unit, lemma_quotient_bounds, lemma_scaled_length,
    lemma_square_of_magnitude, magnitude, resolve, scaled_component, Heading,
};
use crate::root::isqrt;
use crate::units::UNIT;
use crate::vector::Direction;

verus! {

/// The unit vector on the ground along which the player moves forward.
///
/// Its components are in millionths. It is always of unit length, as nearly
/// as whole components allow.
#[derive(Clone, Copy, Debug, PartialEq, Eq)]
pub struct GroundFacing {
    x: i64,
    z: i64,
}

impl View for GroundFacing {
    type V = Heading;

    closed spec fn view(&self) -> Heading {
        Heading { x: self.x as int, z: self.z as int }
    }
}

/// `UNIT` squared.
const UNIT_SQUARED: u128 = 1_000_000_000_000;

/// `c` over `len`, for a component of a vector whose scaled length is `len`.
fn component_over(c: i32, len: u64) -> (v: i64)
    requires
        0 < len,
        magnitude(c as int) * UNIT <= len,
    ensures
        v == scaled_component(c as int, len as int),
        -UNIT <= v <= UNIT,
{
    let a: u128 = if c >= 0 {
        c as u128
    } else {
        (-(c as i64)) as u128
    };
    let t: u128 = a * UNIT_SQUARED;
    let q: u128 = t / (len as u128);
    proof {
        assert(a * UNIT * UNIT == t);
        lemma_quotient_bounds(t as int, len as int);
        assert(q <= UNIT) by (nonlinear_arith)
            requires
                q * len <= t,
                t == a * UNIT * UNIT,
                a * UNIT <= len,
                0 < len,
        ;
    }
    if c >= 0 {
        q as i64
    } else {
        -(q as i64)
    }
}

impl GroundFacing {
    #[verifier::type_invariant]
    spec fn well_formed(self) -> bool {
        is_unit(self@)
    }

    /// The heading of a player who has not turned: along negative Z.
    pub open spec fn ahead() -> Heading {
        Heading { x: 0, z: -UNIT }
    }

    /// The unit heading along the ground part of `forward`, or `None` when
    /// `forward` has no ground part.
    pub fn from_direction(forward: Direction) -> (r: Option<GroundFacing>)
        ensures
            r is None <==> forward.is_vertical(),
            r matches Some(g) ==> g@ == heading_of(forward.x as int, forward.z as int) && is_unit(
                g@,
            ),
    {
        if forward.is_vertical() {
            return None;
        }
        let a: u128 = if forward.x >= 0 {
            forward.x as u128
        } else {
            (-(forward.x as i64)) as u128
        };
        let b: u128 = if forward.z >= 0 {
            forward.z as u128
        } else {
            (-(forward.z as i64)) as u128
        };
        assert(a * a <= 0x4000_0000_0000_0000) by (nonlinear_arith)
            requires
                a <= 0x8000_0000,
        ;
        assert(b * b <= 0x4000_0000_0000_0000) by (nonlinear_arith)
            requires
                b <= 0x8000_0000,
        ;
        let n: u128 = a * a + b * b;
        let m: u128 = n * UNIT_SQUARED;
        let len = isqrt(m);
        proof {
            lemma_square_of_magnitude(forward.x as int);
            lemma_square_of_magnitude(forward.z as int);
            assert(m == (forward.x * forward.x + forward.z * forward.z) * UNIT * UNIT);
            lemma_scaled_length(forward.x as int, forward.z as int);
            lemma_heading_is_unit(forward.x as int, forward.z as int);
        }
        let x = component_over(forward.x, len);
        let z = component_over(forward.z, len);
        Some(GroundFacing { x, z })
    }

    /// The heading to move along this frame: along the ground part of
    /// `forward`, or this heading again when `forward` has none.
    pub fn follow(self, forward: Direction) -> (g: GroundFacing)
        ensures
            g@ == resolve(self@, forward.x as int, forward.z as int),
            is_unit(g@),
    {
        proof {
            use_type_invariant(&self);
        }
        match GroundFacing::from_direction(forward) {
            Some(g) => g,
            None => self,
        }
    }

    /// The X component, in millionths.
    pub fn x(&self) -> (v: i64)
        ensures
            v == self@.x,
            -UNIT <= v <= UNIT,
    {
        proof {
            use_type_invariant(self);
        }
        self.x
    }

    /// The Z component, in millionths.
    pub fn z(&self) -> (v: i64)
        ensures
            v == self@.z,
            -UNIT <= v <= UNIT,
    {
        proof {
            use_type_invariant(self);
        }
        self.z
    }
}

impl Default for GroundFacing {
    /// The heading of a player who has not turned.
    fn default() -> (g: GroundFacing)
        ensures
            g@ == GroundFacing::ahead(),
    {
        assert(is_unit(GroundFacing::ahead())) by (nonlinear_arith);
        GroundFacing { x: 0, z: -UNIT }
    }
}

} // verus!
