//! Headings on the ground plane: what unit length means in whole components,
//! and which heading a direction gives.

use vstd::prelude::*;
use crate::root::{floor_sqrt, is_floor_sqrt, lemma_floor_sqrt, lemma_floor_sqrt_of_square};
use crate::units::UNIT;

verus! {

/// A heading on the ground plane in mathematical integers, in millionths.
pub struct Heading {
    pub x: int,
    pub z: int,
}

/// The absolute value of `c`.
pub open spec fn magnitude(c: int) -> int {
    if c < 0 {
        -c
    } else {
        c
    }
}

/// `h` has unit length, as nearly as whole components allow: it is shorter
/// than `UNIT + 1`, and growing each component by one makes it longer than
/// `UNIT`.
pub open spec fn is_unit(h: Heading) -> bool {
    let a = magnitude(h.x);
    let b = magnitude(h.z);
    &&& a <= UNIT
    &&& b <= UNIT
    &&& a * a + b * b < (UNIT + 1) * (UNIT + 1)
    &&& (a + 1) * (a + 1) + (b + 1) * (b + 1) > UNIT * UNIT
}

/// The length of `(x, z)` in millionths, rounded down.
pub open spec fn scaled_length(x: int, z: int) -> int {
    floor_sqrt(((x * x + z * z) * UNIT * UNIT) as nat) as int
}

/// `c` divided by a length of `len` millionths, in millionths, rounded
/// towards zero.
pub open spec fn scaled_component(c: int, len: int) -> int {
    if c >= 0 {
        (c * UNIT * UNIT) / len
    } else {
        -((-c * UNIT * UNIT) / len)
    }
}

/// The unit heading along `(x, z)`, which is not `(0, 0)`.
pub open spec fn heading_of(x: int, z: int) -> Heading {
    let len = scaled_length(x, z);
    Heading { x: scaled_component(x, len), z: scaled_component(z, len) }
}

/// The heading to move along when the player looks along `(x, _, z)`: the
/// unit heading along `(x, z)`, or `last` when there is none because the
/// player looks straight up or down.
pub open spec fn resolve(last: Heading, x: int, z: int) -> Heading {
    if x == 0 && z == 0 {
        last
    } else {
        heading_of(x, z)
    }
}

proof fn lemma_square_le(a: int, b: int)
    by (nonlinear_arith)
    requires
        0 <= a <= b,
    ensures
        a * a <= b * b,
{
}

proof fn lemma_square_lt(a: int, b: int)
    by (nonlinear_arith)
    requires
        0 <= a < b,
    ensures
        a * a < b * b,
{
}

proof fn lemma_square_of_product(a: int, b: int)
    by (nonlinear_arith)
    ensures
        (a * b) * (a * b) == (a * a) * (b * b),
{
}

/// A quotient and its divisor bracket the dividend.
pub proof fn lemma_quotient_bounds(t: int, d: int)
    by (nonlinear_arith)
    requires
        0 <= t,
        0 < d,
    ensures
        0 <= t / d,
        (t / d) * d <= t < (t / d + 1) * d,
{
}

/// No component of a vector is longer than the vector: with `len` the scaled
/// length of a vector whose squared length is `n`, and `a` the magnitude of
/// one of its components.
proof fn lemma_component_within_length(a: int, n: int, len: int)
    requires
        0 <= a,
        a * a <= n,
        0 <= len,
        is_floor_sqrt((n * UNIT * UNIT) as nat, len as nat),
    ensures
        a * UNIT <= len,
{
    let m = n * UNIT * UNIT;
    lemma_square_of_product(a, UNIT as int);
    assert((a * a) * (UNIT * UNIT) <= n * (UNIT * UNIT)) by (nonlinear_arith)
        requires
            a * a <= n,
    ;
    assert(n * (UNIT * UNIT) == n * UNIT * UNIT) by (nonlinear_arith);
    assert((a * UNIT) * (a * UNIT) <= m);
    if a * UNIT >= len + 1 {
        lemma_square_le(len + 1, a * UNIT);
    }
}

/// What `lemma_heading_is_unit` needs of the quotients, in plain integers.
proof fn lemma_unit_bounds(a: int, b: int, len: int, p: int, q: int)
    requires
        0 <= a,
        0 <= b,
        1 <= a * a + b * b,
        0 <= len,
        is_floor_sqrt(((a * a + b * b) * UNIT * UNIT) as nat, len as nat),
        UNIT <= len,
        p == (a * UNIT * UNIT) / len,
        q == (b * UNIT * UNIT) / len,
    ensures
        0 <= p <= UNIT,
        0 <= q <= UNIT,
        p * p + q * q < (UNIT + 1) * (UNIT + 1),
        (p + 1) * (p + 1) + (q + 1) * (q + 1) > UNIT * UNIT,
{
    let u = UNIT as int;
    let n = a * a + b * b;
    let m = n * u * u;
    let ta = a * u * u;
    let tb = b * u * u;
    lemma_quotient_bounds(ta, len);
    lemma_quotient_bounds(tb, len);
    lemma_component_within_length(a, n, len);
    lemma_component_within_length(b, n, len);
    // p <= UNIT and q <= UNIT
    assert(p <= u) by (nonlinear_arith)
        requires
            p * len <= ta,
            ta == a * u * u,
            a * u <= len,
            0 < len,
            0 < u,
    ;
    assert(q <= u) by (nonlinear_arith)
        requires
            q * len <= tb,
            tb == b * u * u,
            b * u <= len,
            0 < len,
            0 < u,
    ;
    // ta^2 + tb^2 == m * u^2
    assert(ta * ta + tb * tb == m * (u * u)) by (nonlinear_arith)
        requires
            ta == a * u * u,
            tb == b * u * u,
            m == (a * a + b * b) * u * u,
    ;
    // upper bound
    lemma_square_le(p * len, ta);
    lemma_square_le(q * len, tb);
    lemma_square_of_product(p, len);
    lemma_square_of_product(q, len);
    assert((p * p + q * q) * (len * len) <= m * (u * u)) by (nonlinear_arith)
        requires
            (p * len) * (p * len) == (p * p) * (len * len),
            (q * len) * (q * len) == (q * q) * (len * len),
            (p * len) * (p * len) <= ta * ta,
            (q * len) * (q * len) <= tb * tb,
            ta * ta + tb * tb == m * (u * u),
    ;
    assert(m * (u * u) < ((len + 1) * u) * ((len + 1) * u)) by (nonlinear_arith)
        requires
            m < (len + 1) * (len + 1),
            0 < u,
    ;
    if p * p + q * q >= (u + 1) * (u + 1) {
        assert(0 <= (len + 1) * u <= (u + 1) * len) by (nonlinear_arith)
            requires
                u <= len,
                0 < u,
        ;
        lemma_square_le((len + 1) * u, (u + 1) * len);
        lemma_square_of_product(u + 1, len);
        assert((p * p + q * q) * (len * len) >= ((u + 1) * (u + 1)) * (len * len))
            by (nonlinear_arith)
            requires
                p * p + q * q >= (u + 1) * (u + 1),
        ;
        assert(false);
    }
    // lower bound
    lemma_square_lt(ta, (p + 1) * len);
    lemma_square_lt(tb, (q + 1) * len);
    lemma_square_of_product(p + 1, len);
    lemma_square_of_product(q + 1, len);
    assert(((p + 1) * (p + 1) + (q + 1) * (q + 1)) * (len * len) > m * (u * u))
        by (nonlinear_arith)
        requires
            ((p + 1) * len) * ((p + 1) * len) == ((p + 1) * (p + 1)) * (len * len),
            ((q + 1) * len) * ((q + 1) * len) == ((q + 1) * (q + 1)) * (len * len),
            ta * ta < ((p + 1) * len) * ((p + 1) * len),
            tb * tb < ((q + 1) * len) * ((q + 1) * len),
            ta * ta + tb * tb == m * (u * u),
    ;
    assert(m * (u * u) >= (len * len) * (u * u)) by (nonlinear_arith)
        requires
            len * len <= m,
            0 < u,
    ;
    assert((p + 1) * (p + 1) + (q + 1) * (q + 1) > u * u) by (nonlinear_arith)
        requires
            ((p + 1) * (p + 1) + (q + 1) * (q + 1)) * (len * len) > (len * len) * (u * u),
            0 < len,
    ;
}

/// The square of a number is the square of its magnitude.
pub proof fn lemma_square_of_magnitude(c: int)
    by (nonlinear_arith)
    ensures
        magnitude(c) * magnitude(c) == c * c,
        0 <= c * c,
{
}

/// The scaled length of a vector that is not zero is at least `UNIT`, and is
/// the rounded-down square root that `scaled_length` names.
pub proof fn lemma_scaled_length(x: int, z: int)
    requires
        x != 0 || z != 0,
    ensures
        UNIT <= scaled_length(x, z),
        magnitude(x) * UNIT <= scaled_length(x, z),
        magnitude(z) * UNIT <= scaled_length(x, z),
        is_floor_sqrt(
            ((magnitude(x) * magnitude(x) + magnitude(z) * magnitude(z)) * UNIT * UNIT) as nat,
            scaled_length(x, z) as nat,
        ),
{
    let a = magnitude(x);
    let b = magnitude(z);
    lemma_square_of_magnitude(x);
    lemma_square_of_magnitude(z);
    let n = a * a + b * b;
    assert(n == x * x + z * z);
    assert(0 <= n * UNIT * UNIT) by (nonlinear_arith)
        requires
            0 <= n,
    ;
    lemma_floor_sqrt((n * UNIT * UNIT) as nat);
    let len = scaled_length(x, z);
    lemma_component_within_length(a, n, len);
    lemma_component_within_length(b, n, len);
}

/// Laying a direction flat and scaling it gives a heading of unit length,
/// however long or short the direction was.
pub proof fn lemma_heading_is_unit(x: int, z: int)
    requires
        x != 0 || z != 0,
    ensures
        is_unit(heading_of(x, z)),
{
    let a = magnitude(x);
    let b = magnitude(z);
    let len = scaled_length(x, z);
    lemma_scaled_length(x, z);
    lemma_square_of_magnitude(x);
    lemma_square_of_magnitude(z);
    assert(1 <= a * a + b * b) by (nonlinear_arith)
        requires
            0 <= a,
            0 <= b,
            a != 0 || b != 0,
    ;
    let p = (a * UNIT * UNIT) / len;
    let q = (b * UNIT * UNIT) / len;
    lemma_unit_bounds(a, b, len, p, q);
    let h = heading_of(x, z);
    assert(magnitude(h.x) == p);
    assert(magnitude(h.z) == q);
}

/// The quotient of a component by a scaled length barely moves when the
/// vector grows `k` times: it stays, or falls by one.
proof fn lemma_quotient_of_multiple(a: int, n: int, len: int, k: int, longer: int)
    requires
        0 <= a,
        a * a <= n,
        1 <= n,
        1 <= k,
        0 <= len,
        0 <= longer,
        is_floor_sqrt((n * UNIT * UNIT) as nat, len as nat),
        is_floor_sqrt(((k * k * n) * UNIT * UNIT) as nat, longer as nat),
    ensures
        0 < len,
        0 < longer,
        (a * UNIT * UNIT) / len - 1 <= (k * a * UNIT * UNIT) / longer <= (a * UNIT * UNIT) / len,
{
    let u = UNIT as int;
    let m = n * u * u;
    let t = a * u * u;
    lemma_component_within_length(a, n, len);
    lemma_component_within_length(1, n, len);
    assert(u <= len);
    // k * len <= longer < k * (len + 1)
    assert((k * k * n) * u * u == (k * k) * m) by (nonlinear_arith)
        requires
            m == n * u * u,
    ;
    lemma_square_of_product(k, len);
    lemma_square_of_product(k, len + 1);
    assert((k * k) * (len * len) <= (k * k) * m < (k * k) * ((len + 1) * (len + 1)))
        by (nonlinear_arith)
        requires
            len * len <= m < (len + 1) * (len + 1),
            1 <= k,
    ;
    assert(0 <= k * len && 0 <= k * (len + 1)) by (nonlinear_arith)
        requires
            1 <= k,
            0 <= len,
    ;
    if k * len >= longer + 1 {
        lemma_square_le(longer + 1, k * len);
    }
    if longer >= k * (len + 1) {
        lemma_square_le(k * (len + 1), longer);
    }
    assert(k * len <= longer < k * (len + 1));
    assert(0 < longer) by (nonlinear_arith)
        requires
            k * len <= longer,
            1 <= k,
            0 < len,
    ;
    let p = t / len;
    let q = (k * a * u * u) / longer;
    assert(k * a * u * u == k * t) by (nonlinear_arith)
        requires
            t == a * u * u,
    ;
    assert(0 <= k * t) by (nonlinear_arith)
        requires
            1 <= k,
            0 <= t,
    ;
    lemma_quotient_bounds(t, len);
    lemma_quotient_bounds(k * t, longer);
    // q <= p
    assert(q * len <= t) by (nonlinear_arith)
        requires
            q * longer <= k * t,
            k * len <= longer,
            0 <= q,
            1 <= k,
    ;
    assert(q <= p) by (nonlinear_arith)
        requires
            q * len <= t < (p + 1) * len,
            0 < len,
    ;
    // p <= U
    assert(p <= u) by (nonlinear_arith)
        requires
            p * len <= t,
            t == a * u * u,
            a * u <= len,
            0 < len,
            0 < u,
    ;
    // p - 1 <= q
    assert((q + 1) * (len + 1) > t) by (nonlinear_arith)
        requires
            (q + 1) * longer > k * t,
            longer < k * (len + 1),
            0 <= q,
            1 <= k,
    ;
    if q + 2 <= p {
        assert((q + 1) * (len + 1) <= t) by (nonlinear_arith)
            requires
                q + 2 <= p,
                0 <= q,
                p * len <= t,
                p <= len,
                0 < len,
        ;
    }
}

/// Two headings differ by at most one millionth in each component.
pub open spec fn within_one(g: Heading, h: Heading) -> bool {
    &&& -1 <= g.x - h.x <= 1
    &&& -1 <= g.z - h.z <= 1
}

/// A direction `k` times as long has the same heading, to within rounding:
/// each component keeps its sign, and its magnitude stays or falls by one.
pub proof fn lemma_heading_of_multiple(x: int, z: int, k: int)
    requires
        x != 0 || z != 0,
        1 <= k,
    ensures
        magnitude(heading_of(x, z).x) - 1 <= magnitude(heading_of(k * x, k * z).x) <= magnitude(
            heading_of(x, z).x,
        ),
        magnitude(heading_of(x, z).z) - 1 <= magnitude(heading_of(k * x, k * z).z) <= magnitude(
            heading_of(x, z).z,
        ),
        x >= 0 ==> heading_of(x, z).x >= 0 && heading_of(k * x, k * z).x >= 0,
        x <= 0 ==> heading_of(x, z).x <= 0 && heading_of(k * x, k * z).x <= 0,
        z >= 0 ==> heading_of(x, z).z >= 0 && heading_of(k * x, k * z).z >= 0,
        z <= 0 ==> heading_of(x, z).z <= 0 && heading_of(k * x, k * z).z <= 0,
        within_one(heading_of(k * x, k * z), heading_of(x, z)),
{
    let a = magnitude(x);
    let b = magnitude(z);
    let n = a * a + b * b;
    let len = scaled_length(x, z);
    let longer = scaled_length(k * x, k * z);
    lemma_square_of_magnitude(x);
    lemma_square_of_magnitude(z);
    assert(1 <= n) by (nonlinear_arith)
        requires
            n == a * a + b * b,
            0 <= a,
            0 <= b,
            a != 0 || b != 0,
    ;
    assert(a * a <= n && b * b <= n) by (nonlinear_arith)
        requires
            n == a * a + b * b,
    ;
    assert(k * x != 0 || k * z != 0) by (nonlinear_arith)
        requires
            x != 0 || z != 0,
            1 <= k,
    ;
    lemma_scaled_length(x, z);
    lemma_scaled_length(k * x, k * z);
    assert((k * x) * (k * x) + (k * z) * (k * z) == k * k * n) by (nonlinear_arith)
        requires
            n == x * x + z * z,
    ;
    lemma_square_of_magnitude(k * x);
    lemma_square_of_magnitude(k * z);
    lemma_quotient_of_multiple(a, n, len, k, longer);
    lemma_quotient_of_multiple(b, n, len, k, longer);
    assert(magnitude(k * x) == k * a && magnitude(k * z) == k * b) by (nonlinear_arith)
        requires
            a == magnitude(x),
            b == magnitude(z),
            1 <= k,
    ;
    assert((x >= 0 ==> k * x >= 0) && (x < 0 ==> k * x < 0) && (z >= 0 ==> k * z >= 0) && (z < 0
        ==> k * z < 0)) by (nonlinear_arith)
        requires
            1 <= k,
    ;
    lemma_quotient_bounds(a * UNIT * UNIT, len);
    lemma_quotient_bounds(b * UNIT * UNIT, len);
    assert(0 <= k * a * UNIT * UNIT && 0 <= k * b * UNIT * UNIT) by (nonlinear_arith)
        requires
            1 <= k,
            0 <= a,
            0 <= b,
    ;
    lemma_quotient_bounds(k * a * UNIT * UNIT, longer);
    lemma_quotient_bounds(k * b * UNIT * UNIT, longer);
    assert(magnitude(heading_of(x, z).x) == (a * UNIT * UNIT) / len);
    assert(magnitude(heading_of(x, z).z) == (b * UNIT * UNIT) / len);
    assert(magnitude(heading_of(k * x, k * z).x) == (k * a * UNIT * UNIT) / longer);
    assert(magnitude(heading_of(k * x, k * z).z) == (k * b * UNIT * UNIT) / longer);
}

/// A heading along an axis of the ground plane is exact.
pub proof fn lemma_heading_along_axis(c: int)
    requires
        c != 0,
    ensures
        heading_of(0, c) == (Heading { x: 0, z: if c > 0 { UNIT as int } else { -UNIT } }),
        heading_of(c, 0) == (Heading { x: if c > 0 { UNIT as int } else { -UNIT }, z: 0 }),
{
    let a = magnitude(c);
    lemma_square_of_magnitude(c);
    assert((0 * 0 + c * c) * UNIT * UNIT == (a * UNIT) * (a * UNIT)) by (nonlinear_arith)
        requires
            a * a == c * c,
    ;
    assert((c * c + 0 * 0) * UNIT * UNIT == (a * UNIT) * (a * UNIT)) by (nonlinear_arith)
        requires
            a * a == c * c,
    ;
    lemma_floor_sqrt_of_square((a * UNIT) as nat);
    assert(scaled_length(0, c) == a * UNIT);
    assert(scaled_length(c, 0) == a * UNIT);
    assert((a * UNIT * UNIT) / (a * UNIT) == UNIT) by (nonlinear_arith)
        requires
            a > 0,
    ;
    assert((0 * UNIT * UNIT) / (a * UNIT) == 0) by (nonlinear_arith)
        requires
            a > 0,
    ;
}

} // verus!
