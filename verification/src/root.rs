//! Integer square root.

use vstd::prelude::*;

verus! {

/// `r` is the square root of `m`, rounded down.
pub open spec fn is_floor_sqrt(m: nat, r: nat) -> bool {
    r * r <= m < (r + 1) * (r + 1)
}

/// The square root of `m`, rounded down.
pub open spec fn floor_sqrt(m: nat) -> nat {
    choose|r: nat| is_floor_sqrt(m, r)
}

/// At most one number is the rounded-down square root of `m`.
pub proof fn lemma_floor_sqrt_unique(m: nat, r: nat, s: nat)
    requires
        is_floor_sqrt(m, r),
        is_floor_sqrt(m, s),
    ensures
        r == s,
{
    if r < s {
        assert((r + 1) * (r + 1) <= s * s) by (nonlinear_arith)
            requires
                r + 1 <= s,
        ;
    } else if s < r {
        assert((s + 1) * (s + 1) <= r * r) by (nonlinear_arith)
            requires
                s + 1 <= r,
        ;
    }
}

/// Every number has a rounded-down square root, and `floor_sqrt` is it.
pub proof fn lemma_floor_sqrt(m: nat)
    ensures
        is_floor_sqrt(m, floor_sqrt(m)),
    decreases m,
{
    if m == 0 {
        assert(0nat * 0nat <= 0 < (0nat + 1) * (0nat + 1)) by (nonlinear_arith);
        assert(is_floor_sqrt(0, 0));
    } else {
        lemma_floor_sqrt((m - 1) as nat);
        let r = floor_sqrt((m - 1) as nat);
        if m < (r + 1) * (r + 1) {
            assert(is_floor_sqrt(m, r));
        } else {
            assert((r + 2) * (r + 2) == (r + 1) * (r + 1) + 2 * r + 3) by (nonlinear_arith);
            assert(is_floor_sqrt(m, r + 1));
        }
    }
}

/// The rounded-down square root of a perfect square is its root.
pub proof fn lemma_floor_sqrt_of_square(r: nat)
    ensures
        floor_sqrt(r * r) == r,
{
    assert(r * r < (r + 1) * (r + 1)) by (nonlinear_arith);
    assert(is_floor_sqrt(r * r, r));
    lemma_floor_sqrt(r * r);
    lemma_floor_sqrt_unique(r * r, r, floor_sqrt(r * r));
}

/// The square root of `m`, rounded down.
pub fn isqrt(m: u128) -> (r: u64)
    ensures
        r == floor_sqrt(m as nat),
        is_floor_sqrt(m as nat, r as nat),
{
    let mut lo: u128 = 0;
    let mut hi: u128 = 0x1_0000_0000_0000_0000;
    while hi - lo > 1
        invariant
            lo < hi <= 0x1_0000_0000_0000_0000,
            lo * lo <= m < hi * hi,
        decreases hi - lo,
    {
        let mid: u128 = lo + (hi - lo) / 2;
        assert(mid * mid <= u128::MAX) by (nonlinear_arith)
            requires
                mid <= 0xffff_ffff_ffff_ffff,
        ;
        if mid * mid <= m {
            lo = mid;
        } else {
            hi = mid;
        }
    }
    proof {
        assert(hi == lo + 1);
        assert(is_floor_sqrt(m as nat, lo as nat));
        lemma_floor_sqrt(m as nat);
        lemma_floor_sqrt_unique(m as nat, lo as nat, floor_sqrt(m as nat));
    }
    lo as u64
}

} // verus!
