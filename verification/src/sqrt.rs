//! Verified integer square root, used to normalize face normals in
//! fixed-point arithmetic.

use vstd::prelude::*;

verus! {

/// `l` is the floor of the square root of `q`.
pub open spec fn is_sqrt_floor(q: int, l: int) -> bool {
    &&& 0 <= l
    &&& l * l <= q
    &&& q < (l + 1) * (l + 1)
}

/// The floor of the square root of `q` (meaningful for `q >= 0`,
/// see `lemma_sqrt_floor_exists`).
pub open spec fn sqrt_floor(q: int) -> int {
    choose|l: int| is_sqrt_floor(q, l)
}

/// Every non-negative integer has a square-root floor, so `sqrt_floor`
/// denotes it.
pub proof fn lemma_sqrt_floor_exists(q: int)
    requires
        q >= 0,
    ensures
        is_sqrt_floor(q, sqrt_floor(q)),
    decreases q,
{
    if q == 0 {
        assert(is_sqrt_floor(0, 0));
    } else {
        lemma_sqrt_floor_exists(q - 1);
        let l = sqrt_floor(q - 1);
        if (l + 1) * (l + 1) <= q {
            assert(q - 1 < (l + 1) * (l + 1));
            assert(q == (l + 1) * (l + 1));
            assert((l + 1 + 1) * (l + 1 + 1) > q) by (nonlinear_arith)
                requires
                    q == (l + 1) * (l + 1),
                    l >= 0,
            ;
            assert(is_sqrt_floor(q, l + 1));
        } else {
            assert(is_sqrt_floor(q, l));
        }
        assert(exists|w: int| is_sqrt_floor(q, w));
    }
}

/// Two square-root floors of the same number are equal.
pub proof fn lemma_sqrt_floor_unique(q: int, l1: int, l2: int)
    requires
        is_sqrt_floor(q, l1),
        is_sqrt_floor(q, l2),
    ensures
        l1 == l2,
{
    assert(l1 == l2) by (nonlinear_arith)
        requires
            0 <= l1,
            0 <= l2,
            l1 * l1 <= q,
            q < (l1 + 1) * (l1 + 1),
            l2 * l2 <= q,
            q < (l2 + 1) * (l2 + 1),
    ;
}

/// A number at least `s * s` has a square-root floor of at least `s`.
pub proof fn lemma_sqrt_floor_at_least(q: int, s: int)
    requires
        0 <= s,
        s * s <= q,
    ensures
        sqrt_floor(q) >= s,
{
    assert(s * s >= 0) by (nonlinear_arith)
        requires
            s >= 0,
    ;
    lemma_sqrt_floor_exists(q);
    let l = sqrt_floor(q);
    assert(l >= s) by (nonlinear_arith)
        requires
            l >= 0,
            s >= 0,
            s * s <= q,
            q < (l + 1) * (l + 1),
    ;
}

/// Integer square root by bisection: returns the floor of the square
/// root of `q`.
pub fn isqrt(q: u128) -> (r: u64)
    ensures
        is_sqrt_floor(q as int, r as int),
        r as int == sqrt_floor(q as int),
{
    let mut lo: u128 = 0;
    let mut hi: u128 = 0x1_0000_0000_0000_0000;
    assert(hi * hi > q as int) by (nonlinear_arith)
        requires
            hi == 0x1_0000_0000_0000_0000u128,
            q <= u128::MAX,
    ;
    while lo + 1 < hi
        invariant
            0 <= lo < hi <= 0x1_0000_0000_0000_0000,
            lo * lo <= q as int,
            (q as int) < hi * hi,
        decreases hi - lo,
    {
        let mid: u128 = lo + (hi - lo) / 2;
        assert(lo < mid < hi);
        assert(mid * mid <= (0x1_0000_0000_0000_0000 - 1) * (0x1_0000_0000_0000_0000 - 1)) by (nonlinear_arith)
            requires
                0 <= mid <= 0x1_0000_0000_0000_0000u128 - 1,
        ;
        if mid * mid <= q {
            lo = mid;
        } else {
            hi = mid;
        }
    }
    assert(lo + 1 == hi);
    proof {
        lemma_sqrt_floor_exists(q as int);
        lemma_sqrt_floor_unique(q as int, lo as int, sqrt_floor(q as int));
    }
    lo as u64
}

} // verus!
