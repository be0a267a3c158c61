//! Square roots of natural numbers, rounded to the nearest integer.

use vstd::prelude::*;

verus! {

/// `r` is the integer nearest to the square root of `n`, that is
/// `r - 1/2 <= sqrt(n) < r + 1/2`, written without fractions.
///
/// The square root of an integer never lies exactly halfway between two
/// integers, so no rule for ties is needed.
pub open spec fn is_nearest_root(n: int, r: int) -> bool {
    &&& 0 <= n
    &&& 0 <= r
    &&& n <= r * r + r
    &&& (r == 0 || r * r - r < n)
}

/// The integer nearest to the square root of `n`, for `n >= 0`.
pub open spec fn nearest_root(n: int) -> int {
    choose|r: int| is_nearest_root(n, r)
}

/// At most one integer is nearest to the square root of `n`.
pub proof fn lemma_nearest_root_unique(n: int, r1: int, r2: int)
    requires
        is_nearest_root(n, r1),
        is_nearest_root(n, r2),
    ensures
        r1 == r2,
{
    if r1 < r2 {
        assert(r2 * r2 - r2 >= r1 * r1 + r1) by (nonlinear_arith)
            requires
                0 <= r1,
                r1 + 1 <= r2,
        ;
    } else if r2 < r1 {
        assert(r1 * r1 - r1 >= r2 * r2 + r2) by (nonlinear_arith)
            requires
                0 <= r2,
                r2 + 1 <= r1,
        ;
    }
}

/// Every natural number has a nearest root, and `nearest_root` names it.
pub proof fn lemma_nearest_root_exists(n: int)
    requires
        0 <= n,
    ensures
        is_nearest_root(n, nearest_root(n)),
    decreases n,
{
    if n == 0 {
        assert(is_nearest_root(0, 0));
    } else {
        lemma_nearest_root_exists(n - 1);
        let r = nearest_root(n - 1);
        if n <= r * r + r {
            assert(is_nearest_root(n, r));
        } else {
            assert((r + 1) * (r + 1) - (r + 1) == r * r + r) by (nonlinear_arith);
            assert((r + 1) * (r + 1) + (r + 1) >= r * r + r + 1) by (nonlinear_arith)
                requires
                    0 <= r,
            ;
            assert(is_nearest_root(n, r + 1));
        }
    }
}

/// Whoever is nearest to the square root of `n` is `nearest_root(n)`.
pub proof fn lemma_nearest_root_is(n: int, r: int)
    requires
        is_nearest_root(n, r),
    ensures
        nearest_root(n) == r,
{
    lemma_nearest_root_unique(n, r, nearest_root(n));
}

/// A larger number has no smaller nearest root.
pub proof fn lemma_nearest_root_monotonic(m: int, n: int)
    requires
        0 <= m <= n,
    ensures
        nearest_root(m) <= nearest_root(n),
{
    lemma_nearest_root_exists(m);
    lemma_nearest_root_exists(n);
    let a = nearest_root(m);
    let b = nearest_root(n);
    if b < a {
        assert(a * a - a >= b * b + b) by (nonlinear_arith)
            requires
                0 <= b,
                b + 1 <= a,
        ;
    }
}

/// The nearest root of a perfect square is its root.
pub proof fn lemma_nearest_root_of_square(k: int)
    requires
        0 <= k,
    ensures
        nearest_root(k * k) == k,
{
    assert(0 <= k * k) by (nonlinear_arith)
        requires
            0 <= k,
    ;
    assert(is_nearest_root(k * k, k));
    lemma_nearest_root_is(k * k, k);
}

/// The nearest root of `n` is at most `bound` when `n` is at most `bound`
/// squared.
pub proof fn lemma_nearest_root_bound(n: int, bound: int)
    requires
        0 <= n <= bound * bound,
        0 <= bound,
    ensures
        0 <= nearest_root(n) <= bound,
{
    lemma_nearest_root_monotonic(n, bound * bound);
    lemma_nearest_root_of_square(bound);
    lemma_nearest_root_exists(n);
}

/// Computes the integer nearest to the square root of `n`.
pub fn round_sqrt(n: u128) -> (r: u128)
    ensures
        r == nearest_root(n as int),
{
    let mut lo: u128 = 0;
    let mut hi: u128 = 0x1_0000_0000_0000_0000;
    while hi - lo > 1
        invariant
            lo < hi <= 0x1_0000_0000_0000_0000,
            lo * lo <= n < hi * hi,
        decreases hi - lo,
    {
        let mid: u128 = lo + (hi - lo) / 2;
        assert(mid * mid <= 0xffff_ffff_ffff_ffff * 0xffff_ffff_ffff_ffff) by (nonlinear_arith)
            requires
                mid <= 0xffff_ffff_ffff_ffff,
        ;
        if mid * mid <= n {
            lo = mid;
        } else {
            hi = mid;
        }
    }
    assert(hi == lo + 1);
    assert((lo + 1) * (lo + 1) == lo * lo + 2 * lo + 1) by (nonlinear_arith);
    let r: u128 = if n - lo * lo > lo {
        lo + 1
    } else {
        lo
    };
    proof {
        assert((lo + 1) * (lo + 1) - (lo + 1) == lo * lo + lo) by (nonlinear_arith);
        assert((lo + 1) * (lo + 1) + (lo + 1) == lo * lo + 3 * lo + 2) by (nonlinear_arith);
        assert(lo >= 1 ==> lo * lo - lo < lo * lo) by (nonlinear_arith);
        assert(is_nearest_root(n as int, r as int));
        lemma_nearest_root_is(n as int, r as int);
    }
    r
}

} // verus!
