//! Integer division rounded to the nearest whole number, and saturation to
//! the range of `i64`.

use vstd::prelude::*;
use vstd::arithmetic::div_mod::{lemma_fundamental_div_mod, lemma_mod_bound};

verus! {

/// The quotient of `n` by a positive `d`, rounded to the nearest integer,
/// a half rounding away from zero.
pub open spec fn round_div(n: int, d: int) -> int
    recommends
        d > 0,
{
    if n >= 0 {
        (n + d / 2) / d
    } else {
        -((-n + d / 2) / d)
    }
}

/// `x` where it fits an `i64`, else the nearest bound of `i64`.
pub open spec fn saturate(x: int) -> int {
    if x < i64::MIN {
        i64::MIN as int
    } else if x > i64::MAX {
        i64::MAX as int
    } else {
        x
    }
}

/// A quotient that lies between two whole numbers before rounding lies
/// between them after rounding.
pub proof fn lemma_round_div_between(n: int, d: int, lo: int, hi: int)
    requires
        d > 0,
        lo * d <= n <= hi * d,
    ensures
        lo <= round_div(n, d) <= hi,
{
    if n >= 0 {
        assert(lo * d <= n + d / 2 < (hi + 1) * d) by (nonlinear_arith)
            requires
                0 <= d / 2 < d,
                lo * d <= n <= hi * d,
        ;
        lemma_floor_between(n + d / 2, d, lo, hi + 1);
    } else {
        assert((-hi) * d <= -n + d / 2 < (-lo + 1) * d) by (nonlinear_arith)
            requires
                0 <= d / 2 < d,
                lo * d <= n <= hi * d,
        ;
        lemma_floor_between(-n + d / 2, d, -hi, -lo + 1);
    }
}

/// Rounding moves a quotient no farther from zero than the dividend is.
pub proof fn lemma_round_div_bound(n: int, d: int)
    requires
        d > 0,
    ensures
        n >= 0 ==> 0 <= round_div(n, d) <= n,
        n <= 0 ==> n <= round_div(n, d) <= 0,
{
    if n >= 0 {
        assert(0 * d <= n <= n * d) by (nonlinear_arith)
            requires
                d > 0,
                n >= 0,
        ;
        lemma_round_div_between(n, d, 0, n);
    } else {
        assert(n * d <= n <= 0 * d) by (nonlinear_arith)
            requires
                d > 0,
                n < 0,
        ;
        lemma_round_div_between(n, d, n, 0);
    }
}

/// Rounding moves a quotient by no more than a half.
pub proof fn lemma_round_div_error(n: int, d: int)
    requires
        d > 0,
    ensures
        -d <= 2 * (round_div(n, d) * d - n) <= d,
{
    let m = if n >= 0 {
        n
    } else {
        -n
    };
    let q = (m + d / 2) / d;
    lemma_fundamental_div_mod(m + d / 2, d);
    lemma_mod_bound(m + d / 2, d);
    assert(-d <= 2 * (q * d - m) <= d) by (nonlinear_arith)
        requires
            d > 0,
            m + d / 2 == d * q + (m + d / 2) % d,
            0 <= (m + d / 2) % d < d,
            d - 1 <= 2 * (d / 2) <= d,
    ;
    if n < 0 {
        assert((-q) * d == -(q * d)) by (nonlinear_arith);
    }
}

/// A product is no larger than the product of the bounds of its factors.
pub proof fn lemma_product_bound(a: int, b: int, bound_a: int, bound_b: int)
    by (nonlinear_arith)
    requires
        -bound_a <= a <= bound_a,
        -bound_b <= b <= bound_b,
    ensures
        -(bound_a * bound_b) <= a * b <= bound_a * bound_b,
{
}

proof fn lemma_floor_between(x: int, m: int, lo: int, hi: int)
    requires
        m > 0,
        lo * m <= x < hi * m,
    ensures
        lo <= x / m < hi,
{
    lemma_fundamental_div_mod(x, m);
    lemma_mod_bound(x, m);
    let q = x / m;
    assert(lo <= q < hi) by (nonlinear_arith)
        requires
            m > 0,
            lo * m <= x < hi * m,
            x == m * q + x % m,
            0 <= x % m < m,
    ;
}

/// Computes `round_div` on machine integers.
pub(crate) fn round_div_exec(n: i128, d: i128) -> (q: i128)
    requires
        0 < d <= 0x10_0000_0000_0000_0000_0000_0000,
        -0x10_0000_0000_0000_0000_0000_0000 <= n <= 0x10_0000_0000_0000_0000_0000_0000,
    ensures
        q == round_div(n as int, d as int),
{
    if n >= 0 {
        (n + d / 2) / d
    } else {
        -((-n + d / 2) / d)
    }
}

/// Computes `saturate` on machine integers.
pub(crate) fn saturate_exec(x: i128) -> (r: i64)
    ensures
        r == saturate(x as int),
{
    if x < i64::MIN as i128 {
        i64::MIN
    } else if x > i64::MAX as i128 {
        i64::MAX
    } else {
        x as i64
    }
}

} // verus!
