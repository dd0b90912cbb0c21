//! Integer division rounded to the nearest quotient, ties away from zero.
//!
//! The packed-word convention quantizes a steering value between two
//! fixed-point scales; both directions round to the nearest representable
//! value, so the quantization error stays within half a step.

use vstd::prelude::*;
use vstd::arithmetic::div_mod::{
    lemma_fundamental_div_mod, lemma_fundamental_div_mod_converse,
    lemma_mod_division_less_than_divisor, lemma_div_is_ordered,
};

verus! {

/// `n / d` rounded to the nearest integer, ties away from zero.
pub open spec fn round_div(n: int, d: int) -> int
    recommends
        d > 0,
{
    if n >= 0 {
        (n + d / 2) / d
    } else {
        -((-n + d / 2) / d)
    }
}

/// Rounding is symmetric around zero.
pub proof fn lemma_round_div_neg(n: int, d: int)
    requires
        d > 0,
    ensures
        round_div(-n, d) == -round_div(n, d),
{
    if n > 0 {
        assert(round_div(-n, d) == -((n + d / 2) / d));
    } else if n < 0 {
        assert(round_div(-n, d) == (-n + d / 2) / d);
    } else {
        vstd::arithmetic::div_mod::lemma_basic_div(d / 2, d);
        assert(round_div(0, d) == 0);
    }
}

/// The rounded quotient, scaled back up, lands within half a step of `n`.
pub proof fn lemma_round_div_error(n: int, d: int)
    requires
        d > 0,
        n >= 0,
    ensures
        round_div(n, d) * d - n <= d / 2,
        n - round_div(n, d) * d <= d - 1 - d / 2,
        round_div(n, d) >= 0,
{
    let h = d / 2;
    let m = n + h;
    lemma_fundamental_div_mod(m, d);
    lemma_mod_division_less_than_divisor(m, d);
    let r = m / d;
    assert(m == d * r + m % d);
    assert(r * d == d * r) by (nonlinear_arith);
    assert(round_div(n, d) == r);
    assert(round_div(n, d) * d - n == h - m % d);
    assert(r >= 0) by {
        if r < 0 {
            assert(d * r <= d * -1) by (nonlinear_arith)
                requires d > 0 && r <= -1;
        }
    }
}

/// A value already within half a step of a multiple of `d` rounds back to
/// that multiple's coefficient.
pub proof fn lemma_round_div_exact(q: int, e: int, d: int)
    requires
        d > 0,
        q * d + e >= 0,
        -(d / 2) <= e <= d - 1 - d / 2,
    ensures
        round_div(q * d + e, d) == q,
{
    let h = d / 2;
    let n = q * d + e;
    assert(n + h == q * d + (e + h));
    lemma_fundamental_div_mod_converse(n + h, d, q, e + h);
}

/// Rounding preserves order on nonnegative inputs.
pub proof fn lemma_round_div_ordered(n1: int, n2: int, d: int)
    requires
        d > 0,
        0 <= n1 <= n2,
    ensures
        round_div(n1, d) <= round_div(n2, d),
{
    lemma_div_is_ordered(n1 + d / 2, n2 + d / 2, d);
}

/// Executable form of `round_div` for bounded inputs.
pub fn round_div_i64(n: i64, d: i64) -> (r: i64)
    requires
        0 < d,
        -0x4000_0000_0000_0000 < n < 0x4000_0000_0000_0000,
        d < 0x4000_0000_0000_0000,
    ensures
        r == round_div(n as int, d as int),
{
    let h: i64 = d / 2;
    if n >= 0 {
        (n + h) / d
    } else {
        proof {
            lemma_round_div_error(-(n as int), d as int);
        }
        -((-n + h) / d)
    }
}

} // verus!
