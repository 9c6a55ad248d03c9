//! Division that rounds to the nearest integer.

use vstd::prelude::*;

verus! {

/// The quotient `a / b` of a non-negative `a`, rounded to the nearest
/// integer, a tie going up.
pub open spec fn round_div_nat(a: int, b: int) -> int
    recommends
        a >= 0,
        b > 0,
{
    a / b + if 2 * (a % b) >= b {
        1int
    } else {
        0int
    }
}

/// The quotient `a / b` rounded to the nearest integer, a tie going away
/// from zero.
pub open spec fn round_div(a: int, b: int) -> int
    recommends
        b > 0,
{
    if a >= 0 {
        round_div_nat(a, b)
    } else {
        -round_div_nat(-a, b)
    }
}

/// `v` limited to the interval from `low` to `high`.
pub open spec fn clamp(v: int, low: int, high: int) -> int
    recommends
        low <= high,
{
    if v < low {
        low
    } else if v > high {
        high
    } else {
        v
    }
}

/// The rounded quotient is within half a divisor of the exact one, and a
/// tie is resolved away from zero.
pub proof fn lemma_round_div_nearest(a: int, b: int)
    requires
        b > 0,
    ensures
        -b <= 2 * (a - round_div(a, b) * b) <= b,
        a >= 0 ==> 2 * (a - round_div(a, b) * b) < b,
        a <= 0 ==> -b < 2 * (a - round_div(a, b) * b),
        a >= 0 ==> round_div(a, b) >= 0,
        a <= 0 ==> round_div(a, b) <= 0,
{
    let m = if a >= 0 {
        a
    } else {
        -a
    };
    let q = m / b;
    let r = m % b;
    vstd::arithmetic::div_mod::lemma_fundamental_div_mod(m, b);
    vstd::arithmetic::div_mod::lemma_mod_bound(m, b);
    vstd::arithmetic::div_mod::lemma_div_pos_is_pos(m, b);
    assert(m == b * q + r);
    assert((q + 1) * b == b * q + b) by (nonlinear_arith);
    assert(q * b == b * q) by (nonlinear_arith);
    assert((-q) * b == -(b * q)) by (nonlinear_arith);
    assert((-(q + 1)) * b == -(b * q) - b) by (nonlinear_arith);
}

/// Among the integers, only the rounded quotient is that near to a
/// non-negative `a / b` with the tie going up.
pub proof fn lemma_round_div_unique(a: int, b: int, q: int)
    requires
        b > 0,
        a >= 0,
        -b <= 2 * (a - q * b) < b,
    ensures
        q == round_div(a, b),
{
    let p = round_div(a, b);
    lemma_round_div_nearest(a, b);
    assert(-2 * b < 2 * (p * b - q * b) < 2 * b);
    assert(p * b - q * b == (p - q) * b) by (nonlinear_arith);
    assert(p - q == 0) by (nonlinear_arith)
        requires
            b > 0,
            -b < (p - q) * b < b,
    ;
}

/// A multiple of the divisor divides without rounding.
pub proof fn lemma_round_div_multiple(k: int, b: int)
    requires
        b > 0,
    ensures
        round_div(k * b, b) == k,
{
    if k >= 0 {
        assert(k * b >= 0) by (nonlinear_arith)
            requires
                k >= 0,
                b > 0,
        ;
        lemma_round_div_unique(k * b, b, k);
    } else {
        assert(k * b < 0) by (nonlinear_arith)
            requires
                k < 0,
                b > 0,
        ;
        assert(-(k * b) == (-k) * b) by (nonlinear_arith);
        lemma_round_div_unique((-k) * b, b, -k);
    }
}

/// Rounding never goes against the order of the dividends.
pub proof fn lemma_round_div_monotonic(a: int, c: int, b: int)
    requires
        b > 0,
        a <= c,
    ensures
        round_div(a, b) <= round_div(c, b),
{
    let p = round_div(a, b);
    let q = round_div(c, b);
    lemma_round_div_nearest(a, b);
    lemma_round_div_nearest(c, b);
    if p > q {
        assert((p - q) * b >= b) by (nonlinear_arith)
            requires
                p - q >= 1,
                b > 0,
        ;
        assert(p * b - q * b == (p - q) * b) by (nonlinear_arith);
        // 2(a - pb) >= -b and 2(c - qb) <= b give 2(c - a) <= 2b - 2(p - q)b <= 0,
        // so a == c and both bounds are met with equality: a tie rounded both ways.
        assert(a == c);
    }
}

/// Computes [`round_div_nat`] on machine integers.
pub fn round_div_u128(a: u128, b: u128) -> (q: u128)
    requires
        b > 0,
    ensures
        q == round_div_nat(a as int, b as int),
{
    let whole: u128 = a / b;
    let rest: u128 = a % b;
    proof {
        vstd::arithmetic::div_mod::lemma_fundamental_div_mod(a as int, b as int);
        vstd::arithmetic::div_mod::lemma_mod_bound(a as int, b as int);
        vstd::arithmetic::div_mod::lemma_div_pos_is_pos(a as int, b as int);
        assert(b * whole >= whole) by (nonlinear_arith)
            requires
                b >= 1,
                whole >= 0,
        ;
    }
    if rest >= b - rest {
        // something is left over, so the quotient is below the dividend
        whole + 1
    } else {
        whole
    }
}

/// Computes [`round_div`] on machine integers.
pub fn round_div_i128(a: i128, b: i128) -> (q: i128)
    requires
        b > 0,
        i128::MIN < a,
    ensures
        q == round_div(a as int, b as int),
{
    if a < 0 {
        let magnitude = round_div_u128((-a) as u128, b as u128);
        assert(magnitude <= -a) by {
            lemma_round_div_bounded(-a as int, b as int);
        }
        -(magnitude as i128)
    } else {
        let magnitude = round_div_u128(a as u128, b as u128);
        assert(magnitude <= a) by {
            lemma_round_div_bounded(a as int, b as int);
        }
        magnitude as i128
    }
}

/// The rounded quotient of a non-negative number is no larger than the
/// number.
pub proof fn lemma_round_div_bounded(a: int, b: int)
    requires
        a >= 0,
        b > 0,
    ensures
        0 <= round_div_nat(a, b) <= a,
{
    let q = a / b;
    let r = a % b;
    vstd::arithmetic::div_mod::lemma_fundamental_div_mod(a, b);
    vstd::arithmetic::div_mod::lemma_mod_bound(a, b);
    vstd::arithmetic::div_mod::lemma_div_pos_is_pos(a, b);
    assert(b * q >= q) by (nonlinear_arith)
        requires
            b >= 1,
            q >= 0,
    ;
}

} // verus!
