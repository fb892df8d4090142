//! Exact integer arithmetic used by the geometry: truncating division,
//! clamping, and the bound lemmas the clipping engine needs.

use vstd::prelude::*;

verus! {

use vstd::arithmetic::div_mod::{
    lemma_div_is_ordered, lemma_div_multiples_vanish, lemma_div_pos_is_pos,
    lemma_fundamental_div_mod, lemma_remainder_lower, lemma_remainder_upper,
};
use vstd::arithmetic::mul::{lemma_mul_inequality, lemma_mul_nonnegative};

/// Division rounded toward zero, as the machine division of signed
/// integers computes it (`/` on `int` alone is Euclidean).
pub open spec fn div_trunc(a: int, b: int) -> int
    recommends
        b > 0,
{
    if a >= 0 {
        a / b
    } else {
        -((-a) / b)
    }
}

/// `v` saturated into the interval `[lo, hi]`.
pub open spec fn clamp(v: int, lo: int, hi: int) -> int
    recommends
        lo <= hi,
{
    if v < lo {
        lo
    } else if v > hi {
        hi
    } else {
        v
    }
}

/// Saturate `v` into `[lo, hi]`.
pub fn clamp_i32(v: i32, lo: i32, hi: i32) -> (r: i32)
    requires
        lo <= hi,
    ensures
        r == clamp(v as int, lo as int, hi as int),
{
    if v < lo {
        lo
    } else if v > hi {
        hi
    } else {
        v
    }
}

/// A product of values bounded in magnitude is bounded by the product of
/// the bounds.
pub proof fn lemma_mul_bound(a: int, b: int, aa: int, bb: int)
    requires
        -aa <= a <= aa,
        -bb <= b <= bb,
    ensures
        -(aa * bb) <= a * b <= aa * bb,
{
    assert(-(aa * bb) <= a * b <= aa * bb) by (nonlinear_arith)
        requires
            -aa <= a <= aa,
            -bb <= b <= bb,
    ;
}

/// Scaling `s` by a fraction `num / den` with `0 <= num <= den` and rounding
/// toward zero lands between `0` and `s`.
pub proof fn lemma_div_trunc_scale(num: int, den: int, s: int)
    requires
        0 <= num <= den,
        0 < den,
    ensures
        s >= 0 ==> 0 <= div_trunc(num * s, den) <= s,
        s < 0 ==> s <= div_trunc(num * s, den) <= 0,
{
    if s >= 0 {
        lemma_mul_nonnegative(num, s);
        lemma_mul_inequality(num, den, s);
        lemma_div_is_ordered(num * s, den * s, den);
        lemma_div_pos_is_pos(num * s, den);
        lemma_div_multiples_vanish(s, den);
    } else {
        let m = -s;
        assert(num * s == -(num * m)) by (nonlinear_arith)
            requires
                m == -s,
        ;
        lemma_mul_nonnegative(num, m);
        lemma_mul_inequality(num, den, m);
        lemma_div_is_ordered(num * m, den * m, den);
        lemma_div_pos_is_pos(num * m, den);
        lemma_div_multiples_vanish(m, den);
    }
}

/// Truncating division is exact to within one divisor: `den * (a / den)`
/// differs from `a` by less than `den` in either direction.
pub proof fn lemma_div_trunc_close(a: int, den: int)
    requires
        0 < den,
    ensures
        a - den < den * div_trunc(a, den) < a + den,
{
    if a >= 0 {
        lemma_fundamental_div_mod(a, den);
        lemma_mod_bounds(a, den);
    } else {
        let m = -a;
        lemma_fundamental_div_mod(m, den);
        lemma_mod_bounds(m, den);
        assert(den * div_trunc(a, den) == -(den * (m / den))) by (nonlinear_arith)
            requires
                m == -a,
                div_trunc(a, den) == -(m / den),
        ;
    }
}

proof fn lemma_mod_bounds(a: int, den: int)
    requires
        0 <= a,
        0 < den,
    ensures
        0 <= a % den < den,
{
    lemma_remainder_lower(a, den);
    lemma_remainder_upper(a, den);
}

/// Scaling `s >= 0` by a fraction `num / den` with `|num| <= den` and
/// rounding toward zero lands between `-s` and `s`.
pub proof fn lemma_div_trunc_scale_sym(num: int, den: int, s: int)
    requires
        -den <= num <= den,
        0 < den,
        0 <= s,
    ensures
        -s <= div_trunc(num * s, den) <= s,
{
    if num >= 0 {
        lemma_div_trunc_scale(num, den, s);
    } else {
        let m = -num;
        lemma_div_trunc_scale(m, den, s);
        assert(num * s == -(m * s)) by (nonlinear_arith)
            requires
                m == -num,
        ;
        lemma_mul_nonnegative(m, s);
    }
}

} // verus!
