//! Laws of the fraction type: canonical form of normalization, the
//! product of a ratio with its flipped counterpart, and totality of the
//! saturating operators.

use crate::arith::{abs_n, gcd_n, lemma_abs_divides, lemma_exact_div_signed, lemma_gcd_coprime,
    lemma_gcd_divides, sat32};
use crate::fraction::{
    lemma_normalized_wf, normalize_ok, raw_add, raw_mul, raw_sub, spec_add, spec_mul,
    spec_normalized, spec_safe_neg, spec_sub, wf, Fraction,
};
use vstd::arithmetic::div_mod::{lemma_div_by_self, lemma_mod_self_0};
use vstd::prelude::*;

verus! {

/// Normalizing a ratio of two nonzero domain values yields a positive
/// denominator and a numerator and denominator that are coprime.
pub proof fn lemma_normalized_canonical(f: Fraction)
    requires
        f.numerator != 0,
        f.denominator != 0,
    ensures
        spec_normalized(f).denominator >= 1,
        gcd_n(
            abs_n(spec_normalized(f).numerator as int),
            abs_n(spec_normalized(f).denominator as int),
        ) == 1,
{
    let n = if f.denominator < 0 {
        spec_safe_neg(f.numerator as int)
    } else {
        f.numerator as int
    };
    let d = if f.denominator < 0 {
        spec_safe_neg(f.denominator as int)
    } else {
        f.denominator as int
    };
    assert(n != 0);
    assert(d >= 1);
    let g = gcd_n(abs_n(n), abs_n(d)) as int;
    lemma_gcd_divides(abs_n(n), abs_n(d));
    lemma_gcd_coprime(abs_n(n), abs_n(d));
    if g != 1 {
        lemma_abs_divides(n, g);
        lemma_abs_divides(d, g);
        lemma_exact_div_signed(n, g);
        lemma_exact_div_signed(d, g);
        assert(d / g >= 1) by (nonlinear_arith)
            requires
                g >= 1,
                d >= 1,
                d == g * (d / g),
        ;
        assert(abs_n(n / g) == abs_n(n) / g as nat && abs_n(d / g) == abs_n(d) / g as nat)
            by (nonlinear_arith)
            requires
                g >= 1,
                n == g * (n / g),
                d == g * (d / g),
                abs_n(n) as int % g == 0,
                abs_n(d) as int % g == 0,
                n != 0,
                d >= 1,
        ;
    }
}

/// A ratio of two nonzero domain values, multiplied by the same ratio
/// flipped, normalizes to exactly one over one.  This holds even where
/// the cross products saturate, because both the numerator and the
/// denominator of the product saturate to the same value.
pub proof fn lemma_mul_by_flipped_is_one(a: i32, b: i32)
    requires
        a != 0,
        b != 0,
    ensures
        normalize_ok(raw_mul(Fraction { numerator: a, denominator: b },
            Fraction { numerator: b, denominator: a })),
        spec_mul(
            Fraction { numerator: a, denominator: b },
            Fraction { numerator: b, denominator: a },
        ) == (Fraction { numerator: 1, denominator: 1 }),
{
    let p = Fraction { numerator: a, denominator: b };
    let q = Fraction { numerator: b, denominator: a };
    assert(a as int * b as int != 0 && b as int * a as int == a as int * b as int)
        by (nonlinear_arith)
        requires
            a != 0,
            b != 0,
    ;
    let s = sat32(a as int * b as int);
    assert(s != 0);
    assert(raw_mul(p, q) == (Fraction { numerator: s as i32, denominator: s as i32 }));
    let t = if s < 0 {
        spec_safe_neg(s)
    } else {
        s
    };
    assert(t >= 1);
    assert(gcd_n(abs_n(t), abs_n(t)) == t as nat) by {
        lemma_mod_self_0(t);
        assert(abs_n(t) % abs_n(t) == 0);
        assert(gcd_n(abs_n(t), abs_n(t)) == gcd_n(abs_n(t), abs_n(t) % abs_n(t)));
    }
    if t != 1 {
        lemma_div_by_self(t);
    }
}

/// Where none of the cross products leaves the domain, the sum is the
/// exact rational sum, stated by cross-multiplication against the
/// common denominator.
pub proof fn lemma_add_exact(a: Fraction, b: Fraction)
    requires
        wf(a),
        wf(b),
        i32::MIN <= (a.numerator as int * b.denominator as int) <= i32::MAX,
        i32::MIN <= (b.numerator as int * a.denominator as int) <= i32::MAX,
        i32::MIN <= (a.numerator as int * b.denominator as int + b.numerator as int
            * a.denominator as int) <= i32::MAX,
        (a.denominator as int * b.denominator as int) <= i32::MAX,
    ensures
        wf(spec_add(a, b)),
        spec_add(a, b).numerator as int * (a.denominator as int * b.denominator as int) == (
        a.numerator as int * b.denominator as int + b.numerator as int * a.denominator as int)
            * spec_add(a, b).denominator as int,
{
    assert(a.denominator as int * b.denominator as int >= 1) by (nonlinear_arith)
        requires
            a.denominator >= 1,
            b.denominator >= 1,
    ;
    lemma_normalized_wf(raw_add(a, b));
}

/// Where none of the cross products leaves the domain, the difference
/// is the exact rational difference.
pub proof fn lemma_sub_exact(a: Fraction, b: Fraction)
    requires
        wf(a),
        wf(b),
        i32::MIN <= (a.numerator as int * b.denominator as int) <= i32::MAX,
        i32::MIN <= (b.numerator as int * a.denominator as int) <= i32::MAX,
        i32::MIN <= (a.numerator as int * b.denominator as int - b.numerator as int
            * a.denominator as int) <= i32::MAX,
        (a.denominator as int * b.denominator as int) <= i32::MAX,
    ensures
        wf(spec_sub(a, b)),
        spec_sub(a, b).numerator as int * (a.denominator as int * b.denominator as int) == (
        a.numerator as int * b.denominator as int - b.numerator as int * a.denominator as int)
            * spec_sub(a, b).denominator as int,
{
    assert(a.denominator as int * b.denominator as int >= 1) by (nonlinear_arith)
        requires
            a.denominator >= 1,
            b.denominator >= 1,
    ;
    lemma_normalized_wf(raw_sub(a, b));
}

/// Where neither product leaves the domain, the product is the exact
/// rational product.
pub proof fn lemma_mul_exact(a: Fraction, b: Fraction)
    requires
        wf(a),
        wf(b),
        i32::MIN <= (a.numerator as int * b.numerator as int) <= i32::MAX,
        (a.denominator as int * b.denominator as int) <= i32::MAX,
    ensures
        wf(spec_mul(a, b)),
        spec_mul(a, b).numerator as int * (a.denominator as int * b.denominator as int) == (
        a.numerator as int * b.numerator as int) * spec_mul(a, b).denominator as int,
{
    assert(a.denominator as int * b.denominator as int >= 1) by (nonlinear_arith)
        requires
            a.denominator >= 1,
            b.denominator >= 1,
    ;
    lemma_normalized_wf(raw_mul(a, b));
}

/// Saturating totality: on every operand pair whose denominators are
/// nonzero — boundary numerators at the domain minimum and maximum
/// included — the sum, difference and product are defined, their raw
/// fields stay inside the domain, and their normalization is defined.
pub proof fn lemma_saturating_totality(a: Fraction, b: Fraction)
    requires
        a.denominator != 0,
        b.denominator != 0,
    ensures
        normalize_ok(raw_add(a, b)),
        normalize_ok(raw_sub(a, b)),
        normalize_ok(raw_mul(a, b)),
        normalize_ok(spec_normalized(raw_add(a, b))),
        normalize_ok(spec_normalized(raw_sub(a, b))),
        normalize_ok(spec_normalized(raw_mul(a, b))),
{
    assert(a.denominator as int * b.denominator as int != 0) by (nonlinear_arith)
        requires
            a.denominator != 0,
            b.denominator != 0,
    ;
    crate::fraction::lemma_normalized_ok(raw_add(a, b));
    crate::fraction::lemma_normalized_ok(raw_sub(a, b));
    crate::fraction::lemma_normalized_ok(raw_mul(a, b));
}

} // verus!
