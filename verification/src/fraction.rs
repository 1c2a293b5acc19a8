//! An exact fraction over the bounded signed `i32` domain.
//!
//! Every arithmetic step saturates at the domain bounds instead of
//! wrapping, and every operator normalizes its result: sign on the
//! numerator, denominator positive, both reduced by their greatest common
//! divisor.

use crate::arith::{
    abs_n, abs_u32, gcd, gcd_n, lemma_abs_divides, lemma_divisor_bounded, lemma_exact_div_signed,
    lemma_gcd_divides, sat_add, sat_mul, sat_sub, sat32,
};
use vstd::arithmetic::div_mod::{lemma_div_is_ordered_by_denominator, lemma_fundamental_div_mod};
use vstd::prelude::*;

verus! {

/// The bounded signed integer domain the fraction is built over.  The
/// scalar type is fixed at build time to `i32`; the trait records the
/// capabilities the domain provides.
pub trait Integer: Copy + SqrtOfMax {

}

/// The precomputed square-root guard of the domain: the value the
/// brute-force root search returns when its input equals the domain
/// maximum, where the search itself would overflow.
pub trait SqrtOfMax: Sized {
    fn sqrt_of_max() -> Self;
}

/// Square-root guard for the `i32` domain.
pub const SQRT_OF_MAX_I32: i32 = 32761;

impl SqrtOfMax for i32 {
    fn sqrt_of_max() -> (r: i32)
        ensures
            r == SQRT_OF_MAX_I32,
    {
        SQRT_OF_MAX_I32
    }
}

impl Integer for i32 {

}

/// An exact ratio of two domain values.  The denominator may transiently
/// be zero or negative; `normalized` restores the canonical form.
#[derive(Clone, Copy, Debug, PartialEq, Eq, Structural)]
pub struct Fraction {
    pub numerator: i32,
    pub denominator: i32,
}

impl Fraction {
    /// Builds the raw ratio without validation.
    pub fn new(numerator: i32, denominator: i32) -> (r: Self)
        ensures
            r.numerator == numerator,
            r.denominator == denominator,
    {
        Fraction { numerator, denominator }
    }

    /// The canonical zero, 0/1.
    pub fn zero() -> (r: Self)
        ensures
            r == spec_zero(),
    {
        Fraction { numerator: 0, denominator: 1 }
    }
}

/// The canonical zero, 0/1.
pub open spec fn spec_zero() -> Fraction {
    Fraction { numerator: 0, denominator: 1 }
}

/// Negation that clamps at the domain boundary: negating the minimum
/// yields the maximum (and symmetrically), never an out-of-domain value.
pub open spec fn spec_safe_neg(x: int) -> int {
    if x == i32::MIN as int {
        i32::MAX as int
    } else if x == i32::MAX as int {
        i32::MIN as int
    } else {
        -x
    }
}

/// Boundary-clamping negation of a domain value.
pub fn safe_neg(value: i32) -> (r: i32)
    ensures
        r as int == spec_safe_neg(value as int),
{
    if value == i32::MIN {
        i32::MAX
    } else if value == i32::MAX {
        i32::MIN
    } else {
        -value
    }
}

/// The inputs on which normalization is defined.  A fraction with a zero
/// denominator can still be normalized unless its numerator is zero (no
/// greatest common divisor exists) or the domain minimum (the divisor
/// would exceed the domain maximum).
pub open spec fn normalize_ok(f: Fraction) -> bool {
    f.denominator != 0 || (f.numerator != 0 && f.numerator != i32::MIN)
}

/// The canonical form of a fraction: sign moved to the numerator,
/// denominator non-negative, both reduced by their greatest common
/// divisor.
pub open spec fn spec_normalized(f: Fraction) -> Fraction {
    let n = if f.denominator < 0 {
        spec_safe_neg(f.numerator as int)
    } else {
        f.numerator as int
    };
    let d = if f.denominator < 0 {
        spec_safe_neg(f.denominator as int)
    } else {
        f.denominator as int
    };
    let g = gcd_n(abs_n(n), abs_n(d)) as int;
    if g != 1 {
        Fraction { numerator: (n / g) as i32, denominator: (d / g) as i32 }
    } else {
        Fraction { numerator: n as i32, denominator: d as i32 }
    }
}

/// The raw (pre-normalization) saturating sum of two fractions over the
/// common denominator.
pub open spec fn raw_add(a: Fraction, b: Fraction) -> Fraction {
    Fraction {
        numerator: sat32(
            sat32(a.numerator * b.denominator) + sat32(b.numerator * a.denominator),
        ) as i32,
        denominator: sat32(a.denominator * b.denominator) as i32,
    }
}

/// The raw saturating difference of two fractions.
pub open spec fn raw_sub(a: Fraction, b: Fraction) -> Fraction {
    Fraction {
        numerator: sat32(
            sat32(a.numerator * b.denominator) - sat32(b.numerator * a.denominator),
        ) as i32,
        denominator: sat32(a.denominator * b.denominator) as i32,
    }
}

/// The raw saturating product of two fractions.
pub open spec fn raw_mul(a: Fraction, b: Fraction) -> Fraction {
    Fraction {
        numerator: sat32(a.numerator * b.numerator) as i32,
        denominator: sat32(a.denominator * b.denominator) as i32,
    }
}

/// The raw saturating quotient of two fractions (multiplication by the
/// flipped divisor).
pub open spec fn raw_div(a: Fraction, b: Fraction) -> Fraction {
    Fraction {
        numerator: sat32(a.numerator * b.denominator) as i32,
        denominator: sat32(a.denominator * b.numerator) as i32,
    }
}

/// The raw saturating quotient of a fraction by a bare scalar.
pub open spec fn raw_div_scalar(a: Fraction, s: i32) -> Fraction {
    Fraction { numerator: a.numerator, denominator: sat32(a.denominator * s) as i32 }
}

/// What the fraction sum returns: the saturated raw sum, normalized.
pub open spec fn spec_add(a: Fraction, b: Fraction) -> Fraction {
    spec_normalized(raw_add(a, b))
}

/// What the fraction difference returns.
pub open spec fn spec_sub(a: Fraction, b: Fraction) -> Fraction {
    spec_normalized(raw_sub(a, b))
}

/// What the fraction product returns.
pub open spec fn spec_mul(a: Fraction, b: Fraction) -> Fraction {
    spec_normalized(raw_mul(a, b))
}

/// What the fraction quotient returns.
pub open spec fn spec_div(a: Fraction, b: Fraction) -> Fraction {
    spec_normalized(raw_div(a, b))
}

/// What division by a bare scalar returns.
pub open spec fn spec_div_scalar(a: Fraction, s: i32) -> Fraction {
    spec_normalized(raw_div_scalar(a, s))
}

/// What addition of a bare scalar returns: the scalar is lifted to a
/// fraction, added, and the result normalized once more.
pub open spec fn spec_add_scalar(a: Fraction, s: i32) -> Fraction {
    spec_normalized(spec_add(a, Fraction { numerator: s, denominator: 1 }))
}

/// A well-formed fraction: its denominator is positive, so it denotes a
/// rational number.  Constants and every value the simulator computes are
/// well-formed.
pub open spec fn wf(f: Fraction) -> bool {
    f.denominator >= 1
}

/// The fraction is less than the other under the saturating
/// cross-multiplication ordering.
pub open spec fn spec_lt(a: Fraction, b: Fraction) -> bool {
    spec_cmp(a, b) == core::cmp::Ordering::Less
}

/// The fraction is greater than the other under the saturating
/// cross-multiplication ordering.
pub open spec fn spec_gt(a: Fraction, b: Fraction) -> bool {
    spec_cmp(a, b) == core::cmp::Ordering::Greater
}

/// The fraction is less than or equal to the other under the saturating
/// cross-multiplication ordering.
pub open spec fn spec_le(a: Fraction, b: Fraction) -> bool {
    spec_cmp(a, b) != core::cmp::Ordering::Greater
}

/// What the two-place maximum returns: the second argument unless the
/// first compares strictly greater.
pub open spec fn spec_max(a: Fraction, b: Fraction) -> Fraction {
    if spec_cmp(a, b) == core::cmp::Ordering::Greater {
        a
    } else {
        b
    }
}

/// Normalizing a well-formed fraction yields a well-formed fraction, and
/// the numerator keeps its sign exactly: the result denotes the same
/// rational number, stated by cross-multiplication.
pub proof fn lemma_normalized_wf(f: Fraction)
    requires
        wf(f),
    ensures
        wf(spec_normalized(f)),
        spec_normalized(f).numerator as int * f.denominator as int == f.numerator as int
            * spec_normalized(f).denominator as int,
        spec_normalized(f).numerator > 0 <==> f.numerator > 0,
        spec_normalized(f).numerator == 0 <==> f.numerator == 0,
{
    let n = f.numerator as int;
    let d = f.denominator as int;
    let g = gcd_n(abs_n(n), abs_n(d)) as int;
    lemma_gcd_divides(abs_n(n), abs_n(d));
    if g != 1 {
        lemma_abs_divides(n, g);
        lemma_abs_divides(d, g);
        lemma_exact_div_signed(n, g);
        lemma_exact_div_signed(d, g);
        assert(d / g >= 1 && (n / g) * d == n * (d / g) && (n / g > 0 <==> n > 0) && (n / g == 0
            <==> n == 0)) by (nonlinear_arith)
            requires
                g >= 1,
                d >= 1,
                n == g * (n / g),
                d == g * (d / g),
        ;
    }
}

/// A saturating sum of well-formed fractions is defined and well-formed.
pub proof fn lemma_wf_add(a: Fraction, b: Fraction)
    requires
        wf(a),
        wf(b),
    ensures
        normalize_ok(raw_add(a, b)),
        wf(spec_add(a, b)),
{
    assert(a.denominator as int * b.denominator as int >= 1) by (nonlinear_arith)
        requires
            a.denominator >= 1,
            b.denominator >= 1,
    ;
    lemma_normalized_wf(raw_add(a, b));
}

/// A saturating difference of well-formed fractions is defined and
/// well-formed.
pub proof fn lemma_wf_sub(a: Fraction, b: Fraction)
    requires
        wf(a),
        wf(b),
    ensures
        normalize_ok(raw_sub(a, b)),
        wf(spec_sub(a, b)),
{
    assert(a.denominator as int * b.denominator as int >= 1) by (nonlinear_arith)
        requires
            a.denominator >= 1,
            b.denominator >= 1,
    ;
    lemma_normalized_wf(raw_sub(a, b));
}

/// A saturating product of well-formed fractions is defined and
/// well-formed.
pub proof fn lemma_wf_mul(a: Fraction, b: Fraction)
    requires
        wf(a),
        wf(b),
    ensures
        normalize_ok(raw_mul(a, b)),
        wf(spec_mul(a, b)),
        a.numerator >= 0 && b.numerator >= 0 ==> spec_mul(a, b).numerator >= 0,
        a.numerator == 0 ==> spec_mul(a, b).numerator == 0,
        b.numerator == 0 ==> spec_mul(a, b).numerator == 0,
{
    assert(a.denominator as int * b.denominator as int >= 1) by (nonlinear_arith)
        requires
            a.denominator >= 1,
            b.denominator >= 1,
    ;
    assert(a.numerator >= 0 && b.numerator >= 0 ==> a.numerator as int * b.numerator as int >= 0)
        by (nonlinear_arith);
    assert(a.numerator == 0 ==> a.numerator as int * b.numerator as int == 0) by (nonlinear_arith);
    assert(b.numerator == 0 ==> a.numerator as int * b.numerator as int == 0) by (nonlinear_arith);
    lemma_normalized_wf(raw_mul(a, b));
}

/// A quotient of well-formed fractions by a divisor with positive
/// numerator is defined and well-formed.
pub proof fn lemma_wf_div(a: Fraction, b: Fraction)
    requires
        wf(a),
        wf(b),
        b.numerator >= 1,
    ensures
        normalize_ok(raw_div(a, b)),
        wf(spec_div(a, b)),
        a.numerator >= 0 ==> spec_div(a, b).numerator >= 0,
        a.numerator == 0 ==> spec_div(a, b).numerator == 0,
{
    assert(a.denominator as int * b.numerator as int >= 1) by (nonlinear_arith)
        requires
            a.denominator >= 1,
            b.numerator >= 1,
    ;
    assert(a.numerator >= 0 ==> a.numerator as int * b.denominator as int >= 0)
        by (nonlinear_arith)
        requires
            b.denominator >= 1,
    ;
    assert(a.numerator == 0 ==> a.numerator as int * b.denominator as int == 0)
        by (nonlinear_arith);
    lemma_normalized_wf(raw_div(a, b));
}

/// A quotient of a well-formed fraction by a positive scalar is defined
/// and well-formed.
pub proof fn lemma_wf_div_scalar(a: Fraction, s: i32)
    requires
        wf(a),
        s >= 1,
    ensures
        normalize_ok(raw_div_scalar(a, s)),
        wf(spec_div_scalar(a, s)),
        a.numerator >= 0 ==> spec_div_scalar(a, s).numerator >= 0,
        a.numerator == 0 ==> spec_div_scalar(a, s).numerator == 0,
{
    assert(a.denominator as int * s as int >= 1) by (nonlinear_arith)
        requires
            a.denominator >= 1,
            s >= 1,
    ;
    lemma_normalized_wf(raw_div_scalar(a, s));
}

/// The componentwise square root of a well-formed fraction is
/// well-formed.
pub proof fn lemma_wf_sqrt(f: Fraction)
    requires
        wf(f),
    ensures
        wf(spec_sqrt(f)),
{
    if f.numerator != 0 && f.denominator != i32::MAX {
        lemma_floor_sqrt(f.denominator as int);
        assert(1 <= floor_sqrt(f.denominator as int) <= f.denominator as int)
            by (nonlinear_arith)
            requires
                is_floor_sqrt(f.denominator as int, floor_sqrt(f.denominator as int)),
                f.denominator >= 1,
        ;
    }
}

/// Normalizing a zero-numerator fraction with a positive denominator
/// yields the canonical zero.
pub proof fn lemma_normalized_zero(f: Fraction)
    requires
        f.numerator == 0,
        wf(f),
    ensures
        spec_normalized(f) == spec_zero(),
{
    let d = f.denominator as int;
    let dd = abs_n(d);
    assert(abs_n(0) == 0nat);
    assert(0nat % dd == 0nat) by {
        lemma_mod_of_zero(dd as int);
    }
    assert(gcd_n(dd, 0) == dd);
    assert(gcd_n(0, dd) == gcd_n(dd, 0nat % dd));
    if d != 1 {
        lemma_div_by_self_pos(d);
        lemma_zero_div(d);
    }
}

/// Zero modulo any positive value is zero.
proof fn lemma_mod_of_zero(m: int)
    requires
        m >= 1,
    ensures
        0int % m == 0,
{
}

/// A positive value divided by itself is one.
proof fn lemma_div_by_self_pos(d: int)
    requires
        d >= 1,
    ensures
        d / d == 1,
{
    vstd::arithmetic::div_mod::lemma_div_by_self(d);
}

/// Zero divided by a positive value is zero.
proof fn lemma_zero_div(d: int)
    requires
        d >= 1,
    ensures
        0int / d == 0,
{
    vstd::arithmetic::div_mod::lemma_div_of0(d);
}

/// Comparison against the canonical zero reads the sign of the
/// numerator.
pub proof fn lemma_cmp_zero(f: Fraction)
    ensures
        spec_gt(f, spec_zero()) <==> f.numerator >= 1,
        spec_le(f, spec_zero()) <==> f.numerator <= 0,
        spec_lt(spec_zero(), f) <==> f.numerator >= 1,
{
    assert(f.numerator as int * 1 == f.numerator as int);
    assert(0int * f.denominator as int == 0) by (nonlinear_arith);
    assert(1int * f.denominator as int == f.denominator as int) by (nonlinear_arith);
}

/// The greatest common divisor with one is one.
pub proof fn lemma_gcd_with_one(a: nat)
    ensures
        gcd_n(a, 1) == 1,
{
    assert(a % 1 == 0) by {
        lemma_fundamental_div_mod(a as int, 1);
    }
    assert(gcd_n(a, 1) == gcd_n(1, a % 1));
    assert(gcd_n(1nat, 0nat) == 1);
}

/// Adding the unit step to a whole number of steps advances the count by
/// exactly one, with no reduction.
pub proof fn lemma_unit_step_add(t: i32)
    requires
        0 <= t < i32::MAX,
    ensures
        spec_add(
            Fraction { numerator: t, denominator: 1 },
            Fraction { numerator: 1, denominator: 1 },
        ).numerator == t + 1,
        spec_add(
            Fraction { numerator: t, denominator: 1 },
            Fraction { numerator: 1, denominator: 1 },
        ).denominator == 1,
{
    let a = Fraction { numerator: t, denominator: 1 };
    let b = Fraction { numerator: 1, denominator: 1 };
    assert(raw_add(a, b) == (Fraction { numerator: (t + 1) as i32, denominator: 1 }));
    lemma_gcd_with_one(abs_n(t + 1));
}

/// A whole number of steps below the requested range has not yet reached
/// the domain maximum, when the range is well-formed.
pub proof fn lemma_step_count_bounded(t: i32, range: Fraction)
    requires
        wf(range),
        0 <= t,
        spec_lt(Fraction { numerator: t, denominator: 1 }, range),
    ensures
        t < i32::MAX,
{
    if t == i32::MAX {
        assert(t as int * range.denominator as int >= t as int) by (nonlinear_arith)
            requires
                range.denominator >= 1,
                t >= 0,
        ;
        assert(range.numerator as int * 1 == range.numerator as int);
        assert(sat32(t as int * range.denominator as int) == i32::MAX as int);
    }
}

/// Adding a zero-numerator well-formed fraction to the canonical zero
/// leaves the canonical zero.
pub proof fn lemma_zero_add(inc: Fraction)
    requires
        wf(inc),
        inc.numerator == 0,
    ensures
        spec_add(spec_zero(), inc) == spec_zero(),
{
    assert(0int * inc.denominator as int == 0) by (nonlinear_arith);
    assert(raw_add(spec_zero(), inc) == (Fraction { numerator: 0, denominator: inc.denominator }));
    lemma_normalized_zero(Fraction { numerator: 0, denominator: inc.denominator });
}

impl Fraction {
    /// The greater of two fractions under the cross-multiplication
    /// ordering; the second where they compare equal.
    pub fn max(self, other: Self) -> (r: Self)
        ensures
            r == spec_max(self, other),
    {
        let lhs = sat_mul(self.numerator, other.denominator);
        let rhs = sat_mul(other.numerator, self.denominator);
        if lhs > rhs {
            self
        } else {
            other
        }
    }
}

/// Normalization never produces a value it could not itself normalize
/// again: a zero denominator in the output keeps a unit numerator.
pub proof fn lemma_normalized_ok(f: Fraction)
    requires
        normalize_ok(f),
    ensures
        normalize_ok(spec_normalized(f)),
{
    let n = if f.denominator < 0 {
        spec_safe_neg(f.numerator as int)
    } else {
        f.numerator as int
    };
    let d = if f.denominator < 0 {
        spec_safe_neg(f.denominator as int)
    } else {
        f.denominator as int
    };
    let g = gcd_n(abs_n(n), abs_n(d)) as int;
    lemma_gcd_divides(abs_n(n), abs_n(d));
    if d == 0 && g != 1 {
        assert(g == abs_n(n));
        lemma_abs_divides(n, g);
        lemma_exact_div_signed(n, g);
        assert(n / g == 1 || n / g == -1) by (nonlinear_arith)
            requires
                g >= 1,
                n == g * (n / g),
                abs_n(n) == g as nat,
        ;
        assert(d / g == 0);
    } else if d != 0 && g != 1 {
        lemma_abs_divides(d, g);
        lemma_exact_div_signed(d, g);
        assert(d / g >= 1) by (nonlinear_arith)
            requires
                g >= 1,
                d >= 1,
                d == g * (d / g),
        ;
    }
}

impl Fraction {
    /// Canonical form: sign on the numerator, denominator positive, both
    /// divided by their greatest common divisor.
    pub fn normalized(&self) -> (r: Self)
        requires
            normalize_ok(*self),
        ensures
            r == spec_normalized(*self),
    {
        let mut num = self.numerator;
        let mut den = self.denominator;

        // Move sign to the numerator, denominator always positive
        if den < 0 {
            num = safe_neg(num);
            den = safe_neg(den);
        }

        let ghost n = num as int;
        let ghost d = den as int;
        proof {
            if d >= 1 {
                lemma_gcd_divides(abs_n(n), abs_n(d));
                lemma_divisor_bounded(d, gcd_n(abs_n(n), abs_n(d)) as int);
            }
        }
        let divisor = gcd(num, den);

        if divisor != 1 {
            proof {
                let g = divisor as int;
                lemma_gcd_divides(abs_n(n), abs_n(d));
                lemma_abs_divides(n, g);
                lemma_abs_divides(d, g);
                lemma_exact_div_signed(n, g);
                lemma_exact_div_signed(d, g);
                assert(abs_n(n / g) <= abs_n(n)) by (nonlinear_arith)
                    requires
                        g >= 1,
                        n == g * (n / g),
                ;
                assert(abs_n(d / g) <= abs_n(d)) by (nonlinear_arith)
                    requires
                        g >= 1,
                        d == g * (d / g),
                ;
            }
            Fraction { numerator: num / divisor, denominator: den / divisor }
        } else {
            Fraction { numerator: num, denominator: den }
        }
    }
}

impl core::ops::Add for Fraction {
    type Output = Fraction;

    /// Saturating fraction sum, normalized.
    fn add(self, rhs: Fraction) -> (r: Fraction) {
        let lhs_num = sat_mul(self.numerator, rhs.denominator);
        let rhs_num = sat_mul(rhs.numerator, self.denominator);
        let new_num = sat_add(lhs_num, rhs_num);
        let new_den = sat_mul(self.denominator, rhs.denominator);

        Fraction { numerator: new_num, denominator: new_den }.normalized()
    }
}

impl vstd::std_specs::ops::AddSpecImpl for Fraction {
    open spec fn obeys_add_spec() -> bool {
        true
    }

    open spec fn add_req(self, rhs: Fraction) -> bool {
        normalize_ok(raw_add(self, rhs))
    }

    open spec fn add_spec(self, rhs: Fraction) -> Fraction {
        spec_add(self, rhs)
    }
}

impl core::ops::Add<i32> for Fraction {
    type Output = Fraction;

    /// Sum with a bare scalar of the domain: the scalar is lifted to a
    /// fraction and the result normalized once more.
    fn add(self, rhs: i32) -> (r: Fraction) {
        let rhs_frac = Fraction { numerator: rhs, denominator: 1 };
        proof {
            lemma_normalized_ok(raw_add(self, rhs_frac));
        }
        (self + rhs_frac).normalized()
    }
}

impl vstd::std_specs::ops::AddSpecImpl<i32> for Fraction {
    open spec fn obeys_add_spec() -> bool {
        true
    }

    open spec fn add_req(self, rhs: i32) -> bool {
        normalize_ok(raw_add(self, Fraction { numerator: rhs, denominator: 1 }))
    }

    open spec fn add_spec(self, rhs: i32) -> Fraction {
        spec_add_scalar(self, rhs)
    }
}

impl core::ops::Sub<i32> for Fraction {
    type Output = Fraction;

    /// Difference with a bare scalar of the domain: the scalar is
    /// lifted to a fraction over one.
    fn sub(self, rhs: i32) -> (r: Fraction) {
        let rhs_frac = Fraction { numerator: rhs, denominator: 1 };
        self - rhs_frac
    }
}

impl vstd::std_specs::ops::SubSpecImpl<i32> for Fraction {
    open spec fn obeys_sub_spec() -> bool {
        true
    }

    open spec fn sub_req(self, rhs: i32) -> bool {
        normalize_ok(raw_sub(self, Fraction { numerator: rhs, denominator: 1 }))
    }

    open spec fn sub_spec(self, rhs: i32) -> Fraction {
        spec_sub(self, Fraction { numerator: rhs, denominator: 1 })
    }
}

impl core::ops::Mul<i32> for Fraction {
    type Output = Fraction;

    /// Product with a bare scalar of the domain: the scalar is lifted
    /// to a fraction over one.
    fn mul(self, rhs: i32) -> (r: Fraction) {
        let rhs_frac = Fraction { numerator: rhs, denominator: 1 };
        self * rhs_frac
    }
}

impl vstd::std_specs::ops::MulSpecImpl<i32> for Fraction {
    open spec fn obeys_mul_spec() -> bool {
        true
    }

    open spec fn mul_req(self, rhs: i32) -> bool {
        normalize_ok(raw_mul(self, Fraction { numerator: rhs, denominator: 1 }))
    }

    open spec fn mul_spec(self, rhs: i32) -> Fraction {
        spec_mul(self, Fraction { numerator: rhs, denominator: 1 })
    }
}

impl core::ops::Sub for Fraction {
    type Output = Fraction;

    /// Saturating fraction difference, normalized.
    fn sub(self, rhs: Fraction) -> (r: Fraction) {
        let lhs_num = sat_mul(self.numerator, rhs.denominator);
        let rhs_num = sat_mul(rhs.numerator, self.denominator);
        let new_num = sat_sub(lhs_num, rhs_num);
        let new_den = sat_mul(self.denominator, rhs.denominator);

        Fraction { numerator: new_num, denominator: new_den }.normalized()
    }
}

impl vstd::std_specs::ops::SubSpecImpl for Fraction {
    open spec fn obeys_sub_spec() -> bool {
        true
    }

    open spec fn sub_req(self, rhs: Fraction) -> bool {
        normalize_ok(raw_sub(self, rhs))
    }

    open spec fn sub_spec(self, rhs: Fraction) -> Fraction {
        spec_sub(self, rhs)
    }
}

impl core::ops::Mul for Fraction {
    type Output = Fraction;

    /// Saturating fraction product, normalized.
    fn mul(self, rhs: Fraction) -> (r: Fraction) {
        Fraction {
            numerator: sat_mul(self.numerator, rhs.numerator),
            denominator: sat_mul(self.denominator, rhs.denominator),
        }.normalized()
    }
}

impl vstd::std_specs::ops::MulSpecImpl for Fraction {
    open spec fn obeys_mul_spec() -> bool {
        true
    }

    open spec fn mul_req(self, rhs: Fraction) -> bool {
        normalize_ok(raw_mul(self, rhs))
    }

    open spec fn mul_spec(self, rhs: Fraction) -> Fraction {
        spec_mul(self, rhs)
    }
}

impl core::ops::Div for Fraction {
    type Output = Fraction;

    /// Fraction quotient.  A divisor whose numerator is zero or negative
    /// is a broken constant, not a transient condition: such a call is a
    /// fatal contract violation.
    fn div(self, rhs: Fraction) -> (r: Fraction) {
        if rhs.numerator <= 0 {
            // Cannot divide by zero.
            vstd::pervasive::unreached()
        } else {
            Fraction {
                numerator: sat_mul(self.numerator, rhs.denominator),
                denominator: sat_mul(self.denominator, rhs.numerator),
            }.normalized()
        }
    }
}

impl vstd::std_specs::ops::DivSpecImpl for Fraction {
    open spec fn obeys_div_spec() -> bool {
        true
    }

    open spec fn div_req(self, rhs: Fraction) -> bool {
        rhs.numerator > 0 && normalize_ok(raw_div(self, rhs))
    }

    open spec fn div_spec(self, rhs: Fraction) -> Fraction {
        spec_div(self, rhs)
    }
}

impl core::ops::Div<i32> for Fraction {
    type Output = Fraction;

    /// Quotient by a bare scalar: scales the denominator, saturating, and
    /// normalizes.
    fn div(self, rhs: i32) -> (r: Fraction) {
        Fraction {
            numerator: self.numerator,
            denominator: sat_mul(self.denominator, rhs),
        }.normalized()
    }
}

impl vstd::std_specs::ops::DivSpecImpl<i32> for Fraction {
    open spec fn obeys_div_spec() -> bool {
        true
    }

    open spec fn div_req(self, rhs: i32) -> bool {
        normalize_ok(raw_div_scalar(self, rhs))
    }

    open spec fn div_spec(self, rhs: i32) -> Fraction {
        spec_div_scalar(self, rhs)
    }
}

impl core::ops::Neg for Fraction {
    type Output = Fraction;

    /// Plain negation of the numerator; the domain minimum, whose
    /// negation does not exist in the domain, is outside the contract.
    fn neg(self) -> (r: Fraction) {
        Fraction { numerator: -self.numerator, denominator: self.denominator }
    }
}

impl vstd::std_specs::ops::NegSpecImpl for Fraction {
    open spec fn obeys_neg_spec() -> bool {
        true
    }

    open spec fn neg_req(self) -> bool {
        self.numerator != i32::MIN
    }

    open spec fn neg_spec(self) -> Fraction {
        Fraction { numerator: (-(self.numerator as int)) as i32, denominator: self.denominator }
    }
}

impl From<i32> for Fraction {
    /// Lifts a bare domain value to the fraction over denominator one.
    fn from(value: i32) -> (r: Fraction) {
        Fraction { numerator: value, denominator: 1 }
    }
}

impl vstd::std_specs::convert::FromSpecImpl<i32> for Fraction {
    open spec fn obeys_from_spec() -> bool {
        true
    }

    open spec fn from_spec(value: i32) -> Fraction {
        Fraction { numerator: value, denominator: 1 }
    }
}

/// The truncating integer quotient of the numerator by the denominator:
/// magnitude quotient, re-signed.
pub open spec fn spec_value(f: Fraction) -> int {
    let q = abs_n(f.numerator as int) as int / abs_n(f.denominator as int) as int;
    if (f.numerator < 0) != (f.denominator < 0) {
        -q
    } else {
        q
    }
}

/// The numerator and denominator forced to their non-negative
/// magnitudes, the domain minimum clamping to the maximum.
pub open spec fn spec_abs(f: Fraction) -> Fraction {
    Fraction {
        numerator: if f.numerator < 0 {
            spec_safe_neg(f.numerator as int) as i32
        } else {
            f.numerator
        },
        denominator: if f.denominator < 0 {
            spec_safe_neg(f.denominator as int) as i32
        } else {
            f.denominator
        },
    }
}

/// `r` is the floor of the square root of `v`.
pub open spec fn is_floor_sqrt(v: int, r: int) -> bool {
    0 <= r && r * r <= v && v < (r + 1) * (r + 1)
}

/// The floor of the square root of a non-negative integer.
pub open spec fn floor_sqrt(v: int) -> int {
    choose|r: int| is_floor_sqrt(v, r)
}

/// Every non-negative integer has a floor square root, and it is unique.
pub proof fn lemma_floor_sqrt(v: int)
    requires
        v >= 0,
    ensures
        is_floor_sqrt(v, floor_sqrt(v)),
    decreases v,
{
    if v == 0 {
        assert(is_floor_sqrt(0, 0)) by (nonlinear_arith);
    } else {
        lemma_floor_sqrt(v - 1);
        let r = floor_sqrt(v - 1);
        if (r + 1) * (r + 1) <= v {
            assert(is_floor_sqrt(v, r + 1)) by (nonlinear_arith)
                requires
                    is_floor_sqrt(v - 1, r),
                    (r + 1) * (r + 1) <= v,
            ;
        } else {
            assert(is_floor_sqrt(v, r));
        }
    }
}

/// The floor square root is pinned down by its characterization.
pub proof fn lemma_floor_sqrt_unique(v: int, r: int)
    requires
        is_floor_sqrt(v, r),
    ensures
        r == floor_sqrt(v),
{
    let s = floor_sqrt(v);
    assert(is_floor_sqrt(v, s)) by {
        lemma_floor_sqrt(v);
    }
    assert(r == s) by (nonlinear_arith)
        requires
            is_floor_sqrt(v, r),
            is_floor_sqrt(v, s),
    ;
}

/// What the brute-force square-root search returns: the floor square
/// root; the guard constant at the domain maximum, where the search
/// would overflow; and minus one on negative input, where the search
/// never starts.
pub open spec fn spec_slow_sqrt(v: int) -> int {
    if v == i32::MAX as int {
        SQRT_OF_MAX_I32 as int
    } else if v < 0 {
        -1
    } else {
        floor_sqrt(v)
    }
}

/// Brute-force floor square root: searches upward while the candidate's
/// square still fits under the input.
pub fn slow_sqrt(value: i32) -> (r: i32)
    ensures
        r as int == spec_slow_sqrt(value as int),
{
    if value == i32::MAX {
        return <i32 as SqrtOfMax>::sqrt_of_max();
    }
    let mut x: i32 = 0;
    let mut square: i32 = sat_mul(x, x);
    while square <= value
        invariant
            value < i32::MAX,
            0 <= x <= 46341,
            square as int == sat32(x as int * x as int),
            x > 0 ==> (x - 1) * (x - 1) <= value,
        decreases value + 2 - x,
    {
        proof {
            assert((x as int * x as int) < i32::MAX) by (nonlinear_arith)
                requires
                    0 <= x,
                    sat32(x as int * x as int) <= value < (i32::MAX as int),
            ;
            assert(x <= 46340) by (nonlinear_arith)
                requires
                    0 <= x,
                    (x as int * x as int) < i32::MAX,
            ;
            assert(x + 1 <= value + 1) by (nonlinear_arith)
                requires
                    0 <= x,
                    x as int * x as int <= value,
            ;
        }
        x = x + 1;
        square = sat_mul(x, x);
    }
    proof {
        if x == 0 {
            assert(value < 0);
        } else {
            assert(x as int * x as int >= sat32(x as int * x as int) > value) by (nonlinear_arith)
                requires
                    0 <= x,
                    sat32(x as int * x as int) > value,
            ;
            assert(is_floor_sqrt(value as int, x - 1));
            lemma_floor_sqrt_unique(value as int, x - 1);
        }
    }
    x - 1
}

impl Fraction {
    /// The fraction flipped.  A zero or negative numerator is a broken
    /// constant at every call site, not a transient condition: such a
    /// call is a fatal contract violation.
    pub fn reciprocal(&self) -> (r: Self)
        requires
            self.numerator > 0,
        ensures
            r.numerator == self.denominator,
            r.denominator == self.numerator,
    {
        if self.numerator <= 0 {
            // Cannot take reciprocal of zero.
            vstd::pervasive::unreached()
        } else {
            Fraction { numerator: self.denominator, denominator: self.numerator }
        }
    }

    /// Numerator and denominator forced non-negative by the
    /// boundary-clamping negation.
    pub fn abs(self) -> (r: Self)
        ensures
            r == spec_abs(self),
    {
        let mut num = self.numerator;
        let mut den = self.denominator;

        if num < 0 {
            num = safe_neg(num);
        }
        if den < 0 {
            den = safe_neg(den);
        }

        Fraction { numerator: num, denominator: den }
    }

    /// The truncating integer quotient of numerator over denominator.
    /// The quotient of the domain minimum by minus one, which has no
    /// representable value, is outside the contract.
    pub fn value(&self) -> (r: i32)
        requires
            self.denominator != 0,
            !(self.numerator == i32::MIN && self.denominator == -1),
        ensures
            r as int == spec_value(*self),
    {
        let num_mag = abs_u32(self.numerator);
        let den_mag = abs_u32(self.denominator);
        let q: u32 = num_mag / den_mag;
        if (self.numerator < 0) != (self.denominator < 0) {
            if q == 2147483648u32 {
                proof {
                    lemma_fundamental_div_mod(num_mag as int, den_mag as int);
                    assert(den_mag == 1) by (nonlinear_arith)
                        requires
                            num_mag as int == den_mag as int * (num_mag as int / den_mag as int)
                                + num_mag as int % den_mag as int,
                            num_mag as int / den_mag as int == 2147483648,
                            0 <= num_mag as int % den_mag as int,
                            1 <= den_mag <= 2147483648,
                            num_mag <= 2147483648,
                    ;
                }
                i32::MIN
            } else {
                -(q as i32)
            }
        } else {
            proof {
                if self.numerator == i32::MIN {
                    assert(den_mag >= 2);
                    lemma_div_is_ordered_by_denominator(num_mag as int, 2, den_mag as int);
                }
            }
            q as i32
        }
    }

    /// Componentwise approximate square root: the floor-root search is
    /// applied to the numerator and the denominator independently, which
    /// is exact only when both are perfect squares.
    pub fn sqrt(&self) -> (r: Self)
        ensures
            r == spec_sqrt(*self),
    {
        if self.numerator == 0 {
            return Fraction::zero();
        }

        Fraction {
            denominator: slow_sqrt(self.denominator),
            numerator: slow_sqrt(self.numerator),
        }
    }
}

/// What the componentwise square root returns.
pub open spec fn spec_sqrt(f: Fraction) -> Fraction {
    if f.numerator == 0 {
        spec_zero()
    } else {
        Fraction {
            numerator: spec_slow_sqrt(f.numerator as int) as i32,
            denominator: spec_slow_sqrt(f.denominator as int) as i32,
        }
    }
}

/// What a comparison of two fractions returns: the saturating
/// cross-multiplied numerators are ordered as plain scalars.
pub open spec fn spec_cmp(a: Fraction, b: Fraction) -> core::cmp::Ordering {
    let lhs = sat32(a.numerator * b.denominator);
    let rhs = sat32(b.numerator * a.denominator);
    if lhs < rhs {
        core::cmp::Ordering::Less
    } else if lhs > rhs {
        core::cmp::Ordering::Greater
    } else {
        core::cmp::Ordering::Equal
    }
}

impl PartialOrd for Fraction {
    /// Cross-multiplication ordering, with saturating products so that
    /// the comparison itself cannot overflow.
    fn partial_cmp(&self, other: &Self) -> (r: Option<core::cmp::Ordering>) {
        let lhs = sat_mul(self.numerator, other.denominator);
        let rhs = sat_mul(other.numerator, self.denominator);
        if lhs < rhs {
            Some(core::cmp::Ordering::Less)
        } else if lhs > rhs {
            Some(core::cmp::Ordering::Greater)
        } else {
            Some(core::cmp::Ordering::Equal)
        }
    }
}

impl vstd::std_specs::cmp::PartialOrdSpecImpl for Fraction {
    open spec fn obeys_partial_cmp_spec() -> bool {
        true
    }

    open spec fn partial_cmp_spec(&self, other: &Fraction) -> Option<core::cmp::Ordering> {
        Some(spec_cmp(*self, *other))
    }
}

impl Fraction {
    /// Total cross-multiplication ordering: the same ordering that
    /// `partial_cmp` yields, which is total on fractions.
    pub fn cmp(&self, other: &Self) -> (r: core::cmp::Ordering)
        ensures
            r == spec_cmp(*self, *other),
    {
        let lhs = sat_mul(self.numerator, other.denominator);
        let rhs = sat_mul(other.numerator, self.denominator);
        if lhs < rhs {
            core::cmp::Ordering::Less
        } else if lhs > rhs {
            core::cmp::Ordering::Greater
        } else {
            core::cmp::Ordering::Equal
        }
    }
}

} // verus!
