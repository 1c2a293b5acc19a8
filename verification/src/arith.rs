//! Saturating scalar arithmetic on the `i32` domain, and the Euclidean
//! greatest common divisor with the divisibility lemmas the rational type
//! needs for its normalization proofs.

use vstd::arithmetic::div_mod::{
    lemma_add_mod_noop, lemma_div_multiples_vanish, lemma_fundamental_div_mod,
    lemma_mod_multiples_basic, lemma_mod_self_0, lemma_mul_mod_noop_right, lemma_small_mod,
    lemma_sub_mod_noop,
};
use vstd::arithmetic::mul::lemma_mul_is_commutative;
use vstd::prelude::*;

verus! {

/// Magnitude of an integer, as a natural number.
pub open spec fn abs_n(x: int) -> nat {
    if x < 0 {
        (-x) as nat
    } else {
        x as nat
    }
}

/// Clamp an unbounded integer to the representable `i32` range.
pub open spec fn sat32(x: int) -> int {
    if x > i32::MAX as int {
        i32::MAX as int
    } else if x < i32::MIN as int {
        i32::MIN as int
    } else {
        x
    }
}

/// Saturating product: clamps to the domain bounds instead of wrapping.
pub fn sat_mul(a: i32, b: i32) -> (r: i32)
    ensures
        r as int == sat32(a as int * b as int),
{
    proof {
        assert((i32::MIN as int) * (i32::MAX as int) <= a as int * b as int <= (i32::MIN as int)
            * (i32::MIN as int)) by (nonlinear_arith)
            requires
                i32::MIN as int <= a as int <= i32::MAX as int,
                i32::MIN as int <= b as int <= i32::MAX as int,
        ;
    }
    let wide: i64 = (a as i64) * (b as i64);
    if wide > i32::MAX as i64 {
        i32::MAX
    } else if wide < i32::MIN as i64 {
        i32::MIN
    } else {
        wide as i32
    }
}

/// Saturating sum.
pub fn sat_add(a: i32, b: i32) -> (r: i32)
    ensures
        r as int == sat32(a as int + b as int),
{
    let wide: i64 = (a as i64) + (b as i64);
    if wide > i32::MAX as i64 {
        i32::MAX
    } else if wide < i32::MIN as i64 {
        i32::MIN
    } else {
        wide as i32
    }
}

/// Saturating difference.
pub fn sat_sub(a: i32, b: i32) -> (r: i32)
    ensures
        r as int == sat32(a as int - b as int),
{
    let wide: i64 = (a as i64) - (b as i64);
    if wide > i32::MAX as i64 {
        i32::MAX
    } else if wide < i32::MIN as i64 {
        i32::MIN
    } else {
        wide as i32
    }
}

/// Greatest common divisor by the Euclidean algorithm, on magnitudes.
pub open spec fn gcd_n(a: nat, b: nat) -> nat
    decreases b,
{
    if b == 0 {
        a
    } else {
        gcd_n(b, a % b)
    }
}

/// `gcd_n(a, b)` divides both arguments (whenever it is nonzero).
pub proof fn lemma_gcd_divides(a: nat, b: nat)
    requires
        !(a == 0 && b == 0),
    ensures
        gcd_n(a, b) > 0,
        a % gcd_n(a, b) == 0,
        b % gcd_n(a, b) == 0,
    decreases b,
{
    let g = gcd_n(a, b);
    if b == 0 {
        lemma_mod_self_0(a as int);
    } else {
        let q = a / b;
        let r = a % b;
        lemma_gcd_divides(b, r);
        lemma_fundamental_div_mod(a as int, b as int);
        assert((b * q) % g == 0) by {
            lemma_mul_mod_noop_right(q as int, b as int, g as int);
            lemma_mul_is_commutative(q as int, b as int);
        }
        assert(a % g == 0) by {
            lemma_add_mod_noop((b * q) as int, r as int, g as int);
            lemma_mod_self_0(g as int);
        }
    }
}

/// Every common divisor of the arguments divides `gcd_n(a, b)`.
pub proof fn lemma_gcd_greatest(a: nat, b: nat, d: nat)
    requires
        d > 0,
        a % d == 0,
        b % d == 0,
    ensures
        gcd_n(a, b) % d == 0,
    decreases b,
{
    if b == 0 {
    } else {
        let q = a / b;
        let r = a % b;
        lemma_fundamental_div_mod(a as int, b as int);
        assert((b * q) % d == 0) by {
            lemma_mul_mod_noop_right(q as int, b as int, d as int);
            lemma_mul_is_commutative(q as int, b as int);
        }
        assert(r % d == 0) by {
            lemma_sub_mod_noop(a as int, (b * q) as int, d as int);
        }
        lemma_gcd_greatest(b, r, d);
    }
}

/// Dividing both arguments by their greatest common divisor leaves a
/// coprime pair.
pub proof fn lemma_gcd_coprime(a: nat, b: nat)
    requires
        !(a == 0 && b == 0),
    ensures
        gcd_n(a / gcd_n(a, b), b / gcd_n(a, b)) == 1,
{
    let g = gcd_n(a, b);
    lemma_gcd_divides(a, b);
    let a1 = a / g;
    let b1 = b / g;
    lemma_fundamental_div_mod(a as int, g as int);
    lemma_fundamental_div_mod(b as int, g as int);
    assert(a == g * a1 && b == g * b1);
    assert(!(a1 == 0 && b1 == 0)) by {
        assert(g * 0 == 0) by (nonlinear_arith);
    }
    let h = gcd_n(a1, b1);
    lemma_gcd_divides(a1, b1);
    let a2 = a1 / h;
    let b2 = b1 / h;
    lemma_fundamental_div_mod(a1 as int, h as int);
    lemma_fundamental_div_mod(b1 as int, h as int);
    assert(a1 == h * a2 && b1 == h * b2);
    assert(a == (g * h) * a2 && b == (g * h) * b2) by (nonlinear_arith)
        requires
            a == g * a1,
            b == g * b1,
            a1 == h * a2,
            b1 == h * b2,
    ;
    assert(a % (g * h) == 0) by {
        lemma_mul_is_commutative((g * h) as int, a2 as int);
        lemma_mod_multiples_basic(a2 as int, (g * h) as int);
    }
    assert(b % (g * h) == 0) by {
        lemma_mul_is_commutative((g * h) as int, b2 as int);
        lemma_mod_multiples_basic(b2 as int, (g * h) as int);
    }
    lemma_gcd_greatest(a, b, g * h);
    assert(g % (g * h) == 0);
    if h > 1 {
        assert(g * h >= g * 2 > g) by (nonlinear_arith)
            requires
                g > 0,
                h > 1,
        ;
        lemma_fundamental_div_mod(g as int, (g * h) as int);
        assert(g == (g * h) * (g / (g * h)));
        assert(false) by (nonlinear_arith)
            requires
                g == (g * h) * (g / (g * h)),
                g * h > g,
                g > 0,
        ;
    }
}

/// A positive divisor of the magnitude of `n` divides `n` itself.
pub proof fn lemma_abs_divides(n: int, g: int)
    requires
        g >= 1,
        abs_n(n) as int % g == 0,
    ensures
        n % g == 0,
{
    if n < 0 {
        let k = (-n) / g;
        lemma_fundamental_div_mod(-n, g);
        assert(n == g * (-k)) by (nonlinear_arith)
            requires
                -n == g * k,
        ;
        lemma_mul_is_commutative(g, -k);
        lemma_mod_multiples_basic(-k, g);
    }
}

/// For exact divisions the truncating quotient of the machine agrees with
/// the Euclidean quotient of the specification, also on negative
/// dividends.
pub proof fn lemma_exact_div_signed(n: int, g: int)
    requires
        g >= 1,
        n % g == 0,
    ensures
        n == g * (n / g),
        n < 0 ==> -((-n) / g) == n / g,
{
    lemma_fundamental_div_mod(n, g);
    if n < 0 {
        let q = n / g;
        assert(-n == g * (-q)) by (nonlinear_arith)
            requires
                n == g * q,
        ;
        lemma_div_multiples_vanish(-q, g);
        assert((g * (-q)) / g == -q);
    }
}

/// A positive divisor of a positive value is no larger than the value.
pub proof fn lemma_divisor_bounded(d: int, g: int)
    requires
        d >= 1,
        g >= 1,
        d % g == 0,
    ensures
        g <= d,
{
    if g > d {
        lemma_small_mod(d as nat, g as nat);
    }
}

/// Magnitude of an `i32`, computed in `u32` so that the minimum of the
/// domain is representable.
pub fn abs_u32(v: i32) -> (r: u32)
    ensures
        r as nat == abs_n(v as int),
{
    if v >= 0 {
        v as u32
    } else if v == i32::MIN {
        2147483648u32
    } else {
        (-v) as u32
    }
}

/// Greatest common divisor of the magnitudes of two domain values.
///
/// The result is the mathematical (positive) divisor; the pair
/// `(i32::MIN, 0)`, whose divisor would exceed the domain maximum, and the
/// all-zero pair, which has no greatest divisor, are outside the domain.
pub fn gcd(a: i32, b: i32) -> (r: i32)
    requires
        !(a == 0 && b == 0),
        gcd_n(abs_n(a as int), abs_n(b as int)) <= i32::MAX as nat,
    ensures
        r as nat == gcd_n(abs_n(a as int), abs_n(b as int)),
        r >= 1,
{
    let mut x: u32 = abs_u32(a);
    let mut y: u32 = abs_u32(b);
    while y != 0
        invariant
            gcd_n(x as nat, y as nat) == gcd_n(abs_n(a as int), abs_n(b as int)),
            !(x == 0 && y == 0),
        decreases y,
    {
        let t: u32 = y;
        y = x % y;
        x = t;
    }
    proof {
        lemma_gcd_divides(abs_n(a as int), abs_n(b as int));
    }
    x as i32
}

} // verus!
