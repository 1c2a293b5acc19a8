use ballistic_sight::fraction::{safe_neg, slow_sqrt, Fraction};

#[test]
fn test_new_and_value() {
    let f = Fraction::new(3, 4);
    assert_eq!(f.numerator, 3);
    assert_eq!(f.denominator, 4);
    assert_eq!(f.value(), 3 / 4);
}

#[test]
fn test_add_fraction() {
    let a = Fraction::new(1, 2);
    let b = Fraction::new(1, 3);
    let result = a + b;
    assert_eq!(result.numerator, 5);
    assert_eq!(result.denominator, 6);
}

#[test]
fn test_add_number() {
    let a = Fraction::new(3, 4);
    let result = a + 1;
    assert_eq!(result.numerator, 7);
    assert_eq!(result.denominator, 4);
}

#[test]
fn test_sub_fraction() {
    let a = Fraction::new(3, 4);
    let b = Fraction::new(1, 4);
    let result = a - b;
    assert_eq!(result, Fraction::new(1, 2));
}

#[test]
fn test_mul_fraction() {
    let a = Fraction::new(2, 3);
    let b = Fraction::new(3, 4);
    let result = a * b;
    assert_eq!(result, Fraction::new(6, 12).normalized());
}

#[test]
fn test_div_fraction() {
    let a = Fraction::new(2, 3);
    let b = Fraction::new(4, 5);
    let result = a / b;
    assert_eq!(result, Fraction::new(10, 12).normalized());
}

#[test]
fn one_divided_by_one_is_one() {
    let a = Fraction::new(1, 1);
    let b = Fraction::new(1, 1);
    let result = a / b;
    assert_eq!(result, Fraction::new(1, 1));
}

#[test]
fn test_div_number() {
    let a = Fraction::new(3, 4);
    let result = a / 2;
    assert_eq!(result.numerator, 3);
    assert_eq!(result.denominator, 8);
}

#[test]
fn test_sub_number() {
    let a = Fraction::new(3, 4);
    let result = a - 1;
    assert_eq!(result.numerator, -1);
    assert_eq!(result.denominator, 4);
}

#[test]
fn test_mul_number() {
    let a = Fraction::new(3, 4);
    let result = a * 2;
    assert_eq!(result.numerator, 3);
    assert_eq!(result.denominator, 2);
}

#[test]
fn test_neg() {
    let a = Fraction::new(3, 4);
    let result = -a;
    assert_eq!(result.numerator, -3);
    assert_eq!(result.denominator, 4);
}

#[test]
fn test_abs() {
    let a = Fraction::new(-3, -4);
    let result = a.abs();
    assert_eq!(result.numerator, 3);
    assert_eq!(result.denominator, 4);
}

#[test]
fn test_reciprocal() {
    let a = Fraction::new(2, 3);
    let result = a.reciprocal();
    assert_eq!(result.numerator, 3);
    assert_eq!(result.denominator, 2);
}

#[test]
#[should_panic]
fn test_reciprocal_zero() {
    let a = Fraction::new(0, 1);
    let _ = a.reciprocal();
}

#[test]
fn test_zero() {
    let z = Fraction::zero();
    assert_eq!(z.numerator, 0);
    assert_eq!(z.denominator, 1);
}

#[test]
fn test_partial_ord() {
    let a = Fraction::new(1, 2);
    let b = Fraction::new(2, 3);
    assert!(a < b);
    assert!(b > a);
    assert_eq!(a.partial_cmp(&a), Some(core::cmp::Ordering::Equal));
}

#[test]
fn test_ord() {
    let a = Fraction::new(1, 2);
    let b = Fraction::new(2, 3);
    assert!(a < b);
    assert!(b > a);
    assert_eq!(a.cmp(&a), core::cmp::Ordering::Equal);
}

#[test]
fn test_from_number() {
    let f = Fraction::from(5);
    assert_eq!(f.numerator, 5);
    assert_eq!(f.denominator, 1);
}

#[test]
fn test_sqrt() {
    let a = Fraction::new(9, 16);
    let result = a.sqrt();
    assert_eq!(result.numerator, 3);
    assert_eq!(result.denominator, 4);
}

#[test]
fn test_sqrt_32767() {
    let result = slow_sqrt(32767);
    assert_eq!(result, 181);
}

#[test]
fn test_sqrt_of_zero_fraction() {
    let result = Fraction::new(0, 9).sqrt();
    assert_eq!(result, Fraction::new(0, 1));
}

#[test]
fn test_slow_sqrt_at_domain_maximum() {
    assert_eq!(slow_sqrt(i32::MAX), 32761);
}

#[test]
fn test_slow_sqrt_negative() {
    assert_eq!(slow_sqrt(-5), -1);
}

#[test]
fn test_value_truncates_toward_zero() {
    assert_eq!(Fraction::new(7, 2).value(), 3);
    assert_eq!(Fraction::new(-7, 2).value(), -3);
    assert_eq!(Fraction::new(7, -2).value(), -3);
}

#[test]
fn test_safe_neg_clamps_at_bounds() {
    assert_eq!(safe_neg(i32::MIN), i32::MAX);
    assert_eq!(safe_neg(i32::MAX), i32::MIN);
    assert_eq!(safe_neg(-7), 7);
}

#[test]
fn test_normalized_positive_denominator_and_coprime() {
    let r = Fraction::new(-2, 6).normalized();
    assert_eq!(r.numerator, -1);
    assert_eq!(r.denominator, 3);

    let r = Fraction::new(3, -6).normalized();
    assert_eq!(r.numerator, -1);
    assert_eq!(r.denominator, 2);

    let r = Fraction::new(-4, -6).normalized();
    assert_eq!(r.numerator, 2);
    assert_eq!(r.denominator, 3);
}

#[test]
fn test_mul_by_flipped_is_one() {
    let result = Fraction::new(3, 7) * Fraction::new(7, 3);
    assert_eq!(result, Fraction::new(1, 1));

    let result = Fraction::new(-5, 9) * Fraction::new(9, -5);
    assert_eq!(result, Fraction::new(1, 1));

    // Both cross products saturate to the same boundary value.
    let result = Fraction::new(i32::MAX, 3) * Fraction::new(3, i32::MAX);
    assert_eq!(result, Fraction::new(1, 1));
}

#[test]
fn test_saturating_totality_at_bounds() {
    let top = Fraction::new(i32::MAX, 1);
    let bottom = Fraction::new(i32::MIN, 1);

    let sum = top + top;
    assert_eq!(sum, Fraction::new(i32::MAX, 1));

    let diff = top - bottom;
    assert_eq!(diff, Fraction::new(i32::MAX, 1));

    let product = bottom * Fraction::new(1, 1);
    assert_eq!(product, Fraction::new(i32::MIN, 1));

    let wide = bottom * bottom;
    assert_eq!(wide, Fraction::new(i32::MAX, 1));
}

#[test]
fn test_max_prefers_second_on_ties() {
    let a = Fraction::new(1, 2);
    let b = Fraction::new(2, 4);
    let m = a.max(b);
    assert_eq!(m.denominator, 4);
    assert_eq!(Fraction::new(3, 4).max(Fraction::new(1, 4)), Fraction::new(3, 4));
}
