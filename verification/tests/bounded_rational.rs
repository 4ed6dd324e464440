#![allow(unused_imports)]
use boehm_reals::bigint::BigInt;
use boehm_reals::evaluation::bounded_rational::{BoundedRational, NonFiniteError, ZeroDenominatorError};
use boehm_reals::evaluation::constants::{minus_one, one, zero, MAX_SIZE};
use boehm_reals::evaluation::errors::ZeroDivisionError;
use std::cmp::Ordering;
use std::collections::hash_map::DefaultHasher;
use std::collections::HashSet;
use std::hash::{Hash, Hasher};

/// `f64` conversions through the bit-pattern functions of the library.
trait DoubleConversions: Sized {
    fn value_of_double(x: f64) -> Result<Self, NonFiniteError>;
    fn double_value(&self) -> f64;
}

impl DoubleConversions for BoundedRational {
    fn value_of_double(x: f64) -> Result<BoundedRational, NonFiniteError> {
        BoundedRational::value_of_double_bits(x.to_bits())
    }

    fn double_value(&self) -> f64 {
        f64::from_bits(self.double_value_bits())
    }
}

/// Constructs a BigInt with exactly `n` bits set (value = 2^n - 1).
fn big_with_bits(n: u64) -> BigInt {
    (BigInt::from(1) << n as usize) - BigInt::from(1)
}


#[test]
fn new_valid_positive_fraction() {
    let r = BoundedRational::new(BigInt::from(3), BigInt::from(4)).unwrap();
    assert_eq!(*r.numerator(), BigInt::from(3));
    assert_eq!(*r.denominator(), BigInt::from(4));
}

#[test]
fn new_valid_negative_numerator() {
    let r = BoundedRational::new(BigInt::from(-3), BigInt::from(4)).unwrap();
    assert_eq!(*r.numerator(), BigInt::from(-3));
    assert_eq!(*r.denominator(), BigInt::from(4));
}

#[test]
fn new_valid_negative_denominator() {
    let r = BoundedRational::new(BigInt::from(3), BigInt::from(-4)).unwrap();
    assert_eq!(*r.numerator(), BigInt::from(3));
    assert_eq!(*r.denominator(), BigInt::from(-4));
}

#[test]
fn new_valid_both_negative() {
    let r = BoundedRational::new(BigInt::from(-3), BigInt::from(-4)).unwrap();
    assert_eq!(*r.numerator(), BigInt::from(-3));
    assert_eq!(*r.denominator(), BigInt::from(-4));
}

#[test]
fn new_zero_numerator_normalizes_denominator_to_one() {
    let r = BoundedRational::new(BigInt::from(0), BigInt::from(5)).unwrap();
    assert_eq!(*r.numerator(), zero());
    assert_eq!(*r.denominator(), one());
}

#[test]
fn new_rejects_zero_denominator() {
    assert!(BoundedRational::new(BigInt::from(1), BigInt::from(0)).is_err());
}

#[test]
fn new_rejects_zero_denominator_with_zero_numerator() {
    // 0/0 is indeterminate — must be rejected
    assert!(BoundedRational::new(BigInt::from(0), BigInt::from(0)).is_err());
}

#[test]
fn new_denominator_of_one_is_valid() {
    let r = BoundedRational::new(BigInt::from(7), BigInt::from(1)).unwrap();
    assert_eq!(*r.denominator(), one());
}

#[test]
fn new_denominator_of_minus_one_is_valid() {
    let r = BoundedRational::new(BigInt::from(7), BigInt::from(-1)).unwrap();
    assert_eq!(*r.denominator(), minus_one());
}

#[test]
fn from_bigint_sets_denominator_to_one() {
    let r = BoundedRational::from_bigint(BigInt::from(42));
    assert_eq!(*r.denominator(), one());
}

#[test]
fn from_bigint_zero_numerator() {
    let r = BoundedRational::from_bigint(BigInt::from(0));
    assert_eq!(*r.numerator(), zero());
    assert_eq!(*r.denominator(), one());
}

#[test]
fn from_bigint_negative_value() {
    let r = BoundedRational::from_bigint(BigInt::from(-99));
    assert_eq!(*r.numerator(), BigInt::from(-99));
    assert_eq!(*r.denominator(), one());
}

#[test]
fn from_long_zero() {
    let r = BoundedRational::from_long(0);
    assert_eq!(*r.numerator(), zero());
    assert_eq!(*r.denominator(), one());
}

#[test]
fn from_long_i64_max() {
    let r = BoundedRational::from_long(i64::MAX);
    assert_eq!(*r.numerator(), BigInt::from(i64::MAX));
    // i64::MAX = 2^63 - 1 fits in 63 bits, not 64
    assert_eq!(r.numerator().bits(), 63);
}

#[test]
fn from_long_i64_min() {
    let r = BoundedRational::from_long(i64::MIN);
    assert_eq!(*r.numerator(), BigInt::from(i64::MIN));
    // i64::MIN = -2^63, absolute value needs 64 bits
    assert_eq!(r.numerator().bits(), 64);
}

#[test]
fn from_long_negative_one() {
    let r = BoundedRational::from_long(-1);
    assert_eq!(*r.numerator(), minus_one());
    assert_eq!(*r.denominator(), one());
}

#[test]
fn from_longs_stores_numerator_and_denominator() {
    let r = BoundedRational::from_longs(3, 4).unwrap();
    assert_eq!(*r.numerator(), BigInt::from(3i64));
    assert_eq!(*r.denominator(), BigInt::from(4i64));
}

#[test]
fn from_longs_rejects_zero_denominator() {
    assert!(BoundedRational::from_longs(3, 0).is_err());
}

#[test]
fn from_longs_zero_numerator_valid() {
    let r = BoundedRational::from_longs(0, 5).unwrap();
    assert_eq!(*r.numerator(), zero());
    assert_eq!(*r.denominator(), one());
}

#[test]
fn from_longs_both_negative() {
    let r = BoundedRational::from_longs(-3, -4).unwrap();
    assert_eq!(*r.numerator(), BigInt::from(-3));
    assert_eq!(*r.denominator(), BigInt::from(-4));
}

#[test]
fn from_longs_denominator_one() {
    let r = BoundedRational::from_longs(5, 1).unwrap();
    assert_eq!(*r.denominator(), one());
}

#[test]
fn too_big_small_fraction_is_false() {
    let r = BoundedRational::from_longs(3, 4).unwrap();
    assert!(!r.too_big());
}

#[test]
fn too_big_pure_integer_always_false_even_if_huge() {
    // Numerator alone far exceeds MAX_SIZE bits — but denominator is 1
    // so too_big must still return false (integers are never too big)
    let huge = BigInt::from(1) << (MAX_SIZE * 2);
    let r = BoundedRational::from_bigint(huge);
    assert!(!r.too_big());
}

#[test]
fn too_big_exactly_at_limit_is_false() {
    // bits(num) + bits(den) == MAX_SIZE  →  not strictly greater, so false
    let half = MAX_SIZE as u64 / 2;
    let r = BoundedRational::new(big_with_bits(half), big_with_bits(half)).unwrap();
    assert!(!r.too_big());
}

#[test]
fn too_big_one_over_limit_is_true() {
    // bits(num) + bits(den) == MAX_SIZE + 1  →  strictly greater, so true
    let half = MAX_SIZE as u64 / 2;
    let r = BoundedRational::new(big_with_bits(half + 1), big_with_bits(half)).unwrap();
    assert!(r.too_big());
}

#[test]
fn too_big_sign_does_not_affect_result() {
    // bits() ignores sign — negative values with same magnitude behave identically
    let half = MAX_SIZE as u64 / 2;
    let pos = BoundedRational::new(big_with_bits(half + 1), big_with_bits(half)).unwrap();
    let neg = BoundedRational::new(-big_with_bits(half + 1), big_with_bits(half)).unwrap();
    assert_eq!(pos.too_big(), neg.too_big());
}

#[test]
fn positive_den_already_positive_unchanged() {
    let r = BoundedRational::from_longs(3, 4).unwrap();
    let p = r.positive_den();
    assert_eq!(*p.numerator(), BigInt::from(3));
    assert_eq!(*p.denominator(), BigInt::from(4));
}

#[test]
fn positive_den_negative_denominator_flips_both() {
    let r = BoundedRational::from_longs(3, -4).unwrap();
    let p = r.positive_den();
    assert_eq!(*p.numerator(), BigInt::from(-3));
    assert_eq!(*p.denominator(), BigInt::from(4));
}

#[test]
fn positive_den_both_negative_flips_both() {
    let r = BoundedRational::from_longs(-3, -4).unwrap();
    let p = r.positive_den();
    assert_eq!(*p.numerator(), BigInt::from(3));
    assert_eq!(*p.denominator(), BigInt::from(4));
}

#[test]
fn positive_den_negative_num_positive_den_unchanged() {
    let r = BoundedRational::from_longs(-3, 4).unwrap();
    let p = r.positive_den();
    assert_eq!(*p.numerator(), BigInt::from(-3));
    assert_eq!(*p.denominator(), BigInt::from(4));
}

#[test]
fn positive_den_denominator_minus_one() {
    let r = BoundedRational::from_longs(5, -1).unwrap();
    let p = r.positive_den();
    assert_eq!(*p.numerator(), BigInt::from(-5));
    assert_eq!(*p.denominator(), one());
}

#[test]
fn positive_den_zero_numerator_negative_den() {
    let r = BoundedRational::from_longs(0, -7).unwrap();
    let p = r.positive_den();
    assert_eq!(*p.numerator(), zero());
    assert_eq!(*p.denominator(), one());
}

#[test]
fn positive_den_is_idempotent() {
    // Calling positive_den twice should give the same result as calling it once
    let r = BoundedRational::from_longs(3, -4).unwrap();
    let once = r.positive_den();
    let twice = once.positive_den();
    assert_eq!(twice.numerator(), once.numerator());
    assert_eq!(twice.denominator(), once.denominator());
}

#[test]
fn positive_den_preserves_value() {
    // 3/-4 and -3/4 represent the same rational — cross-multiply to verify
    let r = BoundedRational::from_longs(3, -4).unwrap();
    let p = r.positive_den();
    // r.num * p.den == p.num * r.den  →  3 * 4 == -3 * -4  →  12 == 12
    assert_eq!(
        r.numerator() * p.denominator(),
        p.numerator() * r.denominator()
    );
}

#[test]
fn reduce_six_fourths_gives_three_halves() {
    let r = BoundedRational::from_longs(6, 4).unwrap();
    let reduced = r.reduce();
    assert_eq!(*reduced.numerator(), BigInt::from(3));
    assert_eq!(*reduced.denominator(), BigInt::from(2));
}

#[test]
fn reduce_integer_early_return() {
    // denominator == 1 triggers the early-return path; value unchanged
    let r = BoundedRational::from_long(7);
    let reduced = r.reduce();
    assert_eq!(*reduced.numerator(), BigInt::from(7));
    assert_eq!(*reduced.denominator(), one());
}

#[test]
fn reduce_already_lowest_terms_unchanged() {
    let r = BoundedRational::from_longs(3, 7).unwrap();
    let reduced = r.reduce();
    assert_eq!(*reduced.numerator(), BigInt::from(3));
    assert_eq!(*reduced.denominator(), BigInt::from(7));
}

#[test]
fn reduce_negative_numerator() {
    let r = BoundedRational::from_longs(-6, 4).unwrap();
    let reduced = r.reduce();
    assert_eq!(*reduced.numerator(), BigInt::from(-3));
    assert_eq!(*reduced.denominator(), BigInt::from(2));
}

#[test]
fn reduce_large_common_factor() {
    // 100/200 => 1/2
    let r = BoundedRational::from_longs(100, 200).unwrap();
    let reduced = r.reduce();
    assert_eq!(*reduced.numerator(), BigInt::from(1));
    assert_eq!(*reduced.denominator(), BigInt::from(2));
}

#[test]
fn reduce_is_idempotent() {
    let r = BoundedRational::from_longs(6, 4).unwrap();
    let once = r.reduce();
    let twice = once.reduce();
    assert_eq!(once.numerator(), twice.numerator());
    assert_eq!(once.denominator(), twice.denominator());
}

#[test]
fn reduce_preserves_value() {
    // cross-multiply: (6/4).num * reduced.den == (6/4).den * reduced.num
    let r = BoundedRational::from_longs(6, 4).unwrap();
    let reduced = r.reduce();
    assert_eq!(
        r.numerator() * reduced.denominator(),
        r.denominator() * reduced.numerator()
    );
}

#[test]
fn maybe_reduce_none_returns_none() {
    assert!(BoundedRational::maybe_reduce(None).is_none());
}

#[test]
fn maybe_reduce_small_fraction_preserves_value() {
    // Run many times to hit both the "skip" and "reduce" random paths.
    for _ in 0..100 {
        let r = BoundedRational::from_longs(6, 4).unwrap();
        if let Some(result) = BoundedRational::maybe_reduce(Some(r)) {
            // Value must still equal 1.5 regardless of which path was taken.
            let num: f64 = result.numerator().to_string().parse().unwrap();
            let den: f64 = result.denominator().to_string().parse().unwrap();
            assert!(
                (num / den - 1.5).abs() < 1e-10,
                "Value changed: {:?}/{:?}",
                result.numerator(),
                result.denominator()
            );
        }
    }
}

#[test]
fn value_of_long_cached_constant_negative_two() {
    let r = BoundedRational::value_of_long(-2);
    assert_eq!(r.numerator(), &BigInt::from(-2));
    assert_eq!(r.denominator(), &BigInt::from(1));
}

#[test]
fn value_of_long_zcached_constant_zero() {
    let r = BoundedRational::value_of_long(0);
    assert_eq!(r.numerator(), &BigInt::from(0));
    assert_eq!(r.denominator(), &BigInt::from(1));
}

#[test]
fn value_of_long_cached_constant_ten() {
    let r = BoundedRational::value_of_long(10);
    assert_eq!(r.numerator(), &BigInt::from(10));
    assert_eq!(r.denominator(), &BigInt::from(1));
}

#[test]
fn value_of_long_uncached_in_range_value_three() {
    let r = BoundedRational::value_of_long(3);
    assert_eq!(r.numerator(), &BigInt::from(3));
    assert_eq!(r.denominator(), &BigInt::from(1));
}

#[test]
fn value_of_long_uncached_in_range_value_nine() {
    let r = BoundedRational::value_of_long(9);
    assert_eq!(r.numerator(), &BigInt::from(9));
    assert_eq!(r.denominator(), &BigInt::from(1));
}

#[test]
fn value_of_long_negative_three_returns_negative_three() {
    let r = BoundedRational::value_of_long(-3);
    assert_eq!(r.numerator(), &BigInt::from(-3));
    assert_eq!(r.denominator(), &BigInt::from(1));
}

#[test]
fn value_of_long_eleven_returns_eleven() {
    let r = BoundedRational::value_of_long(11);
    assert_eq!(r.numerator(), &BigInt::from(11));
    assert_eq!(r.denominator(), &BigInt::from(1));
}

#[test]
fn value_of_long_i64_max_returns_i64() {
    let r = BoundedRational::value_of_long(i64::MAX);
    assert_eq!(r.numerator(), &BigInt::from(i64::MAX));
    assert_eq!(r.denominator(), &BigInt::from(1));
}

#[test]
fn value_of_long_i64_min_returns_i64() {
    let r = BoundedRational::value_of_long(i64::MIN);
    assert_eq!(r.numerator(), &BigInt::from(i64::MIN));
    assert_eq!(r.denominator(), &BigInt::from(1));
}

#[test]
fn value_of_long_negative_500_returns_negative_500() {
    let r = BoundedRational::value_of_long(-500);
    assert_eq!(r.numerator(), &BigInt::from(-500));
    assert_eq!(r.denominator(), &BigInt::from(1));
}

#[test]
fn value_of_double_small_integer() {
    let r = BoundedRational::value_of_double(42.0).unwrap();

    assert_eq!(r.numerator(), &BigInt::from(42));
    assert_eq!(r.denominator(), &BigInt::from(1));
}

#[test]
fn value_of_double_large_integer() {
    let r = BoundedRational::value_of_double(1001.0).unwrap();

    assert_eq!(r.numerator(), &BigInt::from(1001));
    assert_eq!(r.denominator(), &BigInt::from(1));
}

#[test]
fn value_of_double_fraction() {
    let r = BoundedRational::value_of_double(0.5).unwrap().reduce();

    assert_eq!(r.numerator(), &BigInt::from(1));
    assert_eq!(r.denominator(), &BigInt::from(2));
}

#[test]
fn value_of_double_negative_fraction() {
    let r = BoundedRational::value_of_double(-0.5).unwrap().reduce();

    assert_eq!(r.numerator(), &BigInt::from(-1));
    assert_eq!(r.denominator(), &BigInt::from(2));
}

#[test]
fn value_of_double_positive_infinity() {
    assert!(BoundedRational::value_of_double(f64::INFINITY).is_err());
}

#[test]
fn value_of_double_negative_infinity() {
    assert!(BoundedRational::value_of_double(f64::NEG_INFINITY).is_err());
}

#[test]
fn value_of_double_nan() {
    assert!(BoundedRational::value_of_double(f64::NAN).is_err());
}

#[test]
fn value_of_double_subnormal() {
    let r = BoundedRational::value_of_double(f64::from_bits(1)).unwrap();

    assert!(r.numerator() > &BigInt::from(0));
    assert!(r.denominator() > &BigInt::from(0));
}

#[test]
fn value_of_double_smallest_normal() {
    let r = BoundedRational::value_of_double(f64::MIN_POSITIVE).unwrap();

    assert!(r.numerator() > &BigInt::from(0));
    assert!(r.denominator() > &BigInt::from(0));
}

#[test]
fn value_of_double_large_power_of_two() {
    let r = BoundedRational::value_of_double(2f64.powi(60)).unwrap();

    assert_eq!(r.denominator(), &BigInt::from(1));
    assert_eq!(r.numerator(), &(BigInt::from(1) << 60));
}

#[test]
fn value_of_double_large_fraction() {
    let r = BoundedRational::value_of_double(1024.5).unwrap().reduce();

    assert_eq!(r.numerator(), &BigInt::from(2049));
    assert_eq!(r.denominator(), &BigInt::from(2));
}

#[test]
fn value_of_double_i64_max() {
    // `i64::MAX as f64` is the double 2^63, whose exact value is 2^63
    let r = BoundedRational::value_of_double(i64::MAX as f64).unwrap();

    assert_eq!(r.denominator(), &BigInt::from(1));
    assert_eq!(r.numerator(), &(BigInt::from(1) << 63usize));
}

#[test]
fn value_of_double_below_i64_min_uses_slow_path() {
    let r = BoundedRational::value_of_double(-1e100).unwrap();

    assert_eq!(r.denominator(), &BigInt::from(1));
    assert_ne!(r.numerator(), &BigInt::from(i64::MIN));
}

#[test]
fn negate_none() {
    assert!(BoundedRational::negate(None).is_none());
}

#[test]
fn negate_positive_fraction() {
    let r = BoundedRational::from_longs(3, 4).unwrap();
    let neg = BoundedRational::negate(Some(r)).unwrap();

    assert_eq!(neg.numerator(), &BigInt::from(-3));
    assert_eq!(neg.denominator(), &BigInt::from(4));
}

#[test]
fn negate_negative_fraction() {
    let r = BoundedRational::from_longs(-5, 10).unwrap();
    let neg = BoundedRational::negate(Some(r)).unwrap();

    assert_eq!(neg.numerator(), &BigInt::from(5));
    assert_eq!(neg.denominator(), &BigInt::from(10));
}

#[test]
fn add_none_both() {
    assert!(BoundedRational::add(None, None).is_none());
}

#[test]
fn add_basic_fractions() {
    let r1 = BoundedRational::from_longs(1, 2).unwrap();
    let r2 = BoundedRational::from_longs(1, 3).unwrap();
    let sum = BoundedRational::add(Some(r1), Some(r2)).unwrap().reduce();

    assert_eq!(sum.numerator(), &BigInt::from(5));
    assert_eq!(sum.denominator(), &BigInt::from(6));
}

#[test]
fn add_same_denominator_reduces() {
    let r1 = BoundedRational::from_longs(1, 4).unwrap();
    let r2 = BoundedRational::from_longs(1, 4).unwrap();
    let sum = BoundedRational::add(Some(r1), Some(r2)).unwrap().reduce();

    assert_eq!(sum.numerator(), &BigInt::from(1));
    assert_eq!(sum.denominator(), &BigInt::from(2));
}

#[test]
fn add_different_denominator_reduces() {
    let r1 = BoundedRational::from_longs(1, 3).unwrap();
    let r2 = BoundedRational::from_longs(1, 6).unwrap();
    let sum = BoundedRational::add(Some(r1), Some(r2)).unwrap().reduce();

    assert_eq!(sum.numerator(), &BigInt::from(1));
    assert_eq!(sum.denominator(), &BigInt::from(2));
}

#[test]
fn add_with_negative_denominator() {
    let r1 = BoundedRational::from_longs(1, -2).unwrap();
    let r2 = BoundedRational::from_longs(1, 3).unwrap();
    let sum = BoundedRational::add(Some(r1), Some(r2))
        .unwrap()
        .positive_den()
        .reduce();

    assert_eq!(sum.numerator(), &BigInt::from(-1));
    assert_eq!(sum.denominator(), &BigInt::from(6));
}

#[test]
fn add_large_reducible_inputs_uses_reduction_heuristic() {
    // Construct two very large but easily reducible fractions.
    let factor = BigInt::from(1u32) << (MAX_SIZE / 2);

    let r1 = BoundedRational::new(factor.clone() * BigInt::from(2u32), factor.clone()).unwrap();
    let r2 = BoundedRational::new(factor.clone() * BigInt::from(3u32), factor).unwrap();
    let sum = BoundedRational::add(Some(r1), Some(r2)).unwrap().reduce();

    assert_eq!(sum.numerator(), &BigInt::from(5));
    assert_eq!(sum.denominator(), &BigInt::from(1));
}

#[test]
fn add_zero_right_returns_left() {
    let r1 = BoundedRational::from_longs(3, 7).unwrap();
    let r2 = BoundedRational::from_longs(0, 1).unwrap();
    let sum = BoundedRational::add(Some(r1), Some(r2)).unwrap().reduce();

    assert_eq!(sum.numerator(), &BigInt::from(3));
    assert_eq!(sum.denominator(), &BigInt::from(7));
}

#[test]
fn add_zero_with_negative_denominator_is_unaffected() {
    // Zero-numerator operand with a negative denominator should still
    // short-circuit correctly and not corrupt the sign of the result.
    let r1 = BoundedRational::from_longs(0, -1).unwrap();
    let r2 = BoundedRational::from_longs(1, -2).unwrap();
    let sum = BoundedRational::add(Some(r1), Some(r2))
        .unwrap()
        .positive_den()
        .reduce();

    assert_eq!(sum.numerator(), &BigInt::from(-1));
    assert_eq!(sum.denominator(), &BigInt::from(2));
}

#[test]
fn subtract_none_r1() {
    let r2 = BoundedRational::from_long(1);
    assert!(BoundedRational::subtract(None, Some(r2)).is_none());
}

#[test]
fn subtract_from_zero() {
    let r1 = BoundedRational::from_long(0);
    let r2 = BoundedRational::from_longs(1, 2).unwrap();
    let diff = BoundedRational::subtract(Some(r1), Some(r2)).unwrap();

    assert_eq!(diff.numerator(), &BigInt::from(-1));
    assert_eq!(diff.denominator(), &BigInt::from(2));
}

#[test]
fn subtract_matches_add_of_negation() {
    // Cross-check: subtract(r1, r2) should equal add(r1, negate(r2)) exactly,
    // since that's how subtract is implemented.
    let r1 = BoundedRational::from_longs(7, 9).unwrap();
    let r2 = BoundedRational::from_longs(2, 5).unwrap();

    let via_subtract = BoundedRational::subtract(Some(r1.clone()), Some(r2.clone()))
        .unwrap()
        .reduce();
    let via_add_negate = BoundedRational::add(Some(r1), BoundedRational::negate(Some(r2)))
        .unwrap()
        .reduce();

    assert_eq!(via_subtract.numerator(), via_add_negate.numerator());
    assert_eq!(via_subtract.denominator(), via_add_negate.denominator());
}

#[test]
fn multiply_basic() {
    let r1 = BoundedRational::from_longs(2, 3).unwrap();
    let r2 = BoundedRational::from_longs(3, 4).unwrap();
    let prod = BoundedRational::multiply(Some(r1), Some(r2))
        .unwrap()
        .reduce()
        .positive_den();
    // unreduced: (2*3)/(3*4) = 6/12 = 1/2
    assert_eq!(prod.numerator(), &BigInt::from(1));
    assert_eq!(prod.denominator(), &BigInt::from(2));
}

#[test]
fn multiply_one_shortcut_right() {
    let r1 = BoundedRational::from_longs(5, 7).unwrap();
    let one = BoundedRational::value_of_long(1);
    let prod = BoundedRational::multiply(Some(r1), Some(one)).unwrap();
    assert_eq!(prod.numerator(), &BigInt::from(5));
    assert_eq!(prod.denominator(), &BigInt::from(7));
}

#[test]
fn multiply_none_propagates_left() {
    let r2 = BoundedRational::from_longs(3, 4).unwrap();
    let prod = BoundedRational::multiply(None, Some(r2));
    assert!(prod.is_none());
}

#[test]
fn multiply_by_zero() {
    let r1 = BoundedRational::from_long(0);
    let r2 = BoundedRational::from_longs(5, 9).unwrap();
    let prod = BoundedRational::multiply(Some(r1), Some(r2)).unwrap();
    assert_eq!(prod.numerator(), &BigInt::from(0));
}

#[test]
fn multiply_reduces_to_lowest_terms() {
    let r1 = BoundedRational::from_longs(2, 3).unwrap();
    let r2 = BoundedRational::from_longs(3, 4).unwrap();
    let prod = BoundedRational::multiply(Some(r1), Some(r2))
        .unwrap()
        .reduce()
        .positive_den();
    assert_eq!(prod.numerator(), &BigInt::from(1));
    assert_eq!(prod.denominator(), &BigInt::from(2));
}

#[test]
fn multiply_negative_values() {
    let r1 = BoundedRational::from_longs(-2, 3).unwrap();
    let r2 = BoundedRational::from_longs(3, 4).unwrap();
    let prod = BoundedRational::multiply(Some(r1), Some(r2))
        .unwrap()
        .reduce()
        .positive_den();
    // (-2/3) * (3/4) = -6/12 = -1/2
    assert_eq!(prod.numerator(), &BigInt::from(-1));
    assert_eq!(prod.denominator(), &BigInt::from(2));
}

#[test]
fn inverse_negative_numerator() {
    let r = BoundedRational::from_longs(-2, 3).unwrap();
    let inv = BoundedRational::inverse(Some(r)).unwrap().unwrap();
    assert_eq!(inv.numerator(), &BigInt::from(3));
    assert_eq!(inv.denominator(), &BigInt::from(-2));
}

#[test]
fn inverse_zero_numerator_errors() {
    let r = BoundedRational::from_long(0);
    let result = BoundedRational::inverse(Some(r));
    assert!(result.is_err());
}

#[test]
fn inverse_none_returns_ok_none() {
    let result = BoundedRational::inverse(None);
    assert!(result.is_ok());
    assert!(result.unwrap().is_none());
}

#[test]
fn divide_basic() {
    let r1 = BoundedRational::from_longs(1, 2).unwrap();
    let r2 = BoundedRational::from_longs(1, 4).unwrap();
    let quot = BoundedRational::divide(Some(r1), Some(r2))
        .unwrap()
        .unwrap()
        .reduce()
        .positive_den();
    assert_eq!(quot.numerator(), &BigInt::from(2));
    assert_eq!(quot.denominator(), &BigInt::from(1));
}

#[test]
fn divide_by_zero_errors() {
    let r1 = BoundedRational::from_longs(1, 2).unwrap();
    let r2 = BoundedRational::from_long(0);
    let result = BoundedRational::divide(Some(r1), Some(r2));
    assert!(result.is_err());
}

#[test]
fn signum_positive() {
    let r = BoundedRational::from_longs(3, 4).unwrap();
    assert_eq!(r.signum(), 1);
}

#[test]
fn signum_negative_numerator() {
    let r = BoundedRational::from_longs(-3, 4).unwrap();
    assert_eq!(r.signum(), -1);
}

#[test]
fn signum_negative_denominator() {
    let r = BoundedRational::from_longs(3, -4).unwrap();
    assert_eq!(r.signum(), -1);
}

#[test]
fn signum_both_negative_is_positive() {
    let r = BoundedRational::from_longs(-3, -4).unwrap();
    assert_eq!(r.signum(), 1);
}

#[test]
fn signum_zero() {
    let r = BoundedRational::from_longs(0, 5).unwrap();
    assert_eq!(r.signum(), 0);
}

#[test]
fn compare_to_integers() {
    let r1 = BoundedRational::from_long(3);
    let r2 = BoundedRational::from_long(5);
    assert_eq!(r1.compare_to(&r2), Ordering::Less);
    assert_eq!(r2.compare_to(&r1), Ordering::Greater);
}

#[test]
fn compare_to_integer_vs_fraction() {
    let r1 = BoundedRational::from_long(1); // 1/1
    let r2 = BoundedRational::from_longs(3, 2).unwrap(); // 3/2
    assert_eq!(r1.compare_to(&r2), Ordering::Less);
    assert_eq!(r2.compare_to(&r1), Ordering::Greater);
}

#[test]
fn compare_to_equal_values() {
    let r1 = BoundedRational::from_longs(1, 2).unwrap();
    let r2 = BoundedRational::from_longs(2, 4).unwrap();
    assert_eq!(r1.compare_to(&r2), Ordering::Equal);
}

#[test]
fn compare_to_less_than() {
    let r1 = BoundedRational::from_longs(1, 3).unwrap();
    let r2 = BoundedRational::from_longs(1, 2).unwrap();
    assert_eq!(r1.compare_to(&r2), Ordering::Less);
}

#[test]
fn compare_to_greater_than() {
    let r1 = BoundedRational::from_longs(3, 4).unwrap();
    let r2 = BoundedRational::from_longs(1, 2).unwrap();
    assert_eq!(r1.compare_to(&r2), Ordering::Greater);
}

#[test]
fn compare_to_numerator_is_minus_one() {
    let r1 = BoundedRational::from_longs(-1, 5).unwrap();
    let r2 = BoundedRational::from_longs(-1, 3).unwrap();
    // -1/5 = -0.2, -1/3 ≈ -0.333, so -1/5 > -1/3
    assert_eq!(r1.compare_to(&r2), Ordering::Greater);
}

#[test]
fn compare_to_denominator_is_minus_one() {
    let r1 = BoundedRational::from_longs(3, -1).unwrap(); // -3
    let r2 = BoundedRational::from_longs(2, -1).unwrap(); // -2
    assert_eq!(r1.compare_to(&r2), Ordering::Less);
}

#[test]
fn compare_to_one_negative_denominator_flips_result() {
    let r1 = BoundedRational::from_longs(1, -2).unwrap(); // -1/2
    let r2 = BoundedRational::from_longs(1, 3).unwrap(); // 1/3
    assert_eq!(r1.compare_to(&r2), Ordering::Less);
    assert_eq!(r2.compare_to(&r1), Ordering::Greater);
}

#[test]
fn compare_to_negative_vs_positive() {
    let r1 = BoundedRational::from_longs(-1, 2).unwrap();
    let r2 = BoundedRational::from_longs(1, 2).unwrap();
    assert_eq!(r1.compare_to(&r2), Ordering::Less);
}

#[test]
fn compare_to_both_negative() {
    let r1 = BoundedRational::from_longs(-1, 2).unwrap();
    let r2 = BoundedRational::from_longs(-1, 3).unwrap();
    assert_eq!(r1.compare_to(&r2), Ordering::Less);
}

#[test]
fn compare_to_both_negative_denominators_no_flip_needed() {
    let r1 = BoundedRational::from_longs(-1, -2).unwrap(); // 1/2
    let r2 = BoundedRational::from_longs(-1, -3).unwrap(); // 1/3
    assert_eq!(r1.compare_to(&r2), Ordering::Greater);
}

#[test]
fn compare_to_negative_denominator() {
    let r1 = BoundedRational::from_longs(1, -2).unwrap();
    let r2 = BoundedRational::from_longs(-1, 2).unwrap();
    assert_eq!(r1.compare_to(&r2), Ordering::Equal);
}

#[test]
fn compare_to_zero() {
    let r1 = BoundedRational::from_longs(0, 1).unwrap();
    let r2 = BoundedRational::from_longs(0, 5).unwrap();
    assert_eq!(r1.compare_to(&r2), Ordering::Equal);

    let r3 = BoundedRational::from_longs(-1, 2).unwrap();
    let r4 = BoundedRational::from_long(0);
    assert_eq!(r3.compare_to(&r4), Ordering::Less);
}

#[test]
fn compare_to_zero_with_negative_denominator() {
    let r1 = BoundedRational::from_longs(0, -5).unwrap();
    let r2 = BoundedRational::from_long(0);
    assert_eq!(r1.compare_to(&r2), Ordering::Equal);
}

#[test]
fn eq_same_value_different_representation() {
    let r1 = BoundedRational::from_longs(2, 4).unwrap();
    let r2 = BoundedRational::from_longs(1, 2).unwrap();
    assert_eq!(r1, r2);
}

#[test]
fn eq_negative_forms() {
    let r1 = BoundedRational::from_longs(-1, 2).unwrap();
    let r2 = BoundedRational::from_longs(1, -2).unwrap();
    let r3 = BoundedRational::from_longs(-2, 4).unwrap();
    assert_eq!(r1, r2);
    assert_eq!(r1, r3);
}

#[test]
fn not_eq_different_values() {
    let r1 = BoundedRational::from_longs(1, 2).unwrap();
    let r2 = BoundedRational::from_longs(1, 3).unwrap();
    assert_ne!(r1, r2);
}

#[test]
fn hash_matches_for_equal_values() {
    let r1 = BoundedRational::from_longs(1, 2).unwrap();
    let r2 = BoundedRational::from_longs(2, 4).unwrap();

    let mut hasher1 = DefaultHasher::new();
    r1.hash(&mut hasher1);

    let mut hasher2 = DefaultHasher::new();
    r2.hash(&mut hasher2);

    assert_eq!(hasher1.finish(), hasher2.finish());
}

#[test]
fn hash_matches_for_negative_denominator_form() {
    let r1 = BoundedRational::from_longs(-1, 2).unwrap();
    let r2 = BoundedRational::from_longs(1, -2).unwrap();

    let mut hasher1 = DefaultHasher::new();
    r1.hash(&mut hasher1);

    let mut hasher2 = DefaultHasher::new();
    r2.hash(&mut hasher2);

    assert_eq!(hasher1.finish(), hasher2.finish());
}

#[test]
fn hash_differs_for_different_values() {
    let r1 = BoundedRational::from_longs(1, 2).unwrap();
    let r2 = BoundedRational::from_longs(1, 3).unwrap();

    let mut hasher1 = DefaultHasher::new();
    r1.hash(&mut hasher1);

    let mut hasher2 = DefaultHasher::new();
    r2.hash(&mut hasher2);

    assert_ne!(hasher1.finish(), hasher2.finish());
}

#[test]
fn hash_set_deduplicates_equal_values() {
    let r1 = BoundedRational::from_longs(1, 2).unwrap();
    let r2 = BoundedRational::from_longs(2, 4).unwrap();
    let r3 = BoundedRational::from_longs(1, 3).unwrap();

    let mut set = HashSet::new();
    set.insert(r1);
    set.insert(r2);
    set.insert(r3);

    assert_eq!(set.len(), 2);
}

#[test]
fn int_value_six_halves_returns_three() {
    let r = BoundedRational::from_longs(6, 2).unwrap();
    assert_eq!(r.int_value(), Ok(3));
}

#[test]
fn int_value_one_third_returns_err() {
    let r = BoundedRational::from_longs(1, 3).unwrap();
    assert!(r.int_value().is_err());
}

#[test]
fn int_value_negative_integer() {
    let r = BoundedRational::from_longs(-8, 2).unwrap();
    assert_eq!(r.int_value(), Ok(-4));
}

#[test]
fn int_value_zero() {
    let r = BoundedRational::from_long(0);
    assert_eq!(r.int_value(), Ok(0));
}

#[test]
fn int_value_out_of_i64_range_errs() {
    let huge = BigInt::from(i64::MAX) + BigInt::from(1);
    let r = BoundedRational::from_bigint(huge);
    assert!(r.int_value().is_err());
}

#[test]
fn int_value_negative_denominator_still_reduces_correctly() {
    // -6/-2 reduces to 3/1
    let r = BoundedRational::from_longs(-6, -2).unwrap();
    assert_eq!(r.int_value(), Ok(3));
}

#[test]
fn double_value_fast_path_large_integer() {
    let r = BoundedRational::from_longs(-100, -1).unwrap(); // reduces to 100/1
    assert_eq!(r.double_value(), 100.0);
}

#[test]
fn double_value_fast_path_matches_slow_path_result() {
    let as_fraction = BoundedRational::from_longs(20, 4).unwrap(); // reduces to 5/1
    let as_integer = BoundedRational::from_long(5);
    assert_eq!(as_fraction.double_value(), as_integer.double_value());
}

#[test]
fn double_value_exact_half() {
    let r = BoundedRational::from_longs(1, 2).unwrap();
    assert_eq!(r.double_value(), 0.5);
}

#[test]
fn double_value_negative_fraction() {
    let r = BoundedRational::from_longs(-3, 4).unwrap();
    assert_eq!(r.double_value(), -0.75);
}

#[test]
fn double_value_integer() {
    let r = BoundedRational::from_long(5);
    assert_eq!(r.double_value(), 5.0);
}

#[test]
fn double_value_zero() {
    let r = BoundedRational::from_long(0);
    assert_eq!(r.double_value(), 0.0);
}

#[test]
fn double_value_repeating_fraction_is_close() {
    let r = BoundedRational::from_longs(1, 3).unwrap();
    assert!((r.double_value() - (1.0 / 3.0)).abs() < 1e-15);
}

#[test]
fn double_value_largest_finite_f64() {
    let r = BoundedRational::value_of_double(f64::MAX).unwrap();
    assert_eq!(r.double_value(), f64::MAX);
}

#[test]
fn double_value_overflow_returns_infinity() {
    let max_r = BoundedRational::value_of_double(f64::MAX).unwrap();
    let doubled =
        BoundedRational::multiply(Some(max_r), Some(BoundedRational::from_long(2))).unwrap();
    assert_eq!(doubled.double_value(), f64::INFINITY);
}

#[test]
fn double_value_negative_overflow_returns_negative_infinity() {
    let max_r = BoundedRational::value_of_double(f64::MAX).unwrap();
    let doubled =
        BoundedRational::multiply(Some(max_r), Some(BoundedRational::from_long(-2))).unwrap();
    assert_eq!(doubled.double_value(), f64::NEG_INFINITY);
}

#[test]
fn double_value_smallest_normal() {
    // 2^-1022, the smallest positive normal f64.
    let r = BoundedRational::new(BigInt::from(1), BigInt::from(1) << 1022).unwrap();
    assert_eq!(r.double_value(), f64::MIN_POSITIVE);
}

#[test]
fn double_value_largest_subnormal() {
    // (2^52 - 1) * 2^-1074, the largest positive subnormal f64 —
    // one ULP (Unit in the Last Place) below the smallest normal.
    let numerator = (BigInt::from(1) << 52) - BigInt::from(1);
    let r = BoundedRational::new(numerator, BigInt::from(1) << 1074).unwrap();
    let expected = f64::MIN_POSITIVE - f64::from_bits(1);
    assert_eq!(r.double_value(), expected);
}

#[test]
fn double_value_smallest_subnormal() {
    // 2^-1074, the smallest positive representable f64 at all.
    let r = BoundedRational::new(BigInt::from(1), BigInt::from(1) << 1074).unwrap();
    assert_eq!(r.double_value(), f64::from_bits(1));
}

#[test]
fn double_value_negative_smallest_subnormal() {
    let r = BoundedRational::new(BigInt::from(-1), BigInt::from(1) << 1074).unwrap();
    assert_eq!(r.double_value(), -f64::from_bits(1));
}

#[test]
fn double_value_positive_halfway_rounds_away_from_zero() {
    // 2^53 + 1, over denominator 2, sits exactly halfway between the
    // representable f64 values 2^52 and 2^52 + 1 (ULP is 1 there).
    // Ties-away-from-zero must pick the larger-magnitude neighbor.
    let two_pow_52 = BigInt::from(1) << 52;
    let numerator: BigInt = &two_pow_52 * BigInt::from(2) + BigInt::from(1);
    let r = BoundedRational::new(numerator, BigInt::from(2)).unwrap();

    let neighbor: BigInt = &two_pow_52 + BigInt::from(1);
    let expected = match neighbor.to_string().parse::<f64>().ok() {
        Some(v) => v,
        None => panic!("expected value must be representable"),
    };
    assert_eq!(r.double_value(), expected);
}

#[test]
fn double_value_negative_halfway_rounds_away_from_zero() {
    let two_pow_52 = BigInt::from(1) << 52;
    let magnitude: BigInt = &two_pow_52 * BigInt::from(2) + BigInt::from(1);
    let numerator = -magnitude;
    let r = BoundedRational::new(numerator, BigInt::from(2)).unwrap();

    let neighbor: BigInt = &two_pow_52 + BigInt::from(1);
    let expected = match neighbor.to_string().parse::<f64>().ok() {
        Some(v) => -v,
        None => panic!("expected value must be representable"),
    };
    assert_eq!(r.double_value(), expected);
}

#[test]
fn double_value_halfway_between_zero_and_smallest_subnormal() {
    // Exactly half the smallest subnormal (2^-1075) sits precisely
    // between 0.0 and the smallest representable f64. Ties away from
    // zero means this should round up to the smallest subnormal, not
    // down to zero, and must not panic or produce NaN.
    let r = BoundedRational::new(BigInt::from(1), BigInt::from(1) << 1075).unwrap();
    assert_eq!(r.double_value(), f64::from_bits(1));
}

#[test]
fn double_value_negative_halfway_between_zero_and_smallest_subnormal() {
    let r = BoundedRational::new(BigInt::from(-1), BigInt::from(1) << 1075).unwrap();
    assert_eq!(r.double_value(), -f64::from_bits(1));
}

#[test]
fn double_value_huge_numerator_and_denominator_evaluates_to_two() {
    // Both numerator and denominator have thousands of bits, but their
    // exact ratio is 2. Confirms no panic and no silent mantissa
    // truncation when reducing/dividing very large BigInts.
    let factor = (BigInt::from(1) << 3000) + BigInt::from(1);
    let numerator = &factor * BigInt::from(2);
    let r = BoundedRational::new(numerator, factor).unwrap();
    assert_eq!(r.double_value(), 2.0);
}

#[test]
fn double_value_huge_numerator_and_denominator_evaluates_to_one_point_five() {
    let factor = (BigInt::from(1) << 3000) + BigInt::from(1);
    let numerator = &factor * BigInt::from(3);
    let denominator = &factor * BigInt::from(2);
    let r = BoundedRational::new(numerator, denominator).unwrap();
    assert_eq!(r.double_value(), 1.5);
}

#[test]
fn to_string_truncated_one_third_two_digits() {
    let r = BoundedRational::from_longs(1, 3).unwrap();
    assert_eq!(r.to_string_truncated(2), "0.33");
}

#[test]
fn to_string_truncated_negative_value() {
    let r = BoundedRational::from_longs(-1, 3).unwrap();
    assert_eq!(r.to_string_truncated(2), "-0.33");
}

#[test]
fn to_string_truncated_pads_leading_zeros() {
    let r = BoundedRational::from_longs(1, 1000).unwrap();
    assert_eq!(r.to_string_truncated(2), "0.00");
}

#[test]
fn to_string_truncated_zero_precision() {
    let r = BoundedRational::from_long(5);
    assert_eq!(r.to_string_truncated(0), "5.");
}

#[test]
fn to_string_truncated_negative_denominator_still_correct_sign() {
    // 1/-3 is negative, even though signum uses the raw (unreduced) form.
    let r = BoundedRational::from_longs(1, -3).unwrap();
    assert_eq!(r.to_string_truncated(2), "-0.33");
}

#[test]
fn display_basic_fraction() {
    let r = BoundedRational::from_longs(3, 4).unwrap();
    assert_eq!(r.to_string(), "3/4");
}

#[test]
fn display_negative_denominator_shown_raw() {
    let r = BoundedRational::from_longs(3, -4).unwrap();
    assert_eq!(r.to_string(), "3/-4");
}
