#![allow(unused_imports)]
use boehm_reals::bigint::BigInt;
use boehm_reals::evaluation::bounded_rational::{BoundedRational, NonFiniteError, ZeroDenominatorError};
use boehm_reals::evaluation::constants::{minus_one, one, zero, MAX_SIZE};
use boehm_reals::evaluation::errors::ZeroDivisionError;
use std::cmp::Ordering;

fn br(n: i64, d: i64) -> BoundedRational {
    BoundedRational::from_longs(n, d).unwrap()
}

fn assert_value(r: &BoundedRational, num: i64, den: i64) {
    let reduced = r.reduce().positive_den();
    let expected = BoundedRational::from_longs(num, den)
        .unwrap()
        .reduce()
        .positive_den();
    assert_eq!(*reduced.numerator(), *expected.numerator());
    assert_eq!(*reduced.denominator(), *expected.denominator());
}


#[test]
fn sub_ref_ref_basic() {
    let a = br(3, 4);
    let b = br(1, 4);
    let diff = &a - &b;
    assert_value(&diff, 1, 2);
    assert_value(&a, 3, 4); // a still usable
    assert_value(&b, 1, 4); // b still usable
}

#[test]
fn sub_ref_val_basic() {
    let a = br(1, 2);
    let diff = &a - br(1, 3);
    assert_value(&diff, 1, 6);
    assert_value(&a, 1, 2); // a still usable
}

#[test]
fn sub_val_ref_basic() {
    let a = br(1, 2);
    let b = br(1, 3);
    let diff = a - &b;
    assert_value(&diff, 1, 6);
    assert_value(&b, 1, 3); // b still usable
}

#[test]
fn sub_val_val_basic() {
    let a = br(1, 2);
    let b = br(1, 3);
    let diff = a - b;
    assert_value(&diff, 1, 6);
}

#[test]
fn sub_subtracting_zero_is_identity() {
    let a = br(5, 7);
    let zero = br(0, 1);
    let diff = &a - &zero;
    assert_value(&diff, 5, 7);
}

#[test]
fn sub_zero_minus_value_negates() {
    let zero = br(0, 1);
    let a = br(5, 7);
    let diff = &zero - &a;
    assert_value(&diff, -5, 7);
}

#[test]
fn sub_equal_values_yields_zero() {
    let a = br(7, 9);
    let b = br(7, 9);
    let diff = &a - &b;
    assert_value(&diff, 0, 1);
}

#[test]
fn sub_self_yields_zero() {
    let a = br(11, 13);
    let diff = &a - &a;
    assert_value(&diff, 0, 1);
}

#[test]
fn sub_result_is_negative() {
    let a = br(1, 4);
    let b = br(1, 2);
    let diff = a - b;
    assert_value(&diff, -1, 4);
}

#[test]
fn sub_negative_minus_negative() {
    let a = br(-1, 3);
    let b = br(-1, 6);
    let diff = a - b;
    assert_value(&diff, -1, 6);
}

#[test]
fn sub_negative_minus_positive() {
    let a = br(-1, 2);
    let b = br(1, 2);
    let diff = a - b;
    assert_value(&diff, -1, 1);
}

#[test]
fn sub_different_denominators_reduces() {
    // 2/4 - 1/4 = 1/4 (numerator should reduce, not stay 2/4 - 1/4 unreduced)
    let a = br(2, 4);
    let b = br(1, 4);
    let diff = a - b;
    assert_value(&diff, 1, 4);
}

#[test]
fn sub_whole_numbers() {
    let a = br(10, 1);
    let b = br(3, 1);
    let diff = a - b;
    assert_value(&diff, 7, 1);
}

#[test]
fn sub_large_numerators() {
    let a = br(1_000_000_007, 1);
    let b = br(999_999_999, 1);
    let diff = a - b;
    assert_value(&diff, 8, 1);
}

#[test]
fn sub_assign_ref() {
    let mut a = br(3, 4);
    let b = br(1, 4);
    a -= &b;
    assert_value(&a, 1, 2);
}

#[test]
fn sub_assign_val() {
    let mut a = br(3, 4);
    let b = br(1, 4);
    a -= b;
    assert_value(&a, 1, 2);
}

#[test]
fn sub_assign_chained() {
    let mut a = br(10, 1);
    a -= br(3, 1);
    a -= br(2, 1);
    a -= &br(1, 1);
    assert_value(&a, 4, 1);
}

#[test]
fn sub_assign_to_zero() {
    let mut a = br(5, 6);
    a -= br(5, 6);
    assert_value(&a, 0, 1);
}

#[test]
fn sub_boundedrational_minus_u32() {
    let a = br(7, 2);
    let diff = a - 3u32;
    assert_value(&diff, 1, 2);
}

#[test]
fn sub_u32_minus_boundedrational() {
    let a = br(1, 2);
    let diff = 3u32 - a;
    assert_value(&diff, 5, 2);
}

#[test]
fn sub_ref_boundedrational_minus_ref_u32() {
    let a = br(7, 2);
    let n: u32 = 3;
    let diff = &a - &n;
    assert_value(&diff, 1, 2);
    assert_value(&a, 7, 2);
}

#[test]
fn sub_assign_u32() {
    let mut a = br(7, 2);
    a -= 3u32;
    assert_value(&a, 1, 2);
}

#[test]
fn sub_assign_ref_u32() {
    let mut a = br(7, 2);
    a -= &3u32;
    assert_value(&a, 1, 2);
}

#[test]
fn sub_boundedrational_minus_i32() {
    let a = br(1, 2);
    let diff = a - (-3i32);
    assert_value(&diff, 7, 2);
}

#[test]
fn sub_i32_minus_boundedrational() {
    let a = br(1, 2);
    let diff = -3i32 - a;
    assert_value(&diff, -7, 2);
}

#[test]
fn sub_assign_i32_negative() {
    let mut a = br(1, 2);
    a -= -3i32;
    assert_value(&a, 7, 2);
}

#[test]
fn sub_boundedrational_minus_u64() {
    let a = br(9, 1);
    let diff = a - 4u64;
    assert_value(&diff, 5, 1);
}

#[test]
fn sub_u64_minus_boundedrational() {
    let a = br(4, 1);
    let diff = 9u64 - a;
    assert_value(&diff, 5, 1);
}

#[test]
fn sub_assign_u64() {
    let mut a = br(9, 1);
    a -= 4u64;
    assert_value(&a, 5, 1);
}

#[test]
fn sub_boundedrational_minus_i64() {
    let a = br(1, 3);
    let diff = a - (-2i64);
    assert_value(&diff, 7, 3);
}

#[test]
fn sub_assign_ref_i64() {
    let mut a = br(1, 3);
    a -= &(-2i64);
    assert_value(&a, 7, 3);
}

#[test]
fn sub_boundedrational_minus_u128_large() {
    let a = br(1, 1);
    let big: u128 = u128::MAX;
    let diff = a.clone() - big;

    let expected_num = BigInt::from(1) - BigInt::from(u128::MAX);
    let expected = BoundedRational::from_bigint(expected_num);

    assert_eq!(diff, expected);
}

#[test]
fn sub_u128_minus_boundedrational() {
    let a = br(1, 1);
    let diff = 5u128 - a;
    assert_value(&diff, 4, 1);
}

#[test]
fn sub_assign_u128() {
    let mut a = br(10, 1);
    a -= 3u128;
    assert_value(&a, 7, 1);
}

#[test]
fn sub_boundedrational_minus_i128_negative() {
    let a = br(0, 1);
    let diff = a - (-1i128);
    assert_value(&diff, 1, 1);
}

#[test]
fn sub_assign_ref_i128() {
    let mut a = br(10, 1);
    a -= &3i128;
    assert_value(&a, 7, 1);
}

#[test]
fn sub_boundedrational_minus_u8() {
    let a = br(20, 1);
    let diff = a - 5u8;
    assert_value(&diff, 15, 1);
}

#[test]
fn sub_boundedrational_minus_u16() {
    let a = br(1000, 1);
    let diff = a - 999u16;
    assert_value(&diff, 1, 1);
}

#[test]
fn sub_boundedrational_minus_usize() {
    let a = br(50, 1);
    let diff = a - 50usize;
    assert_value(&diff, 0, 1);
}

#[test]
fn sub_boundedrational_minus_i8() {
    let a = br(5, 1);
    let diff = a - (-5i8);
    assert_value(&diff, 10, 1);
}

#[test]
fn sub_boundedrational_minus_i16() {
    let a = br(100, 1);
    let diff = a - (-100i16);
    assert_value(&diff, 200, 1);
}

#[test]
fn sub_boundedrational_minus_isize() {
    let a = br(0, 1);
    let diff = a - (-1isize);
    assert_value(&diff, 1, 1);
}

#[test]
fn sub_assign_promoted_u8() {
    let mut a = br(20, 1);
    a -= 5u8;
    assert_value(&a, 15, 1);
}

#[test]
fn sub_assign_promoted_ref_i16() {
    let mut a = br(100, 1);
    a -= &(-100i16);
    assert_value(&a, 200, 1);
}

#[test]
fn sub_boundedrational_minus_bigint() {
    let a = br(10, 1);
    let big = BigInt::from(4);
    let diff = a - big;
    assert_value(&diff, 6, 1);
}

#[test]
fn sub_boundedrational_minus_ref_bigint() {
    let a = br(10, 1);
    let big = BigInt::from(4);
    let diff = a - &big;
    assert_value(&diff, 6, 1);
}

#[test]
fn sub_ref_boundedrational_minus_bigint() {
    let a = br(10, 1);
    let big = BigInt::from(4);
    let diff = &a - big;
    assert_value(&diff, 6, 1);
    assert_value(&a, 10, 1); // a still usable
}

#[test]
fn sub_ref_boundedrational_minus_ref_bigint() {
    let a = br(10, 1);
    let big = BigInt::from(4);
    let diff = &a - &big;
    assert_value(&diff, 6, 1);
}

#[test]
fn sub_bigint_minus_boundedrational() {
    let a = br(4, 1);
    let big = BigInt::from(10);
    let diff = big - a;
    assert_value(&diff, 6, 1);
}

#[test]
fn sub_ref_bigint_minus_boundedrational() {
    let a = br(4, 1);
    let big = BigInt::from(10);
    let diff = &big - a;
    assert_value(&diff, 6, 1);
}

#[test]
fn sub_bigint_minus_ref_boundedrational() {
    let a = br(4, 1);
    let big = BigInt::from(10);
    let diff = big - &a;
    assert_value(&diff, 6, 1);
    assert_value(&a, 4, 1);
}

#[test]
fn sub_ref_bigint_minus_ref_boundedrational() {
    let a = br(4, 1);
    let big = BigInt::from(10);
    let diff = &big - &a;
    assert_value(&diff, 6, 1);
}

#[test]
fn sub_boundedrational_minus_negative_bigint() {
    let a = br(5, 1);
    let big = BigInt::from(-5);
    let diff = a - big;
    assert_value(&diff, 10, 1);
}

#[test]
fn sub_bigint_larger_than_i128() {
    // Exercise BigInt path with a value outside i128 range.
    let a = br(0, 1);
    let huge = BigInt::from(123456789012345678901234567890123456789u128);
    let diff = &huge - &a;

    // Expected result is just `huge` as an integer BoundedRational (denominator 1),
    // since a = 0. Compare directly instead of poking at internal parts.
    let expected = BoundedRational::from_bigint(huge.clone());
    assert_eq!(diff, expected);
}

#[test]
fn sub_assign_bigint() {
    let mut a = br(10, 1);
    a -= BigInt::from(4);
    assert_value(&a, 6, 1);
}

#[test]
fn sub_assign_ref_bigint() {
    let mut a = br(10, 1);
    let big = BigInt::from(4);
    a -= &big;
    assert_value(&a, 6, 1);
}

#[test]
fn sub_assign_bigint_to_negative() {
    let mut a = br(3, 1);
    a -= BigInt::from(10);
    assert_value(&a, -7, 1);
}

#[test]
fn sub_fractions_with_common_reduction() {
    // 5/6 - 1/6 = 4/6 -> reduces to 2/3
    let a = br(5, 6);
    let b = br(1, 6);
    let diff = a - b;
    assert_value(&diff, 2, 3);
}

#[test]
fn sub_fractions_coprime_denominators() {
    // 1/3 - 1/5 = 2/15
    let a = br(1, 3);
    let b = br(1, 5);
    let diff = a - b;
    assert_value(&diff, 2, 15);
}

#[test]
fn sub_negative_fraction_minus_negative_scalar() {
    let a = br(-1, 2);
    let diff = a - (-1i32);
    assert_value(&diff, 1, 2);
}
