#![allow(unused_imports)]
use boehm_reals::bigint::BigInt;
use boehm_reals::evaluation::bounded_rational::{BoundedRational, NonFiniteError, ZeroDenominatorError};
use boehm_reals::evaluation::constants::{minus_one, one, zero, MAX_SIZE};
use boehm_reals::evaluation::errors::ZeroDivisionError;
use std::cmp::Ordering;

/// The integer written in decimal in `s`, built digit by digit.
fn big_from_decimal(s: &str) -> BigInt {
    let mut acc = BigInt::from(0);
    for c in s.chars() {
        let digit = c.to_digit(10).expect("decimal digit");
        acc = acc * BigInt::from(10) + BigInt::from(digit);
    }
    acc
}

/// The rational `n/d`, both written in decimal.
fn br_from_str(n: &str, d: &str) -> BoundedRational {
    BoundedRational::new(big_from_decimal(n), big_from_decimal(d)).unwrap()
}

fn br(n: i64, d: i64) -> BoundedRational {
    BoundedRational::from_longs(n, d).unwrap()
}

fn assert_value<N: Into<BigInt>, D: Into<BigInt>>(r: &BoundedRational, num: N, den: D) {
    let reduced = r.reduce().positive_den();
    let expected = BoundedRational::new(num.into(), den.into())
        .unwrap()
        .reduce()
        .positive_den();
    assert_eq!(*reduced.numerator(), *expected.numerator());
    assert_eq!(*reduced.denominator(), *expected.denominator());
}


#[test]
fn mul_ref_ref_basic() {
    let a = br(1, 2);
    let b = br(2, 3);
    let product = &a * &b;
    assert_value(&product, 1, 3);
    assert_value(&a, 1, 2); // a still usable
    assert_value(&b, 2, 3); // b still usable
}

#[test]
fn mul_ref_val_basic() {
    let a = br(1, 2);
    let product = &a * br(2, 3);
    assert_value(&product, 1, 3);
    assert_value(&a, 1, 2); // a still usable
}

#[test]
fn mul_val_ref_basic() {
    let a = br(1, 2);
    let b = br(2, 3);
    let product = a * &b;
    assert_value(&product, 1, 3);
    assert_value(&b, 2, 3); // b still usable
}

#[test]
fn mul_val_val_basic() {
    let a = br(1, 2);
    let b = br(2, 3);
    let product = a * b;
    assert_value(&product, 1, 3);
}

#[test]
fn mul_by_one_returns_other_unchanged() {
    let a = br(1, 1);
    let b = br(3, 7);
    let product = &a * &b;
    assert_value(&product, 3, 7);
}

#[test]
fn mul_one_by_other_returns_other_unchanged() {
    let a = br(3, 7);
    let b = br(1, 1);
    let product = &a * &b;
    assert_value(&product, 3, 7);
}

#[test]
fn mul_by_minus_one_negates_numerator() {
    let a = br(-1, 1);
    let b = br(3, 7);
    let product = &a * &b;
    assert_value(&product, -3, 7);
}

#[test]
fn mul_minus_one_by_other_negates_numerator() {
    let a = br(3, 7);
    let b = br(-1, 1);
    let product = &a * &b;
    assert_value(&product, -3, 7);
}

#[test]
fn mul_minus_one_by_minus_one() {
    let a = br(-1, 1);
    let b = br(-1, 1);
    let product = &a * &b;
    assert_value(&product, 1, 1);
}

#[test]
fn mul_by_zero_is_zero() {
    let a = br(0, 1);
    let b = br(5, 9);
    let product = &a * &b;
    assert_value(&product, 0, 1);
}

#[test]
fn mul_zero_by_zero_is_zero() {
    let a = br(0, 1);
    let b = br(0, 1);
    let product = &a * &b;
    assert_value(&product, 0, 1);
}

#[test]
fn mul_negative_by_positive() {
    let a = br(-2, 3);
    let b = br(5, 7);
    let product = &a * &b;
    assert_value(&product, -10, 21);
}

#[test]
fn mul_negative_by_negative_yields_positive() {
    let a = br(-2, 3);
    let b = br(-5, 7);
    let product = &a * &b;
    assert_value(&product, 10, 21);
}

#[test]
fn mul_with_negative_denominator_normalizes_sign() {
    let a = br(3, -4);
    let b = br(2, 5);
    let product = &a * &b;
    assert_value(&product, -3, 10);
}

#[test]
fn mul_result_gets_reduced() {
    let a = br(2, 4); // reduces internally to 1/2 conceptually
    let b = br(3, 9); // 1/3
    let product = &a * &b;
    assert_value(&product, 1, 6);
}

#[test]
fn mul_common_factors_cancel() {
    let a = br(4, 9);
    let b = br(9, 4);
    let product = &a * &b;
    assert_value(&product, 1, 1);
}

#[test]
fn mul_large_numerators_triggers_pre_reduction() {
    // Values sized to exceed MAX_SIZE * 3/4 bit threshold, forcing the
    // reduce()+positive_den() path before multiplying.
    let a = br_from_str(
        "123456789012345678901234567890123456789",
        "987654321098765432109876543210987654321",
    );
    let b = br_from_str(
        "111111111111111111111111111111111111111",
        "222222222222222222222222222222222222221",
    );
    let product = &a * &b;
    // Sanity: result should be well-formed and reproducible via commutation
    let product_swapped = &b * &a;
    assert_eq!(product, product_swapped);
}

#[test]
fn mul_is_commutative() {
    let a = br(3, 5);
    let b = br(7, 11);
    assert_eq!(&a * &b, &b * &a);
}

#[test]
fn mul_is_associative() {
    let a = br(1, 2);
    let b = br(2, 3);
    let c = br(3, 4);
    let left = &(&a * &b) * &c;
    let right = &a * &(&b * &c);
    assert_eq!(left, right);
}

#[test]
fn mul_assign_ref_basic() {
    let mut a = br(1, 2);
    let b = br(2, 3);
    a *= &b;
    assert_value(&a, 1, 3);
    assert_value(&b, 2, 3); // b still usable
}

#[test]
fn mul_assign_val_basic() {
    let mut a = br(1, 2);
    a *= br(2, 3);
    assert_value(&a, 1, 3);
}

#[test]
fn mul_assign_by_one_no_change() {
    let mut a = br(5, 9);
    a *= br(1, 1);
    assert_value(&a, 5, 9);
}

#[test]
fn mul_assign_by_minus_one_negates() {
    let mut a = br(5, 9);
    a *= br(-1, 1);
    assert_value(&a, -5, 9);
}

#[test]
fn mul_assign_by_zero() {
    let mut a = br(5, 9);
    a *= br(0, 1);
    assert_value(&a, 0, 1);
}

#[test]
fn mul_assign_repeated() {
    let mut a = br(1, 1);
    for _ in 0..5 {
        a *= br(2, 1);
    }
    assert_value(&a, 32, 1);
}

#[test]
fn mul_u8_scalar() {
    let a = br(1, 3);
    let product = a * 6u8;
    assert_value(&product, 2, 1);
}

#[test]
fn mul_i8_negative_scalar() {
    let a = br(1, 3);
    let product = a * (-6i8);
    assert_value(&product, -2, 1);
}

#[test]
fn mul_usize_scalar() {
    let a = br(1, 4);
    let product = a * 8usize;
    assert_value(&product, 2, 1);
}

#[test]
fn mul_isize_negative_scalar() {
    let a = br(1, 4);
    let product = a * (-8isize);
    assert_value(&product, -2, 1);
}

#[test]
fn mul_u32_scalar_val() {
    let a = br(1, 6);
    let product = a * 3u32;
    assert_value(&product, 1, 2);
}

#[test]
fn mul_u32_scalar_ref() {
    let a = br(1, 6);
    let product = &a * 3u32;
    assert_value(&product, 1, 2);
    assert_value(&a, 1, 6); // a still usable
}

#[test]
fn mul_u32_commutative_scalar_first() {
    let a = br(1, 6);
    let product = 3u32 * &a;
    assert_value(&product, 1, 2);
}

#[test]
fn mul_u64_scalar_zero() {
    let a = br(5, 7);
    let product = a * 0u64;
    assert_value(&product, 0, 1);
}

#[test]
fn mul_u128_scalar_large() {
    let a = br(1, 2);
    let product = a * u128::MAX;
    // just verify denominator becomes 2 and numerator equals u128::MAX
    assert_value(&product, u128::MAX, 2);
}

#[test]
fn mul_i32_scalar_negative() {
    let a = br(2, 5);
    let product = a * (-3i32);
    assert_value(&product, -6, 5);
}

#[test]
fn mul_i64_scalar_val_and_ref_equivalent() {
    let a = br(2, 5);
    let b = a.clone();
    let via_val = a * 4i64;
    let via_ref = &b * 4i64;
    assert_eq!(via_val, via_ref);
}

#[test]
fn mul_i128_scalar_min_value() {
    let a = br(1, 1);
    let product = a * i128::MIN;
    assert_value(&product, i128::MIN, 1);
}

#[test]
fn mul_assign_u32_scalar() {
    let mut a = br(1, 6);
    a *= 3u32;
    assert_value(&a, 1, 2);
}

#[test]
fn mul_assign_u32_ref_scalar() {
    let mut a = br(1, 6);
    a *= &3u32;
    assert_value(&a, 1, 2);
}

#[test]
fn mul_assign_i32_negative_scalar() {
    let mut a = br(1, 6);
    a *= -3i32;
    assert_value(&a, -1, 2);
}

#[test]
fn mul_assign_u64_scalar() {
    let mut a = br(1, 3);
    a *= 9u64;
    assert_value(&a, 3, 1);
}

#[test]
fn mul_assign_i64_ref_scalar() {
    let mut a = br(1, 3);
    a *= &(-9i64);
    assert_value(&a, -3, 1);
}

#[test]
fn mul_assign_u128_scalar() {
    let mut a = br(1, 2);
    a *= 2u128;
    assert_value(&a, 1, 1);
}

#[test]
fn mul_assign_i128_scalar() {
    let mut a = br(1, 2);
    a *= -2i128;
    assert_value(&a, -1, 1);
}

#[test]
fn mul_bigint_val() {
    let a = br(1, 6);
    let product = a * BigInt::from(3);
    assert_value(&product, 1, 2);
}

#[test]
fn mul_bigint_ref() {
    let a = br(1, 6);
    let product = a * &BigInt::from(3);
    assert_value(&product, 1, 2);
}

#[test]
fn mul_ref_bigint_val() {
    let a = br(1, 6);
    let product = &a * BigInt::from(3);
    assert_value(&product, 1, 2);
    assert_value(&a, 1, 6); // a still usable
}

#[test]
fn mul_ref_bigint_ref() {
    let a = br(1, 6);
    let product = &a * &BigInt::from(3);
    assert_value(&product, 1, 2);
    assert_value(&a, 1, 6); // a still usable
}

#[test]
fn mul_bigint_by_boundedrational_val() {
    let a = br(1, 6);
    let product = BigInt::from(3) * a;
    assert_value(&product, 1, 2);
}

#[test]
fn mul_bigint_ref_by_boundedrational_val() {
    let a = br(1, 6);
    let product = &BigInt::from(3) * a;
    assert_value(&product, 1, 2);
}

#[test]
fn mul_bigint_by_boundedrational_ref() {
    let a = br(1, 6);
    let product = BigInt::from(3) * &a;
    assert_value(&product, 1, 2);
    assert_value(&a, 1, 6); // a still usable
}

#[test]
fn mul_bigint_ref_by_boundedrational_ref() {
    let a = br(1, 6);
    let product = &BigInt::from(3) * &a;
    assert_value(&product, 1, 2);
    assert_value(&a, 1, 6); // a still usable
}

#[test]
fn mul_bigint_negative() {
    let a = br(1, 6);
    let product = a * BigInt::from(-3);
    assert_value(&product, -1, 2);
}

#[test]
fn mul_bigint_zero() {
    let a = br(5, 7);
    let product = a * BigInt::from(0);
    assert_value(&product, 0, 1);
}

#[test]
fn mul_assign_bigint_val() {
    let mut a = br(1, 6);
    a *= BigInt::from(3);
    assert_value(&a, 1, 2);
}

#[test]
fn mul_assign_bigint_ref() {
    let mut a = br(1, 6);
    a *= &BigInt::from(3);
    assert_value(&a, 1, 2);
}

#[test]
fn mul_assign_bigint_negative() {
    let mut a = br(1, 6);
    a *= BigInt::from(-3);
    assert_value(&a, -1, 2);
}

#[test]
fn product_empty_iterator_is_one() {
    let values: Vec<BoundedRational> = vec![];
    let product = BoundedRational::product_all(&values).unwrap();
    assert_value(&product, 1, 1);
}

#[test]
fn product_single_element() {
    let values = vec![br(3, 5)];
    let product = BoundedRational::product_all(&values).unwrap();
    assert_value(&product, 3, 5);
}

#[test]
fn product_multiple_elements() {
    let values = vec![br(1, 2), br(2, 3), br(3, 4)];
    let product = BoundedRational::product_all(&values).unwrap();
    assert_value(&product, 1, 4);
}

#[test]
fn product_with_zero_element_is_zero() {
    let values = vec![br(1, 2), br(0, 1), br(3, 4)];
    let product = BoundedRational::product_all(&values).unwrap();
    assert_value(&product, 0, 1);
}

#[test]
fn product_with_negative_elements() {
    let values = vec![br(-1, 2), br(-2, 3)];
    let product = BoundedRational::product_all(&values).unwrap();
    assert_value(&product, 1, 3);
}

#[test]
fn product_of_refs() {
    let a = br(1, 2);
    let b = br(2, 3);
    let c = br(3, 4);
    let values = [a.clone(), b.clone(), c.clone()];
    let product = BoundedRational::product_all(&values).unwrap();
    assert_value(&product, 1, 4);
    // originals still usable
    assert_value(&a, 1, 2);
    assert_value(&b, 2, 3);
    assert_value(&c, 3, 4);
}
