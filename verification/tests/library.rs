//! Errors, edge cases and conversions of the library.
use boehm_reals::bigint::BigInt;
use boehm_reals::bytes::i64_at;
use boehm_reals::creals::string_float_rep::StringFloatRep as PlainFloatRep;
use boehm_reals::evaluation::creals::cr::{scale, shift};
use boehm_reals::evaluation::bounded_rational::{BoundedRational, NonFiniteError, ZeroDenominatorError};
use boehm_reals::evaluation::creals::string_float_rep::StringFloatRep;
use boehm_reals::evaluation::errors::ZeroDivisionError;

fn br(n: i64, d: i64) -> BoundedRational {
    BoundedRational::from_longs(n, d).unwrap()
}

#[test]
fn every_error_of_bounded_rational() {
    assert_eq!(BoundedRational::new(BigInt::from(1), BigInt::from(0)).unwrap_err(), ZeroDenominatorError);
    assert_eq!(BoundedRational::from_longs(1, 0).unwrap_err(), ZeroDenominatorError);
    assert_eq!(BoundedRational::inverse(Some(br(0, 3))).unwrap_err(), ZeroDivisionError);
    assert_eq!(BoundedRational::divide(Some(br(1, 3)), Some(br(0, 5))).unwrap_err(), ZeroDivisionError);
    assert_eq!(br(1, 3).checked_div(&br(0, -2)).unwrap_err(), ZeroDivisionError);
    assert_eq!(br(7, 2).int_value(), Err("intValue of non-int"));
    let big = BoundedRational::from_bigint(BigInt::from(1) << 63usize);
    assert_eq!(big.int_value(), Err("intValue: numerator does not fit in i64"));
    assert_eq!(
        BoundedRational::value_of_double_bits(f64::NAN.to_bits()).unwrap_err(),
        NonFiniteError
    );
    assert_eq!(
        BoundedRational::value_of_double_bits(f64::NEG_INFINITY.to_bits()).unwrap_err(),
        NonFiniteError
    );
}

#[test]
fn none_propagates_through_the_option_functions() {
    assert!(BoundedRational::add(Some(br(1, 2)), None).is_none());
    assert!(BoundedRational::multiply(None, Some(br(1, 2))).is_none());
    assert!(BoundedRational::negate(None).is_none());
    assert_eq!(BoundedRational::divide(None, Some(br(1, 2))), Ok(None));
    assert_eq!(BoundedRational::inverse(None), Ok(None));
}

#[test]
fn value_of_double_bits_gives_exact_fractions() {
    // 0.1 is its significand 7205759403792794 over 2^56, not reduced
    let r = BoundedRational::value_of_double_bits(0.1f64.to_bits()).unwrap();
    assert_eq!(*r.numerator(), BigInt::from(7205759403792794i64));
    assert_eq!(*r.denominator(), BigInt::from(1) << 56usize);
    // 2^63 is exact, and so is -2^63 (i64::MIN, through the integer path)
    let top = BoundedRational::value_of_double_bits(9223372036854775808.0f64.to_bits()).unwrap();
    assert_eq!(*top.numerator(), BigInt::from(1) << 63usize);
    assert_eq!(*top.denominator(), BigInt::from(1));
    let bottom = BoundedRational::value_of_double_bits((-9223372036854775808.0f64).to_bits()).unwrap();
    assert_eq!(*bottom.numerator(), BigInt::from(i64::MIN));
    // 2^64 is exact
    let beyond = BoundedRational::value_of_double_bits(18446744073709551616.0f64.to_bits()).unwrap();
    assert_eq!(*beyond.numerator(), BigInt::from(1) << 64usize);
    assert_eq!(*beyond.denominator(), BigInt::from(1));
    // the smallest subnormal is 1 / 2^1074
    let tiny = BoundedRational::value_of_double_bits(1).unwrap();
    assert_eq!(*tiny.numerator(), BigInt::from(1));
    assert_eq!(*tiny.denominator(), BigInt::from(1) << 1074usize);
}

#[test]
fn double_value_bits_of_signed_values() {
    assert_eq!(br(-3, 4).double_value_bits(), (-0.75f64).to_bits());
    assert_eq!(br(3, -4).double_value_bits(), (-0.75f64).to_bits());
    assert_eq!(br(0, -4).double_value_bits(), 0);
    // below half the smallest subnormal: zero of the value's sign
    let below = BoundedRational::new(BigInt::from(-1), BigInt::from(1) << 1076usize).unwrap();
    assert_eq!(below.double_value_bits(), (-0.0f64).to_bits());
}

#[test]
fn to_string_truncated_examples_of_the_documentation() {
    assert_eq!(br(123456, 10000).to_string_truncated(2), "12.34");
    assert_eq!(br(-9876, 10000).to_string_truncated(3), "-0.987");
    assert_eq!(br(7, 1).to_string_truncated(3), "7.000");
}

#[test]
fn reduce_divides_by_the_gcd() {
    let r = br(-84, 36).reduce();
    assert_eq!(*r.numerator(), BigInt::from(-7));
    assert_eq!(*r.denominator(), BigInt::from(3));
    assert_eq!(BigInt::from(84).gcd(&BigInt::from(-36)), BigInt::from(12));
}

#[test]
fn bigint_conversions() {
    let x = (BigInt::from(1) << 70usize) - BigInt::from(1);
    assert_eq!(x.to_string(), "1180591620717411303423");
    assert_eq!(x.bits(), 70);
    assert_eq!(x.to_i64(), None);
    assert_eq!(BigInt::from(-5).to_i64(), Some(-5));
    assert_eq!((BigInt::from(-7) >> 1usize), BigInt::from(-4));
    assert_eq!(BigInt::from(-7) / BigInt::from(2), BigInt::from(-3));
    assert_eq!(-BigInt::from(7), BigInt::from(-7));
    assert!(BigInt::from(-7) < BigInt::from(2));
}

#[test]
fn string_float_rep_validation_errors() {
    assert_eq!(
        StringFloatRep::new(1, "12".to_string(), 1, "0".to_string()).unwrap_err(),
        "radix must be between 2 and 16, got 1"
    );
    assert_eq!(
        StringFloatRep::new(1, "12a".to_string(), 10, "0".to_string()).unwrap_err(),
        "mantissa contains invalid symbol 'a' for radix 10"
    );
    assert_eq!(
        StringFloatRep::new(1, "1F".to_string(), 16, "-1g".to_string()).unwrap_err(),
        "exponent contains invalid symbol 'g' for radix 16"
    );
}

#[test]
fn string_float_rep_display() {
    let r = StringFloatRep::new(1, "314159".to_string(), 10, "1".to_string()).unwrap();
    assert_eq!(r.to_string(), "3.14159e0");
    let n = StringFloatRep::new(-1, "25".to_string(), 10, "-3".to_string()).unwrap();
    assert_eq!(n.to_string(), "-2.5e-4");
    let h = StringFloatRep::new(1, "1f".to_string(), 16, "a".to_string()).unwrap();
    assert_eq!(h.to_string(), "1.fe9(radix 16)");
    let negative_hex = StringFloatRep::new(1, "8".to_string(), 16, "-1".to_string()).unwrap();
    assert_eq!(negative_hex.to_string(), "8.efffffffffffffffe(radix 16)");
}

#[test]
fn plain_string_float_rep_display() {
    let r = PlainFloatRep::new(-1, "12345".to_string(), 8, -3);
    assert_eq!(r.to_string(), "-12345E-3(radix 8)");
    let d = PlainFloatRep::new(1, "5".to_string(), 10, 2);
    assert_eq!(d.to_string(), "5E2");
}

#[test]
fn i64_at_reads_little_endian_with_zero_padding() {
    assert_eq!(i64_at(&[1, 0, 0, 0, 0, 0, 0, 0], 0), 1);
    assert_eq!(i64_at(&[0xff; 8], 0), -1);
    assert_eq!(i64_at(&[0, 0, 0, 0, 0, 0, 0, 0x80], 0), i64::MIN);
    assert_eq!(i64_at(&[1, 2], 1), 2);
    assert_eq!(i64_at(&[], 5), 0);
    let data: Vec<u8> = (0u8..20).map(|b| b.wrapping_mul(37)).collect();
    let mut word = [0u8; 8];
    word.copy_from_slice(&data[9..17]);
    assert_eq!(i64_at(&data, 9), i64::from_le_bytes(word));
    let mut tail = [0u8; 8];
    tail[..4].copy_from_slice(&data[16..20]);
    assert_eq!(i64_at(&data, 16), i64::from_le_bytes(tail));
}

#[test]
fn string_float_rep_examples_of_the_documentation() {
    let rep = StringFloatRep::new(-1, "5".to_string(), 10, "1".to_string()).unwrap();
    assert_eq!(rep.to_string(), "-5.e0");
    let rep = StringFloatRep::new(1, "1011".to_string(), 2, "1000".to_string()).unwrap();
    assert_eq!(rep.to_string(), "1.011e111(radix 2)");
}

#[test]
fn string_float_rep_constructor_examples_of_the_documentation() {
    assert!(StringFloatRep::new(-1, "5".to_string(), 10, "1".to_string()).is_ok());
    assert!(StringFloatRep::new(1, "5".to_string(), 10, "-2".to_string()).is_ok());
    assert!(StringFloatRep::new(1, "5".to_string(), 17, "1".to_string()).is_err());
    assert!(StringFloatRep::new(1, "g1".to_string(), 16, "1".to_string()).is_err());
    assert!(StringFloatRep::new(1, "5".to_string(), 10, "1z".to_string()).is_err());
    assert!(StringFloatRep::new(1, "1011".to_string(), 2, "8".to_string()).is_err());
    let rep = StringFloatRep::new(1, "314159".to_string(), 10, "1".to_string()).unwrap();
    assert_eq!(rep.to_string(), "3.14159e0");
    let plain = PlainFloatRep::new(1, "314159".to_string(), 10, 1);
    assert_eq!(plain.to_string(), "314159E1");
}

#[test]
fn shift_truncates_toward_zero_and_scale_rounds_ties_up() {
    assert_eq!(shift(BigInt::from(-7), -1), BigInt::from(-3));
    assert_eq!(shift(BigInt::from(7), -1), BigInt::from(3));
    assert_eq!(shift(BigInt::from(-8), -2), BigInt::from(-2));
    assert_eq!(shift(BigInt::from(-5), 3), BigInt::from(-40));
    // -7/2 = -3.5: ties up gives -3; -9/4 = -2.25 gives -2; -11/4 = -2.75 gives -3
    assert_eq!(scale(BigInt::from(-7), -1), BigInt::from(-3));
    assert_eq!(scale(BigInt::from(-9), -2), BigInt::from(-2));
    assert_eq!(scale(BigInt::from(-11), -2), BigInt::from(-3));
}

#[test]
fn string_float_rep_accepts_and_displays_degenerate_parts() {
    assert_eq!(
        StringFloatRep::new(1, "-5".to_string(), 10, "1".to_string()).unwrap_err(),
        "mantissa contains invalid symbol '-' for radix 10"
    );
    let empty = StringFloatRep::new(1, "".to_string(), 10, "1".to_string()).unwrap();
    assert_eq!(empty.to_string(), ".e0");
    let no_exponent = StringFloatRep::new(1, "5".to_string(), 10, "".to_string()).unwrap();
    assert_eq!(no_exponent.to_string(), "5.e-1");
    let lone_minus = StringFloatRep::new(-1, "5".to_string(), 10, "-".to_string()).unwrap();
    assert_eq!(lone_minus.to_string(), "-5.e-1");
    let large = StringFloatRep::new(1, "5".to_string(), 10, "99999999999999999999".to_string()).unwrap();
    assert_eq!(large.to_string(), "5.e99999999999999999998");
    let lowest = StringFloatRep::new(1, "5".to_string(), 10, "-9223372036854775808".to_string()).unwrap();
    assert_eq!(lowest.to_string(), "5.e-9223372036854775809");
    let lowest_hex = StringFloatRep::new(1, "5".to_string(), 16, "-8000000000000000".to_string()).unwrap();
    assert_eq!(lowest_hex.to_string(), "5.e-8000000000000001(radix 16)");
    let in_range = StringFloatRep::new(1, "5".to_string(), 10, "-9223372036854775807".to_string()).unwrap();
    assert_eq!(in_range.to_string(), "5.e-9223372036854775808");
}

#[test]
fn scale_at_the_lowest_count() {
    assert_eq!(scale(BigInt::from(5), i32::MIN), BigInt::from(0));
    assert_eq!(scale(BigInt::from(-5), i32::MIN), BigInt::from(0));
}

#[test]
fn results_too_big_to_keep_exactly_are_none() {
    // (2^5000 + 1) / 3 and 1 / (2^5000 + 3) are fine alone, but their sum
    // and product have more than MAX_SIZE bits in lowest terms
    let big = (BigInt::from(1) << 5000usize) + BigInt::from(1);
    let a = BoundedRational::new(big, BigInt::from(3)).unwrap();
    let b = BoundedRational::new(BigInt::from(1), (BigInt::from(1) << 5000usize) + BigInt::from(3)).unwrap();
    assert!(!a.too_big() && !b.too_big());
    assert!(BoundedRational::add(Some(a.clone()), Some(b.clone())).is_none());
    assert!(BoundedRational::subtract(Some(a.clone()), Some(b.clone())).is_none());
    let huge = BoundedRational::new(BigInt::from(1) << 6000usize, BigInt::from(7)).unwrap();
    assert!(BoundedRational::multiply(Some(huge.clone()), Some(a.clone())).is_none());
    assert_eq!(BoundedRational::divide(Some(huge.clone()), Some(a.clone())), Ok(None));
    // integers are never too big, and the operators keep exact values
    let int_big = BoundedRational::from_bigint(BigInt::from(1) << 20000usize);
    assert!(BoundedRational::add(Some(int_big.clone()), Some(int_big.clone())).is_some());
    let sum = &a + &b;
    assert!(sum.reduce().positive_den().too_big());
}
