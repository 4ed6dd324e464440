use boehm_reals::bigint::BigInt;
use boehm_reals::bounded_rational::BoundedRational;


#[test]
fn bounded_rational_from_longs_stores_numerator_and_denominator() {
    let r = BoundedRational::from_longs(3, 4);
    assert_eq!(r.numerator, BigInt::from(3i64));
    assert_eq!(r.denominator, BigInt::from(4i64));
}

#[test]
fn too_big_pure_integer_is_never_too_big() {
    let r = BoundedRational::from_long(i64::MAX);
    assert!(!r.too_big());
}

#[test]
fn small_fraction_is_not_too_big() {
    let r = BoundedRational::from_longs(3, 4);
    assert!(!r.too_big());
}

#[test]
fn positive_den_positive_denominator_unchanged() {
    let r = BoundedRational::from_longs(3, 4);
    let p = r.positive_den();
    assert_eq!(p.numerator, BigInt::from(3i64));
    assert_eq!(p.denominator, BigInt::from(4i64));
}

#[test]
fn positive_den_negative_denominator_flips_both_signs() {
    let r = BoundedRational::from_longs(3, -4);
    let p = r.positive_den();
    assert_eq!(p.numerator, BigInt::from(-3i64));
    assert_eq!(p.denominator, BigInt::from(4i64));
}

#[test]
fn positive_den_negative_num_and_den_flips_both() {
    let r = BoundedRational::from_longs(-3, -4);
    let p = r.positive_den();
    assert_eq!(p.numerator, BigInt::from(3i64));
    assert_eq!(p.denominator, BigInt::from(4i64));
}
