//! The laws of the library on concrete values.
use boehm_reals::bigint::BigInt;
use boehm_reals::evaluation::bounded_rational::BoundedRational;
use boehm_reals::evaluation::creals::cr::{ApprCache, CR};
use std::sync::atomic::{AtomicU32, Ordering as AtomicOrdering};
use std::cmp::Ordering;
use std::collections::hash_map::DefaultHasher;
use std::hash::{Hash, Hasher};

fn br(n: i64, d: i64) -> BoundedRational {
    BoundedRational::from_longs(n, d).unwrap()
}

fn hash_of(r: &BoundedRational) -> u64 {
    let mut h = DefaultHasher::new();
    r.hash(&mut h);
    h.finish()
}

#[test]
fn law_add_then_subtract_round_trips_on_mixed_signs() {
    for &(a, b, c, d) in &[(3, 7, -5, 11), (-1, -2, 1, 3), (0, 5, 7, -9), (i64::MAX, 3, i64::MIN, 7)] {
        let x = br(a, b);
        let y = br(c, d);
        let sum = BoundedRational::add(Some(x.clone()), Some(y.clone()));
        let back = BoundedRational::subtract(sum, Some(y.clone())).unwrap();
        assert_eq!(back, x);
        let back_ops = (&x + &y) - &y;
        assert_eq!(back_ops, x);
    }
}

#[test]
fn law_compare_to_agrees_with_cross_multiplication() {
    // 1/-2 < 1/3 although 1*3 > 1*(-2) would say otherwise without the reversal
    assert_eq!(br(1, -2).compare_to(&br(1, 3)), Ordering::Less);
    assert_eq!(br(-1, -2).compare_to(&br(1, 3)), Ordering::Greater);
    assert_eq!(br(2, -4).compare_to(&br(-1, 2)), Ordering::Equal);
}

#[test]
fn law_compare_to_is_antisymmetric_and_transitive() {
    let (a, b, c) = (br(-7, 3), br(1, -5), br(2, 9));
    assert_eq!(a.compare_to(&b), Ordering::Less);
    assert_eq!(b.compare_to(&a), Ordering::Greater);
    assert_eq!(b.compare_to(&c), Ordering::Less);
    assert_eq!(a.compare_to(&c), Ordering::Less);
}

#[test]
fn law_equal_values_hash_alike() {
    let a = br(6, -8);
    let b = br(-3, 4);
    assert_eq!(a, b);
    assert_eq!(hash_of(&a), hash_of(&b));
    let key = a.hash_key();
    assert_eq!(*key.numerator(), BigInt::from(-3));
    assert_eq!(*key.denominator(), BigInt::from(4));
}

#[test]
fn law_commutativity() {
    let (x, y) = (br(5, -6), br(-7, 10));
    assert_eq!(
        BoundedRational::add(Some(x.clone()), Some(y.clone())).unwrap(),
        BoundedRational::add(Some(y.clone()), Some(x.clone())).unwrap()
    );
    assert_eq!(
        BoundedRational::multiply(Some(x.clone()), Some(y.clone())).unwrap(),
        BoundedRational::multiply(Some(y), Some(x)).unwrap()
    );
}

#[test]
fn law_divide_then_multiply_round_trips() {
    let (x, y) = (br(22, 7), br(-9, 4));
    let q = x.checked_div(&y).unwrap();
    let back = BoundedRational::multiply(Some(q), Some(y)).unwrap();
    assert_eq!(back, x);
}

#[test]
fn law_int_value_of_long_round_trips() {
    for &n in &[0i64, 1, -1, 42, i64::MAX, i64::MIN] {
        assert_eq!(BoundedRational::value_of_long(n).int_value(), Ok(n));
    }
}

#[test]
fn law_maybe_reduce_keeps_value_and_reduces_fully() {
    let x = br(12, -18);
    let forced = BoundedRational::maybe_reduce_with(Some(x.clone()), 16).unwrap();
    assert_eq!(*forced.numerator(), BigInt::from(-2));
    assert_eq!(*forced.denominator(), BigInt::from(3));
    let kept = BoundedRational::maybe_reduce_with(Some(x.clone()), 17).unwrap();
    assert_eq!(*kept.numerator(), BigInt::from(12));
    assert_eq!(*kept.denominator(), BigInt::from(-18));
    for _ in 0..50 {
        assert_eq!(BoundedRational::maybe_reduce(Some(x.clone())).unwrap(), x);
    }
}

#[test]
fn law_double_round_trips() {
    let samples = [
        0.0f64,
        1.0,
        -2.5,
        0.1,
        1.0 / 3.0,
        f64::MAX,
        -f64::MAX,
        f64::MIN_POSITIVE,
        f64::from_bits(1),
        -f64::from_bits(0x000f_ffff_ffff_ffff),
        9007199254740993.0,
        9223372036854775808.0,
        -9223372036854775808.0,
        1e300,
        -1e-300,
    ];
    for &x in &samples {
        let r = BoundedRational::value_of_double_bits(x.to_bits()).unwrap();
        assert_eq!(r.double_value_bits(), x.to_bits(), "{}", x);
    }
    // -0.0 comes back as 0.0
    let z = BoundedRational::value_of_double_bits((-0.0f64).to_bits()).unwrap();
    assert_eq!(z.double_value_bits(), 0);
}

#[test]
fn law_double_value_rounds_to_nearest_with_ties_away() {
    // 1/3 rounds to the double nearest to it
    assert_eq!(f64::from_bits(br(1, 3).double_value_bits()), 1.0 / 3.0);
    // (2^53 + 1)/1 is a tie between 2^53 and 2^53 + 2: away from zero
    let big = (BigInt::from(1) << 53usize) + BigInt::from(1);
    let r = BoundedRational::from_bigint(big);
    assert_eq!(f64::from_bits(r.double_value_bits()), 9007199254740994.0);
    // 3 * 2^-1075 is a tie between 2^-1074 and 2 * 2^-1074: away from zero
    let tiny = BoundedRational::new(BigInt::from(3), BigInt::from(1) << 1075usize).unwrap();
    assert_eq!(tiny.double_value_bits(), 2);
    // values at or beyond the midpoint above the largest double are infinite
    let max = BoundedRational::value_of_double_bits(f64::MAX.to_bits()).unwrap();
    let half_ulp = BoundedRational::from_bigint(BigInt::from(1) << 970usize);
    let mid = &max + &half_ulp;
    assert_eq!(f64::from_bits(mid.double_value_bits()), f64::INFINITY);
    let below_mid = &mid - &BoundedRational::from_long(1);
    assert_eq!(f64::from_bits(below_mid.double_value_bits()), f64::MAX);
}

/// A constructive real that counts its approximations.
struct Counting {
    calls: AtomicU32,
}

impl CR for Counting {
    fn approximate(&self, precision: i32) -> BigInt {
        self.calls.fetch_add(1, AtomicOrdering::SeqCst);
        BigInt::from(-(precision as i64) * 100 + 7)
    }
}

#[test]
fn law_repeated_get_appr_hits_the_cache() {
    let inner = Counting { calls: AtomicU32::new(0) };
    let mut cache = ApprCache::default();
    let first = cache.get_appr(&inner, -4);
    assert_eq!(first, BigInt::from(407));
    assert_eq!(cache.get_appr(&inner, -4), first);
    assert_eq!(inner.calls.load(AtomicOrdering::SeqCst), 1);
    // a coarser precision is scaled from the cached one: 407 / 4 rounds to 102
    assert_eq!(cache.get_appr(&inner, -2), BigInt::from(102));
    assert_eq!(inner.calls.load(AtomicOrdering::SeqCst), 1);
    // a finer one is computed
    assert_eq!(cache.get_appr(&inner, -6), BigInt::from(607));
    assert_eq!(inner.calls.load(AtomicOrdering::SeqCst), 2);
}

#[test]
fn law_reduce_is_coprime_and_positive_den_is_positive() {
    for &(n, d) in &[(6, -4), (-84, 36), (0, -7), (i64::MIN, -2), (17, 17)] {
        let r = br(n, d);
        let p = r.positive_den();
        assert!(*p.denominator() > BigInt::from(0));
        assert_eq!(p, r);
        let q = r.reduce();
        assert_eq!(q, r);
        assert_eq!(q.numerator().gcd(q.denominator()), BigInt::from(1));
    }
}

#[test]
fn law_sums_and_products_of_slices() {
    let items = [br(1, 2), br(-1, 3), br(5, 7)];
    assert_eq!(BoundedRational::sum_all(&items).unwrap(), br(37, 42));
    assert_eq!(BoundedRational::product_all(&items).unwrap(), br(-5, 42));
    // a partial sum too big to keep exactly gives None
    let big = BoundedRational::new((BigInt::from(1) << 5000usize) + BigInt::from(1), BigInt::from(3)).unwrap();
    let small = BoundedRational::new(BigInt::from(1), (BigInt::from(1) << 5000usize) + BigInt::from(3)).unwrap();
    assert!(BoundedRational::sum_all(&[big.clone(), small.clone()]).is_none());
    assert!(BoundedRational::product_all(&[big.clone(), big]).is_none());
}

#[test]
fn law_get_appr_calls_keep_the_finest() {
    let inner = Counting { calls: AtomicU32::new(0) };
    let mut cache = ApprCache::default();
    for &p in &[-3, -1, -5, -2, -5, -4] {
        cache.get_appr(&inner, p);
    }
    // misses at -3 and -5 only
    assert_eq!(inner.calls.load(AtomicOrdering::SeqCst), 2);
    assert_eq!(cache.min_prec, -5);
    assert_eq!(cache.max_appr, BigInt::from(507));
    // coarser: rescaled, no new call; finer: computed
    assert_eq!(cache.get_appr(&inner, -3), BigInt::from(127));
    assert_eq!(inner.calls.load(AtomicOrdering::SeqCst), 2);
    assert_eq!(cache.get_appr(&inner, -6), BigInt::from(607));
    assert_eq!(inner.calls.load(AtomicOrdering::SeqCst), 3);
}

#[test]
fn law_add_then_subtract_of_longs_succeeds() {
    for &(a, b, c, d) in &[(i64::MAX, i64::MIN, i64::MIN, i64::MAX), (i64::MIN, -1, i64::MAX, 2)] {
        let l = br(a, b);
        let r = br(c, d);
        let back = BoundedRational::subtract(BoundedRational::add(Some(l.clone()), Some(r.clone())), Some(r));
        assert_eq!(back, Some(l));
    }
}
