#![allow(unused_imports)]
use boehm_reals::bigint::BigInt;
use boehm_reals::evaluation::constants::{one, zero};
use boehm_reals::evaluation::creals::cr::{check_prec, scale, shift, ApprCache, CRError, CR};
use std::sync::atomic::AtomicU32;

/// A stand-in constructive real: always the same value, counting the calls
/// of `approximate`.
struct ConstApprox {
    value: BigInt,
    calls: AtomicU32,
}

impl ConstApprox {
    fn new(value: BigInt) -> Self {
        ConstApprox { value, calls: AtomicU32::new(0) }
    }

    fn call_count(&self) -> u32 {
        self.calls.load(std::sync::atomic::Ordering::SeqCst)
    }
}

impl CR for ConstApprox {
    fn approximate(&self, _precision: i32) -> BigInt {
        self.calls.fetch_add(1, std::sync::atomic::Ordering::SeqCst);
        self.value.clone()
    }
}


#[test]
fn zero_constant_is_zero() {
    assert_eq!(zero(), BigInt::from(0));
}

#[test]
fn one_constant_is_one() {
    assert_eq!(one(), BigInt::from(1));
}

#[test]
fn shift_multiplies_by_a_power_of_two() {
    // 1 * 2^10 = 1024
    assert_eq!(shift(BigInt::from(1), 10), BigInt::from(1024));
}

#[test]
fn shift_divides_by_a_power_of_two() {
    // 7 / 2 = 3 (rounds down, no special rounding)
    assert_eq!(shift(BigInt::from(7), -1), BigInt::from(3));
}

#[test]
fn scale_multiplies_by_a_power_of_two() {
    // 3 * 2^2 = 12
    assert_eq!(scale(BigInt::from(3), 2), BigInt::from(12));
}

#[test]
fn scale_rounds_instead_of_truncating() {
    // 7 / 2 = 3.5, which rounds up to 4 (unlike `shift`, which gave 3)
    assert_eq!(scale(BigInt::from(7), -1), BigInt::from(4));
}

#[test]
fn apprcache_default_starts_empty() {
    let cache = ApprCache::default();
    assert_eq!(cache.min_prec, 0);
    assert_eq!(cache.max_appr, zero());
    assert!(!cache.appr_valid);
}

#[test]
fn get_appr_computes_a_value_the_first_time() {
    let inner = ConstApprox::new(BigInt::from(1000));
    let mut cache = ApprCache::default();
    assert_eq!(cache.get_appr(&inner, -10), BigInt::from(1000));
    assert_eq!(inner.call_count(), 1);
}

#[test]
fn get_appr_does_not_recompute_on_a_repeat_call() {
    let inner = ConstApprox::new(BigInt::from(1000));
    let mut cache = ApprCache::default();
    cache.get_appr(&inner, -10); // first call: computes and caches
    cache.get_appr(&inner, -10); // second call: should reuse the cache
    assert_eq!(inner.call_count(), 1);
}
