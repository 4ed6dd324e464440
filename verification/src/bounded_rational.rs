//! A plain `BoundedRational`, with public fields and no checks: a fraction
//! of two `BigInt`s, kept as given.
use crate::bigint::{int_bits, BigInt, Sign};
use crate::evaluation::constants::one;
use vstd::prelude::*;

verus! {

/// Maximum combined bit length of numerator and denominator.
pub const MAX_SIZE: usize = 10_000;

/// A ratio of two arbitrary-precision integers, `numerator/denominator`.
#[derive(Debug)]
pub struct BoundedRational {
    /// The top half of the fraction.
    pub numerator: BigInt,
    /// The bottom half of the fraction. Meant never to be zero.
    pub denominator: BigInt,
}

impl BoundedRational {
    /// Creates a new `BoundedRational` with the given numerator and
    /// denominator.
    pub fn new(n: BigInt, d: BigInt) -> (r: Self)
        ensures
            r.numerator@ == n@,
            r.denominator@ == d@,
    {
        BoundedRational { numerator: n, denominator: d }
    }

    /// Creates a `BoundedRational` equal to the integer `n` (denominator 1).
    pub fn from_bigint(n: BigInt) -> (r: Self)
        ensures
            r.numerator@ == n@,
            r.denominator@ == 1,
    {
        BoundedRational { numerator: n, denominator: one() }
    }

    /// Creates a `BoundedRational` from two `i64` values.
    pub fn from_longs(n: i64, d: i64) -> (r: Self)
        ensures
            r.numerator@ == n as int,
            r.denominator@ == d as int,
    {
        Self::new(BigInt::from(n), BigInt::from(d))
    }

    /// Creates a `BoundedRational` equal to the integer `n` (denominator 1).
    pub fn from_long(n: i64) -> (r: Self)
        ensures
            r.numerator@ == n as int,
            r.denominator@ == 1,
    {
        Self::from_bigint(BigInt::from(n))
    }

    /// Returns `true` when `numerator.bits() + denominator.bits() >
    /// MAX_SIZE`; integers (denominator 1) are never too big.
    pub fn too_big(&self) -> (r: bool)
        ensures
            r == (self.denominator@ != 1 && int_bits(self.numerator@) + int_bits(
                self.denominator@,
            ) > MAX_SIZE),
    {
        if self.denominator == one() {
            return false;
        }
        self.numerator.bits().saturating_add(self.denominator.bits()) > MAX_SIZE as u64
    }

    /// Returns a copy with a positive denominator: when the denominator is
    /// negative both parts are negated; otherwise the value is unchanged.
    pub fn positive_den(&self) -> (r: BoundedRational)
        ensures
            self.denominator@ < 0 ==> r.numerator@ == -self.numerator@ && r.denominator@
                == -self.denominator@,
            self.denominator@ >= 0 ==> r.numerator@ == self.numerator@ && r.denominator@
                == self.denominator@,
    {
        match self.denominator.sign() {
            Sign::Minus => BoundedRational::new(
                core::ops::Neg::neg(&self.numerator),
                core::ops::Neg::neg(&self.denominator),
            ),
            _ => BoundedRational {
                numerator: self.numerator.clone(),
                denominator: self.denominator.clone(),
            },
        }
    }
}

} // verus!
