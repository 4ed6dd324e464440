//! Numeric constants shared by the `evaluation` module.
use crate::bigint::BigInt;
use vstd::prelude::*;

verus! {

/// Maximum combined bit length of numerator and denominator. If
/// `numerator.bits() + denominator.bits()` exceeds this value, the rational
/// is considered too large to be useful and may be reduced to control the
/// growth of intermediate values.
pub const MAX_SIZE: usize = 10_000;

/// Additive identity.
pub fn zero() -> (r: BigInt)
    ensures
        r@ == 0,
{
    BigInt::from(0i32)
}

/// Multiplicative identity.
pub fn one() -> (r: BigInt)
    ensures
        r@ == 1,
{
    BigInt::from(1i32)
}

/// Negative one.
pub fn minus_one() -> (r: BigInt)
    ensures
        r@ == -1,
{
    BigInt::from(-1i32)
}

/// Two.
pub fn two() -> (r: BigInt)
    ensures
        r@ == 2,
{
    BigInt::from(2i32)
}

/// Negative two.
pub fn minus_two() -> (r: BigInt)
    ensures
        r@ == -2,
{
    BigInt::from(-2i32)
}

/// Ten.
pub fn ten() -> (r: BigInt)
    ensures
        r@ == 10,
{
    BigInt::from(10i32)
}

} // verus!
