//! Multiplication operators of `BoundedRational`: with another rational, with
//! primitive integers and with `BigInt`s, by value and by reference.
use super::{BoundedRational, product_result};
use crate::bigint::BigInt;
use vstd::prelude::*;

verus! {

// Multiplication of two rationals.

/// `BoundedRational * BoundedRational`.
impl core::ops::Mul<BoundedRational> for BoundedRational {
    type Output = BoundedRational;

    fn mul(self, other: BoundedRational) -> (r: BoundedRational)
        ensures
            product_result(self@, other@, r@),
    {
        BoundedRational::product_of(&self, &other)
    }
}

impl vstd::std_specs::ops::MulSpecImpl<BoundedRational> for BoundedRational {
    open spec fn obeys_mul_spec() -> bool {
        false
    }

    open spec fn mul_req(self, rhs: BoundedRational) -> bool {
        true
    }

    open spec fn mul_spec(self, rhs: BoundedRational) -> BoundedRational {
        arbitrary()
    }
}

/// `BoundedRational * &BoundedRational`.
impl<'a> core::ops::Mul<&'a BoundedRational> for BoundedRational {
    type Output = BoundedRational;

    fn mul(self, other: &'a BoundedRational) -> (r: BoundedRational)
        ensures
            product_result(self@, other@, r@),
    {
        BoundedRational::product_of(&self, other)
    }
}

impl<'a> vstd::std_specs::ops::MulSpecImpl<&'a BoundedRational> for BoundedRational {
    open spec fn obeys_mul_spec() -> bool {
        false
    }

    open spec fn mul_req(self, rhs: &'a BoundedRational) -> bool {
        true
    }

    open spec fn mul_spec(self, rhs: &'a BoundedRational) -> BoundedRational {
        arbitrary()
    }
}

/// `&BoundedRational * BoundedRational`.
impl<'a> core::ops::Mul<BoundedRational> for &'a BoundedRational {
    type Output = BoundedRational;

    fn mul(self, other: BoundedRational) -> (r: BoundedRational)
        ensures
            product_result(self@, other@, r@),
    {
        BoundedRational::product_of(self, &other)
    }
}

impl<'a> vstd::std_specs::ops::MulSpecImpl<BoundedRational> for &'a BoundedRational {
    open spec fn obeys_mul_spec() -> bool {
        false
    }

    open spec fn mul_req(self, rhs: BoundedRational) -> bool {
        true
    }

    open spec fn mul_spec(self, rhs: BoundedRational) -> BoundedRational {
        arbitrary()
    }
}

/// `&BoundedRational * &BoundedRational`.
impl<'a, 'b> core::ops::Mul<&'b BoundedRational> for &'a BoundedRational {
    type Output = BoundedRational;

    fn mul(self, other: &'b BoundedRational) -> (r: BoundedRational)
        ensures
            product_result(self@, other@, r@),
    {
        BoundedRational::product_of(self, other)
    }
}

impl<'a, 'b> vstd::std_specs::ops::MulSpecImpl<&'b BoundedRational> for &'a BoundedRational {
    open spec fn obeys_mul_spec() -> bool {
        false
    }

    open spec fn mul_req(self, rhs: &'b BoundedRational) -> bool {
        true
    }

    open spec fn mul_spec(self, rhs: &'b BoundedRational) -> BoundedRational {
        arbitrary()
    }
}

/// `BoundedRational *= BoundedRational`.
impl core::ops::MulAssign<BoundedRational> for BoundedRational {
    fn mul_assign(&mut self, other: BoundedRational)
        ensures
            product_result(old(self)@, other@, final(self)@),
    {
        let v = BoundedRational::product_of(self, &other);
        *self = v;
    }
}

/// `BoundedRational *= &BoundedRational`.
impl<'a> core::ops::MulAssign<&'a BoundedRational> for BoundedRational {
    fn mul_assign(&mut self, other: &'a BoundedRational)
        ensures
            product_result(old(self)@, other@, final(self)@),
    {
        let v = BoundedRational::product_of(self, other);
        *self = v;
    }
}

// Multiplication with `u8`.

/// `BoundedRational * u8`.
impl core::ops::Mul<u8> for BoundedRational {
    type Output = BoundedRational;

    fn mul(self, other: u8) -> (r: BoundedRational)
        ensures
            product_result(self@, (other as int, 1int), r@),
    {
        let b = BoundedRational::from_bigint(BigInt::from(other));
        BoundedRational::product_of(&self, &b)
    }
}

impl vstd::std_specs::ops::MulSpecImpl<u8> for BoundedRational {
    open spec fn obeys_mul_spec() -> bool {
        false
    }

    open spec fn mul_req(self, rhs: u8) -> bool {
        true
    }

    open spec fn mul_spec(self, rhs: u8) -> BoundedRational {
        arbitrary()
    }
}

/// `BoundedRational * &u8`.
impl<'a> core::ops::Mul<&'a u8> for BoundedRational {
    type Output = BoundedRational;

    fn mul(self, other: &'a u8) -> (r: BoundedRational)
        ensures
            product_result(self@, (*other as int, 1int), r@),
    {
        let b = BoundedRational::from_bigint(BigInt::from(*other));
        BoundedRational::product_of(&self, &b)
    }
}

impl<'a> vstd::std_specs::ops::MulSpecImpl<&'a u8> for BoundedRational {
    open spec fn obeys_mul_spec() -> bool {
        false
    }

    open spec fn mul_req(self, rhs: &'a u8) -> bool {
        true
    }

    open spec fn mul_spec(self, rhs: &'a u8) -> BoundedRational {
        arbitrary()
    }
}

/// `&BoundedRational * u8`.
impl<'a> core::ops::Mul<u8> for &'a BoundedRational {
    type Output = BoundedRational;

    fn mul(self, other: u8) -> (r: BoundedRational)
        ensures
            product_result(self@, (other as int, 1int), r@),
    {
        let b = BoundedRational::from_bigint(BigInt::from(other));
        BoundedRational::product_of(self, &b)
    }
}

impl<'a> vstd::std_specs::ops::MulSpecImpl<u8> for &'a BoundedRational {
    open spec fn obeys_mul_spec() -> bool {
        false
    }

    open spec fn mul_req(self, rhs: u8) -> bool {
        true
    }

    open spec fn mul_spec(self, rhs: u8) -> BoundedRational {
        arbitrary()
    }
}

/// `&BoundedRational * &u8`.
impl<'a, 'b> core::ops::Mul<&'b u8> for &'a BoundedRational {
    type Output = BoundedRational;

    fn mul(self, other: &'b u8) -> (r: BoundedRational)
        ensures
            product_result(self@, (*other as int, 1int), r@),
    {
        let b = BoundedRational::from_bigint(BigInt::from(*other));
        BoundedRational::product_of(self, &b)
    }
}

impl<'a, 'b> vstd::std_specs::ops::MulSpecImpl<&'b u8> for &'a BoundedRational {
    open spec fn obeys_mul_spec() -> bool {
        false
    }

    open spec fn mul_req(self, rhs: &'b u8) -> bool {
        true
    }

    open spec fn mul_spec(self, rhs: &'b u8) -> BoundedRational {
        arbitrary()
    }
}

/// `u8 * BoundedRational`.
impl core::ops::Mul<BoundedRational> for u8 {
    type Output = BoundedRational;

    fn mul(self, other: BoundedRational) -> (r: BoundedRational)
        ensures
            product_result(other@, (self as int, 1int), r@),
    {
        let a = BoundedRational::from_bigint(BigInt::from(self));
        BoundedRational::product_of(&other, &a)
    }
}

impl vstd::std_specs::ops::MulSpecImpl<BoundedRational> for u8 {
    open spec fn obeys_mul_spec() -> bool {
        false
    }

    open spec fn mul_req(self, rhs: BoundedRational) -> bool {
        true
    }

    open spec fn mul_spec(self, rhs: BoundedRational) -> BoundedRational {
        arbitrary()
    }
}

/// `&u8 * BoundedRational`.
impl<'a> core::ops::Mul<BoundedRational> for &'a u8 {
    type Output = BoundedRational;

    fn mul(self, other: BoundedRational) -> (r: BoundedRational)
        ensures
            product_result(other@, (*self as int, 1int), r@),
    {
        let a = BoundedRational::from_bigint(BigInt::from(*self));
        BoundedRational::product_of(&other, &a)
    }
}

impl<'a> vstd::std_specs::ops::MulSpecImpl<BoundedRational> for &'a u8 {
    open spec fn obeys_mul_spec() -> bool {
        false
    }

    open spec fn mul_req(self, rhs: BoundedRational) -> bool {
        true
    }

    open spec fn mul_spec(self, rhs: BoundedRational) -> BoundedRational {
        arbitrary()
    }
}

/// `u8 * &BoundedRational`.
impl<'a> core::ops::Mul<&'a BoundedRational> for u8 {
    type Output = BoundedRational;

    fn mul(self, other: &'a BoundedRational) -> (r: BoundedRational)
        ensures
            product_result(other@, (self as int, 1int), r@),
    {
        let a = BoundedRational::from_bigint(BigInt::from(self));
        BoundedRational::product_of(other, &a)
    }
}

impl<'a> vstd::std_specs::ops::MulSpecImpl<&'a BoundedRational> for u8 {
    open spec fn obeys_mul_spec() -> bool {
        false
    }

    open spec fn mul_req(self, rhs: &'a BoundedRational) -> bool {
        true
    }

    open spec fn mul_spec(self, rhs: &'a BoundedRational) -> BoundedRational {
        arbitrary()
    }
}

/// `&u8 * &BoundedRational`.
impl<'a, 'b> core::ops::Mul<&'b BoundedRational> for &'a u8 {
    type Output = BoundedRational;

    fn mul(self, other: &'b BoundedRational) -> (r: BoundedRational)
        ensures
            product_result(other@, (*self as int, 1int), r@),
    {
        let a = BoundedRational::from_bigint(BigInt::from(*self));
        BoundedRational::product_of(other, &a)
    }
}

impl<'a, 'b> vstd::std_specs::ops::MulSpecImpl<&'b BoundedRational> for &'a u8 {
    open spec fn obeys_mul_spec() -> bool {
        false
    }

    open spec fn mul_req(self, rhs: &'b BoundedRational) -> bool {
        true
    }

    open spec fn mul_spec(self, rhs: &'b BoundedRational) -> BoundedRational {
        arbitrary()
    }
}

/// `BoundedRational *= u8`.
impl core::ops::MulAssign<u8> for BoundedRational {
    fn mul_assign(&mut self, other: u8)
        ensures
            product_result(old(self)@, (other as int, 1int), final(self)@),
    {
        let b = BoundedRational::from_bigint(BigInt::from(other));
        let v = BoundedRational::product_of(self, &b);
        *self = v;
    }
}

/// `BoundedRational *= &u8`.
impl<'a> core::ops::MulAssign<&'a u8> for BoundedRational {
    fn mul_assign(&mut self, other: &'a u8)
        ensures
            product_result(old(self)@, (*other as int, 1int), final(self)@),
    {
        let b = BoundedRational::from_bigint(BigInt::from(*other));
        let v = BoundedRational::product_of(self, &b);
        *self = v;
    }
}

// Multiplication with `u16`.

/// `BoundedRational * u16`.
impl core::ops::Mul<u16> for BoundedRational {
    type Output = BoundedRational;

    fn mul(self, other: u16) -> (r: BoundedRational)
        ensures
            product_result(self@, (other as int, 1int), r@),
    {
        let b = BoundedRational::from_bigint(BigInt::from(other));
        BoundedRational::product_of(&self, &b)
    }
}

impl vstd::std_specs::ops::MulSpecImpl<u16> for BoundedRational {
    open spec fn obeys_mul_spec() -> bool {
        false
    }

    open spec fn mul_req(self, rhs: u16) -> bool {
        true
    }

    open spec fn mul_spec(self, rhs: u16) -> BoundedRational {
        arbitrary()
    }
}

/// `BoundedRational * &u16`.
impl<'a> core::ops::Mul<&'a u16> for BoundedRational {
    type Output = BoundedRational;

    fn mul(self, other: &'a u16) -> (r: BoundedRational)
        ensures
            product_result(self@, (*other as int, 1int), r@),
    {
        let b = BoundedRational::from_bigint(BigInt::from(*other));
        BoundedRational::product_of(&self, &b)
    }
}

impl<'a> vstd::std_specs::ops::MulSpecImpl<&'a u16> for BoundedRational {
    open spec fn obeys_mul_spec() -> bool {
        false
    }

    open spec fn mul_req(self, rhs: &'a u16) -> bool {
        true
    }

    open spec fn mul_spec(self, rhs: &'a u16) -> BoundedRational {
        arbitrary()
    }
}

/// `&BoundedRational * u16`.
impl<'a> core::ops::Mul<u16> for &'a BoundedRational {
    type Output = BoundedRational;

    fn mul(self, other: u16) -> (r: BoundedRational)
        ensures
            product_result(self@, (other as int, 1int), r@),
    {
        let b = BoundedRational::from_bigint(BigInt::from(other));
        BoundedRational::product_of(self, &b)
    }
}

impl<'a> vstd::std_specs::ops::MulSpecImpl<u16> for &'a BoundedRational {
    open spec fn obeys_mul_spec() -> bool {
        false
    }

    open spec fn mul_req(self, rhs: u16) -> bool {
        true
    }

    open spec fn mul_spec(self, rhs: u16) -> BoundedRational {
        arbitrary()
    }
}

/// `&BoundedRational * &u16`.
impl<'a, 'b> core::ops::Mul<&'b u16> for &'a BoundedRational {
    type Output = BoundedRational;

    fn mul(self, other: &'b u16) -> (r: BoundedRational)
        ensures
            product_result(self@, (*other as int, 1int), r@),
    {
        let b = BoundedRational::from_bigint(BigInt::from(*other));
        BoundedRational::product_of(self, &b)
    }
}

impl<'a, 'b> vstd::std_specs::ops::MulSpecImpl<&'b u16> for &'a BoundedRational {
    open spec fn obeys_mul_spec() -> bool {
        false
    }

    open spec fn mul_req(self, rhs: &'b u16) -> bool {
        true
    }

    open spec fn mul_spec(self, rhs: &'b u16) -> BoundedRational {
        arbitrary()
    }
}

/// `u16 * BoundedRational`.
impl core::ops::Mul<BoundedRational> for u16 {
    type Output = BoundedRational;

    fn mul(self, other: BoundedRational) -> (r: BoundedRational)
        ensures
            product_result(other@, (self as int, 1int), r@),
    {
        let a = BoundedRational::from_bigint(BigInt::from(self));
        BoundedRational::product_of(&other, &a)
    }
}

impl vstd::std_specs::ops::MulSpecImpl<BoundedRational> for u16 {
    open spec fn obeys_mul_spec() -> bool {
        false
    }

    open spec fn mul_req(self, rhs: BoundedRational) -> bool {
        true
    }

    open spec fn mul_spec(self, rhs: BoundedRational) -> BoundedRational {
        arbitrary()
    }
}

/// `&u16 * BoundedRational`.
impl<'a> core::ops::Mul<BoundedRational> for &'a u16 {
    type Output = BoundedRational;

    fn mul(self, other: BoundedRational) -> (r: BoundedRational)
        ensures
            product_result(other@, (*self as int, 1int), r@),
    {
        let a = BoundedRational::from_bigint(BigInt::from(*self));
        BoundedRational::product_of(&other, &a)
    }
}

impl<'a> vstd::std_specs::ops::MulSpecImpl<BoundedRational> for &'a u16 {
    open spec fn obeys_mul_spec() -> bool {
        false
    }

    open spec fn mul_req(self, rhs: BoundedRational) -> bool {
        true
    }

    open spec fn mul_spec(self, rhs: BoundedRational) -> BoundedRational {
        arbitrary()
    }
}

/// `u16 * &BoundedRational`.
impl<'a> core::ops::Mul<&'a BoundedRational> for u16 {
    type Output = BoundedRational;

    fn mul(self, other: &'a BoundedRational) -> (r: BoundedRational)
        ensures
            product_result(other@, (self as int, 1int), r@),
    {
        let a = BoundedRational::from_bigint(BigInt::from(self));
        BoundedRational::product_of(other, &a)
    }
}

impl<'a> vstd::std_specs::ops::MulSpecImpl<&'a BoundedRational> for u16 {
    open spec fn obeys_mul_spec() -> bool {
        false
    }

    open spec fn mul_req(self, rhs: &'a BoundedRational) -> bool {
        true
    }

    open spec fn mul_spec(self, rhs: &'a BoundedRational) -> BoundedRational {
        arbitrary()
    }
}

/// `&u16 * &BoundedRational`.
impl<'a, 'b> core::ops::Mul<&'b BoundedRational> for &'a u16 {
    type Output = BoundedRational;

    fn mul(self, other: &'b BoundedRational) -> (r: BoundedRational)
        ensures
            product_result(other@, (*self as int, 1int), r@),
    {
        let a = BoundedRational::from_bigint(BigInt::from(*self));
        BoundedRational::product_of(other, &a)
    }
}

impl<'a, 'b> vstd::std_specs::ops::MulSpecImpl<&'b BoundedRational> for &'a u16 {
    open spec fn obeys_mul_spec() -> bool {
        false
    }

    open spec fn mul_req(self, rhs: &'b BoundedRational) -> bool {
        true
    }

    open spec fn mul_spec(self, rhs: &'b BoundedRational) -> BoundedRational {
        arbitrary()
    }
}

/// `BoundedRational *= u16`.
impl core::ops::MulAssign<u16> for BoundedRational {
    fn mul_assign(&mut self, other: u16)
        ensures
            product_result(old(self)@, (other as int, 1int), final(self)@),
    {
        let b = BoundedRational::from_bigint(BigInt::from(other));
        let v = BoundedRational::product_of(self, &b);
        *self = v;
    }
}

/// `BoundedRational *= &u16`.
impl<'a> core::ops::MulAssign<&'a u16> for BoundedRational {
    fn mul_assign(&mut self, other: &'a u16)
        ensures
            product_result(old(self)@, (*other as int, 1int), final(self)@),
    {
        let b = BoundedRational::from_bigint(BigInt::from(*other));
        let v = BoundedRational::product_of(self, &b);
        *self = v;
    }
}

// Multiplication with `u32`.

/// `BoundedRational * u32`.
impl core::ops::Mul<u32> for BoundedRational {
    type Output = BoundedRational;

    fn mul(self, other: u32) -> (r: BoundedRational)
        ensures
            product_result(self@, (other as int, 1int), r@),
    {
        let b = BoundedRational::from_bigint(BigInt::from(other));
        BoundedRational::product_of(&self, &b)
    }
}

impl vstd::std_specs::ops::MulSpecImpl<u32> for BoundedRational {
    open spec fn obeys_mul_spec() -> bool {
        false
    }

    open spec fn mul_req(self, rhs: u32) -> bool {
        true
    }

    open spec fn mul_spec(self, rhs: u32) -> BoundedRational {
        arbitrary()
    }
}

/// `BoundedRational * &u32`.
impl<'a> core::ops::Mul<&'a u32> for BoundedRational {
    type Output = BoundedRational;

    fn mul(self, other: &'a u32) -> (r: BoundedRational)
        ensures
            product_result(self@, (*other as int, 1int), r@),
    {
        let b = BoundedRational::from_bigint(BigInt::from(*other));
        BoundedRational::product_of(&self, &b)
    }
}

impl<'a> vstd::std_specs::ops::MulSpecImpl<&'a u32> for BoundedRational {
    open spec fn obeys_mul_spec() -> bool {
        false
    }

    open spec fn mul_req(self, rhs: &'a u32) -> bool {
        true
    }

    open spec fn mul_spec(self, rhs: &'a u32) -> BoundedRational {
        arbitrary()
    }
}

/// `&BoundedRational * u32`.
impl<'a> core::ops::Mul<u32> for &'a BoundedRational {
    type Output = BoundedRational;

    fn mul(self, other: u32) -> (r: BoundedRational)
        ensures
            product_result(self@, (other as int, 1int), r@),
    {
        let b = BoundedRational::from_bigint(BigInt::from(other));
        BoundedRational::product_of(self, &b)
    }
}

impl<'a> vstd::std_specs::ops::MulSpecImpl<u32> for &'a BoundedRational {
    open spec fn obeys_mul_spec() -> bool {
        false
    }

    open spec fn mul_req(self, rhs: u32) -> bool {
        true
    }

    open spec fn mul_spec(self, rhs: u32) -> BoundedRational {
        arbitrary()
    }
}

/// `&BoundedRational * &u32`.
impl<'a, 'b> core::ops::Mul<&'b u32> for &'a BoundedRational {
    type Output = BoundedRational;

    fn mul(self, other: &'b u32) -> (r: BoundedRational)
        ensures
            product_result(self@, (*other as int, 1int), r@),
    {
        let b = BoundedRational::from_bigint(BigInt::from(*other));
        BoundedRational::product_of(self, &b)
    }
}

impl<'a, 'b> vstd::std_specs::ops::MulSpecImpl<&'b u32> for &'a BoundedRational {
    open spec fn obeys_mul_spec() -> bool {
        false
    }

    open spec fn mul_req(self, rhs: &'b u32) -> bool {
        true
    }

    open spec fn mul_spec(self, rhs: &'b u32) -> BoundedRational {
        arbitrary()
    }
}

/// `u32 * BoundedRational`.
impl core::ops::Mul<BoundedRational> for u32 {
    type Output = BoundedRational;

    fn mul(self, other: BoundedRational) -> (r: BoundedRational)
        ensures
            product_result(other@, (self as int, 1int), r@),
    {
        let a = BoundedRational::from_bigint(BigInt::from(self));
        BoundedRational::product_of(&other, &a)
    }
}

impl vstd::std_specs::ops::MulSpecImpl<BoundedRational> for u32 {
    open spec fn obeys_mul_spec() -> bool {
        false
    }

    open spec fn mul_req(self, rhs: BoundedRational) -> bool {
        true
    }

    open spec fn mul_spec(self, rhs: BoundedRational) -> BoundedRational {
        arbitrary()
    }
}

/// `&u32 * BoundedRational`.
impl<'a> core::ops::Mul<BoundedRational> for &'a u32 {
    type Output = BoundedRational;

    fn mul(self, other: BoundedRational) -> (r: BoundedRational)
        ensures
            product_result(other@, (*self as int, 1int), r@),
    {
        let a = BoundedRational::from_bigint(BigInt::from(*self));
        BoundedRational::product_of(&other, &a)
    }
}

impl<'a> vstd::std_specs::ops::MulSpecImpl<BoundedRational> for &'a u32 {
    open spec fn obeys_mul_spec() -> bool {
        false
    }

    open spec fn mul_req(self, rhs: BoundedRational) -> bool {
        true
    }

    open spec fn mul_spec(self, rhs: BoundedRational) -> BoundedRational {
        arbitrary()
    }
}

/// `u32 * &BoundedRational`.
impl<'a> core::ops::Mul<&'a BoundedRational> for u32 {
    type Output = BoundedRational;

    fn mul(self, other: &'a BoundedRational) -> (r: BoundedRational)
        ensures
            product_result(other@, (self as int, 1int), r@),
    {
        let a = BoundedRational::from_bigint(BigInt::from(self));
        BoundedRational::product_of(other, &a)
    }
}

impl<'a> vstd::std_specs::ops::MulSpecImpl<&'a BoundedRational> for u32 {
    open spec fn obeys_mul_spec() -> bool {
        false
    }

    open spec fn mul_req(self, rhs: &'a BoundedRational) -> bool {
        true
    }

    open spec fn mul_spec(self, rhs: &'a BoundedRational) -> BoundedRational {
        arbitrary()
    }
}

/// `&u32 * &BoundedRational`.
impl<'a, 'b> core::ops::Mul<&'b BoundedRational> for &'a u32 {
    type Output = BoundedRational;

    fn mul(self, other: &'b BoundedRational) -> (r: BoundedRational)
        ensures
            product_result(other@, (*self as int, 1int), r@),
    {
        let a = BoundedRational::from_bigint(BigInt::from(*self));
        BoundedRational::product_of(other, &a)
    }
}

impl<'a, 'b> vstd::std_specs::ops::MulSpecImpl<&'b BoundedRational> for &'a u32 {
    open spec fn obeys_mul_spec() -> bool {
        false
    }

    open spec fn mul_req(self, rhs: &'b BoundedRational) -> bool {
        true
    }

    open spec fn mul_spec(self, rhs: &'b BoundedRational) -> BoundedRational {
        arbitrary()
    }
}

/// `BoundedRational *= u32`.
impl core::ops::MulAssign<u32> for BoundedRational {
    fn mul_assign(&mut self, other: u32)
        ensures
            product_result(old(self)@, (other as int, 1int), final(self)@),
    {
        let b = BoundedRational::from_bigint(BigInt::from(other));
        let v = BoundedRational::product_of(self, &b);
        *self = v;
    }
}

/// `BoundedRational *= &u32`.
impl<'a> core::ops::MulAssign<&'a u32> for BoundedRational {
    fn mul_assign(&mut self, other: &'a u32)
        ensures
            product_result(old(self)@, (*other as int, 1int), final(self)@),
    {
        let b = BoundedRational::from_bigint(BigInt::from(*other));
        let v = BoundedRational::product_of(self, &b);
        *self = v;
    }
}

// Multiplication with `u64`.

/// `BoundedRational * u64`.
impl core::ops::Mul<u64> for BoundedRational {
    type Output = BoundedRational;

    fn mul(self, other: u64) -> (r: BoundedRational)
        ensures
            product_result(self@, (other as int, 1int), r@),
    {
        let b = BoundedRational::from_bigint(BigInt::from(other));
        BoundedRational::product_of(&self, &b)
    }
}

impl vstd::std_specs::ops::MulSpecImpl<u64> for BoundedRational {
    open spec fn obeys_mul_spec() -> bool {
        false
    }

    open spec fn mul_req(self, rhs: u64) -> bool {
        true
    }

    open spec fn mul_spec(self, rhs: u64) -> BoundedRational {
        arbitrary()
    }
}

/// `BoundedRational * &u64`.
impl<'a> core::ops::Mul<&'a u64> for BoundedRational {
    type Output = BoundedRational;

    fn mul(self, other: &'a u64) -> (r: BoundedRational)
        ensures
            product_result(self@, (*other as int, 1int), r@),
    {
        let b = BoundedRational::from_bigint(BigInt::from(*other));
        BoundedRational::product_of(&self, &b)
    }
}

impl<'a> vstd::std_specs::ops::MulSpecImpl<&'a u64> for BoundedRational {
    open spec fn obeys_mul_spec() -> bool {
        false
    }

    open spec fn mul_req(self, rhs: &'a u64) -> bool {
        true
    }

    open spec fn mul_spec(self, rhs: &'a u64) -> BoundedRational {
        arbitrary()
    }
}

/// `&BoundedRational * u64`.
impl<'a> core::ops::Mul<u64> for &'a BoundedRational {
    type Output = BoundedRational;

    fn mul(self, other: u64) -> (r: BoundedRational)
        ensures
            product_result(self@, (other as int, 1int), r@),
    {
        let b = BoundedRational::from_bigint(BigInt::from(other));
        BoundedRational::product_of(self, &b)
    }
}

impl<'a> vstd::std_specs::ops::MulSpecImpl<u64> for &'a BoundedRational {
    open spec fn obeys_mul_spec() -> bool {
        false
    }

    open spec fn mul_req(self, rhs: u64) -> bool {
        true
    }

    open spec fn mul_spec(self, rhs: u64) -> BoundedRational {
        arbitrary()
    }
}

/// `&BoundedRational * &u64`.
impl<'a, 'b> core::ops::Mul<&'b u64> for &'a BoundedRational {
    type Output = BoundedRational;

    fn mul(self, other: &'b u64) -> (r: BoundedRational)
        ensures
            product_result(self@, (*other as int, 1int), r@),
    {
        let b = BoundedRational::from_bigint(BigInt::from(*other));
        BoundedRational::product_of(self, &b)
    }
}

impl<'a, 'b> vstd::std_specs::ops::MulSpecImpl<&'b u64> for &'a BoundedRational {
    open spec fn obeys_mul_spec() -> bool {
        false
    }

    open spec fn mul_req(self, rhs: &'b u64) -> bool {
        true
    }

    open spec fn mul_spec(self, rhs: &'b u64) -> BoundedRational {
        arbitrary()
    }
}

/// `u64 * BoundedRational`.
impl core::ops::Mul<BoundedRational> for u64 {
    type Output = BoundedRational;

    fn mul(self, other: BoundedRational) -> (r: BoundedRational)
        ensures
            product_result(other@, (self as int, 1int), r@),
    {
        let a = BoundedRational::from_bigint(BigInt::from(self));
        BoundedRational::product_of(&other, &a)
    }
}

impl vstd::std_specs::ops::MulSpecImpl<BoundedRational> for u64 {
    open spec fn obeys_mul_spec() -> bool {
        false
    }

    open spec fn mul_req(self, rhs: BoundedRational) -> bool {
        true
    }

    open spec fn mul_spec(self, rhs: BoundedRational) -> BoundedRational {
        arbitrary()
    }
}

/// `&u64 * BoundedRational`.
impl<'a> core::ops::Mul<BoundedRational> for &'a u64 {
    type Output = BoundedRational;

    fn mul(self, other: BoundedRational) -> (r: BoundedRational)
        ensures
            product_result(other@, (*self as int, 1int), r@),
    {
        let a = BoundedRational::from_bigint(BigInt::from(*self));
        BoundedRational::product_of(&other, &a)
    }
}

impl<'a> vstd::std_specs::ops::MulSpecImpl<BoundedRational> for &'a u64 {
    open spec fn obeys_mul_spec() -> bool {
        false
    }

    open spec fn mul_req(self, rhs: BoundedRational) -> bool {
        true
    }

    open spec fn mul_spec(self, rhs: BoundedRational) -> BoundedRational {
        arbitrary()
    }
}

/// `u64 * &BoundedRational`.
impl<'a> core::ops::Mul<&'a BoundedRational> for u64 {
    type Output = BoundedRational;

    fn mul(self, other: &'a BoundedRational) -> (r: BoundedRational)
        ensures
            product_result(other@, (self as int, 1int), r@),
    {
        let a = BoundedRational::from_bigint(BigInt::from(self));
        BoundedRational::product_of(other, &a)
    }
}

impl<'a> vstd::std_specs::ops::MulSpecImpl<&'a BoundedRational> for u64 {
    open spec fn obeys_mul_spec() -> bool {
        false
    }

    open spec fn mul_req(self, rhs: &'a BoundedRational) -> bool {
        true
    }

    open spec fn mul_spec(self, rhs: &'a BoundedRational) -> BoundedRational {
        arbitrary()
    }
}

/// `&u64 * &BoundedRational`.
impl<'a, 'b> core::ops::Mul<&'b BoundedRational> for &'a u64 {
    type Output = BoundedRational;

    fn mul(self, other: &'b BoundedRational) -> (r: BoundedRational)
        ensures
            product_result(other@, (*self as int, 1int), r@),
    {
        let a = BoundedRational::from_bigint(BigInt::from(*self));
        BoundedRational::product_of(other, &a)
    }
}

impl<'a, 'b> vstd::std_specs::ops::MulSpecImpl<&'b BoundedRational> for &'a u64 {
    open spec fn obeys_mul_spec() -> bool {
        false
    }

    open spec fn mul_req(self, rhs: &'b BoundedRational) -> bool {
        true
    }

    open spec fn mul_spec(self, rhs: &'b BoundedRational) -> BoundedRational {
        arbitrary()
    }
}

/// `BoundedRational *= u64`.
impl core::ops::MulAssign<u64> for BoundedRational {
    fn mul_assign(&mut self, other: u64)
        ensures
            product_result(old(self)@, (other as int, 1int), final(self)@),
    {
        let b = BoundedRational::from_bigint(BigInt::from(other));
        let v = BoundedRational::product_of(self, &b);
        *self = v;
    }
}

/// `BoundedRational *= &u64`.
impl<'a> core::ops::MulAssign<&'a u64> for BoundedRational {
    fn mul_assign(&mut self, other: &'a u64)
        ensures
            product_result(old(self)@, (*other as int, 1int), final(self)@),
    {
        let b = BoundedRational::from_bigint(BigInt::from(*other));
        let v = BoundedRational::product_of(self, &b);
        *self = v;
    }
}

// Multiplication with `u128`.

/// `BoundedRational * u128`.
impl core::ops::Mul<u128> for BoundedRational {
    type Output = BoundedRational;

    fn mul(self, other: u128) -> (r: BoundedRational)
        ensures
            product_result(self@, (other as int, 1int), r@),
    {
        let b = BoundedRational::from_bigint(BigInt::from(other));
        BoundedRational::product_of(&self, &b)
    }
}

impl vstd::std_specs::ops::MulSpecImpl<u128> for BoundedRational {
    open spec fn obeys_mul_spec() -> bool {
        false
    }

    open spec fn mul_req(self, rhs: u128) -> bool {
        true
    }

    open spec fn mul_spec(self, rhs: u128) -> BoundedRational {
        arbitrary()
    }
}

/// `BoundedRational * &u128`.
impl<'a> core::ops::Mul<&'a u128> for BoundedRational {
    type Output = BoundedRational;

    fn mul(self, other: &'a u128) -> (r: BoundedRational)
        ensures
            product_result(self@, (*other as int, 1int), r@),
    {
        let b = BoundedRational::from_bigint(BigInt::from(*other));
        BoundedRational::product_of(&self, &b)
    }
}

impl<'a> vstd::std_specs::ops::MulSpecImpl<&'a u128> for BoundedRational {
    open spec fn obeys_mul_spec() -> bool {
        false
    }

    open spec fn mul_req(self, rhs: &'a u128) -> bool {
        true
    }

    open spec fn mul_spec(self, rhs: &'a u128) -> BoundedRational {
        arbitrary()
    }
}

/// `&BoundedRational * u128`.
impl<'a> core::ops::Mul<u128> for &'a BoundedRational {
    type Output = BoundedRational;

    fn mul(self, other: u128) -> (r: BoundedRational)
        ensures
            product_result(self@, (other as int, 1int), r@),
    {
        let b = BoundedRational::from_bigint(BigInt::from(other));
        BoundedRational::product_of(self, &b)
    }
}

impl<'a> vstd::std_specs::ops::MulSpecImpl<u128> for &'a BoundedRational {
    open spec fn obeys_mul_spec() -> bool {
        false
    }

    open spec fn mul_req(self, rhs: u128) -> bool {
        true
    }

    open spec fn mul_spec(self, rhs: u128) -> BoundedRational {
        arbitrary()
    }
}

/// `&BoundedRational * &u128`.
impl<'a, 'b> core::ops::Mul<&'b u128> for &'a BoundedRational {
    type Output = BoundedRational;

    fn mul(self, other: &'b u128) -> (r: BoundedRational)
        ensures
            product_result(self@, (*other as int, 1int), r@),
    {
        let b = BoundedRational::from_bigint(BigInt::from(*other));
        BoundedRational::product_of(self, &b)
    }
}

impl<'a, 'b> vstd::std_specs::ops::MulSpecImpl<&'b u128> for &'a BoundedRational {
    open spec fn obeys_mul_spec() -> bool {
        false
    }

    open spec fn mul_req(self, rhs: &'b u128) -> bool {
        true
    }

    open spec fn mul_spec(self, rhs: &'b u128) -> BoundedRational {
        arbitrary()
    }
}

/// `u128 * BoundedRational`.
impl core::ops::Mul<BoundedRational> for u128 {
    type Output = BoundedRational;

    fn mul(self, other: BoundedRational) -> (r: BoundedRational)
        ensures
            product_result(other@, (self as int, 1int), r@),
    {
        let a = BoundedRational::from_bigint(BigInt::from(self));
        BoundedRational::product_of(&other, &a)
    }
}

impl vstd::std_specs::ops::MulSpecImpl<BoundedRational> for u128 {
    open spec fn obeys_mul_spec() -> bool {
        false
    }

    open spec fn mul_req(self, rhs: BoundedRational) -> bool {
        true
    }

    open spec fn mul_spec(self, rhs: BoundedRational) -> BoundedRational {
        arbitrary()
    }
}

/// `&u128 * BoundedRational`.
impl<'a> core::ops::Mul<BoundedRational> for &'a u128 {
    type Output = BoundedRational;

    fn mul(self, other: BoundedRational) -> (r: BoundedRational)
        ensures
            product_result(other@, (*self as int, 1int), r@),
    {
        let a = BoundedRational::from_bigint(BigInt::from(*self));
        BoundedRational::product_of(&other, &a)
    }
}

impl<'a> vstd::std_specs::ops::MulSpecImpl<BoundedRational> for &'a u128 {
    open spec fn obeys_mul_spec() -> bool {
        false
    }

    open spec fn mul_req(self, rhs: BoundedRational) -> bool {
        true
    }

    open spec fn mul_spec(self, rhs: BoundedRational) -> BoundedRational {
        arbitrary()
    }
}

/// `u128 * &BoundedRational`.
impl<'a> core::ops::Mul<&'a BoundedRational> for u128 {
    type Output = BoundedRational;

    fn mul(self, other: &'a BoundedRational) -> (r: BoundedRational)
        ensures
            product_result(other@, (self as int, 1int), r@),
    {
        let a = BoundedRational::from_bigint(BigInt::from(self));
        BoundedRational::product_of(other, &a)
    }
}

impl<'a> vstd::std_specs::ops::MulSpecImpl<&'a BoundedRational> for u128 {
    open spec fn obeys_mul_spec() -> bool {
        false
    }

    open spec fn mul_req(self, rhs: &'a BoundedRational) -> bool {
        true
    }

    open spec fn mul_spec(self, rhs: &'a BoundedRational) -> BoundedRational {
        arbitrary()
    }
}

/// `&u128 * &BoundedRational`.
impl<'a, 'b> core::ops::Mul<&'b BoundedRational> for &'a u128 {
    type Output = BoundedRational;

    fn mul(self, other: &'b BoundedRational) -> (r: BoundedRational)
        ensures
            product_result(other@, (*self as int, 1int), r@),
    {
        let a = BoundedRational::from_bigint(BigInt::from(*self));
        BoundedRational::product_of(other, &a)
    }
}

impl<'a, 'b> vstd::std_specs::ops::MulSpecImpl<&'b BoundedRational> for &'a u128 {
    open spec fn obeys_mul_spec() -> bool {
        false
    }

    open spec fn mul_req(self, rhs: &'b BoundedRational) -> bool {
        true
    }

    open spec fn mul_spec(self, rhs: &'b BoundedRational) -> BoundedRational {
        arbitrary()
    }
}

/// `BoundedRational *= u128`.
impl core::ops::MulAssign<u128> for BoundedRational {
    fn mul_assign(&mut self, other: u128)
        ensures
            product_result(old(self)@, (other as int, 1int), final(self)@),
    {
        let b = BoundedRational::from_bigint(BigInt::from(other));
        let v = BoundedRational::product_of(self, &b);
        *self = v;
    }
}

/// `BoundedRational *= &u128`.
impl<'a> core::ops::MulAssign<&'a u128> for BoundedRational {
    fn mul_assign(&mut self, other: &'a u128)
        ensures
            product_result(old(self)@, (*other as int, 1int), final(self)@),
    {
        let b = BoundedRational::from_bigint(BigInt::from(*other));
        let v = BoundedRational::product_of(self, &b);
        *self = v;
    }
}

// Multiplication with `usize`.

/// `BoundedRational * usize`.
impl core::ops::Mul<usize> for BoundedRational {
    type Output = BoundedRational;

    fn mul(self, other: usize) -> (r: BoundedRational)
        ensures
            product_result(self@, (other as int, 1int), r@),
    {
        let b = BoundedRational::from_bigint(BigInt::from(other));
        BoundedRational::product_of(&self, &b)
    }
}

impl vstd::std_specs::ops::MulSpecImpl<usize> for BoundedRational {
    open spec fn obeys_mul_spec() -> bool {
        false
    }

    open spec fn mul_req(self, rhs: usize) -> bool {
        true
    }

    open spec fn mul_spec(self, rhs: usize) -> BoundedRational {
        arbitrary()
    }
}

/// `BoundedRational * &usize`.
impl<'a> core::ops::Mul<&'a usize> for BoundedRational {
    type Output = BoundedRational;

    fn mul(self, other: &'a usize) -> (r: BoundedRational)
        ensures
            product_result(self@, (*other as int, 1int), r@),
    {
        let b = BoundedRational::from_bigint(BigInt::from(*other));
        BoundedRational::product_of(&self, &b)
    }
}

impl<'a> vstd::std_specs::ops::MulSpecImpl<&'a usize> for BoundedRational {
    open spec fn obeys_mul_spec() -> bool {
        false
    }

    open spec fn mul_req(self, rhs: &'a usize) -> bool {
        true
    }

    open spec fn mul_spec(self, rhs: &'a usize) -> BoundedRational {
        arbitrary()
    }
}

/// `&BoundedRational * usize`.
impl<'a> core::ops::Mul<usize> for &'a BoundedRational {
    type Output = BoundedRational;

    fn mul(self, other: usize) -> (r: BoundedRational)
        ensures
            product_result(self@, (other as int, 1int), r@),
    {
        let b = BoundedRational::from_bigint(BigInt::from(other));
        BoundedRational::product_of(self, &b)
    }
}

impl<'a> vstd::std_specs::ops::MulSpecImpl<usize> for &'a BoundedRational {
    open spec fn obeys_mul_spec() -> bool {
        false
    }

    open spec fn mul_req(self, rhs: usize) -> bool {
        true
    }

    open spec fn mul_spec(self, rhs: usize) -> BoundedRational {
        arbitrary()
    }
}

/// `&BoundedRational * &usize`.
impl<'a, 'b> core::ops::Mul<&'b usize> for &'a BoundedRational {
    type Output = BoundedRational;

    fn mul(self, other: &'b usize) -> (r: BoundedRational)
        ensures
            product_result(self@, (*other as int, 1int), r@),
    {
        let b = BoundedRational::from_bigint(BigInt::from(*other));
        BoundedRational::product_of(self, &b)
    }
}

impl<'a, 'b> vstd::std_specs::ops::MulSpecImpl<&'b usize> for &'a BoundedRational {
    open spec fn obeys_mul_spec() -> bool {
        false
    }

    open spec fn mul_req(self, rhs: &'b usize) -> bool {
        true
    }

    open spec fn mul_spec(self, rhs: &'b usize) -> BoundedRational {
        arbitrary()
    }
}

/// `usize * BoundedRational`.
impl core::ops::Mul<BoundedRational> for usize {
    type Output = BoundedRational;

    fn mul(self, other: BoundedRational) -> (r: BoundedRational)
        ensures
            product_result(other@, (self as int, 1int), r@),
    {
        let a = BoundedRational::from_bigint(BigInt::from(self));
        BoundedRational::product_of(&other, &a)
    }
}

impl vstd::std_specs::ops::MulSpecImpl<BoundedRational> for usize {
    open spec fn obeys_mul_spec() -> bool {
        false
    }

    open spec fn mul_req(self, rhs: BoundedRational) -> bool {
        true
    }

    open spec fn mul_spec(self, rhs: BoundedRational) -> BoundedRational {
        arbitrary()
    }
}

/// `&usize * BoundedRational`.
impl<'a> core::ops::Mul<BoundedRational> for &'a usize {
    type Output = BoundedRational;

    fn mul(self, other: BoundedRational) -> (r: BoundedRational)
        ensures
            product_result(other@, (*self as int, 1int), r@),
    {
        let a = BoundedRational::from_bigint(BigInt::from(*self));
        BoundedRational::product_of(&other, &a)
    }
}

impl<'a> vstd::std_specs::ops::MulSpecImpl<BoundedRational> for &'a usize {
    open spec fn obeys_mul_spec() -> bool {
        false
    }

    open spec fn mul_req(self, rhs: BoundedRational) -> bool {
        true
    }

    open spec fn mul_spec(self, rhs: BoundedRational) -> BoundedRational {
        arbitrary()
    }
}

/// `usize * &BoundedRational`.
impl<'a> core::ops::Mul<&'a BoundedRational> for usize {
    type Output = BoundedRational;

    fn mul(self, other: &'a BoundedRational) -> (r: BoundedRational)
        ensures
            product_result(other@, (self as int, 1int), r@),
    {
        let a = BoundedRational::from_bigint(BigInt::from(self));
        BoundedRational::product_of(other, &a)
    }
}

impl<'a> vstd::std_specs::ops::MulSpecImpl<&'a BoundedRational> for usize {
    open spec fn obeys_mul_spec() -> bool {
        false
    }

    open spec fn mul_req(self, rhs: &'a BoundedRational) -> bool {
        true
    }

    open spec fn mul_spec(self, rhs: &'a BoundedRational) -> BoundedRational {
        arbitrary()
    }
}

/// `&usize * &BoundedRational`.
impl<'a, 'b> core::ops::Mul<&'b BoundedRational> for &'a usize {
    type Output = BoundedRational;

    fn mul(self, other: &'b BoundedRational) -> (r: BoundedRational)
        ensures
            product_result(other@, (*self as int, 1int), r@),
    {
        let a = BoundedRational::from_bigint(BigInt::from(*self));
        BoundedRational::product_of(other, &a)
    }
}

impl<'a, 'b> vstd::std_specs::ops::MulSpecImpl<&'b BoundedRational> for &'a usize {
    open spec fn obeys_mul_spec() -> bool {
        false
    }

    open spec fn mul_req(self, rhs: &'b BoundedRational) -> bool {
        true
    }

    open spec fn mul_spec(self, rhs: &'b BoundedRational) -> BoundedRational {
        arbitrary()
    }
}

/// `BoundedRational *= usize`.
impl core::ops::MulAssign<usize> for BoundedRational {
    fn mul_assign(&mut self, other: usize)
        ensures
            product_result(old(self)@, (other as int, 1int), final(self)@),
    {
        let b = BoundedRational::from_bigint(BigInt::from(other));
        let v = BoundedRational::product_of(self, &b);
        *self = v;
    }
}

/// `BoundedRational *= &usize`.
impl<'a> core::ops::MulAssign<&'a usize> for BoundedRational {
    fn mul_assign(&mut self, other: &'a usize)
        ensures
            product_result(old(self)@, (*other as int, 1int), final(self)@),
    {
        let b = BoundedRational::from_bigint(BigInt::from(*other));
        let v = BoundedRational::product_of(self, &b);
        *self = v;
    }
}

// Multiplication with `i8`.

/// `BoundedRational * i8`.
impl core::ops::Mul<i8> for BoundedRational {
    type Output = BoundedRational;

    fn mul(self, other: i8) -> (r: BoundedRational)
        ensures
            product_result(self@, (other as int, 1int), r@),
    {
        let b = BoundedRational::from_bigint(BigInt::from(other));
        BoundedRational::product_of(&self, &b)
    }
}

impl vstd::std_specs::ops::MulSpecImpl<i8> for BoundedRational {
    open spec fn obeys_mul_spec() -> bool {
        false
    }

    open spec fn mul_req(self, rhs: i8) -> bool {
        true
    }

    open spec fn mul_spec(self, rhs: i8) -> BoundedRational {
        arbitrary()
    }
}

/// `BoundedRational * &i8`.
impl<'a> core::ops::Mul<&'a i8> for BoundedRational {
    type Output = BoundedRational;

    fn mul(self, other: &'a i8) -> (r: BoundedRational)
        ensures
            product_result(self@, (*other as int, 1int), r@),
    {
        let b = BoundedRational::from_bigint(BigInt::from(*other));
        BoundedRational::product_of(&self, &b)
    }
}

impl<'a> vstd::std_specs::ops::MulSpecImpl<&'a i8> for BoundedRational {
    open spec fn obeys_mul_spec() -> bool {
        false
    }

    open spec fn mul_req(self, rhs: &'a i8) -> bool {
        true
    }

    open spec fn mul_spec(self, rhs: &'a i8) -> BoundedRational {
        arbitrary()
    }
}

/// `&BoundedRational * i8`.
impl<'a> core::ops::Mul<i8> for &'a BoundedRational {
    type Output = BoundedRational;

    fn mul(self, other: i8) -> (r: BoundedRational)
        ensures
            product_result(self@, (other as int, 1int), r@),
    {
        let b = BoundedRational::from_bigint(BigInt::from(other));
        BoundedRational::product_of(self, &b)
    }
}

impl<'a> vstd::std_specs::ops::MulSpecImpl<i8> for &'a BoundedRational {
    open spec fn obeys_mul_spec() -> bool {
        false
    }

    open spec fn mul_req(self, rhs: i8) -> bool {
        true
    }

    open spec fn mul_spec(self, rhs: i8) -> BoundedRational {
        arbitrary()
    }
}

/// `&BoundedRational * &i8`.
impl<'a, 'b> core::ops::Mul<&'b i8> for &'a BoundedRational {
    type Output = BoundedRational;

    fn mul(self, other: &'b i8) -> (r: BoundedRational)
        ensures
            product_result(self@, (*other as int, 1int), r@),
    {
        let b = BoundedRational::from_bigint(BigInt::from(*other));
        BoundedRational::product_of(self, &b)
    }
}

impl<'a, 'b> vstd::std_specs::ops::MulSpecImpl<&'b i8> for &'a BoundedRational {
    open spec fn obeys_mul_spec() -> bool {
        false
    }

    open spec fn mul_req(self, rhs: &'b i8) -> bool {
        true
    }

    open spec fn mul_spec(self, rhs: &'b i8) -> BoundedRational {
        arbitrary()
    }
}

/// `i8 * BoundedRational`.
impl core::ops::Mul<BoundedRational> for i8 {
    type Output = BoundedRational;

    fn mul(self, other: BoundedRational) -> (r: BoundedRational)
        ensures
            product_result(other@, (self as int, 1int), r@),
    {
        let a = BoundedRational::from_bigint(BigInt::from(self));
        BoundedRational::product_of(&other, &a)
    }
}

impl vstd::std_specs::ops::MulSpecImpl<BoundedRational> for i8 {
    open spec fn obeys_mul_spec() -> bool {
        false
    }

    open spec fn mul_req(self, rhs: BoundedRational) -> bool {
        true
    }

    open spec fn mul_spec(self, rhs: BoundedRational) -> BoundedRational {
        arbitrary()
    }
}

/// `&i8 * BoundedRational`.
impl<'a> core::ops::Mul<BoundedRational> for &'a i8 {
    type Output = BoundedRational;

    fn mul(self, other: BoundedRational) -> (r: BoundedRational)
        ensures
            product_result(other@, (*self as int, 1int), r@),
    {
        let a = BoundedRational::from_bigint(BigInt::from(*self));
        BoundedRational::product_of(&other, &a)
    }
}

impl<'a> vstd::std_specs::ops::MulSpecImpl<BoundedRational> for &'a i8 {
    open spec fn obeys_mul_spec() -> bool {
        false
    }

    open spec fn mul_req(self, rhs: BoundedRational) -> bool {
        true
    }

    open spec fn mul_spec(self, rhs: BoundedRational) -> BoundedRational {
        arbitrary()
    }
}

/// `i8 * &BoundedRational`.
impl<'a> core::ops::Mul<&'a BoundedRational> for i8 {
    type Output = BoundedRational;

    fn mul(self, other: &'a BoundedRational) -> (r: BoundedRational)
        ensures
            product_result(other@, (self as int, 1int), r@),
    {
        let a = BoundedRational::from_bigint(BigInt::from(self));
        BoundedRational::product_of(other, &a)
    }
}

impl<'a> vstd::std_specs::ops::MulSpecImpl<&'a BoundedRational> for i8 {
    open spec fn obeys_mul_spec() -> bool {
        false
    }

    open spec fn mul_req(self, rhs: &'a BoundedRational) -> bool {
        true
    }

    open spec fn mul_spec(self, rhs: &'a BoundedRational) -> BoundedRational {
        arbitrary()
    }
}

/// `&i8 * &BoundedRational`.
impl<'a, 'b> core::ops::Mul<&'b BoundedRational> for &'a i8 {
    type Output = BoundedRational;

    fn mul(self, other: &'b BoundedRational) -> (r: BoundedRational)
        ensures
            product_result(other@, (*self as int, 1int), r@),
    {
        let a = BoundedRational::from_bigint(BigInt::from(*self));
        BoundedRational::product_of(other, &a)
    }
}

impl<'a, 'b> vstd::std_specs::ops::MulSpecImpl<&'b BoundedRational> for &'a i8 {
    open spec fn obeys_mul_spec() -> bool {
        false
    }

    open spec fn mul_req(self, rhs: &'b BoundedRational) -> bool {
        true
    }

    open spec fn mul_spec(self, rhs: &'b BoundedRational) -> BoundedRational {
        arbitrary()
    }
}

/// `BoundedRational *= i8`.
impl core::ops::MulAssign<i8> for BoundedRational {
    fn mul_assign(&mut self, other: i8)
        ensures
            product_result(old(self)@, (other as int, 1int), final(self)@),
    {
        let b = BoundedRational::from_bigint(BigInt::from(other));
        let v = BoundedRational::product_of(self, &b);
        *self = v;
    }
}

/// `BoundedRational *= &i8`.
impl<'a> core::ops::MulAssign<&'a i8> for BoundedRational {
    fn mul_assign(&mut self, other: &'a i8)
        ensures
            product_result(old(self)@, (*other as int, 1int), final(self)@),
    {
        let b = BoundedRational::from_bigint(BigInt::from(*other));
        let v = BoundedRational::product_of(self, &b);
        *self = v;
    }
}

// Multiplication with `i16`.

/// `BoundedRational * i16`.
impl core::ops::Mul<i16> for BoundedRational {
    type Output = BoundedRational;

    fn mul(self, other: i16) -> (r: BoundedRational)
        ensures
            product_result(self@, (other as int, 1int), r@),
    {
        let b = BoundedRational::from_bigint(BigInt::from(other));
        BoundedRational::product_of(&self, &b)
    }
}

impl vstd::std_specs::ops::MulSpecImpl<i16> for BoundedRational {
    open spec fn obeys_mul_spec() -> bool {
        false
    }

    open spec fn mul_req(self, rhs: i16) -> bool {
        true
    }

    open spec fn mul_spec(self, rhs: i16) -> BoundedRational {
        arbitrary()
    }
}

/// `BoundedRational * &i16`.
impl<'a> core::ops::Mul<&'a i16> for BoundedRational {
    type Output = BoundedRational;

    fn mul(self, other: &'a i16) -> (r: BoundedRational)
        ensures
            product_result(self@, (*other as int, 1int), r@),
    {
        let b = BoundedRational::from_bigint(BigInt::from(*other));
        BoundedRational::product_of(&self, &b)
    }
}

impl<'a> vstd::std_specs::ops::MulSpecImpl<&'a i16> for BoundedRational {
    open spec fn obeys_mul_spec() -> bool {
        false
    }

    open spec fn mul_req(self, rhs: &'a i16) -> bool {
        true
    }

    open spec fn mul_spec(self, rhs: &'a i16) -> BoundedRational {
        arbitrary()
    }
}

/// `&BoundedRational * i16`.
impl<'a> core::ops::Mul<i16> for &'a BoundedRational {
    type Output = BoundedRational;

    fn mul(self, other: i16) -> (r: BoundedRational)
        ensures
            product_result(self@, (other as int, 1int), r@),
    {
        let b = BoundedRational::from_bigint(BigInt::from(other));
        BoundedRational::product_of(self, &b)
    }
}

impl<'a> vstd::std_specs::ops::MulSpecImpl<i16> for &'a BoundedRational {
    open spec fn obeys_mul_spec() -> bool {
        false
    }

    open spec fn mul_req(self, rhs: i16) -> bool {
        true
    }

    open spec fn mul_spec(self, rhs: i16) -> BoundedRational {
        arbitrary()
    }
}

/// `&BoundedRational * &i16`.
impl<'a, 'b> core::ops::Mul<&'b i16> for &'a BoundedRational {
    type Output = BoundedRational;

    fn mul(self, other: &'b i16) -> (r: BoundedRational)
        ensures
            product_result(self@, (*other as int, 1int), r@),
    {
        let b = BoundedRational::from_bigint(BigInt::from(*other));
        BoundedRational::product_of(self, &b)
    }
}

impl<'a, 'b> vstd::std_specs::ops::MulSpecImpl<&'b i16> for &'a BoundedRational {
    open spec fn obeys_mul_spec() -> bool {
        false
    }

    open spec fn mul_req(self, rhs: &'b i16) -> bool {
        true
    }

    open spec fn mul_spec(self, rhs: &'b i16) -> BoundedRational {
        arbitrary()
    }
}

/// `i16 * BoundedRational`.
impl core::ops::Mul<BoundedRational> for i16 {
    type Output = BoundedRational;

    fn mul(self, other: BoundedRational) -> (r: BoundedRational)
        ensures
            product_result(other@, (self as int, 1int), r@),
    {
        let a = BoundedRational::from_bigint(BigInt::from(self));
        BoundedRational::product_of(&other, &a)
    }
}

impl vstd::std_specs::ops::MulSpecImpl<BoundedRational> for i16 {
    open spec fn obeys_mul_spec() -> bool {
        false
    }

    open spec fn mul_req(self, rhs: BoundedRational) -> bool {
        true
    }

    open spec fn mul_spec(self, rhs: BoundedRational) -> BoundedRational {
        arbitrary()
    }
}

/// `&i16 * BoundedRational`.
impl<'a> core::ops::Mul<BoundedRational> for &'a i16 {
    type Output = BoundedRational;

    fn mul(self, other: BoundedRational) -> (r: BoundedRational)
        ensures
            product_result(other@, (*self as int, 1int), r@),
    {
        let a = BoundedRational::from_bigint(BigInt::from(*self));
        BoundedRational::product_of(&other, &a)
    }
}

impl<'a> vstd::std_specs::ops::MulSpecImpl<BoundedRational> for &'a i16 {
    open spec fn obeys_mul_spec() -> bool {
        false
    }

    open spec fn mul_req(self, rhs: BoundedRational) -> bool {
        true
    }

    open spec fn mul_spec(self, rhs: BoundedRational) -> BoundedRational {
        arbitrary()
    }
}

/// `i16 * &BoundedRational`.
impl<'a> core::ops::Mul<&'a BoundedRational> for i16 {
    type Output = BoundedRational;

    fn mul(self, other: &'a BoundedRational) -> (r: BoundedRational)
        ensures
            product_result(other@, (self as int, 1int), r@),
    {
        let a = BoundedRational::from_bigint(BigInt::from(self));
        BoundedRational::product_of(other, &a)
    }
}

impl<'a> vstd::std_specs::ops::MulSpecImpl<&'a BoundedRational> for i16 {
    open spec fn obeys_mul_spec() -> bool {
        false
    }

    open spec fn mul_req(self, rhs: &'a BoundedRational) -> bool {
        true
    }

    open spec fn mul_spec(self, rhs: &'a BoundedRational) -> BoundedRational {
        arbitrary()
    }
}

/// `&i16 * &BoundedRational`.
impl<'a, 'b> core::ops::Mul<&'b BoundedRational> for &'a i16 {
    type Output = BoundedRational;

    fn mul(self, other: &'b BoundedRational) -> (r: BoundedRational)
        ensures
            product_result(other@, (*self as int, 1int), r@),
    {
        let a = BoundedRational::from_bigint(BigInt::from(*self));
        BoundedRational::product_of(other, &a)
    }
}

impl<'a, 'b> vstd::std_specs::ops::MulSpecImpl<&'b BoundedRational> for &'a i16 {
    open spec fn obeys_mul_spec() -> bool {
        false
    }

    open spec fn mul_req(self, rhs: &'b BoundedRational) -> bool {
        true
    }

    open spec fn mul_spec(self, rhs: &'b BoundedRational) -> BoundedRational {
        arbitrary()
    }
}

/// `BoundedRational *= i16`.
impl core::ops::MulAssign<i16> for BoundedRational {
    fn mul_assign(&mut self, other: i16)
        ensures
            product_result(old(self)@, (other as int, 1int), final(self)@),
    {
        let b = BoundedRational::from_bigint(BigInt::from(other));
        let v = BoundedRational::product_of(self, &b);
        *self = v;
    }
}

/// `BoundedRational *= &i16`.
impl<'a> core::ops::MulAssign<&'a i16> for BoundedRational {
    fn mul_assign(&mut self, other: &'a i16)
        ensures
            product_result(old(self)@, (*other as int, 1int), final(self)@),
    {
        let b = BoundedRational::from_bigint(BigInt::from(*other));
        let v = BoundedRational::product_of(self, &b);
        *self = v;
    }
}

// Multiplication with `i32`.

/// `BoundedRational * i32`.
impl core::ops::Mul<i32> for BoundedRational {
    type Output = BoundedRational;

    fn mul(self, other: i32) -> (r: BoundedRational)
        ensures
            product_result(self@, (other as int, 1int), r@),
    {
        let b = BoundedRational::from_bigint(BigInt::from(other));
        BoundedRational::product_of(&self, &b)
    }
}

impl vstd::std_specs::ops::MulSpecImpl<i32> for BoundedRational {
    open spec fn obeys_mul_spec() -> bool {
        false
    }

    open spec fn mul_req(self, rhs: i32) -> bool {
        true
    }

    open spec fn mul_spec(self, rhs: i32) -> BoundedRational {
        arbitrary()
    }
}

/// `BoundedRational * &i32`.
impl<'a> core::ops::Mul<&'a i32> for BoundedRational {
    type Output = BoundedRational;

    fn mul(self, other: &'a i32) -> (r: BoundedRational)
        ensures
            product_result(self@, (*other as int, 1int), r@),
    {
        let b = BoundedRational::from_bigint(BigInt::from(*other));
        BoundedRational::product_of(&self, &b)
    }
}

impl<'a> vstd::std_specs::ops::MulSpecImpl<&'a i32> for BoundedRational {
    open spec fn obeys_mul_spec() -> bool {
        false
    }

    open spec fn mul_req(self, rhs: &'a i32) -> bool {
        true
    }

    open spec fn mul_spec(self, rhs: &'a i32) -> BoundedRational {
        arbitrary()
    }
}

/// `&BoundedRational * i32`.
impl<'a> core::ops::Mul<i32> for &'a BoundedRational {
    type Output = BoundedRational;

    fn mul(self, other: i32) -> (r: BoundedRational)
        ensures
            product_result(self@, (other as int, 1int), r@),
    {
        let b = BoundedRational::from_bigint(BigInt::from(other));
        BoundedRational::product_of(self, &b)
    }
}

impl<'a> vstd::std_specs::ops::MulSpecImpl<i32> for &'a BoundedRational {
    open spec fn obeys_mul_spec() -> bool {
        false
    }

    open spec fn mul_req(self, rhs: i32) -> bool {
        true
    }

    open spec fn mul_spec(self, rhs: i32) -> BoundedRational {
        arbitrary()
    }
}

/// `&BoundedRational * &i32`.
impl<'a, 'b> core::ops::Mul<&'b i32> for &'a BoundedRational {
    type Output = BoundedRational;

    fn mul(self, other: &'b i32) -> (r: BoundedRational)
        ensures
            product_result(self@, (*other as int, 1int), r@),
    {
        let b = BoundedRational::from_bigint(BigInt::from(*other));
        BoundedRational::product_of(self, &b)
    }
}

impl<'a, 'b> vstd::std_specs::ops::MulSpecImpl<&'b i32> for &'a BoundedRational {
    open spec fn obeys_mul_spec() -> bool {
        false
    }

    open spec fn mul_req(self, rhs: &'b i32) -> bool {
        true
    }

    open spec fn mul_spec(self, rhs: &'b i32) -> BoundedRational {
        arbitrary()
    }
}

/// `i32 * BoundedRational`.
impl core::ops::Mul<BoundedRational> for i32 {
    type Output = BoundedRational;

    fn mul(self, other: BoundedRational) -> (r: BoundedRational)
        ensures
            product_result(other@, (self as int, 1int), r@),
    {
        let a = BoundedRational::from_bigint(BigInt::from(self));
        BoundedRational::product_of(&other, &a)
    }
}

impl vstd::std_specs::ops::MulSpecImpl<BoundedRational> for i32 {
    open spec fn obeys_mul_spec() -> bool {
        false
    }

    open spec fn mul_req(self, rhs: BoundedRational) -> bool {
        true
    }

    open spec fn mul_spec(self, rhs: BoundedRational) -> BoundedRational {
        arbitrary()
    }
}

/// `&i32 * BoundedRational`.
impl<'a> core::ops::Mul<BoundedRational> for &'a i32 {
    type Output = BoundedRational;

    fn mul(self, other: BoundedRational) -> (r: BoundedRational)
        ensures
            product_result(other@, (*self as int, 1int), r@),
    {
        let a = BoundedRational::from_bigint(BigInt::from(*self));
        BoundedRational::product_of(&other, &a)
    }
}

impl<'a> vstd::std_specs::ops::MulSpecImpl<BoundedRational> for &'a i32 {
    open spec fn obeys_mul_spec() -> bool {
        false
    }

    open spec fn mul_req(self, rhs: BoundedRational) -> bool {
        true
    }

    open spec fn mul_spec(self, rhs: BoundedRational) -> BoundedRational {
        arbitrary()
    }
}

/// `i32 * &BoundedRational`.
impl<'a> core::ops::Mul<&'a BoundedRational> for i32 {
    type Output = BoundedRational;

    fn mul(self, other: &'a BoundedRational) -> (r: BoundedRational)
        ensures
            product_result(other@, (self as int, 1int), r@),
    {
        let a = BoundedRational::from_bigint(BigInt::from(self));
        BoundedRational::product_of(other, &a)
    }
}

impl<'a> vstd::std_specs::ops::MulSpecImpl<&'a BoundedRational> for i32 {
    open spec fn obeys_mul_spec() -> bool {
        false
    }

    open spec fn mul_req(self, rhs: &'a BoundedRational) -> bool {
        true
    }

    open spec fn mul_spec(self, rhs: &'a BoundedRational) -> BoundedRational {
        arbitrary()
    }
}

/// `&i32 * &BoundedRational`.
impl<'a, 'b> core::ops::Mul<&'b BoundedRational> for &'a i32 {
    type Output = BoundedRational;

    fn mul(self, other: &'b BoundedRational) -> (r: BoundedRational)
        ensures
            product_result(other@, (*self as int, 1int), r@),
    {
        let a = BoundedRational::from_bigint(BigInt::from(*self));
        BoundedRational::product_of(other, &a)
    }
}

impl<'a, 'b> vstd::std_specs::ops::MulSpecImpl<&'b BoundedRational> for &'a i32 {
    open spec fn obeys_mul_spec() -> bool {
        false
    }

    open spec fn mul_req(self, rhs: &'b BoundedRational) -> bool {
        true
    }

    open spec fn mul_spec(self, rhs: &'b BoundedRational) -> BoundedRational {
        arbitrary()
    }
}

/// `BoundedRational *= i32`.
impl core::ops::MulAssign<i32> for BoundedRational {
    fn mul_assign(&mut self, other: i32)
        ensures
            product_result(old(self)@, (other as int, 1int), final(self)@),
    {
        let b = BoundedRational::from_bigint(BigInt::from(other));
        let v = BoundedRational::product_of(self, &b);
        *self = v;
    }
}

/// `BoundedRational *= &i32`.
impl<'a> core::ops::MulAssign<&'a i32> for BoundedRational {
    fn mul_assign(&mut self, other: &'a i32)
        ensures
            product_result(old(self)@, (*other as int, 1int), final(self)@),
    {
        let b = BoundedRational::from_bigint(BigInt::from(*other));
        let v = BoundedRational::product_of(self, &b);
        *self = v;
    }
}

// Multiplication with `i64`.

/// `BoundedRational * i64`.
impl core::ops::Mul<i64> for BoundedRational {
    type Output = BoundedRational;

    fn mul(self, other: i64) -> (r: BoundedRational)
        ensures
            product_result(self@, (other as int, 1int), r@),
    {
        let b = BoundedRational::from_bigint(BigInt::from(other));
        BoundedRational::product_of(&self, &b)
    }
}

impl vstd::std_specs::ops::MulSpecImpl<i64> for BoundedRational {
    open spec fn obeys_mul_spec() -> bool {
        false
    }

    open spec fn mul_req(self, rhs: i64) -> bool {
        true
    }

    open spec fn mul_spec(self, rhs: i64) -> BoundedRational {
        arbitrary()
    }
}

/// `BoundedRational * &i64`.
impl<'a> core::ops::Mul<&'a i64> for BoundedRational {
    type Output = BoundedRational;

    fn mul(self, other: &'a i64) -> (r: BoundedRational)
        ensures
            product_result(self@, (*other as int, 1int), r@),
    {
        let b = BoundedRational::from_bigint(BigInt::from(*other));
        BoundedRational::product_of(&self, &b)
    }
}

impl<'a> vstd::std_specs::ops::MulSpecImpl<&'a i64> for BoundedRational {
    open spec fn obeys_mul_spec() -> bool {
        false
    }

    open spec fn mul_req(self, rhs: &'a i64) -> bool {
        true
    }

    open spec fn mul_spec(self, rhs: &'a i64) -> BoundedRational {
        arbitrary()
    }
}

/// `&BoundedRational * i64`.
impl<'a> core::ops::Mul<i64> for &'a BoundedRational {
    type Output = BoundedRational;

    fn mul(self, other: i64) -> (r: BoundedRational)
        ensures
            product_result(self@, (other as int, 1int), r@),
    {
        let b = BoundedRational::from_bigint(BigInt::from(other));
        BoundedRational::product_of(self, &b)
    }
}

impl<'a> vstd::std_specs::ops::MulSpecImpl<i64> for &'a BoundedRational {
    open spec fn obeys_mul_spec() -> bool {
        false
    }

    open spec fn mul_req(self, rhs: i64) -> bool {
        true
    }

    open spec fn mul_spec(self, rhs: i64) -> BoundedRational {
        arbitrary()
    }
}

/// `&BoundedRational * &i64`.
impl<'a, 'b> core::ops::Mul<&'b i64> for &'a BoundedRational {
    type Output = BoundedRational;

    fn mul(self, other: &'b i64) -> (r: BoundedRational)
        ensures
            product_result(self@, (*other as int, 1int), r@),
    {
        let b = BoundedRational::from_bigint(BigInt::from(*other));
        BoundedRational::product_of(self, &b)
    }
}

impl<'a, 'b> vstd::std_specs::ops::MulSpecImpl<&'b i64> for &'a BoundedRational {
    open spec fn obeys_mul_spec() -> bool {
        false
    }

    open spec fn mul_req(self, rhs: &'b i64) -> bool {
        true
    }

    open spec fn mul_spec(self, rhs: &'b i64) -> BoundedRational {
        arbitrary()
    }
}

/// `i64 * BoundedRational`.
impl core::ops::Mul<BoundedRational> for i64 {
    type Output = BoundedRational;

    fn mul(self, other: BoundedRational) -> (r: BoundedRational)
        ensures
            product_result(other@, (self as int, 1int), r@),
    {
        let a = BoundedRational::from_bigint(BigInt::from(self));
        BoundedRational::product_of(&other, &a)
    }
}

impl vstd::std_specs::ops::MulSpecImpl<BoundedRational> for i64 {
    open spec fn obeys_mul_spec() -> bool {
        false
    }

    open spec fn mul_req(self, rhs: BoundedRational) -> bool {
        true
    }

    open spec fn mul_spec(self, rhs: BoundedRational) -> BoundedRational {
        arbitrary()
    }
}

/// `&i64 * BoundedRational`.
impl<'a> core::ops::Mul<BoundedRational> for &'a i64 {
    type Output = BoundedRational;

    fn mul(self, other: BoundedRational) -> (r: BoundedRational)
        ensures
            product_result(other@, (*self as int, 1int), r@),
    {
        let a = BoundedRational::from_bigint(BigInt::from(*self));
        BoundedRational::product_of(&other, &a)
    }
}

impl<'a> vstd::std_specs::ops::MulSpecImpl<BoundedRational> for &'a i64 {
    open spec fn obeys_mul_spec() -> bool {
        false
    }

    open spec fn mul_req(self, rhs: BoundedRational) -> bool {
        true
    }

    open spec fn mul_spec(self, rhs: BoundedRational) -> BoundedRational {
        arbitrary()
    }
}

/// `i64 * &BoundedRational`.
impl<'a> core::ops::Mul<&'a BoundedRational> for i64 {
    type Output = BoundedRational;

    fn mul(self, other: &'a BoundedRational) -> (r: BoundedRational)
        ensures
            product_result(other@, (self as int, 1int), r@),
    {
        let a = BoundedRational::from_bigint(BigInt::from(self));
        BoundedRational::product_of(other, &a)
    }
}

impl<'a> vstd::std_specs::ops::MulSpecImpl<&'a BoundedRational> for i64 {
    open spec fn obeys_mul_spec() -> bool {
        false
    }

    open spec fn mul_req(self, rhs: &'a BoundedRational) -> bool {
        true
    }

    open spec fn mul_spec(self, rhs: &'a BoundedRational) -> BoundedRational {
        arbitrary()
    }
}

/// `&i64 * &BoundedRational`.
impl<'a, 'b> core::ops::Mul<&'b BoundedRational> for &'a i64 {
    type Output = BoundedRational;

    fn mul(self, other: &'b BoundedRational) -> (r: BoundedRational)
        ensures
            product_result(other@, (*self as int, 1int), r@),
    {
        let a = BoundedRational::from_bigint(BigInt::from(*self));
        BoundedRational::product_of(other, &a)
    }
}

impl<'a, 'b> vstd::std_specs::ops::MulSpecImpl<&'b BoundedRational> for &'a i64 {
    open spec fn obeys_mul_spec() -> bool {
        false
    }

    open spec fn mul_req(self, rhs: &'b BoundedRational) -> bool {
        true
    }

    open spec fn mul_spec(self, rhs: &'b BoundedRational) -> BoundedRational {
        arbitrary()
    }
}

/// `BoundedRational *= i64`.
impl core::ops::MulAssign<i64> for BoundedRational {
    fn mul_assign(&mut self, other: i64)
        ensures
            product_result(old(self)@, (other as int, 1int), final(self)@),
    {
        let b = BoundedRational::from_bigint(BigInt::from(other));
        let v = BoundedRational::product_of(self, &b);
        *self = v;
    }
}

/// `BoundedRational *= &i64`.
impl<'a> core::ops::MulAssign<&'a i64> for BoundedRational {
    fn mul_assign(&mut self, other: &'a i64)
        ensures
            product_result(old(self)@, (*other as int, 1int), final(self)@),
    {
        let b = BoundedRational::from_bigint(BigInt::from(*other));
        let v = BoundedRational::product_of(self, &b);
        *self = v;
    }
}

// Multiplication with `i128`.

/// `BoundedRational * i128`.
impl core::ops::Mul<i128> for BoundedRational {
    type Output = BoundedRational;

    fn mul(self, other: i128) -> (r: BoundedRational)
        ensures
            product_result(self@, (other as int, 1int), r@),
    {
        let b = BoundedRational::from_bigint(BigInt::from(other));
        BoundedRational::product_of(&self, &b)
    }
}

impl vstd::std_specs::ops::MulSpecImpl<i128> for BoundedRational {
    open spec fn obeys_mul_spec() -> bool {
        false
    }

    open spec fn mul_req(self, rhs: i128) -> bool {
        true
    }

    open spec fn mul_spec(self, rhs: i128) -> BoundedRational {
        arbitrary()
    }
}

/// `BoundedRational * &i128`.
impl<'a> core::ops::Mul<&'a i128> for BoundedRational {
    type Output = BoundedRational;

    fn mul(self, other: &'a i128) -> (r: BoundedRational)
        ensures
            product_result(self@, (*other as int, 1int), r@),
    {
        let b = BoundedRational::from_bigint(BigInt::from(*other));
        BoundedRational::product_of(&self, &b)
    }
}

impl<'a> vstd::std_specs::ops::MulSpecImpl<&'a i128> for BoundedRational {
    open spec fn obeys_mul_spec() -> bool {
        false
    }

    open spec fn mul_req(self, rhs: &'a i128) -> bool {
        true
    }

    open spec fn mul_spec(self, rhs: &'a i128) -> BoundedRational {
        arbitrary()
    }
}

/// `&BoundedRational * i128`.
impl<'a> core::ops::Mul<i128> for &'a BoundedRational {
    type Output = BoundedRational;

    fn mul(self, other: i128) -> (r: BoundedRational)
        ensures
            product_result(self@, (other as int, 1int), r@),
    {
        let b = BoundedRational::from_bigint(BigInt::from(other));
        BoundedRational::product_of(self, &b)
    }
}

impl<'a> vstd::std_specs::ops::MulSpecImpl<i128> for &'a BoundedRational {
    open spec fn obeys_mul_spec() -> bool {
        false
    }

    open spec fn mul_req(self, rhs: i128) -> bool {
        true
    }

    open spec fn mul_spec(self, rhs: i128) -> BoundedRational {
        arbitrary()
    }
}

/// `&BoundedRational * &i128`.
impl<'a, 'b> core::ops::Mul<&'b i128> for &'a BoundedRational {
    type Output = BoundedRational;

    fn mul(self, other: &'b i128) -> (r: BoundedRational)
        ensures
            product_result(self@, (*other as int, 1int), r@),
    {
        let b = BoundedRational::from_bigint(BigInt::from(*other));
        BoundedRational::product_of(self, &b)
    }
}

impl<'a, 'b> vstd::std_specs::ops::MulSpecImpl<&'b i128> for &'a BoundedRational {
    open spec fn obeys_mul_spec() -> bool {
        false
    }

    open spec fn mul_req(self, rhs: &'b i128) -> bool {
        true
    }

    open spec fn mul_spec(self, rhs: &'b i128) -> BoundedRational {
        arbitrary()
    }
}

/// `i128 * BoundedRational`.
impl core::ops::Mul<BoundedRational> for i128 {
    type Output = BoundedRational;

    fn mul(self, other: BoundedRational) -> (r: BoundedRational)
        ensures
            product_result(other@, (self as int, 1int), r@),
    {
        let a = BoundedRational::from_bigint(BigInt::from(self));
        BoundedRational::product_of(&other, &a)
    }
}

impl vstd::std_specs::ops::MulSpecImpl<BoundedRational> for i128 {
    open spec fn obeys_mul_spec() -> bool {
        false
    }

    open spec fn mul_req(self, rhs: BoundedRational) -> bool {
        true
    }

    open spec fn mul_spec(self, rhs: BoundedRational) -> BoundedRational {
        arbitrary()
    }
}

/// `&i128 * BoundedRational`.
impl<'a> core::ops::Mul<BoundedRational> for &'a i128 {
    type Output = BoundedRational;

    fn mul(self, other: BoundedRational) -> (r: BoundedRational)
        ensures
            product_result(other@, (*self as int, 1int), r@),
    {
        let a = BoundedRational::from_bigint(BigInt::from(*self));
        BoundedRational::product_of(&other, &a)
    }
}

impl<'a> vstd::std_specs::ops::MulSpecImpl<BoundedRational> for &'a i128 {
    open spec fn obeys_mul_spec() -> bool {
        false
    }

    open spec fn mul_req(self, rhs: BoundedRational) -> bool {
        true
    }

    open spec fn mul_spec(self, rhs: BoundedRational) -> BoundedRational {
        arbitrary()
    }
}

/// `i128 * &BoundedRational`.
impl<'a> core::ops::Mul<&'a BoundedRational> for i128 {
    type Output = BoundedRational;

    fn mul(self, other: &'a BoundedRational) -> (r: BoundedRational)
        ensures
            product_result(other@, (self as int, 1int), r@),
    {
        let a = BoundedRational::from_bigint(BigInt::from(self));
        BoundedRational::product_of(other, &a)
    }
}

impl<'a> vstd::std_specs::ops::MulSpecImpl<&'a BoundedRational> for i128 {
    open spec fn obeys_mul_spec() -> bool {
        false
    }

    open spec fn mul_req(self, rhs: &'a BoundedRational) -> bool {
        true
    }

    open spec fn mul_spec(self, rhs: &'a BoundedRational) -> BoundedRational {
        arbitrary()
    }
}

/// `&i128 * &BoundedRational`.
impl<'a, 'b> core::ops::Mul<&'b BoundedRational> for &'a i128 {
    type Output = BoundedRational;

    fn mul(self, other: &'b BoundedRational) -> (r: BoundedRational)
        ensures
            product_result(other@, (*self as int, 1int), r@),
    {
        let a = BoundedRational::from_bigint(BigInt::from(*self));
        BoundedRational::product_of(other, &a)
    }
}

impl<'a, 'b> vstd::std_specs::ops::MulSpecImpl<&'b BoundedRational> for &'a i128 {
    open spec fn obeys_mul_spec() -> bool {
        false
    }

    open spec fn mul_req(self, rhs: &'b BoundedRational) -> bool {
        true
    }

    open spec fn mul_spec(self, rhs: &'b BoundedRational) -> BoundedRational {
        arbitrary()
    }
}

/// `BoundedRational *= i128`.
impl core::ops::MulAssign<i128> for BoundedRational {
    fn mul_assign(&mut self, other: i128)
        ensures
            product_result(old(self)@, (other as int, 1int), final(self)@),
    {
        let b = BoundedRational::from_bigint(BigInt::from(other));
        let v = BoundedRational::product_of(self, &b);
        *self = v;
    }
}

/// `BoundedRational *= &i128`.
impl<'a> core::ops::MulAssign<&'a i128> for BoundedRational {
    fn mul_assign(&mut self, other: &'a i128)
        ensures
            product_result(old(self)@, (*other as int, 1int), final(self)@),
    {
        let b = BoundedRational::from_bigint(BigInt::from(*other));
        let v = BoundedRational::product_of(self, &b);
        *self = v;
    }
}

// Multiplication with `isize`.

/// `BoundedRational * isize`.
impl core::ops::Mul<isize> for BoundedRational {
    type Output = BoundedRational;

    fn mul(self, other: isize) -> (r: BoundedRational)
        ensures
            product_result(self@, (other as int, 1int), r@),
    {
        let b = BoundedRational::from_bigint(BigInt::from(other));
        BoundedRational::product_of(&self, &b)
    }
}

impl vstd::std_specs::ops::MulSpecImpl<isize> for BoundedRational {
    open spec fn obeys_mul_spec() -> bool {
        false
    }

    open spec fn mul_req(self, rhs: isize) -> bool {
        true
    }

    open spec fn mul_spec(self, rhs: isize) -> BoundedRational {
        arbitrary()
    }
}

/// `BoundedRational * &isize`.
impl<'a> core::ops::Mul<&'a isize> for BoundedRational {
    type Output = BoundedRational;

    fn mul(self, other: &'a isize) -> (r: BoundedRational)
        ensures
            product_result(self@, (*other as int, 1int), r@),
    {
        let b = BoundedRational::from_bigint(BigInt::from(*other));
        BoundedRational::product_of(&self, &b)
    }
}

impl<'a> vstd::std_specs::ops::MulSpecImpl<&'a isize> for BoundedRational {
    open spec fn obeys_mul_spec() -> bool {
        false
    }

    open spec fn mul_req(self, rhs: &'a isize) -> bool {
        true
    }

    open spec fn mul_spec(self, rhs: &'a isize) -> BoundedRational {
        arbitrary()
    }
}

/// `&BoundedRational * isize`.
impl<'a> core::ops::Mul<isize> for &'a BoundedRational {
    type Output = BoundedRational;

    fn mul(self, other: isize) -> (r: BoundedRational)
        ensures
            product_result(self@, (other as int, 1int), r@),
    {
        let b = BoundedRational::from_bigint(BigInt::from(other));
        BoundedRational::product_of(self, &b)
    }
}

impl<'a> vstd::std_specs::ops::MulSpecImpl<isize> for &'a BoundedRational {
    open spec fn obeys_mul_spec() -> bool {
        false
    }

    open spec fn mul_req(self, rhs: isize) -> bool {
        true
    }

    open spec fn mul_spec(self, rhs: isize) -> BoundedRational {
        arbitrary()
    }
}

/// `&BoundedRational * &isize`.
impl<'a, 'b> core::ops::Mul<&'b isize> for &'a BoundedRational {
    type Output = BoundedRational;

    fn mul(self, other: &'b isize) -> (r: BoundedRational)
        ensures
            product_result(self@, (*other as int, 1int), r@),
    {
        let b = BoundedRational::from_bigint(BigInt::from(*other));
        BoundedRational::product_of(self, &b)
    }
}

impl<'a, 'b> vstd::std_specs::ops::MulSpecImpl<&'b isize> for &'a BoundedRational {
    open spec fn obeys_mul_spec() -> bool {
        false
    }

    open spec fn mul_req(self, rhs: &'b isize) -> bool {
        true
    }

    open spec fn mul_spec(self, rhs: &'b isize) -> BoundedRational {
        arbitrary()
    }
}

/// `isize * BoundedRational`.
impl core::ops::Mul<BoundedRational> for isize {
    type Output = BoundedRational;

    fn mul(self, other: BoundedRational) -> (r: BoundedRational)
        ensures
            product_result(other@, (self as int, 1int), r@),
    {
        let a = BoundedRational::from_bigint(BigInt::from(self));
        BoundedRational::product_of(&other, &a)
    }
}

impl vstd::std_specs::ops::MulSpecImpl<BoundedRational> for isize {
    open spec fn obeys_mul_spec() -> bool {
        false
    }

    open spec fn mul_req(self, rhs: BoundedRational) -> bool {
        true
    }

    open spec fn mul_spec(self, rhs: BoundedRational) -> BoundedRational {
        arbitrary()
    }
}

/// `&isize * BoundedRational`.
impl<'a> core::ops::Mul<BoundedRational> for &'a isize {
    type Output = BoundedRational;

    fn mul(self, other: BoundedRational) -> (r: BoundedRational)
        ensures
            product_result(other@, (*self as int, 1int), r@),
    {
        let a = BoundedRational::from_bigint(BigInt::from(*self));
        BoundedRational::product_of(&other, &a)
    }
}

impl<'a> vstd::std_specs::ops::MulSpecImpl<BoundedRational> for &'a isize {
    open spec fn obeys_mul_spec() -> bool {
        false
    }

    open spec fn mul_req(self, rhs: BoundedRational) -> bool {
        true
    }

    open spec fn mul_spec(self, rhs: BoundedRational) -> BoundedRational {
        arbitrary()
    }
}

/// `isize * &BoundedRational`.
impl<'a> core::ops::Mul<&'a BoundedRational> for isize {
    type Output = BoundedRational;

    fn mul(self, other: &'a BoundedRational) -> (r: BoundedRational)
        ensures
            product_result(other@, (self as int, 1int), r@),
    {
        let a = BoundedRational::from_bigint(BigInt::from(self));
        BoundedRational::product_of(other, &a)
    }
}

impl<'a> vstd::std_specs::ops::MulSpecImpl<&'a BoundedRational> for isize {
    open spec fn obeys_mul_spec() -> bool {
        false
    }

    open spec fn mul_req(self, rhs: &'a BoundedRational) -> bool {
        true
    }

    open spec fn mul_spec(self, rhs: &'a BoundedRational) -> BoundedRational {
        arbitrary()
    }
}

/// `&isize * &BoundedRational`.
impl<'a, 'b> core::ops::Mul<&'b BoundedRational> for &'a isize {
    type Output = BoundedRational;

    fn mul(self, other: &'b BoundedRational) -> (r: BoundedRational)
        ensures
            product_result(other@, (*self as int, 1int), r@),
    {
        let a = BoundedRational::from_bigint(BigInt::from(*self));
        BoundedRational::product_of(other, &a)
    }
}

impl<'a, 'b> vstd::std_specs::ops::MulSpecImpl<&'b BoundedRational> for &'a isize {
    open spec fn obeys_mul_spec() -> bool {
        false
    }

    open spec fn mul_req(self, rhs: &'b BoundedRational) -> bool {
        true
    }

    open spec fn mul_spec(self, rhs: &'b BoundedRational) -> BoundedRational {
        arbitrary()
    }
}

/// `BoundedRational *= isize`.
impl core::ops::MulAssign<isize> for BoundedRational {
    fn mul_assign(&mut self, other: isize)
        ensures
            product_result(old(self)@, (other as int, 1int), final(self)@),
    {
        let b = BoundedRational::from_bigint(BigInt::from(other));
        let v = BoundedRational::product_of(self, &b);
        *self = v;
    }
}

/// `BoundedRational *= &isize`.
impl<'a> core::ops::MulAssign<&'a isize> for BoundedRational {
    fn mul_assign(&mut self, other: &'a isize)
        ensures
            product_result(old(self)@, (*other as int, 1int), final(self)@),
    {
        let b = BoundedRational::from_bigint(BigInt::from(*other));
        let v = BoundedRational::product_of(self, &b);
        *self = v;
    }
}

// Multiplication with `BigInt`.

/// `BoundedRational * BigInt`.
impl core::ops::Mul<BigInt> for BoundedRational {
    type Output = BoundedRational;

    fn mul(self, other: BigInt) -> (r: BoundedRational)
        ensures
            product_result(self@, (other@, 1int), r@),
    {
        let b = BoundedRational::from_bigint(other);
        BoundedRational::product_of(&self, &b)
    }
}

impl vstd::std_specs::ops::MulSpecImpl<BigInt> for BoundedRational {
    open spec fn obeys_mul_spec() -> bool {
        false
    }

    open spec fn mul_req(self, rhs: BigInt) -> bool {
        true
    }

    open spec fn mul_spec(self, rhs: BigInt) -> BoundedRational {
        arbitrary()
    }
}

/// `BoundedRational * &BigInt`.
impl<'a> core::ops::Mul<&'a BigInt> for BoundedRational {
    type Output = BoundedRational;

    fn mul(self, other: &'a BigInt) -> (r: BoundedRational)
        ensures
            product_result(self@, (other@, 1int), r@),
    {
        let b = BoundedRational::from_bigint(other.clone());
        BoundedRational::product_of(&self, &b)
    }
}

impl<'a> vstd::std_specs::ops::MulSpecImpl<&'a BigInt> for BoundedRational {
    open spec fn obeys_mul_spec() -> bool {
        false
    }

    open spec fn mul_req(self, rhs: &'a BigInt) -> bool {
        true
    }

    open spec fn mul_spec(self, rhs: &'a BigInt) -> BoundedRational {
        arbitrary()
    }
}

/// `&BoundedRational * BigInt`.
impl<'a> core::ops::Mul<BigInt> for &'a BoundedRational {
    type Output = BoundedRational;

    fn mul(self, other: BigInt) -> (r: BoundedRational)
        ensures
            product_result(self@, (other@, 1int), r@),
    {
        let b = BoundedRational::from_bigint(other);
        BoundedRational::product_of(self, &b)
    }
}

impl<'a> vstd::std_specs::ops::MulSpecImpl<BigInt> for &'a BoundedRational {
    open spec fn obeys_mul_spec() -> bool {
        false
    }

    open spec fn mul_req(self, rhs: BigInt) -> bool {
        true
    }

    open spec fn mul_spec(self, rhs: BigInt) -> BoundedRational {
        arbitrary()
    }
}

/// `&BoundedRational * &BigInt`.
impl<'a, 'b> core::ops::Mul<&'b BigInt> for &'a BoundedRational {
    type Output = BoundedRational;

    fn mul(self, other: &'b BigInt) -> (r: BoundedRational)
        ensures
            product_result(self@, (other@, 1int), r@),
    {
        let b = BoundedRational::from_bigint(other.clone());
        BoundedRational::product_of(self, &b)
    }
}

impl<'a, 'b> vstd::std_specs::ops::MulSpecImpl<&'b BigInt> for &'a BoundedRational {
    open spec fn obeys_mul_spec() -> bool {
        false
    }

    open spec fn mul_req(self, rhs: &'b BigInt) -> bool {
        true
    }

    open spec fn mul_spec(self, rhs: &'b BigInt) -> BoundedRational {
        arbitrary()
    }
}

/// `BigInt * BoundedRational`.
impl core::ops::Mul<BoundedRational> for BigInt {
    type Output = BoundedRational;

    fn mul(self, other: BoundedRational) -> (r: BoundedRational)
        ensures
            product_result(other@, (self@, 1int), r@),
    {
        let a = BoundedRational::from_bigint(self);
        BoundedRational::product_of(&other, &a)
    }
}

impl vstd::std_specs::ops::MulSpecImpl<BoundedRational> for BigInt {
    open spec fn obeys_mul_spec() -> bool {
        false
    }

    open spec fn mul_req(self, rhs: BoundedRational) -> bool {
        true
    }

    open spec fn mul_spec(self, rhs: BoundedRational) -> BoundedRational {
        arbitrary()
    }
}

/// `&BigInt * BoundedRational`.
impl<'a> core::ops::Mul<BoundedRational> for &'a BigInt {
    type Output = BoundedRational;

    fn mul(self, other: BoundedRational) -> (r: BoundedRational)
        ensures
            product_result(other@, (self@, 1int), r@),
    {
        let a = BoundedRational::from_bigint(self.clone());
        BoundedRational::product_of(&other, &a)
    }
}

impl<'a> vstd::std_specs::ops::MulSpecImpl<BoundedRational> for &'a BigInt {
    open spec fn obeys_mul_spec() -> bool {
        false
    }

    open spec fn mul_req(self, rhs: BoundedRational) -> bool {
        true
    }

    open spec fn mul_spec(self, rhs: BoundedRational) -> BoundedRational {
        arbitrary()
    }
}

/// `BigInt * &BoundedRational`.
impl<'a> core::ops::Mul<&'a BoundedRational> for BigInt {
    type Output = BoundedRational;

    fn mul(self, other: &'a BoundedRational) -> (r: BoundedRational)
        ensures
            product_result(other@, (self@, 1int), r@),
    {
        let a = BoundedRational::from_bigint(self);
        BoundedRational::product_of(other, &a)
    }
}

impl<'a> vstd::std_specs::ops::MulSpecImpl<&'a BoundedRational> for BigInt {
    open spec fn obeys_mul_spec() -> bool {
        false
    }

    open spec fn mul_req(self, rhs: &'a BoundedRational) -> bool {
        true
    }

    open spec fn mul_spec(self, rhs: &'a BoundedRational) -> BoundedRational {
        arbitrary()
    }
}

/// `&BigInt * &BoundedRational`.
impl<'a, 'b> core::ops::Mul<&'b BoundedRational> for &'a BigInt {
    type Output = BoundedRational;

    fn mul(self, other: &'b BoundedRational) -> (r: BoundedRational)
        ensures
            product_result(other@, (self@, 1int), r@),
    {
        let a = BoundedRational::from_bigint(self.clone());
        BoundedRational::product_of(other, &a)
    }
}

impl<'a, 'b> vstd::std_specs::ops::MulSpecImpl<&'b BoundedRational> for &'a BigInt {
    open spec fn obeys_mul_spec() -> bool {
        false
    }

    open spec fn mul_req(self, rhs: &'b BoundedRational) -> bool {
        true
    }

    open spec fn mul_spec(self, rhs: &'b BoundedRational) -> BoundedRational {
        arbitrary()
    }
}

/// `BoundedRational *= BigInt`.
impl core::ops::MulAssign<BigInt> for BoundedRational {
    fn mul_assign(&mut self, other: BigInt)
        ensures
            product_result(old(self)@, (other@, 1int), final(self)@),
    {
        let b = BoundedRational::from_bigint(other);
        let v = BoundedRational::product_of(self, &b);
        *self = v;
    }
}

/// `BoundedRational *= &BigInt`.
impl<'a> core::ops::MulAssign<&'a BigInt> for BoundedRational {
    fn mul_assign(&mut self, other: &'a BigInt)
        ensures
            product_result(old(self)@, (other@, 1int), final(self)@),
    {
        let b = BoundedRational::from_bigint(other.clone());
        let v = BoundedRational::product_of(self, &b);
        *self = v;
    }
}

} // verus!
