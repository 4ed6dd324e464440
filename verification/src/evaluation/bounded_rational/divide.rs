//! Division operators of `BoundedRational`: with another rational, with
//! primitive integers and with `BigInt`s, by value and by reference.
use super::{BoundedRational, product_result};
use crate::bigint::BigInt;
use crate::rational::{rat_inv};
use vstd::prelude::*;

verus! {

// Division of two rationals.

/// `BoundedRational / BoundedRational`.
impl core::ops::Div<BoundedRational> for BoundedRational {
    type Output = BoundedRational;

    fn div(self, other: BoundedRational) -> (r: BoundedRational)
        ensures
            product_result(self@, rat_inv(other@), r@),
    {
        BoundedRational::quotient_of(&self, &other)
    }
}

impl vstd::std_specs::ops::DivSpecImpl<BoundedRational> for BoundedRational {
    open spec fn obeys_div_spec() -> bool {
        false
    }

    open spec fn div_req(self, rhs: BoundedRational) -> bool {
        rhs@.0 != 0
    }

    open spec fn div_spec(self, rhs: BoundedRational) -> BoundedRational {
        arbitrary()
    }
}

/// `BoundedRational / &BoundedRational`.
impl<'a> core::ops::Div<&'a BoundedRational> for BoundedRational {
    type Output = BoundedRational;

    fn div(self, other: &'a BoundedRational) -> (r: BoundedRational)
        ensures
            product_result(self@, rat_inv(other@), r@),
    {
        BoundedRational::quotient_of(&self, other)
    }
}

impl<'a> vstd::std_specs::ops::DivSpecImpl<&'a BoundedRational> for BoundedRational {
    open spec fn obeys_div_spec() -> bool {
        false
    }

    open spec fn div_req(self, rhs: &'a BoundedRational) -> bool {
        rhs@.0 != 0
    }

    open spec fn div_spec(self, rhs: &'a BoundedRational) -> BoundedRational {
        arbitrary()
    }
}

/// `&BoundedRational / BoundedRational`.
impl<'a> core::ops::Div<BoundedRational> for &'a BoundedRational {
    type Output = BoundedRational;

    fn div(self, other: BoundedRational) -> (r: BoundedRational)
        ensures
            product_result(self@, rat_inv(other@), r@),
    {
        BoundedRational::quotient_of(self, &other)
    }
}

impl<'a> vstd::std_specs::ops::DivSpecImpl<BoundedRational> for &'a BoundedRational {
    open spec fn obeys_div_spec() -> bool {
        false
    }

    open spec fn div_req(self, rhs: BoundedRational) -> bool {
        rhs@.0 != 0
    }

    open spec fn div_spec(self, rhs: BoundedRational) -> BoundedRational {
        arbitrary()
    }
}

/// `&BoundedRational / &BoundedRational`.
impl<'a, 'b> core::ops::Div<&'b BoundedRational> for &'a BoundedRational {
    type Output = BoundedRational;

    fn div(self, other: &'b BoundedRational) -> (r: BoundedRational)
        ensures
            product_result(self@, rat_inv(other@), r@),
    {
        BoundedRational::quotient_of(self, other)
    }
}

impl<'a, 'b> vstd::std_specs::ops::DivSpecImpl<&'b BoundedRational> for &'a BoundedRational {
    open spec fn obeys_div_spec() -> bool {
        false
    }

    open spec fn div_req(self, rhs: &'b BoundedRational) -> bool {
        rhs@.0 != 0
    }

    open spec fn div_spec(self, rhs: &'b BoundedRational) -> BoundedRational {
        arbitrary()
    }
}

/// `BoundedRational /= BoundedRational`.
impl core::ops::DivAssign<BoundedRational> for BoundedRational {
    fn div_assign(&mut self, other: BoundedRational)
        requires
            other@.0 != 0,
        ensures
            product_result(old(self)@, rat_inv(other@), final(self)@),
    {
        let v = BoundedRational::quotient_of(self, &other);
        *self = v;
    }
}

/// `BoundedRational /= &BoundedRational`.
impl<'a> core::ops::DivAssign<&'a BoundedRational> for BoundedRational {
    fn div_assign(&mut self, other: &'a BoundedRational)
        requires
            other@.0 != 0,
        ensures
            product_result(old(self)@, rat_inv(other@), final(self)@),
    {
        let v = BoundedRational::quotient_of(self, other);
        *self = v;
    }
}

// Division with `u8`.

/// `BoundedRational / u8`.
impl core::ops::Div<u8> for BoundedRational {
    type Output = BoundedRational;

    fn div(self, other: u8) -> (r: BoundedRational)
        ensures
            product_result(self@, rat_inv((other as int, 1int)), r@),
    {
        let b = BoundedRational::from_bigint(BigInt::from(other));
        BoundedRational::quotient_of(&self, &b)
    }
}

impl vstd::std_specs::ops::DivSpecImpl<u8> for BoundedRational {
    open spec fn obeys_div_spec() -> bool {
        false
    }

    open spec fn div_req(self, rhs: u8) -> bool {
        rhs != 0
    }

    open spec fn div_spec(self, rhs: u8) -> BoundedRational {
        arbitrary()
    }
}

/// `BoundedRational / &u8`.
impl<'a> core::ops::Div<&'a u8> for BoundedRational {
    type Output = BoundedRational;

    fn div(self, other: &'a u8) -> (r: BoundedRational)
        ensures
            product_result(self@, rat_inv((*other as int, 1int)), r@),
    {
        let b = BoundedRational::from_bigint(BigInt::from(*other));
        BoundedRational::quotient_of(&self, &b)
    }
}

impl<'a> vstd::std_specs::ops::DivSpecImpl<&'a u8> for BoundedRational {
    open spec fn obeys_div_spec() -> bool {
        false
    }

    open spec fn div_req(self, rhs: &'a u8) -> bool {
        *rhs != 0
    }

    open spec fn div_spec(self, rhs: &'a u8) -> BoundedRational {
        arbitrary()
    }
}

/// `&BoundedRational / u8`.
impl<'a> core::ops::Div<u8> for &'a BoundedRational {
    type Output = BoundedRational;

    fn div(self, other: u8) -> (r: BoundedRational)
        ensures
            product_result(self@, rat_inv((other as int, 1int)), r@),
    {
        let b = BoundedRational::from_bigint(BigInt::from(other));
        BoundedRational::quotient_of(self, &b)
    }
}

impl<'a> vstd::std_specs::ops::DivSpecImpl<u8> for &'a BoundedRational {
    open spec fn obeys_div_spec() -> bool {
        false
    }

    open spec fn div_req(self, rhs: u8) -> bool {
        rhs != 0
    }

    open spec fn div_spec(self, rhs: u8) -> BoundedRational {
        arbitrary()
    }
}

/// `&BoundedRational / &u8`.
impl<'a, 'b> core::ops::Div<&'b u8> for &'a BoundedRational {
    type Output = BoundedRational;

    fn div(self, other: &'b u8) -> (r: BoundedRational)
        ensures
            product_result(self@, rat_inv((*other as int, 1int)), r@),
    {
        let b = BoundedRational::from_bigint(BigInt::from(*other));
        BoundedRational::quotient_of(self, &b)
    }
}

impl<'a, 'b> vstd::std_specs::ops::DivSpecImpl<&'b u8> for &'a BoundedRational {
    open spec fn obeys_div_spec() -> bool {
        false
    }

    open spec fn div_req(self, rhs: &'b u8) -> bool {
        *rhs != 0
    }

    open spec fn div_spec(self, rhs: &'b u8) -> BoundedRational {
        arbitrary()
    }
}

/// `u8 / BoundedRational`.
impl core::ops::Div<BoundedRational> for u8 {
    type Output = BoundedRational;

    fn div(self, other: BoundedRational) -> (r: BoundedRational)
        ensures
            product_result((self as int, 1int), rat_inv(other@), r@),
    {
        let a = BoundedRational::from_bigint(BigInt::from(self));
        BoundedRational::quotient_of(&a, &other)
    }
}

impl vstd::std_specs::ops::DivSpecImpl<BoundedRational> for u8 {
    open spec fn obeys_div_spec() -> bool {
        false
    }

    open spec fn div_req(self, rhs: BoundedRational) -> bool {
        rhs@.0 != 0
    }

    open spec fn div_spec(self, rhs: BoundedRational) -> BoundedRational {
        arbitrary()
    }
}

/// `&u8 / BoundedRational`.
impl<'a> core::ops::Div<BoundedRational> for &'a u8 {
    type Output = BoundedRational;

    fn div(self, other: BoundedRational) -> (r: BoundedRational)
        ensures
            product_result((*self as int, 1int), rat_inv(other@), r@),
    {
        let a = BoundedRational::from_bigint(BigInt::from(*self));
        BoundedRational::quotient_of(&a, &other)
    }
}

impl<'a> vstd::std_specs::ops::DivSpecImpl<BoundedRational> for &'a u8 {
    open spec fn obeys_div_spec() -> bool {
        false
    }

    open spec fn div_req(self, rhs: BoundedRational) -> bool {
        rhs@.0 != 0
    }

    open spec fn div_spec(self, rhs: BoundedRational) -> BoundedRational {
        arbitrary()
    }
}

/// `u8 / &BoundedRational`.
impl<'a> core::ops::Div<&'a BoundedRational> for u8 {
    type Output = BoundedRational;

    fn div(self, other: &'a BoundedRational) -> (r: BoundedRational)
        ensures
            product_result((self as int, 1int), rat_inv(other@), r@),
    {
        let a = BoundedRational::from_bigint(BigInt::from(self));
        BoundedRational::quotient_of(&a, other)
    }
}

impl<'a> vstd::std_specs::ops::DivSpecImpl<&'a BoundedRational> for u8 {
    open spec fn obeys_div_spec() -> bool {
        false
    }

    open spec fn div_req(self, rhs: &'a BoundedRational) -> bool {
        rhs@.0 != 0
    }

    open spec fn div_spec(self, rhs: &'a BoundedRational) -> BoundedRational {
        arbitrary()
    }
}

/// `&u8 / &BoundedRational`.
impl<'a, 'b> core::ops::Div<&'b BoundedRational> for &'a u8 {
    type Output = BoundedRational;

    fn div(self, other: &'b BoundedRational) -> (r: BoundedRational)
        ensures
            product_result((*self as int, 1int), rat_inv(other@), r@),
    {
        let a = BoundedRational::from_bigint(BigInt::from(*self));
        BoundedRational::quotient_of(&a, other)
    }
}

impl<'a, 'b> vstd::std_specs::ops::DivSpecImpl<&'b BoundedRational> for &'a u8 {
    open spec fn obeys_div_spec() -> bool {
        false
    }

    open spec fn div_req(self, rhs: &'b BoundedRational) -> bool {
        rhs@.0 != 0
    }

    open spec fn div_spec(self, rhs: &'b BoundedRational) -> BoundedRational {
        arbitrary()
    }
}

/// `BoundedRational /= u8`.
impl core::ops::DivAssign<u8> for BoundedRational {
    fn div_assign(&mut self, other: u8)
        requires
            other != 0,
        ensures
            product_result(old(self)@, rat_inv((other as int, 1int)), final(self)@),
    {
        let b = BoundedRational::from_bigint(BigInt::from(other));
        let v = BoundedRational::quotient_of(self, &b);
        *self = v;
    }
}

/// `BoundedRational /= &u8`.
impl<'a> core::ops::DivAssign<&'a u8> for BoundedRational {
    fn div_assign(&mut self, other: &'a u8)
        requires
            *other != 0,
        ensures
            product_result(old(self)@, rat_inv((*other as int, 1int)), final(self)@),
    {
        let b = BoundedRational::from_bigint(BigInt::from(*other));
        let v = BoundedRational::quotient_of(self, &b);
        *self = v;
    }
}

// Division with `u16`.

/// `BoundedRational / u16`.
impl core::ops::Div<u16> for BoundedRational {
    type Output = BoundedRational;

    fn div(self, other: u16) -> (r: BoundedRational)
        ensures
            product_result(self@, rat_inv((other as int, 1int)), r@),
    {
        let b = BoundedRational::from_bigint(BigInt::from(other));
        BoundedRational::quotient_of(&self, &b)
    }
}

impl vstd::std_specs::ops::DivSpecImpl<u16> for BoundedRational {
    open spec fn obeys_div_spec() -> bool {
        false
    }

    open spec fn div_req(self, rhs: u16) -> bool {
        rhs != 0
    }

    open spec fn div_spec(self, rhs: u16) -> BoundedRational {
        arbitrary()
    }
}

/// `BoundedRational / &u16`.
impl<'a> core::ops::Div<&'a u16> for BoundedRational {
    type Output = BoundedRational;

    fn div(self, other: &'a u16) -> (r: BoundedRational)
        ensures
            product_result(self@, rat_inv((*other as int, 1int)), r@),
    {
        let b = BoundedRational::from_bigint(BigInt::from(*other));
        BoundedRational::quotient_of(&self, &b)
    }
}

impl<'a> vstd::std_specs::ops::DivSpecImpl<&'a u16> for BoundedRational {
    open spec fn obeys_div_spec() -> bool {
        false
    }

    open spec fn div_req(self, rhs: &'a u16) -> bool {
        *rhs != 0
    }

    open spec fn div_spec(self, rhs: &'a u16) -> BoundedRational {
        arbitrary()
    }
}

/// `&BoundedRational / u16`.
impl<'a> core::ops::Div<u16> for &'a BoundedRational {
    type Output = BoundedRational;

    fn div(self, other: u16) -> (r: BoundedRational)
        ensures
            product_result(self@, rat_inv((other as int, 1int)), r@),
    {
        let b = BoundedRational::from_bigint(BigInt::from(other));
        BoundedRational::quotient_of(self, &b)
    }
}

impl<'a> vstd::std_specs::ops::DivSpecImpl<u16> for &'a BoundedRational {
    open spec fn obeys_div_spec() -> bool {
        false
    }

    open spec fn div_req(self, rhs: u16) -> bool {
        rhs != 0
    }

    open spec fn div_spec(self, rhs: u16) -> BoundedRational {
        arbitrary()
    }
}

/// `&BoundedRational / &u16`.
impl<'a, 'b> core::ops::Div<&'b u16> for &'a BoundedRational {
    type Output = BoundedRational;

    fn div(self, other: &'b u16) -> (r: BoundedRational)
        ensures
            product_result(self@, rat_inv((*other as int, 1int)), r@),
    {
        let b = BoundedRational::from_bigint(BigInt::from(*other));
        BoundedRational::quotient_of(self, &b)
    }
}

impl<'a, 'b> vstd::std_specs::ops::DivSpecImpl<&'b u16> for &'a BoundedRational {
    open spec fn obeys_div_spec() -> bool {
        false
    }

    open spec fn div_req(self, rhs: &'b u16) -> bool {
        *rhs != 0
    }

    open spec fn div_spec(self, rhs: &'b u16) -> BoundedRational {
        arbitrary()
    }
}

/// `u16 / BoundedRational`.
impl core::ops::Div<BoundedRational> for u16 {
    type Output = BoundedRational;

    fn div(self, other: BoundedRational) -> (r: BoundedRational)
        ensures
            product_result((self as int, 1int), rat_inv(other@), r@),
    {
        let a = BoundedRational::from_bigint(BigInt::from(self));
        BoundedRational::quotient_of(&a, &other)
    }
}

impl vstd::std_specs::ops::DivSpecImpl<BoundedRational> for u16 {
    open spec fn obeys_div_spec() -> bool {
        false
    }

    open spec fn div_req(self, rhs: BoundedRational) -> bool {
        rhs@.0 != 0
    }

    open spec fn div_spec(self, rhs: BoundedRational) -> BoundedRational {
        arbitrary()
    }
}

/// `&u16 / BoundedRational`.
impl<'a> core::ops::Div<BoundedRational> for &'a u16 {
    type Output = BoundedRational;

    fn div(self, other: BoundedRational) -> (r: BoundedRational)
        ensures
            product_result((*self as int, 1int), rat_inv(other@), r@),
    {
        let a = BoundedRational::from_bigint(BigInt::from(*self));
        BoundedRational::quotient_of(&a, &other)
    }
}

impl<'a> vstd::std_specs::ops::DivSpecImpl<BoundedRational> for &'a u16 {
    open spec fn obeys_div_spec() -> bool {
        false
    }

    open spec fn div_req(self, rhs: BoundedRational) -> bool {
        rhs@.0 != 0
    }

    open spec fn div_spec(self, rhs: BoundedRational) -> BoundedRational {
        arbitrary()
    }
}

/// `u16 / &BoundedRational`.
impl<'a> core::ops::Div<&'a BoundedRational> for u16 {
    type Output = BoundedRational;

    fn div(self, other: &'a BoundedRational) -> (r: BoundedRational)
        ensures
            product_result((self as int, 1int), rat_inv(other@), r@),
    {
        let a = BoundedRational::from_bigint(BigInt::from(self));
        BoundedRational::quotient_of(&a, other)
    }
}

impl<'a> vstd::std_specs::ops::DivSpecImpl<&'a BoundedRational> for u16 {
    open spec fn obeys_div_spec() -> bool {
        false
    }

    open spec fn div_req(self, rhs: &'a BoundedRational) -> bool {
        rhs@.0 != 0
    }

    open spec fn div_spec(self, rhs: &'a BoundedRational) -> BoundedRational {
        arbitrary()
    }
}

/// `&u16 / &BoundedRational`.
impl<'a, 'b> core::ops::Div<&'b BoundedRational> for &'a u16 {
    type Output = BoundedRational;

    fn div(self, other: &'b BoundedRational) -> (r: BoundedRational)
        ensures
            product_result((*self as int, 1int), rat_inv(other@), r@),
    {
        let a = BoundedRational::from_bigint(BigInt::from(*self));
        BoundedRational::quotient_of(&a, other)
    }
}

impl<'a, 'b> vstd::std_specs::ops::DivSpecImpl<&'b BoundedRational> for &'a u16 {
    open spec fn obeys_div_spec() -> bool {
        false
    }

    open spec fn div_req(self, rhs: &'b BoundedRational) -> bool {
        rhs@.0 != 0
    }

    open spec fn div_spec(self, rhs: &'b BoundedRational) -> BoundedRational {
        arbitrary()
    }
}

/// `BoundedRational /= u16`.
impl core::ops::DivAssign<u16> for BoundedRational {
    fn div_assign(&mut self, other: u16)
        requires
            other != 0,
        ensures
            product_result(old(self)@, rat_inv((other as int, 1int)), final(self)@),
    {
        let b = BoundedRational::from_bigint(BigInt::from(other));
        let v = BoundedRational::quotient_of(self, &b);
        *self = v;
    }
}

/// `BoundedRational /= &u16`.
impl<'a> core::ops::DivAssign<&'a u16> for BoundedRational {
    fn div_assign(&mut self, other: &'a u16)
        requires
            *other != 0,
        ensures
            product_result(old(self)@, rat_inv((*other as int, 1int)), final(self)@),
    {
        let b = BoundedRational::from_bigint(BigInt::from(*other));
        let v = BoundedRational::quotient_of(self, &b);
        *self = v;
    }
}

// Division with `u32`.

/// `BoundedRational / u32`.
impl core::ops::Div<u32> for BoundedRational {
    type Output = BoundedRational;

    fn div(self, other: u32) -> (r: BoundedRational)
        ensures
            product_result(self@, rat_inv((other as int, 1int)), r@),
    {
        let b = BoundedRational::from_bigint(BigInt::from(other));
        BoundedRational::quotient_of(&self, &b)
    }
}

impl vstd::std_specs::ops::DivSpecImpl<u32> for BoundedRational {
    open spec fn obeys_div_spec() -> bool {
        false
    }

    open spec fn div_req(self, rhs: u32) -> bool {
        rhs != 0
    }

    open spec fn div_spec(self, rhs: u32) -> BoundedRational {
        arbitrary()
    }
}

/// `BoundedRational / &u32`.
impl<'a> core::ops::Div<&'a u32> for BoundedRational {
    type Output = BoundedRational;

    fn div(self, other: &'a u32) -> (r: BoundedRational)
        ensures
            product_result(self@, rat_inv((*other as int, 1int)), r@),
    {
        let b = BoundedRational::from_bigint(BigInt::from(*other));
        BoundedRational::quotient_of(&self, &b)
    }
}

impl<'a> vstd::std_specs::ops::DivSpecImpl<&'a u32> for BoundedRational {
    open spec fn obeys_div_spec() -> bool {
        false
    }

    open spec fn div_req(self, rhs: &'a u32) -> bool {
        *rhs != 0
    }

    open spec fn div_spec(self, rhs: &'a u32) -> BoundedRational {
        arbitrary()
    }
}

/// `&BoundedRational / u32`.
impl<'a> core::ops::Div<u32> for &'a BoundedRational {
    type Output = BoundedRational;

    fn div(self, other: u32) -> (r: BoundedRational)
        ensures
            product_result(self@, rat_inv((other as int, 1int)), r@),
    {
        let b = BoundedRational::from_bigint(BigInt::from(other));
        BoundedRational::quotient_of(self, &b)
    }
}

impl<'a> vstd::std_specs::ops::DivSpecImpl<u32> for &'a BoundedRational {
    open spec fn obeys_div_spec() -> bool {
        false
    }

    open spec fn div_req(self, rhs: u32) -> bool {
        rhs != 0
    }

    open spec fn div_spec(self, rhs: u32) -> BoundedRational {
        arbitrary()
    }
}

/// `&BoundedRational / &u32`.
impl<'a, 'b> core::ops::Div<&'b u32> for &'a BoundedRational {
    type Output = BoundedRational;

    fn div(self, other: &'b u32) -> (r: BoundedRational)
        ensures
            product_result(self@, rat_inv((*other as int, 1int)), r@),
    {
        let b = BoundedRational::from_bigint(BigInt::from(*other));
        BoundedRational::quotient_of(self, &b)
    }
}

impl<'a, 'b> vstd::std_specs::ops::DivSpecImpl<&'b u32> for &'a BoundedRational {
    open spec fn obeys_div_spec() -> bool {
        false
    }

    open spec fn div_req(self, rhs: &'b u32) -> bool {
        *rhs != 0
    }

    open spec fn div_spec(self, rhs: &'b u32) -> BoundedRational {
        arbitrary()
    }
}

/// `u32 / BoundedRational`.
impl core::ops::Div<BoundedRational> for u32 {
    type Output = BoundedRational;

    fn div(self, other: BoundedRational) -> (r: BoundedRational)
        ensures
            product_result((self as int, 1int), rat_inv(other@), r@),
    {
        let a = BoundedRational::from_bigint(BigInt::from(self));
        BoundedRational::quotient_of(&a, &other)
    }
}

impl vstd::std_specs::ops::DivSpecImpl<BoundedRational> for u32 {
    open spec fn obeys_div_spec() -> bool {
        false
    }

    open spec fn div_req(self, rhs: BoundedRational) -> bool {
        rhs@.0 != 0
    }

    open spec fn div_spec(self, rhs: BoundedRational) -> BoundedRational {
        arbitrary()
    }
}

/// `&u32 / BoundedRational`.
impl<'a> core::ops::Div<BoundedRational> for &'a u32 {
    type Output = BoundedRational;

    fn div(self, other: BoundedRational) -> (r: BoundedRational)
        ensures
            product_result((*self as int, 1int), rat_inv(other@), r@),
    {
        let a = BoundedRational::from_bigint(BigInt::from(*self));
        BoundedRational::quotient_of(&a, &other)
    }
}

impl<'a> vstd::std_specs::ops::DivSpecImpl<BoundedRational> for &'a u32 {
    open spec fn obeys_div_spec() -> bool {
        false
    }

    open spec fn div_req(self, rhs: BoundedRational) -> bool {
        rhs@.0 != 0
    }

    open spec fn div_spec(self, rhs: BoundedRational) -> BoundedRational {
        arbitrary()
    }
}

/// `u32 / &BoundedRational`.
impl<'a> core::ops::Div<&'a BoundedRational> for u32 {
    type Output = BoundedRational;

    fn div(self, other: &'a BoundedRational) -> (r: BoundedRational)
        ensures
            product_result((self as int, 1int), rat_inv(other@), r@),
    {
        let a = BoundedRational::from_bigint(BigInt::from(self));
        BoundedRational::quotient_of(&a, other)
    }
}

impl<'a> vstd::std_specs::ops::DivSpecImpl<&'a BoundedRational> for u32 {
    open spec fn obeys_div_spec() -> bool {
        false
    }

    open spec fn div_req(self, rhs: &'a BoundedRational) -> bool {
        rhs@.0 != 0
    }

    open spec fn div_spec(self, rhs: &'a BoundedRational) -> BoundedRational {
        arbitrary()
    }
}

/// `&u32 / &BoundedRational`.
impl<'a, 'b> core::ops::Div<&'b BoundedRational> for &'a u32 {
    type Output = BoundedRational;

    fn div(self, other: &'b BoundedRational) -> (r: BoundedRational)
        ensures
            product_result((*self as int, 1int), rat_inv(other@), r@),
    {
        let a = BoundedRational::from_bigint(BigInt::from(*self));
        BoundedRational::quotient_of(&a, other)
    }
}

impl<'a, 'b> vstd::std_specs::ops::DivSpecImpl<&'b BoundedRational> for &'a u32 {
    open spec fn obeys_div_spec() -> bool {
        false
    }

    open spec fn div_req(self, rhs: &'b BoundedRational) -> bool {
        rhs@.0 != 0
    }

    open spec fn div_spec(self, rhs: &'b BoundedRational) -> BoundedRational {
        arbitrary()
    }
}

/// `BoundedRational /= u32`.
impl core::ops::DivAssign<u32> for BoundedRational {
    fn div_assign(&mut self, other: u32)
        requires
            other != 0,
        ensures
            product_result(old(self)@, rat_inv((other as int, 1int)), final(self)@),
    {
        let b = BoundedRational::from_bigint(BigInt::from(other));
        let v = BoundedRational::quotient_of(self, &b);
        *self = v;
    }
}

/// `BoundedRational /= &u32`.
impl<'a> core::ops::DivAssign<&'a u32> for BoundedRational {
    fn div_assign(&mut self, other: &'a u32)
        requires
            *other != 0,
        ensures
            product_result(old(self)@, rat_inv((*other as int, 1int)), final(self)@),
    {
        let b = BoundedRational::from_bigint(BigInt::from(*other));
        let v = BoundedRational::quotient_of(self, &b);
        *self = v;
    }
}

// Division with `u64`.

/// `BoundedRational / u64`.
impl core::ops::Div<u64> for BoundedRational {
    type Output = BoundedRational;

    fn div(self, other: u64) -> (r: BoundedRational)
        ensures
            product_result(self@, rat_inv((other as int, 1int)), r@),
    {
        let b = BoundedRational::from_bigint(BigInt::from(other));
        BoundedRational::quotient_of(&self, &b)
    }
}

impl vstd::std_specs::ops::DivSpecImpl<u64> for BoundedRational {
    open spec fn obeys_div_spec() -> bool {
        false
    }

    open spec fn div_req(self, rhs: u64) -> bool {
        rhs != 0
    }

    open spec fn div_spec(self, rhs: u64) -> BoundedRational {
        arbitrary()
    }
}

/// `BoundedRational / &u64`.
impl<'a> core::ops::Div<&'a u64> for BoundedRational {
    type Output = BoundedRational;

    fn div(self, other: &'a u64) -> (r: BoundedRational)
        ensures
            product_result(self@, rat_inv((*other as int, 1int)), r@),
    {
        let b = BoundedRational::from_bigint(BigInt::from(*other));
        BoundedRational::quotient_of(&self, &b)
    }
}

impl<'a> vstd::std_specs::ops::DivSpecImpl<&'a u64> for BoundedRational {
    open spec fn obeys_div_spec() -> bool {
        false
    }

    open spec fn div_req(self, rhs: &'a u64) -> bool {
        *rhs != 0
    }

    open spec fn div_spec(self, rhs: &'a u64) -> BoundedRational {
        arbitrary()
    }
}

/// `&BoundedRational / u64`.
impl<'a> core::ops::Div<u64> for &'a BoundedRational {
    type Output = BoundedRational;

    fn div(self, other: u64) -> (r: BoundedRational)
        ensures
            product_result(self@, rat_inv((other as int, 1int)), r@),
    {
        let b = BoundedRational::from_bigint(BigInt::from(other));
        BoundedRational::quotient_of(self, &b)
    }
}

impl<'a> vstd::std_specs::ops::DivSpecImpl<u64> for &'a BoundedRational {
    open spec fn obeys_div_spec() -> bool {
        false
    }

    open spec fn div_req(self, rhs: u64) -> bool {
        rhs != 0
    }

    open spec fn div_spec(self, rhs: u64) -> BoundedRational {
        arbitrary()
    }
}

/// `&BoundedRational / &u64`.
impl<'a, 'b> core::ops::Div<&'b u64> for &'a BoundedRational {
    type Output = BoundedRational;

    fn div(self, other: &'b u64) -> (r: BoundedRational)
        ensures
            product_result(self@, rat_inv((*other as int, 1int)), r@),
    {
        let b = BoundedRational::from_bigint(BigInt::from(*other));
        BoundedRational::quotient_of(self, &b)
    }
}

impl<'a, 'b> vstd::std_specs::ops::DivSpecImpl<&'b u64> for &'a BoundedRational {
    open spec fn obeys_div_spec() -> bool {
        false
    }

    open spec fn div_req(self, rhs: &'b u64) -> bool {
        *rhs != 0
    }

    open spec fn div_spec(self, rhs: &'b u64) -> BoundedRational {
        arbitrary()
    }
}

/// `u64 / BoundedRational`.
impl core::ops::Div<BoundedRational> for u64 {
    type Output = BoundedRational;

    fn div(self, other: BoundedRational) -> (r: BoundedRational)
        ensures
            product_result((self as int, 1int), rat_inv(other@), r@),
    {
        let a = BoundedRational::from_bigint(BigInt::from(self));
        BoundedRational::quotient_of(&a, &other)
    }
}

impl vstd::std_specs::ops::DivSpecImpl<BoundedRational> for u64 {
    open spec fn obeys_div_spec() -> bool {
        false
    }

    open spec fn div_req(self, rhs: BoundedRational) -> bool {
        rhs@.0 != 0
    }

    open spec fn div_spec(self, rhs: BoundedRational) -> BoundedRational {
        arbitrary()
    }
}

/// `&u64 / BoundedRational`.
impl<'a> core::ops::Div<BoundedRational> for &'a u64 {
    type Output = BoundedRational;

    fn div(self, other: BoundedRational) -> (r: BoundedRational)
        ensures
            product_result((*self as int, 1int), rat_inv(other@), r@),
    {
        let a = BoundedRational::from_bigint(BigInt::from(*self));
        BoundedRational::quotient_of(&a, &other)
    }
}

impl<'a> vstd::std_specs::ops::DivSpecImpl<BoundedRational> for &'a u64 {
    open spec fn obeys_div_spec() -> bool {
        false
    }

    open spec fn div_req(self, rhs: BoundedRational) -> bool {
        rhs@.0 != 0
    }

    open spec fn div_spec(self, rhs: BoundedRational) -> BoundedRational {
        arbitrary()
    }
}

/// `u64 / &BoundedRational`.
impl<'a> core::ops::Div<&'a BoundedRational> for u64 {
    type Output = BoundedRational;

    fn div(self, other: &'a BoundedRational) -> (r: BoundedRational)
        ensures
            product_result((self as int, 1int), rat_inv(other@), r@),
    {
        let a = BoundedRational::from_bigint(BigInt::from(self));
        BoundedRational::quotient_of(&a, other)
    }
}

impl<'a> vstd::std_specs::ops::DivSpecImpl<&'a BoundedRational> for u64 {
    open spec fn obeys_div_spec() -> bool {
        false
    }

    open spec fn div_req(self, rhs: &'a BoundedRational) -> bool {
        rhs@.0 != 0
    }

    open spec fn div_spec(self, rhs: &'a BoundedRational) -> BoundedRational {
        arbitrary()
    }
}

/// `&u64 / &BoundedRational`.
impl<'a, 'b> core::ops::Div<&'b BoundedRational> for &'a u64 {
    type Output = BoundedRational;

    fn div(self, other: &'b BoundedRational) -> (r: BoundedRational)
        ensures
            product_result((*self as int, 1int), rat_inv(other@), r@),
    {
        let a = BoundedRational::from_bigint(BigInt::from(*self));
        BoundedRational::quotient_of(&a, other)
    }
}

impl<'a, 'b> vstd::std_specs::ops::DivSpecImpl<&'b BoundedRational> for &'a u64 {
    open spec fn obeys_div_spec() -> bool {
        false
    }

    open spec fn div_req(self, rhs: &'b BoundedRational) -> bool {
        rhs@.0 != 0
    }

    open spec fn div_spec(self, rhs: &'b BoundedRational) -> BoundedRational {
        arbitrary()
    }
}

/// `BoundedRational /= u64`.
impl core::ops::DivAssign<u64> for BoundedRational {
    fn div_assign(&mut self, other: u64)
        requires
            other != 0,
        ensures
            product_result(old(self)@, rat_inv((other as int, 1int)), final(self)@),
    {
        let b = BoundedRational::from_bigint(BigInt::from(other));
        let v = BoundedRational::quotient_of(self, &b);
        *self = v;
    }
}

/// `BoundedRational /= &u64`.
impl<'a> core::ops::DivAssign<&'a u64> for BoundedRational {
    fn div_assign(&mut self, other: &'a u64)
        requires
            *other != 0,
        ensures
            product_result(old(self)@, rat_inv((*other as int, 1int)), final(self)@),
    {
        let b = BoundedRational::from_bigint(BigInt::from(*other));
        let v = BoundedRational::quotient_of(self, &b);
        *self = v;
    }
}

// Division with `u128`.

/// `BoundedRational / u128`.
impl core::ops::Div<u128> for BoundedRational {
    type Output = BoundedRational;

    fn div(self, other: u128) -> (r: BoundedRational)
        ensures
            product_result(self@, rat_inv((other as int, 1int)), r@),
    {
        let b = BoundedRational::from_bigint(BigInt::from(other));
        BoundedRational::quotient_of(&self, &b)
    }
}

impl vstd::std_specs::ops::DivSpecImpl<u128> for BoundedRational {
    open spec fn obeys_div_spec() -> bool {
        false
    }

    open spec fn div_req(self, rhs: u128) -> bool {
        rhs != 0
    }

    open spec fn div_spec(self, rhs: u128) -> BoundedRational {
        arbitrary()
    }
}

/// `BoundedRational / &u128`.
impl<'a> core::ops::Div<&'a u128> for BoundedRational {
    type Output = BoundedRational;

    fn div(self, other: &'a u128) -> (r: BoundedRational)
        ensures
            product_result(self@, rat_inv((*other as int, 1int)), r@),
    {
        let b = BoundedRational::from_bigint(BigInt::from(*other));
        BoundedRational::quotient_of(&self, &b)
    }
}

impl<'a> vstd::std_specs::ops::DivSpecImpl<&'a u128> for BoundedRational {
    open spec fn obeys_div_spec() -> bool {
        false
    }

    open spec fn div_req(self, rhs: &'a u128) -> bool {
        *rhs != 0
    }

    open spec fn div_spec(self, rhs: &'a u128) -> BoundedRational {
        arbitrary()
    }
}

/// `&BoundedRational / u128`.
impl<'a> core::ops::Div<u128> for &'a BoundedRational {
    type Output = BoundedRational;

    fn div(self, other: u128) -> (r: BoundedRational)
        ensures
            product_result(self@, rat_inv((other as int, 1int)), r@),
    {
        let b = BoundedRational::from_bigint(BigInt::from(other));
        BoundedRational::quotient_of(self, &b)
    }
}

impl<'a> vstd::std_specs::ops::DivSpecImpl<u128> for &'a BoundedRational {
    open spec fn obeys_div_spec() -> bool {
        false
    }

    open spec fn div_req(self, rhs: u128) -> bool {
        rhs != 0
    }

    open spec fn div_spec(self, rhs: u128) -> BoundedRational {
        arbitrary()
    }
}

/// `&BoundedRational / &u128`.
impl<'a, 'b> core::ops::Div<&'b u128> for &'a BoundedRational {
    type Output = BoundedRational;

    fn div(self, other: &'b u128) -> (r: BoundedRational)
        ensures
            product_result(self@, rat_inv((*other as int, 1int)), r@),
    {
        let b = BoundedRational::from_bigint(BigInt::from(*other));
        BoundedRational::quotient_of(self, &b)
    }
}

impl<'a, 'b> vstd::std_specs::ops::DivSpecImpl<&'b u128> for &'a BoundedRational {
    open spec fn obeys_div_spec() -> bool {
        false
    }

    open spec fn div_req(self, rhs: &'b u128) -> bool {
        *rhs != 0
    }

    open spec fn div_spec(self, rhs: &'b u128) -> BoundedRational {
        arbitrary()
    }
}

/// `u128 / BoundedRational`.
impl core::ops::Div<BoundedRational> for u128 {
    type Output = BoundedRational;

    fn div(self, other: BoundedRational) -> (r: BoundedRational)
        ensures
            product_result((self as int, 1int), rat_inv(other@), r@),
    {
        let a = BoundedRational::from_bigint(BigInt::from(self));
        BoundedRational::quotient_of(&a, &other)
    }
}

impl vstd::std_specs::ops::DivSpecImpl<BoundedRational> for u128 {
    open spec fn obeys_div_spec() -> bool {
        false
    }

    open spec fn div_req(self, rhs: BoundedRational) -> bool {
        rhs@.0 != 0
    }

    open spec fn div_spec(self, rhs: BoundedRational) -> BoundedRational {
        arbitrary()
    }
}

/// `&u128 / BoundedRational`.
impl<'a> core::ops::Div<BoundedRational> for &'a u128 {
    type Output = BoundedRational;

    fn div(self, other: BoundedRational) -> (r: BoundedRational)
        ensures
            product_result((*self as int, 1int), rat_inv(other@), r@),
    {
        let a = BoundedRational::from_bigint(BigInt::from(*self));
        BoundedRational::quotient_of(&a, &other)
    }
}

impl<'a> vstd::std_specs::ops::DivSpecImpl<BoundedRational> for &'a u128 {
    open spec fn obeys_div_spec() -> bool {
        false
    }

    open spec fn div_req(self, rhs: BoundedRational) -> bool {
        rhs@.0 != 0
    }

    open spec fn div_spec(self, rhs: BoundedRational) -> BoundedRational {
        arbitrary()
    }
}

/// `u128 / &BoundedRational`.
impl<'a> core::ops::Div<&'a BoundedRational> for u128 {
    type Output = BoundedRational;

    fn div(self, other: &'a BoundedRational) -> (r: BoundedRational)
        ensures
            product_result((self as int, 1int), rat_inv(other@), r@),
    {
        let a = BoundedRational::from_bigint(BigInt::from(self));
        BoundedRational::quotient_of(&a, other)
    }
}

impl<'a> vstd::std_specs::ops::DivSpecImpl<&'a BoundedRational> for u128 {
    open spec fn obeys_div_spec() -> bool {
        false
    }

    open spec fn div_req(self, rhs: &'a BoundedRational) -> bool {
        rhs@.0 != 0
    }

    open spec fn div_spec(self, rhs: &'a BoundedRational) -> BoundedRational {
        arbitrary()
    }
}

/// `&u128 / &BoundedRational`.
impl<'a, 'b> core::ops::Div<&'b BoundedRational> for &'a u128 {
    type Output = BoundedRational;

    fn div(self, other: &'b BoundedRational) -> (r: BoundedRational)
        ensures
            product_result((*self as int, 1int), rat_inv(other@), r@),
    {
        let a = BoundedRational::from_bigint(BigInt::from(*self));
        BoundedRational::quotient_of(&a, other)
    }
}

impl<'a, 'b> vstd::std_specs::ops::DivSpecImpl<&'b BoundedRational> for &'a u128 {
    open spec fn obeys_div_spec() -> bool {
        false
    }

    open spec fn div_req(self, rhs: &'b BoundedRational) -> bool {
        rhs@.0 != 0
    }

    open spec fn div_spec(self, rhs: &'b BoundedRational) -> BoundedRational {
        arbitrary()
    }
}

/// `BoundedRational /= u128`.
impl core::ops::DivAssign<u128> for BoundedRational {
    fn div_assign(&mut self, other: u128)
        requires
            other != 0,
        ensures
            product_result(old(self)@, rat_inv((other as int, 1int)), final(self)@),
    {
        let b = BoundedRational::from_bigint(BigInt::from(other));
        let v = BoundedRational::quotient_of(self, &b);
        *self = v;
    }
}

/// `BoundedRational /= &u128`.
impl<'a> core::ops::DivAssign<&'a u128> for BoundedRational {
    fn div_assign(&mut self, other: &'a u128)
        requires
            *other != 0,
        ensures
            product_result(old(self)@, rat_inv((*other as int, 1int)), final(self)@),
    {
        let b = BoundedRational::from_bigint(BigInt::from(*other));
        let v = BoundedRational::quotient_of(self, &b);
        *self = v;
    }
}

// Division with `usize`.

/// `BoundedRational / usize`.
impl core::ops::Div<usize> for BoundedRational {
    type Output = BoundedRational;

    fn div(self, other: usize) -> (r: BoundedRational)
        ensures
            product_result(self@, rat_inv((other as int, 1int)), r@),
    {
        let b = BoundedRational::from_bigint(BigInt::from(other));
        BoundedRational::quotient_of(&self, &b)
    }
}

impl vstd::std_specs::ops::DivSpecImpl<usize> for BoundedRational {
    open spec fn obeys_div_spec() -> bool {
        false
    }

    open spec fn div_req(self, rhs: usize) -> bool {
        rhs != 0
    }

    open spec fn div_spec(self, rhs: usize) -> BoundedRational {
        arbitrary()
    }
}

/// `BoundedRational / &usize`.
impl<'a> core::ops::Div<&'a usize> for BoundedRational {
    type Output = BoundedRational;

    fn div(self, other: &'a usize) -> (r: BoundedRational)
        ensures
            product_result(self@, rat_inv((*other as int, 1int)), r@),
    {
        let b = BoundedRational::from_bigint(BigInt::from(*other));
        BoundedRational::quotient_of(&self, &b)
    }
}

impl<'a> vstd::std_specs::ops::DivSpecImpl<&'a usize> for BoundedRational {
    open spec fn obeys_div_spec() -> bool {
        false
    }

    open spec fn div_req(self, rhs: &'a usize) -> bool {
        *rhs != 0
    }

    open spec fn div_spec(self, rhs: &'a usize) -> BoundedRational {
        arbitrary()
    }
}

/// `&BoundedRational / usize`.
impl<'a> core::ops::Div<usize> for &'a BoundedRational {
    type Output = BoundedRational;

    fn div(self, other: usize) -> (r: BoundedRational)
        ensures
            product_result(self@, rat_inv((other as int, 1int)), r@),
    {
        let b = BoundedRational::from_bigint(BigInt::from(other));
        BoundedRational::quotient_of(self, &b)
    }
}

impl<'a> vstd::std_specs::ops::DivSpecImpl<usize> for &'a BoundedRational {
    open spec fn obeys_div_spec() -> bool {
        false
    }

    open spec fn div_req(self, rhs: usize) -> bool {
        rhs != 0
    }

    open spec fn div_spec(self, rhs: usize) -> BoundedRational {
        arbitrary()
    }
}

/// `&BoundedRational / &usize`.
impl<'a, 'b> core::ops::Div<&'b usize> for &'a BoundedRational {
    type Output = BoundedRational;

    fn div(self, other: &'b usize) -> (r: BoundedRational)
        ensures
            product_result(self@, rat_inv((*other as int, 1int)), r@),
    {
        let b = BoundedRational::from_bigint(BigInt::from(*other));
        BoundedRational::quotient_of(self, &b)
    }
}

impl<'a, 'b> vstd::std_specs::ops::DivSpecImpl<&'b usize> for &'a BoundedRational {
    open spec fn obeys_div_spec() -> bool {
        false
    }

    open spec fn div_req(self, rhs: &'b usize) -> bool {
        *rhs != 0
    }

    open spec fn div_spec(self, rhs: &'b usize) -> BoundedRational {
        arbitrary()
    }
}

/// `usize / BoundedRational`.
impl core::ops::Div<BoundedRational> for usize {
    type Output = BoundedRational;

    fn div(self, other: BoundedRational) -> (r: BoundedRational)
        ensures
            product_result((self as int, 1int), rat_inv(other@), r@),
    {
        let a = BoundedRational::from_bigint(BigInt::from(self));
        BoundedRational::quotient_of(&a, &other)
    }
}

impl vstd::std_specs::ops::DivSpecImpl<BoundedRational> for usize {
    open spec fn obeys_div_spec() -> bool {
        false
    }

    open spec fn div_req(self, rhs: BoundedRational) -> bool {
        rhs@.0 != 0
    }

    open spec fn div_spec(self, rhs: BoundedRational) -> BoundedRational {
        arbitrary()
    }
}

/// `&usize / BoundedRational`.
impl<'a> core::ops::Div<BoundedRational> for &'a usize {
    type Output = BoundedRational;

    fn div(self, other: BoundedRational) -> (r: BoundedRational)
        ensures
            product_result((*self as int, 1int), rat_inv(other@), r@),
    {
        let a = BoundedRational::from_bigint(BigInt::from(*self));
        BoundedRational::quotient_of(&a, &other)
    }
}

impl<'a> vstd::std_specs::ops::DivSpecImpl<BoundedRational> for &'a usize {
    open spec fn obeys_div_spec() -> bool {
        false
    }

    open spec fn div_req(self, rhs: BoundedRational) -> bool {
        rhs@.0 != 0
    }

    open spec fn div_spec(self, rhs: BoundedRational) -> BoundedRational {
        arbitrary()
    }
}

/// `usize / &BoundedRational`.
impl<'a> core::ops::Div<&'a BoundedRational> for usize {
    type Output = BoundedRational;

    fn div(self, other: &'a BoundedRational) -> (r: BoundedRational)
        ensures
            product_result((self as int, 1int), rat_inv(other@), r@),
    {
        let a = BoundedRational::from_bigint(BigInt::from(self));
        BoundedRational::quotient_of(&a, other)
    }
}

impl<'a> vstd::std_specs::ops::DivSpecImpl<&'a BoundedRational> for usize {
    open spec fn obeys_div_spec() -> bool {
        false
    }

    open spec fn div_req(self, rhs: &'a BoundedRational) -> bool {
        rhs@.0 != 0
    }

    open spec fn div_spec(self, rhs: &'a BoundedRational) -> BoundedRational {
        arbitrary()
    }
}

/// `&usize / &BoundedRational`.
impl<'a, 'b> core::ops::Div<&'b BoundedRational> for &'a usize {
    type Output = BoundedRational;

    fn div(self, other: &'b BoundedRational) -> (r: BoundedRational)
        ensures
            product_result((*self as int, 1int), rat_inv(other@), r@),
    {
        let a = BoundedRational::from_bigint(BigInt::from(*self));
        BoundedRational::quotient_of(&a, other)
    }
}

impl<'a, 'b> vstd::std_specs::ops::DivSpecImpl<&'b BoundedRational> for &'a usize {
    open spec fn obeys_div_spec() -> bool {
        false
    }

    open spec fn div_req(self, rhs: &'b BoundedRational) -> bool {
        rhs@.0 != 0
    }

    open spec fn div_spec(self, rhs: &'b BoundedRational) -> BoundedRational {
        arbitrary()
    }
}

/// `BoundedRational /= usize`.
impl core::ops::DivAssign<usize> for BoundedRational {
    fn div_assign(&mut self, other: usize)
        requires
            other != 0,
        ensures
            product_result(old(self)@, rat_inv((other as int, 1int)), final(self)@),
    {
        let b = BoundedRational::from_bigint(BigInt::from(other));
        let v = BoundedRational::quotient_of(self, &b);
        *self = v;
    }
}

/// `BoundedRational /= &usize`.
impl<'a> core::ops::DivAssign<&'a usize> for BoundedRational {
    fn div_assign(&mut self, other: &'a usize)
        requires
            *other != 0,
        ensures
            product_result(old(self)@, rat_inv((*other as int, 1int)), final(self)@),
    {
        let b = BoundedRational::from_bigint(BigInt::from(*other));
        let v = BoundedRational::quotient_of(self, &b);
        *self = v;
    }
}

// Division with `i8`.

/// `BoundedRational / i8`.
impl core::ops::Div<i8> for BoundedRational {
    type Output = BoundedRational;

    fn div(self, other: i8) -> (r: BoundedRational)
        ensures
            product_result(self@, rat_inv((other as int, 1int)), r@),
    {
        let b = BoundedRational::from_bigint(BigInt::from(other));
        BoundedRational::quotient_of(&self, &b)
    }
}

impl vstd::std_specs::ops::DivSpecImpl<i8> for BoundedRational {
    open spec fn obeys_div_spec() -> bool {
        false
    }

    open spec fn div_req(self, rhs: i8) -> bool {
        rhs != 0
    }

    open spec fn div_spec(self, rhs: i8) -> BoundedRational {
        arbitrary()
    }
}

/// `BoundedRational / &i8`.
impl<'a> core::ops::Div<&'a i8> for BoundedRational {
    type Output = BoundedRational;

    fn div(self, other: &'a i8) -> (r: BoundedRational)
        ensures
            product_result(self@, rat_inv((*other as int, 1int)), r@),
    {
        let b = BoundedRational::from_bigint(BigInt::from(*other));
        BoundedRational::quotient_of(&self, &b)
    }
}

impl<'a> vstd::std_specs::ops::DivSpecImpl<&'a i8> for BoundedRational {
    open spec fn obeys_div_spec() -> bool {
        false
    }

    open spec fn div_req(self, rhs: &'a i8) -> bool {
        *rhs != 0
    }

    open spec fn div_spec(self, rhs: &'a i8) -> BoundedRational {
        arbitrary()
    }
}

/// `&BoundedRational / i8`.
impl<'a> core::ops::Div<i8> for &'a BoundedRational {
    type Output = BoundedRational;

    fn div(self, other: i8) -> (r: BoundedRational)
        ensures
            product_result(self@, rat_inv((other as int, 1int)), r@),
    {
        let b = BoundedRational::from_bigint(BigInt::from(other));
        BoundedRational::quotient_of(self, &b)
    }
}

impl<'a> vstd::std_specs::ops::DivSpecImpl<i8> for &'a BoundedRational {
    open spec fn obeys_div_spec() -> bool {
        false
    }

    open spec fn div_req(self, rhs: i8) -> bool {
        rhs != 0
    }

    open spec fn div_spec(self, rhs: i8) -> BoundedRational {
        arbitrary()
    }
}

/// `&BoundedRational / &i8`.
impl<'a, 'b> core::ops::Div<&'b i8> for &'a BoundedRational {
    type Output = BoundedRational;

    fn div(self, other: &'b i8) -> (r: BoundedRational)
        ensures
            product_result(self@, rat_inv((*other as int, 1int)), r@),
    {
        let b = BoundedRational::from_bigint(BigInt::from(*other));
        BoundedRational::quotient_of(self, &b)
    }
}

impl<'a, 'b> vstd::std_specs::ops::DivSpecImpl<&'b i8> for &'a BoundedRational {
    open spec fn obeys_div_spec() -> bool {
        false
    }

    open spec fn div_req(self, rhs: &'b i8) -> bool {
        *rhs != 0
    }

    open spec fn div_spec(self, rhs: &'b i8) -> BoundedRational {
        arbitrary()
    }
}

/// `i8 / BoundedRational`.
impl core::ops::Div<BoundedRational> for i8 {
    type Output = BoundedRational;

    fn div(self, other: BoundedRational) -> (r: BoundedRational)
        ensures
            product_result((self as int, 1int), rat_inv(other@), r@),
    {
        let a = BoundedRational::from_bigint(BigInt::from(self));
        BoundedRational::quotient_of(&a, &other)
    }
}

impl vstd::std_specs::ops::DivSpecImpl<BoundedRational> for i8 {
    open spec fn obeys_div_spec() -> bool {
        false
    }

    open spec fn div_req(self, rhs: BoundedRational) -> bool {
        rhs@.0 != 0
    }

    open spec fn div_spec(self, rhs: BoundedRational) -> BoundedRational {
        arbitrary()
    }
}

/// `&i8 / BoundedRational`.
impl<'a> core::ops::Div<BoundedRational> for &'a i8 {
    type Output = BoundedRational;

    fn div(self, other: BoundedRational) -> (r: BoundedRational)
        ensures
            product_result((*self as int, 1int), rat_inv(other@), r@),
    {
        let a = BoundedRational::from_bigint(BigInt::from(*self));
        BoundedRational::quotient_of(&a, &other)
    }
}

impl<'a> vstd::std_specs::ops::DivSpecImpl<BoundedRational> for &'a i8 {
    open spec fn obeys_div_spec() -> bool {
        false
    }

    open spec fn div_req(self, rhs: BoundedRational) -> bool {
        rhs@.0 != 0
    }

    open spec fn div_spec(self, rhs: BoundedRational) -> BoundedRational {
        arbitrary()
    }
}

/// `i8 / &BoundedRational`.
impl<'a> core::ops::Div<&'a BoundedRational> for i8 {
    type Output = BoundedRational;

    fn div(self, other: &'a BoundedRational) -> (r: BoundedRational)
        ensures
            product_result((self as int, 1int), rat_inv(other@), r@),
    {
        let a = BoundedRational::from_bigint(BigInt::from(self));
        BoundedRational::quotient_of(&a, other)
    }
}

impl<'a> vstd::std_specs::ops::DivSpecImpl<&'a BoundedRational> for i8 {
    open spec fn obeys_div_spec() -> bool {
        false
    }

    open spec fn div_req(self, rhs: &'a BoundedRational) -> bool {
        rhs@.0 != 0
    }

    open spec fn div_spec(self, rhs: &'a BoundedRational) -> BoundedRational {
        arbitrary()
    }
}

/// `&i8 / &BoundedRational`.
impl<'a, 'b> core::ops::Div<&'b BoundedRational> for &'a i8 {
    type Output = BoundedRational;

    fn div(self, other: &'b BoundedRational) -> (r: BoundedRational)
        ensures
            product_result((*self as int, 1int), rat_inv(other@), r@),
    {
        let a = BoundedRational::from_bigint(BigInt::from(*self));
        BoundedRational::quotient_of(&a, other)
    }
}

impl<'a, 'b> vstd::std_specs::ops::DivSpecImpl<&'b BoundedRational> for &'a i8 {
    open spec fn obeys_div_spec() -> bool {
        false
    }

    open spec fn div_req(self, rhs: &'b BoundedRational) -> bool {
        rhs@.0 != 0
    }

    open spec fn div_spec(self, rhs: &'b BoundedRational) -> BoundedRational {
        arbitrary()
    }
}

/// `BoundedRational /= i8`.
impl core::ops::DivAssign<i8> for BoundedRational {
    fn div_assign(&mut self, other: i8)
        requires
            other != 0,
        ensures
            product_result(old(self)@, rat_inv((other as int, 1int)), final(self)@),
    {
        let b = BoundedRational::from_bigint(BigInt::from(other));
        let v = BoundedRational::quotient_of(self, &b);
        *self = v;
    }
}

/// `BoundedRational /= &i8`.
impl<'a> core::ops::DivAssign<&'a i8> for BoundedRational {
    fn div_assign(&mut self, other: &'a i8)
        requires
            *other != 0,
        ensures
            product_result(old(self)@, rat_inv((*other as int, 1int)), final(self)@),
    {
        let b = BoundedRational::from_bigint(BigInt::from(*other));
        let v = BoundedRational::quotient_of(self, &b);
        *self = v;
    }
}

// Division with `i16`.

/// `BoundedRational / i16`.
impl core::ops::Div<i16> for BoundedRational {
    type Output = BoundedRational;

    fn div(self, other: i16) -> (r: BoundedRational)
        ensures
            product_result(self@, rat_inv((other as int, 1int)), r@),
    {
        let b = BoundedRational::from_bigint(BigInt::from(other));
        BoundedRational::quotient_of(&self, &b)
    }
}

impl vstd::std_specs::ops::DivSpecImpl<i16> for BoundedRational {
    open spec fn obeys_div_spec() -> bool {
        false
    }

    open spec fn div_req(self, rhs: i16) -> bool {
        rhs != 0
    }

    open spec fn div_spec(self, rhs: i16) -> BoundedRational {
        arbitrary()
    }
}

/// `BoundedRational / &i16`.
impl<'a> core::ops::Div<&'a i16> for BoundedRational {
    type Output = BoundedRational;

    fn div(self, other: &'a i16) -> (r: BoundedRational)
        ensures
            product_result(self@, rat_inv((*other as int, 1int)), r@),
    {
        let b = BoundedRational::from_bigint(BigInt::from(*other));
        BoundedRational::quotient_of(&self, &b)
    }
}

impl<'a> vstd::std_specs::ops::DivSpecImpl<&'a i16> for BoundedRational {
    open spec fn obeys_div_spec() -> bool {
        false
    }

    open spec fn div_req(self, rhs: &'a i16) -> bool {
        *rhs != 0
    }

    open spec fn div_spec(self, rhs: &'a i16) -> BoundedRational {
        arbitrary()
    }
}

/// `&BoundedRational / i16`.
impl<'a> core::ops::Div<i16> for &'a BoundedRational {
    type Output = BoundedRational;

    fn div(self, other: i16) -> (r: BoundedRational)
        ensures
            product_result(self@, rat_inv((other as int, 1int)), r@),
    {
        let b = BoundedRational::from_bigint(BigInt::from(other));
        BoundedRational::quotient_of(self, &b)
    }
}

impl<'a> vstd::std_specs::ops::DivSpecImpl<i16> for &'a BoundedRational {
    open spec fn obeys_div_spec() -> bool {
        false
    }

    open spec fn div_req(self, rhs: i16) -> bool {
        rhs != 0
    }

    open spec fn div_spec(self, rhs: i16) -> BoundedRational {
        arbitrary()
    }
}

/// `&BoundedRational / &i16`.
impl<'a, 'b> core::ops::Div<&'b i16> for &'a BoundedRational {
    type Output = BoundedRational;

    fn div(self, other: &'b i16) -> (r: BoundedRational)
        ensures
            product_result(self@, rat_inv((*other as int, 1int)), r@),
    {
        let b = BoundedRational::from_bigint(BigInt::from(*other));
        BoundedRational::quotient_of(self, &b)
    }
}

impl<'a, 'b> vstd::std_specs::ops::DivSpecImpl<&'b i16> for &'a BoundedRational {
    open spec fn obeys_div_spec() -> bool {
        false
    }

    open spec fn div_req(self, rhs: &'b i16) -> bool {
        *rhs != 0
    }

    open spec fn div_spec(self, rhs: &'b i16) -> BoundedRational {
        arbitrary()
    }
}

/// `i16 / BoundedRational`.
impl core::ops::Div<BoundedRational> for i16 {
    type Output = BoundedRational;

    fn div(self, other: BoundedRational) -> (r: BoundedRational)
        ensures
            product_result((self as int, 1int), rat_inv(other@), r@),
    {
        let a = BoundedRational::from_bigint(BigInt::from(self));
        BoundedRational::quotient_of(&a, &other)
    }
}

impl vstd::std_specs::ops::DivSpecImpl<BoundedRational> for i16 {
    open spec fn obeys_div_spec() -> bool {
        false
    }

    open spec fn div_req(self, rhs: BoundedRational) -> bool {
        rhs@.0 != 0
    }

    open spec fn div_spec(self, rhs: BoundedRational) -> BoundedRational {
        arbitrary()
    }
}

/// `&i16 / BoundedRational`.
impl<'a> core::ops::Div<BoundedRational> for &'a i16 {
    type Output = BoundedRational;

    fn div(self, other: BoundedRational) -> (r: BoundedRational)
        ensures
            product_result((*self as int, 1int), rat_inv(other@), r@),
    {
        let a = BoundedRational::from_bigint(BigInt::from(*self));
        BoundedRational::quotient_of(&a, &other)
    }
}

impl<'a> vstd::std_specs::ops::DivSpecImpl<BoundedRational> for &'a i16 {
    open spec fn obeys_div_spec() -> bool {
        false
    }

    open spec fn div_req(self, rhs: BoundedRational) -> bool {
        rhs@.0 != 0
    }

    open spec fn div_spec(self, rhs: BoundedRational) -> BoundedRational {
        arbitrary()
    }
}

/// `i16 / &BoundedRational`.
impl<'a> core::ops::Div<&'a BoundedRational> for i16 {
    type Output = BoundedRational;

    fn div(self, other: &'a BoundedRational) -> (r: BoundedRational)
        ensures
            product_result((self as int, 1int), rat_inv(other@), r@),
    {
        let a = BoundedRational::from_bigint(BigInt::from(self));
        BoundedRational::quotient_of(&a, other)
    }
}

impl<'a> vstd::std_specs::ops::DivSpecImpl<&'a BoundedRational> for i16 {
    open spec fn obeys_div_spec() -> bool {
        false
    }

    open spec fn div_req(self, rhs: &'a BoundedRational) -> bool {
        rhs@.0 != 0
    }

    open spec fn div_spec(self, rhs: &'a BoundedRational) -> BoundedRational {
        arbitrary()
    }
}

/// `&i16 / &BoundedRational`.
impl<'a, 'b> core::ops::Div<&'b BoundedRational> for &'a i16 {
    type Output = BoundedRational;

    fn div(self, other: &'b BoundedRational) -> (r: BoundedRational)
        ensures
            product_result((*self as int, 1int), rat_inv(other@), r@),
    {
        let a = BoundedRational::from_bigint(BigInt::from(*self));
        BoundedRational::quotient_of(&a, other)
    }
}

impl<'a, 'b> vstd::std_specs::ops::DivSpecImpl<&'b BoundedRational> for &'a i16 {
    open spec fn obeys_div_spec() -> bool {
        false
    }

    open spec fn div_req(self, rhs: &'b BoundedRational) -> bool {
        rhs@.0 != 0
    }

    open spec fn div_spec(self, rhs: &'b BoundedRational) -> BoundedRational {
        arbitrary()
    }
}

/// `BoundedRational /= i16`.
impl core::ops::DivAssign<i16> for BoundedRational {
    fn div_assign(&mut self, other: i16)
        requires
            other != 0,
        ensures
            product_result(old(self)@, rat_inv((other as int, 1int)), final(self)@),
    {
        let b = BoundedRational::from_bigint(BigInt::from(other));
        let v = BoundedRational::quotient_of(self, &b);
        *self = v;
    }
}

/// `BoundedRational /= &i16`.
impl<'a> core::ops::DivAssign<&'a i16> for BoundedRational {
    fn div_assign(&mut self, other: &'a i16)
        requires
            *other != 0,
        ensures
            product_result(old(self)@, rat_inv((*other as int, 1int)), final(self)@),
    {
        let b = BoundedRational::from_bigint(BigInt::from(*other));
        let v = BoundedRational::quotient_of(self, &b);
        *self = v;
    }
}

// Division with `i32`.

/// `BoundedRational / i32`.
impl core::ops::Div<i32> for BoundedRational {
    type Output = BoundedRational;

    fn div(self, other: i32) -> (r: BoundedRational)
        ensures
            product_result(self@, rat_inv((other as int, 1int)), r@),
    {
        let b = BoundedRational::from_bigint(BigInt::from(other));
        BoundedRational::quotient_of(&self, &b)
    }
}

impl vstd::std_specs::ops::DivSpecImpl<i32> for BoundedRational {
    open spec fn obeys_div_spec() -> bool {
        false
    }

    open spec fn div_req(self, rhs: i32) -> bool {
        rhs != 0
    }

    open spec fn div_spec(self, rhs: i32) -> BoundedRational {
        arbitrary()
    }
}

/// `BoundedRational / &i32`.
impl<'a> core::ops::Div<&'a i32> for BoundedRational {
    type Output = BoundedRational;

    fn div(self, other: &'a i32) -> (r: BoundedRational)
        ensures
            product_result(self@, rat_inv((*other as int, 1int)), r@),
    {
        let b = BoundedRational::from_bigint(BigInt::from(*other));
        BoundedRational::quotient_of(&self, &b)
    }
}

impl<'a> vstd::std_specs::ops::DivSpecImpl<&'a i32> for BoundedRational {
    open spec fn obeys_div_spec() -> bool {
        false
    }

    open spec fn div_req(self, rhs: &'a i32) -> bool {
        *rhs != 0
    }

    open spec fn div_spec(self, rhs: &'a i32) -> BoundedRational {
        arbitrary()
    }
}

/// `&BoundedRational / i32`.
impl<'a> core::ops::Div<i32> for &'a BoundedRational {
    type Output = BoundedRational;

    fn div(self, other: i32) -> (r: BoundedRational)
        ensures
            product_result(self@, rat_inv((other as int, 1int)), r@),
    {
        let b = BoundedRational::from_bigint(BigInt::from(other));
        BoundedRational::quotient_of(self, &b)
    }
}

impl<'a> vstd::std_specs::ops::DivSpecImpl<i32> for &'a BoundedRational {
    open spec fn obeys_div_spec() -> bool {
        false
    }

    open spec fn div_req(self, rhs: i32) -> bool {
        rhs != 0
    }

    open spec fn div_spec(self, rhs: i32) -> BoundedRational {
        arbitrary()
    }
}

/// `&BoundedRational / &i32`.
impl<'a, 'b> core::ops::Div<&'b i32> for &'a BoundedRational {
    type Output = BoundedRational;

    fn div(self, other: &'b i32) -> (r: BoundedRational)
        ensures
            product_result(self@, rat_inv((*other as int, 1int)), r@),
    {
        let b = BoundedRational::from_bigint(BigInt::from(*other));
        BoundedRational::quotient_of(self, &b)
    }
}

impl<'a, 'b> vstd::std_specs::ops::DivSpecImpl<&'b i32> for &'a BoundedRational {
    open spec fn obeys_div_spec() -> bool {
        false
    }

    open spec fn div_req(self, rhs: &'b i32) -> bool {
        *rhs != 0
    }

    open spec fn div_spec(self, rhs: &'b i32) -> BoundedRational {
        arbitrary()
    }
}

/// `i32 / BoundedRational`.
impl core::ops::Div<BoundedRational> for i32 {
    type Output = BoundedRational;

    fn div(self, other: BoundedRational) -> (r: BoundedRational)
        ensures
            product_result((self as int, 1int), rat_inv(other@), r@),
    {
        let a = BoundedRational::from_bigint(BigInt::from(self));
        BoundedRational::quotient_of(&a, &other)
    }
}

impl vstd::std_specs::ops::DivSpecImpl<BoundedRational> for i32 {
    open spec fn obeys_div_spec() -> bool {
        false
    }

    open spec fn div_req(self, rhs: BoundedRational) -> bool {
        rhs@.0 != 0
    }

    open spec fn div_spec(self, rhs: BoundedRational) -> BoundedRational {
        arbitrary()
    }
}

/// `&i32 / BoundedRational`.
impl<'a> core::ops::Div<BoundedRational> for &'a i32 {
    type Output = BoundedRational;

    fn div(self, other: BoundedRational) -> (r: BoundedRational)
        ensures
            product_result((*self as int, 1int), rat_inv(other@), r@),
    {
        let a = BoundedRational::from_bigint(BigInt::from(*self));
        BoundedRational::quotient_of(&a, &other)
    }
}

impl<'a> vstd::std_specs::ops::DivSpecImpl<BoundedRational> for &'a i32 {
    open spec fn obeys_div_spec() -> bool {
        false
    }

    open spec fn div_req(self, rhs: BoundedRational) -> bool {
        rhs@.0 != 0
    }

    open spec fn div_spec(self, rhs: BoundedRational) -> BoundedRational {
        arbitrary()
    }
}

/// `i32 / &BoundedRational`.
impl<'a> core::ops::Div<&'a BoundedRational> for i32 {
    type Output = BoundedRational;

    fn div(self, other: &'a BoundedRational) -> (r: BoundedRational)
        ensures
            product_result((self as int, 1int), rat_inv(other@), r@),
    {
        let a = BoundedRational::from_bigint(BigInt::from(self));
        BoundedRational::quotient_of(&a, other)
    }
}

impl<'a> vstd::std_specs::ops::DivSpecImpl<&'a BoundedRational> for i32 {
    open spec fn obeys_div_spec() -> bool {
        false
    }

    open spec fn div_req(self, rhs: &'a BoundedRational) -> bool {
        rhs@.0 != 0
    }

    open spec fn div_spec(self, rhs: &'a BoundedRational) -> BoundedRational {
        arbitrary()
    }
}

/// `&i32 / &BoundedRational`.
impl<'a, 'b> core::ops::Div<&'b BoundedRational> for &'a i32 {
    type Output = BoundedRational;

    fn div(self, other: &'b BoundedRational) -> (r: BoundedRational)
        ensures
            product_result((*self as int, 1int), rat_inv(other@), r@),
    {
        let a = BoundedRational::from_bigint(BigInt::from(*self));
        BoundedRational::quotient_of(&a, other)
    }
}

impl<'a, 'b> vstd::std_specs::ops::DivSpecImpl<&'b BoundedRational> for &'a i32 {
    open spec fn obeys_div_spec() -> bool {
        false
    }

    open spec fn div_req(self, rhs: &'b BoundedRational) -> bool {
        rhs@.0 != 0
    }

    open spec fn div_spec(self, rhs: &'b BoundedRational) -> BoundedRational {
        arbitrary()
    }
}

/// `BoundedRational /= i32`.
impl core::ops::DivAssign<i32> for BoundedRational {
    fn div_assign(&mut self, other: i32)
        requires
            other != 0,
        ensures
            product_result(old(self)@, rat_inv((other as int, 1int)), final(self)@),
    {
        let b = BoundedRational::from_bigint(BigInt::from(other));
        let v = BoundedRational::quotient_of(self, &b);
        *self = v;
    }
}

/// `BoundedRational /= &i32`.
impl<'a> core::ops::DivAssign<&'a i32> for BoundedRational {
    fn div_assign(&mut self, other: &'a i32)
        requires
            *other != 0,
        ensures
            product_result(old(self)@, rat_inv((*other as int, 1int)), final(self)@),
    {
        let b = BoundedRational::from_bigint(BigInt::from(*other));
        let v = BoundedRational::quotient_of(self, &b);
        *self = v;
    }
}

// Division with `i64`.

/// `BoundedRational / i64`.
impl core::ops::Div<i64> for BoundedRational {
    type Output = BoundedRational;

    fn div(self, other: i64) -> (r: BoundedRational)
        ensures
            product_result(self@, rat_inv((other as int, 1int)), r@),
    {
        let b = BoundedRational::from_bigint(BigInt::from(other));
        BoundedRational::quotient_of(&self, &b)
    }
}

impl vstd::std_specs::ops::DivSpecImpl<i64> for BoundedRational {
    open spec fn obeys_div_spec() -> bool {
        false
    }

    open spec fn div_req(self, rhs: i64) -> bool {
        rhs != 0
    }

    open spec fn div_spec(self, rhs: i64) -> BoundedRational {
        arbitrary()
    }
}

/// `BoundedRational / &i64`.
impl<'a> core::ops::Div<&'a i64> for BoundedRational {
    type Output = BoundedRational;

    fn div(self, other: &'a i64) -> (r: BoundedRational)
        ensures
            product_result(self@, rat_inv((*other as int, 1int)), r@),
    {
        let b = BoundedRational::from_bigint(BigInt::from(*other));
        BoundedRational::quotient_of(&self, &b)
    }
}

impl<'a> vstd::std_specs::ops::DivSpecImpl<&'a i64> for BoundedRational {
    open spec fn obeys_div_spec() -> bool {
        false
    }

    open spec fn div_req(self, rhs: &'a i64) -> bool {
        *rhs != 0
    }

    open spec fn div_spec(self, rhs: &'a i64) -> BoundedRational {
        arbitrary()
    }
}

/// `&BoundedRational / i64`.
impl<'a> core::ops::Div<i64> for &'a BoundedRational {
    type Output = BoundedRational;

    fn div(self, other: i64) -> (r: BoundedRational)
        ensures
            product_result(self@, rat_inv((other as int, 1int)), r@),
    {
        let b = BoundedRational::from_bigint(BigInt::from(other));
        BoundedRational::quotient_of(self, &b)
    }
}

impl<'a> vstd::std_specs::ops::DivSpecImpl<i64> for &'a BoundedRational {
    open spec fn obeys_div_spec() -> bool {
        false
    }

    open spec fn div_req(self, rhs: i64) -> bool {
        rhs != 0
    }

    open spec fn div_spec(self, rhs: i64) -> BoundedRational {
        arbitrary()
    }
}

/// `&BoundedRational / &i64`.
impl<'a, 'b> core::ops::Div<&'b i64> for &'a BoundedRational {
    type Output = BoundedRational;

    fn div(self, other: &'b i64) -> (r: BoundedRational)
        ensures
            product_result(self@, rat_inv((*other as int, 1int)), r@),
    {
        let b = BoundedRational::from_bigint(BigInt::from(*other));
        BoundedRational::quotient_of(self, &b)
    }
}

impl<'a, 'b> vstd::std_specs::ops::DivSpecImpl<&'b i64> for &'a BoundedRational {
    open spec fn obeys_div_spec() -> bool {
        false
    }

    open spec fn div_req(self, rhs: &'b i64) -> bool {
        *rhs != 0
    }

    open spec fn div_spec(self, rhs: &'b i64) -> BoundedRational {
        arbitrary()
    }
}

/// `i64 / BoundedRational`.
impl core::ops::Div<BoundedRational> for i64 {
    type Output = BoundedRational;

    fn div(self, other: BoundedRational) -> (r: BoundedRational)
        ensures
            product_result((self as int, 1int), rat_inv(other@), r@),
    {
        let a = BoundedRational::from_bigint(BigInt::from(self));
        BoundedRational::quotient_of(&a, &other)
    }
}

impl vstd::std_specs::ops::DivSpecImpl<BoundedRational> for i64 {
    open spec fn obeys_div_spec() -> bool {
        false
    }

    open spec fn div_req(self, rhs: BoundedRational) -> bool {
        rhs@.0 != 0
    }

    open spec fn div_spec(self, rhs: BoundedRational) -> BoundedRational {
        arbitrary()
    }
}

/// `&i64 / BoundedRational`.
impl<'a> core::ops::Div<BoundedRational> for &'a i64 {
    type Output = BoundedRational;

    fn div(self, other: BoundedRational) -> (r: BoundedRational)
        ensures
            product_result((*self as int, 1int), rat_inv(other@), r@),
    {
        let a = BoundedRational::from_bigint(BigInt::from(*self));
        BoundedRational::quotient_of(&a, &other)
    }
}

impl<'a> vstd::std_specs::ops::DivSpecImpl<BoundedRational> for &'a i64 {
    open spec fn obeys_div_spec() -> bool {
        false
    }

    open spec fn div_req(self, rhs: BoundedRational) -> bool {
        rhs@.0 != 0
    }

    open spec fn div_spec(self, rhs: BoundedRational) -> BoundedRational {
        arbitrary()
    }
}

/// `i64 / &BoundedRational`.
impl<'a> core::ops::Div<&'a BoundedRational> for i64 {
    type Output = BoundedRational;

    fn div(self, other: &'a BoundedRational) -> (r: BoundedRational)
        ensures
            product_result((self as int, 1int), rat_inv(other@), r@),
    {
        let a = BoundedRational::from_bigint(BigInt::from(self));
        BoundedRational::quotient_of(&a, other)
    }
}

impl<'a> vstd::std_specs::ops::DivSpecImpl<&'a BoundedRational> for i64 {
    open spec fn obeys_div_spec() -> bool {
        false
    }

    open spec fn div_req(self, rhs: &'a BoundedRational) -> bool {
        rhs@.0 != 0
    }

    open spec fn div_spec(self, rhs: &'a BoundedRational) -> BoundedRational {
        arbitrary()
    }
}

/// `&i64 / &BoundedRational`.
impl<'a, 'b> core::ops::Div<&'b BoundedRational> for &'a i64 {
    type Output = BoundedRational;

    fn div(self, other: &'b BoundedRational) -> (r: BoundedRational)
        ensures
            product_result((*self as int, 1int), rat_inv(other@), r@),
    {
        let a = BoundedRational::from_bigint(BigInt::from(*self));
        BoundedRational::quotient_of(&a, other)
    }
}

impl<'a, 'b> vstd::std_specs::ops::DivSpecImpl<&'b BoundedRational> for &'a i64 {
    open spec fn obeys_div_spec() -> bool {
        false
    }

    open spec fn div_req(self, rhs: &'b BoundedRational) -> bool {
        rhs@.0 != 0
    }

    open spec fn div_spec(self, rhs: &'b BoundedRational) -> BoundedRational {
        arbitrary()
    }
}

/// `BoundedRational /= i64`.
impl core::ops::DivAssign<i64> for BoundedRational {
    fn div_assign(&mut self, other: i64)
        requires
            other != 0,
        ensures
            product_result(old(self)@, rat_inv((other as int, 1int)), final(self)@),
    {
        let b = BoundedRational::from_bigint(BigInt::from(other));
        let v = BoundedRational::quotient_of(self, &b);
        *self = v;
    }
}

/// `BoundedRational /= &i64`.
impl<'a> core::ops::DivAssign<&'a i64> for BoundedRational {
    fn div_assign(&mut self, other: &'a i64)
        requires
            *other != 0,
        ensures
            product_result(old(self)@, rat_inv((*other as int, 1int)), final(self)@),
    {
        let b = BoundedRational::from_bigint(BigInt::from(*other));
        let v = BoundedRational::quotient_of(self, &b);
        *self = v;
    }
}

// Division with `i128`.

/// `BoundedRational / i128`.
impl core::ops::Div<i128> for BoundedRational {
    type Output = BoundedRational;

    fn div(self, other: i128) -> (r: BoundedRational)
        ensures
            product_result(self@, rat_inv((other as int, 1int)), r@),
    {
        let b = BoundedRational::from_bigint(BigInt::from(other));
        BoundedRational::quotient_of(&self, &b)
    }
}

impl vstd::std_specs::ops::DivSpecImpl<i128> for BoundedRational {
    open spec fn obeys_div_spec() -> bool {
        false
    }

    open spec fn div_req(self, rhs: i128) -> bool {
        rhs != 0
    }

    open spec fn div_spec(self, rhs: i128) -> BoundedRational {
        arbitrary()
    }
}

/// `BoundedRational / &i128`.
impl<'a> core::ops::Div<&'a i128> for BoundedRational {
    type Output = BoundedRational;

    fn div(self, other: &'a i128) -> (r: BoundedRational)
        ensures
            product_result(self@, rat_inv((*other as int, 1int)), r@),
    {
        let b = BoundedRational::from_bigint(BigInt::from(*other));
        BoundedRational::quotient_of(&self, &b)
    }
}

impl<'a> vstd::std_specs::ops::DivSpecImpl<&'a i128> for BoundedRational {
    open spec fn obeys_div_spec() -> bool {
        false
    }

    open spec fn div_req(self, rhs: &'a i128) -> bool {
        *rhs != 0
    }

    open spec fn div_spec(self, rhs: &'a i128) -> BoundedRational {
        arbitrary()
    }
}

/// `&BoundedRational / i128`.
impl<'a> core::ops::Div<i128> for &'a BoundedRational {
    type Output = BoundedRational;

    fn div(self, other: i128) -> (r: BoundedRational)
        ensures
            product_result(self@, rat_inv((other as int, 1int)), r@),
    {
        let b = BoundedRational::from_bigint(BigInt::from(other));
        BoundedRational::quotient_of(self, &b)
    }
}

impl<'a> vstd::std_specs::ops::DivSpecImpl<i128> for &'a BoundedRational {
    open spec fn obeys_div_spec() -> bool {
        false
    }

    open spec fn div_req(self, rhs: i128) -> bool {
        rhs != 0
    }

    open spec fn div_spec(self, rhs: i128) -> BoundedRational {
        arbitrary()
    }
}

/// `&BoundedRational / &i128`.
impl<'a, 'b> core::ops::Div<&'b i128> for &'a BoundedRational {
    type Output = BoundedRational;

    fn div(self, other: &'b i128) -> (r: BoundedRational)
        ensures
            product_result(self@, rat_inv((*other as int, 1int)), r@),
    {
        let b = BoundedRational::from_bigint(BigInt::from(*other));
        BoundedRational::quotient_of(self, &b)
    }
}

impl<'a, 'b> vstd::std_specs::ops::DivSpecImpl<&'b i128> for &'a BoundedRational {
    open spec fn obeys_div_spec() -> bool {
        false
    }

    open spec fn div_req(self, rhs: &'b i128) -> bool {
        *rhs != 0
    }

    open spec fn div_spec(self, rhs: &'b i128) -> BoundedRational {
        arbitrary()
    }
}

/// `i128 / BoundedRational`.
impl core::ops::Div<BoundedRational> for i128 {
    type Output = BoundedRational;

    fn div(self, other: BoundedRational) -> (r: BoundedRational)
        ensures
            product_result((self as int, 1int), rat_inv(other@), r@),
    {
        let a = BoundedRational::from_bigint(BigInt::from(self));
        BoundedRational::quotient_of(&a, &other)
    }
}

impl vstd::std_specs::ops::DivSpecImpl<BoundedRational> for i128 {
    open spec fn obeys_div_spec() -> bool {
        false
    }

    open spec fn div_req(self, rhs: BoundedRational) -> bool {
        rhs@.0 != 0
    }

    open spec fn div_spec(self, rhs: BoundedRational) -> BoundedRational {
        arbitrary()
    }
}

/// `&i128 / BoundedRational`.
impl<'a> core::ops::Div<BoundedRational> for &'a i128 {
    type Output = BoundedRational;

    fn div(self, other: BoundedRational) -> (r: BoundedRational)
        ensures
            product_result((*self as int, 1int), rat_inv(other@), r@),
    {
        let a = BoundedRational::from_bigint(BigInt::from(*self));
        BoundedRational::quotient_of(&a, &other)
    }
}

impl<'a> vstd::std_specs::ops::DivSpecImpl<BoundedRational> for &'a i128 {
    open spec fn obeys_div_spec() -> bool {
        false
    }

    open spec fn div_req(self, rhs: BoundedRational) -> bool {
        rhs@.0 != 0
    }

    open spec fn div_spec(self, rhs: BoundedRational) -> BoundedRational {
        arbitrary()
    }
}

/// `i128 / &BoundedRational`.
impl<'a> core::ops::Div<&'a BoundedRational> for i128 {
    type Output = BoundedRational;

    fn div(self, other: &'a BoundedRational) -> (r: BoundedRational)
        ensures
            product_result((self as int, 1int), rat_inv(other@), r@),
    {
        let a = BoundedRational::from_bigint(BigInt::from(self));
        BoundedRational::quotient_of(&a, other)
    }
}

impl<'a> vstd::std_specs::ops::DivSpecImpl<&'a BoundedRational> for i128 {
    open spec fn obeys_div_spec() -> bool {
        false
    }

    open spec fn div_req(self, rhs: &'a BoundedRational) -> bool {
        rhs@.0 != 0
    }

    open spec fn div_spec(self, rhs: &'a BoundedRational) -> BoundedRational {
        arbitrary()
    }
}

/// `&i128 / &BoundedRational`.
impl<'a, 'b> core::ops::Div<&'b BoundedRational> for &'a i128 {
    type Output = BoundedRational;

    fn div(self, other: &'b BoundedRational) -> (r: BoundedRational)
        ensures
            product_result((*self as int, 1int), rat_inv(other@), r@),
    {
        let a = BoundedRational::from_bigint(BigInt::from(*self));
        BoundedRational::quotient_of(&a, other)
    }
}

impl<'a, 'b> vstd::std_specs::ops::DivSpecImpl<&'b BoundedRational> for &'a i128 {
    open spec fn obeys_div_spec() -> bool {
        false
    }

    open spec fn div_req(self, rhs: &'b BoundedRational) -> bool {
        rhs@.0 != 0
    }

    open spec fn div_spec(self, rhs: &'b BoundedRational) -> BoundedRational {
        arbitrary()
    }
}

/// `BoundedRational /= i128`.
impl core::ops::DivAssign<i128> for BoundedRational {
    fn div_assign(&mut self, other: i128)
        requires
            other != 0,
        ensures
            product_result(old(self)@, rat_inv((other as int, 1int)), final(self)@),
    {
        let b = BoundedRational::from_bigint(BigInt::from(other));
        let v = BoundedRational::quotient_of(self, &b);
        *self = v;
    }
}

/// `BoundedRational /= &i128`.
impl<'a> core::ops::DivAssign<&'a i128> for BoundedRational {
    fn div_assign(&mut self, other: &'a i128)
        requires
            *other != 0,
        ensures
            product_result(old(self)@, rat_inv((*other as int, 1int)), final(self)@),
    {
        let b = BoundedRational::from_bigint(BigInt::from(*other));
        let v = BoundedRational::quotient_of(self, &b);
        *self = v;
    }
}

// Division with `isize`.

/// `BoundedRational / isize`.
impl core::ops::Div<isize> for BoundedRational {
    type Output = BoundedRational;

    fn div(self, other: isize) -> (r: BoundedRational)
        ensures
            product_result(self@, rat_inv((other as int, 1int)), r@),
    {
        let b = BoundedRational::from_bigint(BigInt::from(other));
        BoundedRational::quotient_of(&self, &b)
    }
}

impl vstd::std_specs::ops::DivSpecImpl<isize> for BoundedRational {
    open spec fn obeys_div_spec() -> bool {
        false
    }

    open spec fn div_req(self, rhs: isize) -> bool {
        rhs != 0
    }

    open spec fn div_spec(self, rhs: isize) -> BoundedRational {
        arbitrary()
    }
}

/// `BoundedRational / &isize`.
impl<'a> core::ops::Div<&'a isize> for BoundedRational {
    type Output = BoundedRational;

    fn div(self, other: &'a isize) -> (r: BoundedRational)
        ensures
            product_result(self@, rat_inv((*other as int, 1int)), r@),
    {
        let b = BoundedRational::from_bigint(BigInt::from(*other));
        BoundedRational::quotient_of(&self, &b)
    }
}

impl<'a> vstd::std_specs::ops::DivSpecImpl<&'a isize> for BoundedRational {
    open spec fn obeys_div_spec() -> bool {
        false
    }

    open spec fn div_req(self, rhs: &'a isize) -> bool {
        *rhs != 0
    }

    open spec fn div_spec(self, rhs: &'a isize) -> BoundedRational {
        arbitrary()
    }
}

/// `&BoundedRational / isize`.
impl<'a> core::ops::Div<isize> for &'a BoundedRational {
    type Output = BoundedRational;

    fn div(self, other: isize) -> (r: BoundedRational)
        ensures
            product_result(self@, rat_inv((other as int, 1int)), r@),
    {
        let b = BoundedRational::from_bigint(BigInt::from(other));
        BoundedRational::quotient_of(self, &b)
    }
}

impl<'a> vstd::std_specs::ops::DivSpecImpl<isize> for &'a BoundedRational {
    open spec fn obeys_div_spec() -> bool {
        false
    }

    open spec fn div_req(self, rhs: isize) -> bool {
        rhs != 0
    }

    open spec fn div_spec(self, rhs: isize) -> BoundedRational {
        arbitrary()
    }
}

/// `&BoundedRational / &isize`.
impl<'a, 'b> core::ops::Div<&'b isize> for &'a BoundedRational {
    type Output = BoundedRational;

    fn div(self, other: &'b isize) -> (r: BoundedRational)
        ensures
            product_result(self@, rat_inv((*other as int, 1int)), r@),
    {
        let b = BoundedRational::from_bigint(BigInt::from(*other));
        BoundedRational::quotient_of(self, &b)
    }
}

impl<'a, 'b> vstd::std_specs::ops::DivSpecImpl<&'b isize> for &'a BoundedRational {
    open spec fn obeys_div_spec() -> bool {
        false
    }

    open spec fn div_req(self, rhs: &'b isize) -> bool {
        *rhs != 0
    }

    open spec fn div_spec(self, rhs: &'b isize) -> BoundedRational {
        arbitrary()
    }
}

/// `isize / BoundedRational`.
impl core::ops::Div<BoundedRational> for isize {
    type Output = BoundedRational;

    fn div(self, other: BoundedRational) -> (r: BoundedRational)
        ensures
            product_result((self as int, 1int), rat_inv(other@), r@),
    {
        let a = BoundedRational::from_bigint(BigInt::from(self));
        BoundedRational::quotient_of(&a, &other)
    }
}

impl vstd::std_specs::ops::DivSpecImpl<BoundedRational> for isize {
    open spec fn obeys_div_spec() -> bool {
        false
    }

    open spec fn div_req(self, rhs: BoundedRational) -> bool {
        rhs@.0 != 0
    }

    open spec fn div_spec(self, rhs: BoundedRational) -> BoundedRational {
        arbitrary()
    }
}

/// `&isize / BoundedRational`.
impl<'a> core::ops::Div<BoundedRational> for &'a isize {
    type Output = BoundedRational;

    fn div(self, other: BoundedRational) -> (r: BoundedRational)
        ensures
            product_result((*self as int, 1int), rat_inv(other@), r@),
    {
        let a = BoundedRational::from_bigint(BigInt::from(*self));
        BoundedRational::quotient_of(&a, &other)
    }
}

impl<'a> vstd::std_specs::ops::DivSpecImpl<BoundedRational> for &'a isize {
    open spec fn obeys_div_spec() -> bool {
        false
    }

    open spec fn div_req(self, rhs: BoundedRational) -> bool {
        rhs@.0 != 0
    }

    open spec fn div_spec(self, rhs: BoundedRational) -> BoundedRational {
        arbitrary()
    }
}

/// `isize / &BoundedRational`.
impl<'a> core::ops::Div<&'a BoundedRational> for isize {
    type Output = BoundedRational;

    fn div(self, other: &'a BoundedRational) -> (r: BoundedRational)
        ensures
            product_result((self as int, 1int), rat_inv(other@), r@),
    {
        let a = BoundedRational::from_bigint(BigInt::from(self));
        BoundedRational::quotient_of(&a, other)
    }
}

impl<'a> vstd::std_specs::ops::DivSpecImpl<&'a BoundedRational> for isize {
    open spec fn obeys_div_spec() -> bool {
        false
    }

    open spec fn div_req(self, rhs: &'a BoundedRational) -> bool {
        rhs@.0 != 0
    }

    open spec fn div_spec(self, rhs: &'a BoundedRational) -> BoundedRational {
        arbitrary()
    }
}

/// `&isize / &BoundedRational`.
impl<'a, 'b> core::ops::Div<&'b BoundedRational> for &'a isize {
    type Output = BoundedRational;

    fn div(self, other: &'b BoundedRational) -> (r: BoundedRational)
        ensures
            product_result((*self as int, 1int), rat_inv(other@), r@),
    {
        let a = BoundedRational::from_bigint(BigInt::from(*self));
        BoundedRational::quotient_of(&a, other)
    }
}

impl<'a, 'b> vstd::std_specs::ops::DivSpecImpl<&'b BoundedRational> for &'a isize {
    open spec fn obeys_div_spec() -> bool {
        false
    }

    open spec fn div_req(self, rhs: &'b BoundedRational) -> bool {
        rhs@.0 != 0
    }

    open spec fn div_spec(self, rhs: &'b BoundedRational) -> BoundedRational {
        arbitrary()
    }
}

/// `BoundedRational /= isize`.
impl core::ops::DivAssign<isize> for BoundedRational {
    fn div_assign(&mut self, other: isize)
        requires
            other != 0,
        ensures
            product_result(old(self)@, rat_inv((other as int, 1int)), final(self)@),
    {
        let b = BoundedRational::from_bigint(BigInt::from(other));
        let v = BoundedRational::quotient_of(self, &b);
        *self = v;
    }
}

/// `BoundedRational /= &isize`.
impl<'a> core::ops::DivAssign<&'a isize> for BoundedRational {
    fn div_assign(&mut self, other: &'a isize)
        requires
            *other != 0,
        ensures
            product_result(old(self)@, rat_inv((*other as int, 1int)), final(self)@),
    {
        let b = BoundedRational::from_bigint(BigInt::from(*other));
        let v = BoundedRational::quotient_of(self, &b);
        *self = v;
    }
}

// Division with `BigInt`.

/// `BoundedRational / BigInt`.
impl core::ops::Div<BigInt> for BoundedRational {
    type Output = BoundedRational;

    fn div(self, other: BigInt) -> (r: BoundedRational)
        ensures
            product_result(self@, rat_inv((other@, 1int)), r@),
    {
        let b = BoundedRational::from_bigint(other);
        BoundedRational::quotient_of(&self, &b)
    }
}

impl vstd::std_specs::ops::DivSpecImpl<BigInt> for BoundedRational {
    open spec fn obeys_div_spec() -> bool {
        false
    }

    open spec fn div_req(self, rhs: BigInt) -> bool {
        rhs@ != 0
    }

    open spec fn div_spec(self, rhs: BigInt) -> BoundedRational {
        arbitrary()
    }
}

/// `BoundedRational / &BigInt`.
impl<'a> core::ops::Div<&'a BigInt> for BoundedRational {
    type Output = BoundedRational;

    fn div(self, other: &'a BigInt) -> (r: BoundedRational)
        ensures
            product_result(self@, rat_inv((other@, 1int)), r@),
    {
        let b = BoundedRational::from_bigint(other.clone());
        BoundedRational::quotient_of(&self, &b)
    }
}

impl<'a> vstd::std_specs::ops::DivSpecImpl<&'a BigInt> for BoundedRational {
    open spec fn obeys_div_spec() -> bool {
        false
    }

    open spec fn div_req(self, rhs: &'a BigInt) -> bool {
        rhs@ != 0
    }

    open spec fn div_spec(self, rhs: &'a BigInt) -> BoundedRational {
        arbitrary()
    }
}

/// `&BoundedRational / BigInt`.
impl<'a> core::ops::Div<BigInt> for &'a BoundedRational {
    type Output = BoundedRational;

    fn div(self, other: BigInt) -> (r: BoundedRational)
        ensures
            product_result(self@, rat_inv((other@, 1int)), r@),
    {
        let b = BoundedRational::from_bigint(other);
        BoundedRational::quotient_of(self, &b)
    }
}

impl<'a> vstd::std_specs::ops::DivSpecImpl<BigInt> for &'a BoundedRational {
    open spec fn obeys_div_spec() -> bool {
        false
    }

    open spec fn div_req(self, rhs: BigInt) -> bool {
        rhs@ != 0
    }

    open spec fn div_spec(self, rhs: BigInt) -> BoundedRational {
        arbitrary()
    }
}

/// `&BoundedRational / &BigInt`.
impl<'a, 'b> core::ops::Div<&'b BigInt> for &'a BoundedRational {
    type Output = BoundedRational;

    fn div(self, other: &'b BigInt) -> (r: BoundedRational)
        ensures
            product_result(self@, rat_inv((other@, 1int)), r@),
    {
        let b = BoundedRational::from_bigint(other.clone());
        BoundedRational::quotient_of(self, &b)
    }
}

impl<'a, 'b> vstd::std_specs::ops::DivSpecImpl<&'b BigInt> for &'a BoundedRational {
    open spec fn obeys_div_spec() -> bool {
        false
    }

    open spec fn div_req(self, rhs: &'b BigInt) -> bool {
        rhs@ != 0
    }

    open spec fn div_spec(self, rhs: &'b BigInt) -> BoundedRational {
        arbitrary()
    }
}

/// `BigInt / BoundedRational`.
impl core::ops::Div<BoundedRational> for BigInt {
    type Output = BoundedRational;

    fn div(self, other: BoundedRational) -> (r: BoundedRational)
        ensures
            product_result((self@, 1int), rat_inv(other@), r@),
    {
        let a = BoundedRational::from_bigint(self);
        BoundedRational::quotient_of(&a, &other)
    }
}

impl vstd::std_specs::ops::DivSpecImpl<BoundedRational> for BigInt {
    open spec fn obeys_div_spec() -> bool {
        false
    }

    open spec fn div_req(self, rhs: BoundedRational) -> bool {
        rhs@.0 != 0
    }

    open spec fn div_spec(self, rhs: BoundedRational) -> BoundedRational {
        arbitrary()
    }
}

/// `&BigInt / BoundedRational`.
impl<'a> core::ops::Div<BoundedRational> for &'a BigInt {
    type Output = BoundedRational;

    fn div(self, other: BoundedRational) -> (r: BoundedRational)
        ensures
            product_result((self@, 1int), rat_inv(other@), r@),
    {
        let a = BoundedRational::from_bigint(self.clone());
        BoundedRational::quotient_of(&a, &other)
    }
}

impl<'a> vstd::std_specs::ops::DivSpecImpl<BoundedRational> for &'a BigInt {
    open spec fn obeys_div_spec() -> bool {
        false
    }

    open spec fn div_req(self, rhs: BoundedRational) -> bool {
        rhs@.0 != 0
    }

    open spec fn div_spec(self, rhs: BoundedRational) -> BoundedRational {
        arbitrary()
    }
}

/// `BigInt / &BoundedRational`.
impl<'a> core::ops::Div<&'a BoundedRational> for BigInt {
    type Output = BoundedRational;

    fn div(self, other: &'a BoundedRational) -> (r: BoundedRational)
        ensures
            product_result((self@, 1int), rat_inv(other@), r@),
    {
        let a = BoundedRational::from_bigint(self);
        BoundedRational::quotient_of(&a, other)
    }
}

impl<'a> vstd::std_specs::ops::DivSpecImpl<&'a BoundedRational> for BigInt {
    open spec fn obeys_div_spec() -> bool {
        false
    }

    open spec fn div_req(self, rhs: &'a BoundedRational) -> bool {
        rhs@.0 != 0
    }

    open spec fn div_spec(self, rhs: &'a BoundedRational) -> BoundedRational {
        arbitrary()
    }
}

/// `&BigInt / &BoundedRational`.
impl<'a, 'b> core::ops::Div<&'b BoundedRational> for &'a BigInt {
    type Output = BoundedRational;

    fn div(self, other: &'b BoundedRational) -> (r: BoundedRational)
        ensures
            product_result((self@, 1int), rat_inv(other@), r@),
    {
        let a = BoundedRational::from_bigint(self.clone());
        BoundedRational::quotient_of(&a, other)
    }
}

impl<'a, 'b> vstd::std_specs::ops::DivSpecImpl<&'b BoundedRational> for &'a BigInt {
    open spec fn obeys_div_spec() -> bool {
        false
    }

    open spec fn div_req(self, rhs: &'b BoundedRational) -> bool {
        rhs@.0 != 0
    }

    open spec fn div_spec(self, rhs: &'b BoundedRational) -> BoundedRational {
        arbitrary()
    }
}

/// `BoundedRational /= BigInt`.
impl core::ops::DivAssign<BigInt> for BoundedRational {
    fn div_assign(&mut self, other: BigInt)
        requires
            other@ != 0,
        ensures
            product_result(old(self)@, rat_inv((other@, 1int)), final(self)@),
    {
        let b = BoundedRational::from_bigint(other);
        let v = BoundedRational::quotient_of(self, &b);
        *self = v;
    }
}

/// `BoundedRational /= &BigInt`.
impl<'a> core::ops::DivAssign<&'a BigInt> for BoundedRational {
    fn div_assign(&mut self, other: &'a BigInt)
        requires
            other@ != 0,
        ensures
            product_result(old(self)@, rat_inv((other@, 1int)), final(self)@),
    {
        let b = BoundedRational::from_bigint(other.clone());
        let v = BoundedRational::quotient_of(self, &b);
        *self = v;
    }
}

} // verus!
