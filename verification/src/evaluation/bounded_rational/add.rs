//! Addition operators of `BoundedRational`: with another rational, with
//! primitive integers and with `BigInt`s, by value and by reference.
use super::{BoundedRational, op_sum_result};
use crate::bigint::BigInt;
use vstd::prelude::*;

verus! {

// Addition of two rationals.

/// `BoundedRational + BoundedRational`.
impl core::ops::Add<BoundedRational> for BoundedRational {
    type Output = BoundedRational;

    fn add(self, other: BoundedRational) -> (r: BoundedRational)
        ensures
            op_sum_result(self@, other@, r@),
    {
        BoundedRational::sum_of(&self, &other)
    }
}

impl vstd::std_specs::ops::AddSpecImpl<BoundedRational> for BoundedRational {
    open spec fn obeys_add_spec() -> bool {
        false
    }

    open spec fn add_req(self, rhs: BoundedRational) -> bool {
        true
    }

    open spec fn add_spec(self, rhs: BoundedRational) -> BoundedRational {
        arbitrary()
    }
}

/// `BoundedRational + &BoundedRational`.
impl<'a> core::ops::Add<&'a BoundedRational> for BoundedRational {
    type Output = BoundedRational;

    fn add(self, other: &'a BoundedRational) -> (r: BoundedRational)
        ensures
            op_sum_result(self@, other@, r@),
    {
        BoundedRational::sum_of(&self, other)
    }
}

impl<'a> vstd::std_specs::ops::AddSpecImpl<&'a BoundedRational> for BoundedRational {
    open spec fn obeys_add_spec() -> bool {
        false
    }

    open spec fn add_req(self, rhs: &'a BoundedRational) -> bool {
        true
    }

    open spec fn add_spec(self, rhs: &'a BoundedRational) -> BoundedRational {
        arbitrary()
    }
}

/// `&BoundedRational + BoundedRational`.
impl<'a> core::ops::Add<BoundedRational> for &'a BoundedRational {
    type Output = BoundedRational;

    fn add(self, other: BoundedRational) -> (r: BoundedRational)
        ensures
            op_sum_result(self@, other@, r@),
    {
        BoundedRational::sum_of(self, &other)
    }
}

impl<'a> vstd::std_specs::ops::AddSpecImpl<BoundedRational> for &'a BoundedRational {
    open spec fn obeys_add_spec() -> bool {
        false
    }

    open spec fn add_req(self, rhs: BoundedRational) -> bool {
        true
    }

    open spec fn add_spec(self, rhs: BoundedRational) -> BoundedRational {
        arbitrary()
    }
}

/// `&BoundedRational + &BoundedRational`.
impl<'a, 'b> core::ops::Add<&'b BoundedRational> for &'a BoundedRational {
    type Output = BoundedRational;

    fn add(self, other: &'b BoundedRational) -> (r: BoundedRational)
        ensures
            op_sum_result(self@, other@, r@),
    {
        BoundedRational::sum_of(self, other)
    }
}

impl<'a, 'b> vstd::std_specs::ops::AddSpecImpl<&'b BoundedRational> for &'a BoundedRational {
    open spec fn obeys_add_spec() -> bool {
        false
    }

    open spec fn add_req(self, rhs: &'b BoundedRational) -> bool {
        true
    }

    open spec fn add_spec(self, rhs: &'b BoundedRational) -> BoundedRational {
        arbitrary()
    }
}

/// `BoundedRational += BoundedRational`.
impl core::ops::AddAssign<BoundedRational> for BoundedRational {
    fn add_assign(&mut self, other: BoundedRational)
        ensures
            op_sum_result(old(self)@, other@, final(self)@),
    {
        let v = BoundedRational::sum_of(self, &other);
        *self = v;
    }
}

/// `BoundedRational += &BoundedRational`.
impl<'a> core::ops::AddAssign<&'a BoundedRational> for BoundedRational {
    fn add_assign(&mut self, other: &'a BoundedRational)
        ensures
            op_sum_result(old(self)@, other@, final(self)@),
    {
        let v = BoundedRational::sum_of(self, other);
        *self = v;
    }
}

// Addition with `u8`.

/// `BoundedRational + u8`.
impl core::ops::Add<u8> for BoundedRational {
    type Output = BoundedRational;

    fn add(self, other: u8) -> (r: BoundedRational)
        ensures
            op_sum_result(self@, (other as int, 1int), r@),
    {
        let b = BoundedRational::from_bigint(BigInt::from(other));
        BoundedRational::sum_of(&self, &b)
    }
}

impl vstd::std_specs::ops::AddSpecImpl<u8> for BoundedRational {
    open spec fn obeys_add_spec() -> bool {
        false
    }

    open spec fn add_req(self, rhs: u8) -> bool {
        true
    }

    open spec fn add_spec(self, rhs: u8) -> BoundedRational {
        arbitrary()
    }
}

/// `BoundedRational + &u8`.
impl<'a> core::ops::Add<&'a u8> for BoundedRational {
    type Output = BoundedRational;

    fn add(self, other: &'a u8) -> (r: BoundedRational)
        ensures
            op_sum_result(self@, (*other as int, 1int), r@),
    {
        let b = BoundedRational::from_bigint(BigInt::from(*other));
        BoundedRational::sum_of(&self, &b)
    }
}

impl<'a> vstd::std_specs::ops::AddSpecImpl<&'a u8> for BoundedRational {
    open spec fn obeys_add_spec() -> bool {
        false
    }

    open spec fn add_req(self, rhs: &'a u8) -> bool {
        true
    }

    open spec fn add_spec(self, rhs: &'a u8) -> BoundedRational {
        arbitrary()
    }
}

/// `&BoundedRational + u8`.
impl<'a> core::ops::Add<u8> for &'a BoundedRational {
    type Output = BoundedRational;

    fn add(self, other: u8) -> (r: BoundedRational)
        ensures
            op_sum_result(self@, (other as int, 1int), r@),
    {
        let b = BoundedRational::from_bigint(BigInt::from(other));
        BoundedRational::sum_of(self, &b)
    }
}

impl<'a> vstd::std_specs::ops::AddSpecImpl<u8> for &'a BoundedRational {
    open spec fn obeys_add_spec() -> bool {
        false
    }

    open spec fn add_req(self, rhs: u8) -> bool {
        true
    }

    open spec fn add_spec(self, rhs: u8) -> BoundedRational {
        arbitrary()
    }
}

/// `&BoundedRational + &u8`.
impl<'a, 'b> core::ops::Add<&'b u8> for &'a BoundedRational {
    type Output = BoundedRational;

    fn add(self, other: &'b u8) -> (r: BoundedRational)
        ensures
            op_sum_result(self@, (*other as int, 1int), r@),
    {
        let b = BoundedRational::from_bigint(BigInt::from(*other));
        BoundedRational::sum_of(self, &b)
    }
}

impl<'a, 'b> vstd::std_specs::ops::AddSpecImpl<&'b u8> for &'a BoundedRational {
    open spec fn obeys_add_spec() -> bool {
        false
    }

    open spec fn add_req(self, rhs: &'b u8) -> bool {
        true
    }

    open spec fn add_spec(self, rhs: &'b u8) -> BoundedRational {
        arbitrary()
    }
}

/// `u8 + BoundedRational`.
impl core::ops::Add<BoundedRational> for u8 {
    type Output = BoundedRational;

    fn add(self, other: BoundedRational) -> (r: BoundedRational)
        ensures
            op_sum_result(other@, (self as int, 1int), r@),
    {
        let a = BoundedRational::from_bigint(BigInt::from(self));
        BoundedRational::sum_of(&other, &a)
    }
}

impl vstd::std_specs::ops::AddSpecImpl<BoundedRational> for u8 {
    open spec fn obeys_add_spec() -> bool {
        false
    }

    open spec fn add_req(self, rhs: BoundedRational) -> bool {
        true
    }

    open spec fn add_spec(self, rhs: BoundedRational) -> BoundedRational {
        arbitrary()
    }
}

/// `&u8 + BoundedRational`.
impl<'a> core::ops::Add<BoundedRational> for &'a u8 {
    type Output = BoundedRational;

    fn add(self, other: BoundedRational) -> (r: BoundedRational)
        ensures
            op_sum_result(other@, (*self as int, 1int), r@),
    {
        let a = BoundedRational::from_bigint(BigInt::from(*self));
        BoundedRational::sum_of(&other, &a)
    }
}

impl<'a> vstd::std_specs::ops::AddSpecImpl<BoundedRational> for &'a u8 {
    open spec fn obeys_add_spec() -> bool {
        false
    }

    open spec fn add_req(self, rhs: BoundedRational) -> bool {
        true
    }

    open spec fn add_spec(self, rhs: BoundedRational) -> BoundedRational {
        arbitrary()
    }
}

/// `u8 + &BoundedRational`.
impl<'a> core::ops::Add<&'a BoundedRational> for u8 {
    type Output = BoundedRational;

    fn add(self, other: &'a BoundedRational) -> (r: BoundedRational)
        ensures
            op_sum_result(other@, (self as int, 1int), r@),
    {
        let a = BoundedRational::from_bigint(BigInt::from(self));
        BoundedRational::sum_of(other, &a)
    }
}

impl<'a> vstd::std_specs::ops::AddSpecImpl<&'a BoundedRational> for u8 {
    open spec fn obeys_add_spec() -> bool {
        false
    }

    open spec fn add_req(self, rhs: &'a BoundedRational) -> bool {
        true
    }

    open spec fn add_spec(self, rhs: &'a BoundedRational) -> BoundedRational {
        arbitrary()
    }
}

/// `&u8 + &BoundedRational`.
impl<'a, 'b> core::ops::Add<&'b BoundedRational> for &'a u8 {
    type Output = BoundedRational;

    fn add(self, other: &'b BoundedRational) -> (r: BoundedRational)
        ensures
            op_sum_result(other@, (*self as int, 1int), r@),
    {
        let a = BoundedRational::from_bigint(BigInt::from(*self));
        BoundedRational::sum_of(other, &a)
    }
}

impl<'a, 'b> vstd::std_specs::ops::AddSpecImpl<&'b BoundedRational> for &'a u8 {
    open spec fn obeys_add_spec() -> bool {
        false
    }

    open spec fn add_req(self, rhs: &'b BoundedRational) -> bool {
        true
    }

    open spec fn add_spec(self, rhs: &'b BoundedRational) -> BoundedRational {
        arbitrary()
    }
}

/// `BoundedRational += u8`.
impl core::ops::AddAssign<u8> for BoundedRational {
    fn add_assign(&mut self, other: u8)
        ensures
            op_sum_result(old(self)@, (other as int, 1int), final(self)@),
    {
        let b = BoundedRational::from_bigint(BigInt::from(other));
        let v = BoundedRational::sum_of(self, &b);
        *self = v;
    }
}

/// `BoundedRational += &u8`.
impl<'a> core::ops::AddAssign<&'a u8> for BoundedRational {
    fn add_assign(&mut self, other: &'a u8)
        ensures
            op_sum_result(old(self)@, (*other as int, 1int), final(self)@),
    {
        let b = BoundedRational::from_bigint(BigInt::from(*other));
        let v = BoundedRational::sum_of(self, &b);
        *self = v;
    }
}

// Addition with `u16`.

/// `BoundedRational + u16`.
impl core::ops::Add<u16> for BoundedRational {
    type Output = BoundedRational;

    fn add(self, other: u16) -> (r: BoundedRational)
        ensures
            op_sum_result(self@, (other as int, 1int), r@),
    {
        let b = BoundedRational::from_bigint(BigInt::from(other));
        BoundedRational::sum_of(&self, &b)
    }
}

impl vstd::std_specs::ops::AddSpecImpl<u16> for BoundedRational {
    open spec fn obeys_add_spec() -> bool {
        false
    }

    open spec fn add_req(self, rhs: u16) -> bool {
        true
    }

    open spec fn add_spec(self, rhs: u16) -> BoundedRational {
        arbitrary()
    }
}

/// `BoundedRational + &u16`.
impl<'a> core::ops::Add<&'a u16> for BoundedRational {
    type Output = BoundedRational;

    fn add(self, other: &'a u16) -> (r: BoundedRational)
        ensures
            op_sum_result(self@, (*other as int, 1int), r@),
    {
        let b = BoundedRational::from_bigint(BigInt::from(*other));
        BoundedRational::sum_of(&self, &b)
    }
}

impl<'a> vstd::std_specs::ops::AddSpecImpl<&'a u16> for BoundedRational {
    open spec fn obeys_add_spec() -> bool {
        false
    }

    open spec fn add_req(self, rhs: &'a u16) -> bool {
        true
    }

    open spec fn add_spec(self, rhs: &'a u16) -> BoundedRational {
        arbitrary()
    }
}

/// `&BoundedRational + u16`.
impl<'a> core::ops::Add<u16> for &'a BoundedRational {
    type Output = BoundedRational;

    fn add(self, other: u16) -> (r: BoundedRational)
        ensures
            op_sum_result(self@, (other as int, 1int), r@),
    {
        let b = BoundedRational::from_bigint(BigInt::from(other));
        BoundedRational::sum_of(self, &b)
    }
}

impl<'a> vstd::std_specs::ops::AddSpecImpl<u16> for &'a BoundedRational {
    open spec fn obeys_add_spec() -> bool {
        false
    }

    open spec fn add_req(self, rhs: u16) -> bool {
        true
    }

    open spec fn add_spec(self, rhs: u16) -> BoundedRational {
        arbitrary()
    }
}

/// `&BoundedRational + &u16`.
impl<'a, 'b> core::ops::Add<&'b u16> for &'a BoundedRational {
    type Output = BoundedRational;

    fn add(self, other: &'b u16) -> (r: BoundedRational)
        ensures
            op_sum_result(self@, (*other as int, 1int), r@),
    {
        let b = BoundedRational::from_bigint(BigInt::from(*other));
        BoundedRational::sum_of(self, &b)
    }
}

impl<'a, 'b> vstd::std_specs::ops::AddSpecImpl<&'b u16> for &'a BoundedRational {
    open spec fn obeys_add_spec() -> bool {
        false
    }

    open spec fn add_req(self, rhs: &'b u16) -> bool {
        true
    }

    open spec fn add_spec(self, rhs: &'b u16) -> BoundedRational {
        arbitrary()
    }
}

/// `u16 + BoundedRational`.
impl core::ops::Add<BoundedRational> for u16 {
    type Output = BoundedRational;

    fn add(self, other: BoundedRational) -> (r: BoundedRational)
        ensures
            op_sum_result(other@, (self as int, 1int), r@),
    {
        let a = BoundedRational::from_bigint(BigInt::from(self));
        BoundedRational::sum_of(&other, &a)
    }
}

impl vstd::std_specs::ops::AddSpecImpl<BoundedRational> for u16 {
    open spec fn obeys_add_spec() -> bool {
        false
    }

    open spec fn add_req(self, rhs: BoundedRational) -> bool {
        true
    }

    open spec fn add_spec(self, rhs: BoundedRational) -> BoundedRational {
        arbitrary()
    }
}

/// `&u16 + BoundedRational`.
impl<'a> core::ops::Add<BoundedRational> for &'a u16 {
    type Output = BoundedRational;

    fn add(self, other: BoundedRational) -> (r: BoundedRational)
        ensures
            op_sum_result(other@, (*self as int, 1int), r@),
    {
        let a = BoundedRational::from_bigint(BigInt::from(*self));
        BoundedRational::sum_of(&other, &a)
    }
}

impl<'a> vstd::std_specs::ops::AddSpecImpl<BoundedRational> for &'a u16 {
    open spec fn obeys_add_spec() -> bool {
        false
    }

    open spec fn add_req(self, rhs: BoundedRational) -> bool {
        true
    }

    open spec fn add_spec(self, rhs: BoundedRational) -> BoundedRational {
        arbitrary()
    }
}

/// `u16 + &BoundedRational`.
impl<'a> core::ops::Add<&'a BoundedRational> for u16 {
    type Output = BoundedRational;

    fn add(self, other: &'a BoundedRational) -> (r: BoundedRational)
        ensures
            op_sum_result(other@, (self as int, 1int), r@),
    {
        let a = BoundedRational::from_bigint(BigInt::from(self));
        BoundedRational::sum_of(other, &a)
    }
}

impl<'a> vstd::std_specs::ops::AddSpecImpl<&'a BoundedRational> for u16 {
    open spec fn obeys_add_spec() -> bool {
        false
    }

    open spec fn add_req(self, rhs: &'a BoundedRational) -> bool {
        true
    }

    open spec fn add_spec(self, rhs: &'a BoundedRational) -> BoundedRational {
        arbitrary()
    }
}

/// `&u16 + &BoundedRational`.
impl<'a, 'b> core::ops::Add<&'b BoundedRational> for &'a u16 {
    type Output = BoundedRational;

    fn add(self, other: &'b BoundedRational) -> (r: BoundedRational)
        ensures
            op_sum_result(other@, (*self as int, 1int), r@),
    {
        let a = BoundedRational::from_bigint(BigInt::from(*self));
        BoundedRational::sum_of(other, &a)
    }
}

impl<'a, 'b> vstd::std_specs::ops::AddSpecImpl<&'b BoundedRational> for &'a u16 {
    open spec fn obeys_add_spec() -> bool {
        false
    }

    open spec fn add_req(self, rhs: &'b BoundedRational) -> bool {
        true
    }

    open spec fn add_spec(self, rhs: &'b BoundedRational) -> BoundedRational {
        arbitrary()
    }
}

/// `BoundedRational += u16`.
impl core::ops::AddAssign<u16> for BoundedRational {
    fn add_assign(&mut self, other: u16)
        ensures
            op_sum_result(old(self)@, (other as int, 1int), final(self)@),
    {
        let b = BoundedRational::from_bigint(BigInt::from(other));
        let v = BoundedRational::sum_of(self, &b);
        *self = v;
    }
}

/// `BoundedRational += &u16`.
impl<'a> core::ops::AddAssign<&'a u16> for BoundedRational {
    fn add_assign(&mut self, other: &'a u16)
        ensures
            op_sum_result(old(self)@, (*other as int, 1int), final(self)@),
    {
        let b = BoundedRational::from_bigint(BigInt::from(*other));
        let v = BoundedRational::sum_of(self, &b);
        *self = v;
    }
}

// Addition with `u32`.

/// `BoundedRational + u32`.
impl core::ops::Add<u32> for BoundedRational {
    type Output = BoundedRational;

    fn add(self, other: u32) -> (r: BoundedRational)
        ensures
            op_sum_result(self@, (other as int, 1int), r@),
    {
        let b = BoundedRational::from_bigint(BigInt::from(other));
        BoundedRational::sum_of(&self, &b)
    }
}

impl vstd::std_specs::ops::AddSpecImpl<u32> for BoundedRational {
    open spec fn obeys_add_spec() -> bool {
        false
    }

    open spec fn add_req(self, rhs: u32) -> bool {
        true
    }

    open spec fn add_spec(self, rhs: u32) -> BoundedRational {
        arbitrary()
    }
}

/// `BoundedRational + &u32`.
impl<'a> core::ops::Add<&'a u32> for BoundedRational {
    type Output = BoundedRational;

    fn add(self, other: &'a u32) -> (r: BoundedRational)
        ensures
            op_sum_result(self@, (*other as int, 1int), r@),
    {
        let b = BoundedRational::from_bigint(BigInt::from(*other));
        BoundedRational::sum_of(&self, &b)
    }
}

impl<'a> vstd::std_specs::ops::AddSpecImpl<&'a u32> for BoundedRational {
    open spec fn obeys_add_spec() -> bool {
        false
    }

    open spec fn add_req(self, rhs: &'a u32) -> bool {
        true
    }

    open spec fn add_spec(self, rhs: &'a u32) -> BoundedRational {
        arbitrary()
    }
}

/// `&BoundedRational + u32`.
impl<'a> core::ops::Add<u32> for &'a BoundedRational {
    type Output = BoundedRational;

    fn add(self, other: u32) -> (r: BoundedRational)
        ensures
            op_sum_result(self@, (other as int, 1int), r@),
    {
        let b = BoundedRational::from_bigint(BigInt::from(other));
        BoundedRational::sum_of(self, &b)
    }
}

impl<'a> vstd::std_specs::ops::AddSpecImpl<u32> for &'a BoundedRational {
    open spec fn obeys_add_spec() -> bool {
        false
    }

    open spec fn add_req(self, rhs: u32) -> bool {
        true
    }

    open spec fn add_spec(self, rhs: u32) -> BoundedRational {
        arbitrary()
    }
}

/// `&BoundedRational + &u32`.
impl<'a, 'b> core::ops::Add<&'b u32> for &'a BoundedRational {
    type Output = BoundedRational;

    fn add(self, other: &'b u32) -> (r: BoundedRational)
        ensures
            op_sum_result(self@, (*other as int, 1int), r@),
    {
        let b = BoundedRational::from_bigint(BigInt::from(*other));
        BoundedRational::sum_of(self, &b)
    }
}

impl<'a, 'b> vstd::std_specs::ops::AddSpecImpl<&'b u32> for &'a BoundedRational {
    open spec fn obeys_add_spec() -> bool {
        false
    }

    open spec fn add_req(self, rhs: &'b u32) -> bool {
        true
    }

    open spec fn add_spec(self, rhs: &'b u32) -> BoundedRational {
        arbitrary()
    }
}

/// `u32 + BoundedRational`.
impl core::ops::Add<BoundedRational> for u32 {
    type Output = BoundedRational;

    fn add(self, other: BoundedRational) -> (r: BoundedRational)
        ensures
            op_sum_result(other@, (self as int, 1int), r@),
    {
        let a = BoundedRational::from_bigint(BigInt::from(self));
        BoundedRational::sum_of(&other, &a)
    }
}

impl vstd::std_specs::ops::AddSpecImpl<BoundedRational> for u32 {
    open spec fn obeys_add_spec() -> bool {
        false
    }

    open spec fn add_req(self, rhs: BoundedRational) -> bool {
        true
    }

    open spec fn add_spec(self, rhs: BoundedRational) -> BoundedRational {
        arbitrary()
    }
}

/// `&u32 + BoundedRational`.
impl<'a> core::ops::Add<BoundedRational> for &'a u32 {
    type Output = BoundedRational;

    fn add(self, other: BoundedRational) -> (r: BoundedRational)
        ensures
            op_sum_result(other@, (*self as int, 1int), r@),
    {
        let a = BoundedRational::from_bigint(BigInt::from(*self));
        BoundedRational::sum_of(&other, &a)
    }
}

impl<'a> vstd::std_specs::ops::AddSpecImpl<BoundedRational> for &'a u32 {
    open spec fn obeys_add_spec() -> bool {
        false
    }

    open spec fn add_req(self, rhs: BoundedRational) -> bool {
        true
    }

    open spec fn add_spec(self, rhs: BoundedRational) -> BoundedRational {
        arbitrary()
    }
}

/// `u32 + &BoundedRational`.
impl<'a> core::ops::Add<&'a BoundedRational> for u32 {
    type Output = BoundedRational;

    fn add(self, other: &'a BoundedRational) -> (r: BoundedRational)
        ensures
            op_sum_result(other@, (self as int, 1int), r@),
    {
        let a = BoundedRational::from_bigint(BigInt::from(self));
        BoundedRational::sum_of(other, &a)
    }
}

impl<'a> vstd::std_specs::ops::AddSpecImpl<&'a BoundedRational> for u32 {
    open spec fn obeys_add_spec() -> bool {
        false
    }

    open spec fn add_req(self, rhs: &'a BoundedRational) -> bool {
        true
    }

    open spec fn add_spec(self, rhs: &'a BoundedRational) -> BoundedRational {
        arbitrary()
    }
}

/// `&u32 + &BoundedRational`.
impl<'a, 'b> core::ops::Add<&'b BoundedRational> for &'a u32 {
    type Output = BoundedRational;

    fn add(self, other: &'b BoundedRational) -> (r: BoundedRational)
        ensures
            op_sum_result(other@, (*self as int, 1int), r@),
    {
        let a = BoundedRational::from_bigint(BigInt::from(*self));
        BoundedRational::sum_of(other, &a)
    }
}

impl<'a, 'b> vstd::std_specs::ops::AddSpecImpl<&'b BoundedRational> for &'a u32 {
    open spec fn obeys_add_spec() -> bool {
        false
    }

    open spec fn add_req(self, rhs: &'b BoundedRational) -> bool {
        true
    }

    open spec fn add_spec(self, rhs: &'b BoundedRational) -> BoundedRational {
        arbitrary()
    }
}

/// `BoundedRational += u32`.
impl core::ops::AddAssign<u32> for BoundedRational {
    fn add_assign(&mut self, other: u32)
        ensures
            op_sum_result(old(self)@, (other as int, 1int), final(self)@),
    {
        let b = BoundedRational::from_bigint(BigInt::from(other));
        let v = BoundedRational::sum_of(self, &b);
        *self = v;
    }
}

/// `BoundedRational += &u32`.
impl<'a> core::ops::AddAssign<&'a u32> for BoundedRational {
    fn add_assign(&mut self, other: &'a u32)
        ensures
            op_sum_result(old(self)@, (*other as int, 1int), final(self)@),
    {
        let b = BoundedRational::from_bigint(BigInt::from(*other));
        let v = BoundedRational::sum_of(self, &b);
        *self = v;
    }
}

// Addition with `u64`.

/// `BoundedRational + u64`.
impl core::ops::Add<u64> for BoundedRational {
    type Output = BoundedRational;

    fn add(self, other: u64) -> (r: BoundedRational)
        ensures
            op_sum_result(self@, (other as int, 1int), r@),
    {
        let b = BoundedRational::from_bigint(BigInt::from(other));
        BoundedRational::sum_of(&self, &b)
    }
}

impl vstd::std_specs::ops::AddSpecImpl<u64> for BoundedRational {
    open spec fn obeys_add_spec() -> bool {
        false
    }

    open spec fn add_req(self, rhs: u64) -> bool {
        true
    }

    open spec fn add_spec(self, rhs: u64) -> BoundedRational {
        arbitrary()
    }
}

/// `BoundedRational + &u64`.
impl<'a> core::ops::Add<&'a u64> for BoundedRational {
    type Output = BoundedRational;

    fn add(self, other: &'a u64) -> (r: BoundedRational)
        ensures
            op_sum_result(self@, (*other as int, 1int), r@),
    {
        let b = BoundedRational::from_bigint(BigInt::from(*other));
        BoundedRational::sum_of(&self, &b)
    }
}

impl<'a> vstd::std_specs::ops::AddSpecImpl<&'a u64> for BoundedRational {
    open spec fn obeys_add_spec() -> bool {
        false
    }

    open spec fn add_req(self, rhs: &'a u64) -> bool {
        true
    }

    open spec fn add_spec(self, rhs: &'a u64) -> BoundedRational {
        arbitrary()
    }
}

/// `&BoundedRational + u64`.
impl<'a> core::ops::Add<u64> for &'a BoundedRational {
    type Output = BoundedRational;

    fn add(self, other: u64) -> (r: BoundedRational)
        ensures
            op_sum_result(self@, (other as int, 1int), r@),
    {
        let b = BoundedRational::from_bigint(BigInt::from(other));
        BoundedRational::sum_of(self, &b)
    }
}

impl<'a> vstd::std_specs::ops::AddSpecImpl<u64> for &'a BoundedRational {
    open spec fn obeys_add_spec() -> bool {
        false
    }

    open spec fn add_req(self, rhs: u64) -> bool {
        true
    }

    open spec fn add_spec(self, rhs: u64) -> BoundedRational {
        arbitrary()
    }
}

/// `&BoundedRational + &u64`.
impl<'a, 'b> core::ops::Add<&'b u64> for &'a BoundedRational {
    type Output = BoundedRational;

    fn add(self, other: &'b u64) -> (r: BoundedRational)
        ensures
            op_sum_result(self@, (*other as int, 1int), r@),
    {
        let b = BoundedRational::from_bigint(BigInt::from(*other));
        BoundedRational::sum_of(self, &b)
    }
}

impl<'a, 'b> vstd::std_specs::ops::AddSpecImpl<&'b u64> for &'a BoundedRational {
    open spec fn obeys_add_spec() -> bool {
        false
    }

    open spec fn add_req(self, rhs: &'b u64) -> bool {
        true
    }

    open spec fn add_spec(self, rhs: &'b u64) -> BoundedRational {
        arbitrary()
    }
}

/// `u64 + BoundedRational`.
impl core::ops::Add<BoundedRational> for u64 {
    type Output = BoundedRational;

    fn add(self, other: BoundedRational) -> (r: BoundedRational)
        ensures
            op_sum_result(other@, (self as int, 1int), r@),
    {
        let a = BoundedRational::from_bigint(BigInt::from(self));
        BoundedRational::sum_of(&other, &a)
    }
}

impl vstd::std_specs::ops::AddSpecImpl<BoundedRational> for u64 {
    open spec fn obeys_add_spec() -> bool {
        false
    }

    open spec fn add_req(self, rhs: BoundedRational) -> bool {
        true
    }

    open spec fn add_spec(self, rhs: BoundedRational) -> BoundedRational {
        arbitrary()
    }
}

/// `&u64 + BoundedRational`.
impl<'a> core::ops::Add<BoundedRational> for &'a u64 {
    type Output = BoundedRational;

    fn add(self, other: BoundedRational) -> (r: BoundedRational)
        ensures
            op_sum_result(other@, (*self as int, 1int), r@),
    {
        let a = BoundedRational::from_bigint(BigInt::from(*self));
        BoundedRational::sum_of(&other, &a)
    }
}

impl<'a> vstd::std_specs::ops::AddSpecImpl<BoundedRational> for &'a u64 {
    open spec fn obeys_add_spec() -> bool {
        false
    }

    open spec fn add_req(self, rhs: BoundedRational) -> bool {
        true
    }

    open spec fn add_spec(self, rhs: BoundedRational) -> BoundedRational {
        arbitrary()
    }
}

/// `u64 + &BoundedRational`.
impl<'a> core::ops::Add<&'a BoundedRational> for u64 {
    type Output = BoundedRational;

    fn add(self, other: &'a BoundedRational) -> (r: BoundedRational)
        ensures
            op_sum_result(other@, (self as int, 1int), r@),
    {
        let a = BoundedRational::from_bigint(BigInt::from(self));
        BoundedRational::sum_of(other, &a)
    }
}

impl<'a> vstd::std_specs::ops::AddSpecImpl<&'a BoundedRational> for u64 {
    open spec fn obeys_add_spec() -> bool {
        false
    }

    open spec fn add_req(self, rhs: &'a BoundedRational) -> bool {
        true
    }

    open spec fn add_spec(self, rhs: &'a BoundedRational) -> BoundedRational {
        arbitrary()
    }
}

/// `&u64 + &BoundedRational`.
impl<'a, 'b> core::ops::Add<&'b BoundedRational> for &'a u64 {
    type Output = BoundedRational;

    fn add(self, other: &'b BoundedRational) -> (r: BoundedRational)
        ensures
            op_sum_result(other@, (*self as int, 1int), r@),
    {
        let a = BoundedRational::from_bigint(BigInt::from(*self));
        BoundedRational::sum_of(other, &a)
    }
}

impl<'a, 'b> vstd::std_specs::ops::AddSpecImpl<&'b BoundedRational> for &'a u64 {
    open spec fn obeys_add_spec() -> bool {
        false
    }

    open spec fn add_req(self, rhs: &'b BoundedRational) -> bool {
        true
    }

    open spec fn add_spec(self, rhs: &'b BoundedRational) -> BoundedRational {
        arbitrary()
    }
}

/// `BoundedRational += u64`.
impl core::ops::AddAssign<u64> for BoundedRational {
    fn add_assign(&mut self, other: u64)
        ensures
            op_sum_result(old(self)@, (other as int, 1int), final(self)@),
    {
        let b = BoundedRational::from_bigint(BigInt::from(other));
        let v = BoundedRational::sum_of(self, &b);
        *self = v;
    }
}

/// `BoundedRational += &u64`.
impl<'a> core::ops::AddAssign<&'a u64> for BoundedRational {
    fn add_assign(&mut self, other: &'a u64)
        ensures
            op_sum_result(old(self)@, (*other as int, 1int), final(self)@),
    {
        let b = BoundedRational::from_bigint(BigInt::from(*other));
        let v = BoundedRational::sum_of(self, &b);
        *self = v;
    }
}

// Addition with `u128`.

/// `BoundedRational + u128`.
impl core::ops::Add<u128> for BoundedRational {
    type Output = BoundedRational;

    fn add(self, other: u128) -> (r: BoundedRational)
        ensures
            op_sum_result(self@, (other as int, 1int), r@),
    {
        let b = BoundedRational::from_bigint(BigInt::from(other));
        BoundedRational::sum_of(&self, &b)
    }
}

impl vstd::std_specs::ops::AddSpecImpl<u128> for BoundedRational {
    open spec fn obeys_add_spec() -> bool {
        false
    }

    open spec fn add_req(self, rhs: u128) -> bool {
        true
    }

    open spec fn add_spec(self, rhs: u128) -> BoundedRational {
        arbitrary()
    }
}

/// `BoundedRational + &u128`.
impl<'a> core::ops::Add<&'a u128> for BoundedRational {
    type Output = BoundedRational;

    fn add(self, other: &'a u128) -> (r: BoundedRational)
        ensures
            op_sum_result(self@, (*other as int, 1int), r@),
    {
        let b = BoundedRational::from_bigint(BigInt::from(*other));
        BoundedRational::sum_of(&self, &b)
    }
}

impl<'a> vstd::std_specs::ops::AddSpecImpl<&'a u128> for BoundedRational {
    open spec fn obeys_add_spec() -> bool {
        false
    }

    open spec fn add_req(self, rhs: &'a u128) -> bool {
        true
    }

    open spec fn add_spec(self, rhs: &'a u128) -> BoundedRational {
        arbitrary()
    }
}

/// `&BoundedRational + u128`.
impl<'a> core::ops::Add<u128> for &'a BoundedRational {
    type Output = BoundedRational;

    fn add(self, other: u128) -> (r: BoundedRational)
        ensures
            op_sum_result(self@, (other as int, 1int), r@),
    {
        let b = BoundedRational::from_bigint(BigInt::from(other));
        BoundedRational::sum_of(self, &b)
    }
}

impl<'a> vstd::std_specs::ops::AddSpecImpl<u128> for &'a BoundedRational {
    open spec fn obeys_add_spec() -> bool {
        false
    }

    open spec fn add_req(self, rhs: u128) -> bool {
        true
    }

    open spec fn add_spec(self, rhs: u128) -> BoundedRational {
        arbitrary()
    }
}

/// `&BoundedRational + &u128`.
impl<'a, 'b> core::ops::Add<&'b u128> for &'a BoundedRational {
    type Output = BoundedRational;

    fn add(self, other: &'b u128) -> (r: BoundedRational)
        ensures
            op_sum_result(self@, (*other as int, 1int), r@),
    {
        let b = BoundedRational::from_bigint(BigInt::from(*other));
        BoundedRational::sum_of(self, &b)
    }
}

impl<'a, 'b> vstd::std_specs::ops::AddSpecImpl<&'b u128> for &'a BoundedRational {
    open spec fn obeys_add_spec() -> bool {
        false
    }

    open spec fn add_req(self, rhs: &'b u128) -> bool {
        true
    }

    open spec fn add_spec(self, rhs: &'b u128) -> BoundedRational {
        arbitrary()
    }
}

/// `u128 + BoundedRational`.
impl core::ops::Add<BoundedRational> for u128 {
    type Output = BoundedRational;

    fn add(self, other: BoundedRational) -> (r: BoundedRational)
        ensures
            op_sum_result(other@, (self as int, 1int), r@),
    {
        let a = BoundedRational::from_bigint(BigInt::from(self));
        BoundedRational::sum_of(&other, &a)
    }
}

impl vstd::std_specs::ops::AddSpecImpl<BoundedRational> for u128 {
    open spec fn obeys_add_spec() -> bool {
        false
    }

    open spec fn add_req(self, rhs: BoundedRational) -> bool {
        true
    }

    open spec fn add_spec(self, rhs: BoundedRational) -> BoundedRational {
        arbitrary()
    }
}

/// `&u128 + BoundedRational`.
impl<'a> core::ops::Add<BoundedRational> for &'a u128 {
    type Output = BoundedRational;

    fn add(self, other: BoundedRational) -> (r: BoundedRational)
        ensures
            op_sum_result(other@, (*self as int, 1int), r@),
    {
        let a = BoundedRational::from_bigint(BigInt::from(*self));
        BoundedRational::sum_of(&other, &a)
    }
}

impl<'a> vstd::std_specs::ops::AddSpecImpl<BoundedRational> for &'a u128 {
    open spec fn obeys_add_spec() -> bool {
        false
    }

    open spec fn add_req(self, rhs: BoundedRational) -> bool {
        true
    }

    open spec fn add_spec(self, rhs: BoundedRational) -> BoundedRational {
        arbitrary()
    }
}

/// `u128 + &BoundedRational`.
impl<'a> core::ops::Add<&'a BoundedRational> for u128 {
    type Output = BoundedRational;

    fn add(self, other: &'a BoundedRational) -> (r: BoundedRational)
        ensures
            op_sum_result(other@, (self as int, 1int), r@),
    {
        let a = BoundedRational::from_bigint(BigInt::from(self));
        BoundedRational::sum_of(other, &a)
    }
}

impl<'a> vstd::std_specs::ops::AddSpecImpl<&'a BoundedRational> for u128 {
    open spec fn obeys_add_spec() -> bool {
        false
    }

    open spec fn add_req(self, rhs: &'a BoundedRational) -> bool {
        true
    }

    open spec fn add_spec(self, rhs: &'a BoundedRational) -> BoundedRational {
        arbitrary()
    }
}

/// `&u128 + &BoundedRational`.
impl<'a, 'b> core::ops::Add<&'b BoundedRational> for &'a u128 {
    type Output = BoundedRational;

    fn add(self, other: &'b BoundedRational) -> (r: BoundedRational)
        ensures
            op_sum_result(other@, (*self as int, 1int), r@),
    {
        let a = BoundedRational::from_bigint(BigInt::from(*self));
        BoundedRational::sum_of(other, &a)
    }
}

impl<'a, 'b> vstd::std_specs::ops::AddSpecImpl<&'b BoundedRational> for &'a u128 {
    open spec fn obeys_add_spec() -> bool {
        false
    }

    open spec fn add_req(self, rhs: &'b BoundedRational) -> bool {
        true
    }

    open spec fn add_spec(self, rhs: &'b BoundedRational) -> BoundedRational {
        arbitrary()
    }
}

/// `BoundedRational += u128`.
impl core::ops::AddAssign<u128> for BoundedRational {
    fn add_assign(&mut self, other: u128)
        ensures
            op_sum_result(old(self)@, (other as int, 1int), final(self)@),
    {
        let b = BoundedRational::from_bigint(BigInt::from(other));
        let v = BoundedRational::sum_of(self, &b);
        *self = v;
    }
}

/// `BoundedRational += &u128`.
impl<'a> core::ops::AddAssign<&'a u128> for BoundedRational {
    fn add_assign(&mut self, other: &'a u128)
        ensures
            op_sum_result(old(self)@, (*other as int, 1int), final(self)@),
    {
        let b = BoundedRational::from_bigint(BigInt::from(*other));
        let v = BoundedRational::sum_of(self, &b);
        *self = v;
    }
}

// Addition with `usize`.

/// `BoundedRational + usize`.
impl core::ops::Add<usize> for BoundedRational {
    type Output = BoundedRational;

    fn add(self, other: usize) -> (r: BoundedRational)
        ensures
            op_sum_result(self@, (other as int, 1int), r@),
    {
        let b = BoundedRational::from_bigint(BigInt::from(other));
        BoundedRational::sum_of(&self, &b)
    }
}

impl vstd::std_specs::ops::AddSpecImpl<usize> for BoundedRational {
    open spec fn obeys_add_spec() -> bool {
        false
    }

    open spec fn add_req(self, rhs: usize) -> bool {
        true
    }

    open spec fn add_spec(self, rhs: usize) -> BoundedRational {
        arbitrary()
    }
}

/// `BoundedRational + &usize`.
impl<'a> core::ops::Add<&'a usize> for BoundedRational {
    type Output = BoundedRational;

    fn add(self, other: &'a usize) -> (r: BoundedRational)
        ensures
            op_sum_result(self@, (*other as int, 1int), r@),
    {
        let b = BoundedRational::from_bigint(BigInt::from(*other));
        BoundedRational::sum_of(&self, &b)
    }
}

impl<'a> vstd::std_specs::ops::AddSpecImpl<&'a usize> for BoundedRational {
    open spec fn obeys_add_spec() -> bool {
        false
    }

    open spec fn add_req(self, rhs: &'a usize) -> bool {
        true
    }

    open spec fn add_spec(self, rhs: &'a usize) -> BoundedRational {
        arbitrary()
    }
}

/// `&BoundedRational + usize`.
impl<'a> core::ops::Add<usize> for &'a BoundedRational {
    type Output = BoundedRational;

    fn add(self, other: usize) -> (r: BoundedRational)
        ensures
            op_sum_result(self@, (other as int, 1int), r@),
    {
        let b = BoundedRational::from_bigint(BigInt::from(other));
        BoundedRational::sum_of(self, &b)
    }
}

impl<'a> vstd::std_specs::ops::AddSpecImpl<usize> for &'a BoundedRational {
    open spec fn obeys_add_spec() -> bool {
        false
    }

    open spec fn add_req(self, rhs: usize) -> bool {
        true
    }

    open spec fn add_spec(self, rhs: usize) -> BoundedRational {
        arbitrary()
    }
}

/// `&BoundedRational + &usize`.
impl<'a, 'b> core::ops::Add<&'b usize> for &'a BoundedRational {
    type Output = BoundedRational;

    fn add(self, other: &'b usize) -> (r: BoundedRational)
        ensures
            op_sum_result(self@, (*other as int, 1int), r@),
    {
        let b = BoundedRational::from_bigint(BigInt::from(*other));
        BoundedRational::sum_of(self, &b)
    }
}

impl<'a, 'b> vstd::std_specs::ops::AddSpecImpl<&'b usize> for &'a BoundedRational {
    open spec fn obeys_add_spec() -> bool {
        false
    }

    open spec fn add_req(self, rhs: &'b usize) -> bool {
        true
    }

    open spec fn add_spec(self, rhs: &'b usize) -> BoundedRational {
        arbitrary()
    }
}

/// `usize + BoundedRational`.
impl core::ops::Add<BoundedRational> for usize {
    type Output = BoundedRational;

    fn add(self, other: BoundedRational) -> (r: BoundedRational)
        ensures
            op_sum_result(other@, (self as int, 1int), r@),
    {
        let a = BoundedRational::from_bigint(BigInt::from(self));
        BoundedRational::sum_of(&other, &a)
    }
}

impl vstd::std_specs::ops::AddSpecImpl<BoundedRational> for usize {
    open spec fn obeys_add_spec() -> bool {
        false
    }

    open spec fn add_req(self, rhs: BoundedRational) -> bool {
        true
    }

    open spec fn add_spec(self, rhs: BoundedRational) -> BoundedRational {
        arbitrary()
    }
}

/// `&usize + BoundedRational`.
impl<'a> core::ops::Add<BoundedRational> for &'a usize {
    type Output = BoundedRational;

    fn add(self, other: BoundedRational) -> (r: BoundedRational)
        ensures
            op_sum_result(other@, (*self as int, 1int), r@),
    {
        let a = BoundedRational::from_bigint(BigInt::from(*self));
        BoundedRational::sum_of(&other, &a)
    }
}

impl<'a> vstd::std_specs::ops::AddSpecImpl<BoundedRational> for &'a usize {
    open spec fn obeys_add_spec() -> bool {
        false
    }

    open spec fn add_req(self, rhs: BoundedRational) -> bool {
        true
    }

    open spec fn add_spec(self, rhs: BoundedRational) -> BoundedRational {
        arbitrary()
    }
}

/// `usize + &BoundedRational`.
impl<'a> core::ops::Add<&'a BoundedRational> for usize {
    type Output = BoundedRational;

    fn add(self, other: &'a BoundedRational) -> (r: BoundedRational)
        ensures
            op_sum_result(other@, (self as int, 1int), r@),
    {
        let a = BoundedRational::from_bigint(BigInt::from(self));
        BoundedRational::sum_of(other, &a)
    }
}

impl<'a> vstd::std_specs::ops::AddSpecImpl<&'a BoundedRational> for usize {
    open spec fn obeys_add_spec() -> bool {
        false
    }

    open spec fn add_req(self, rhs: &'a BoundedRational) -> bool {
        true
    }

    open spec fn add_spec(self, rhs: &'a BoundedRational) -> BoundedRational {
        arbitrary()
    }
}

/// `&usize + &BoundedRational`.
impl<'a, 'b> core::ops::Add<&'b BoundedRational> for &'a usize {
    type Output = BoundedRational;

    fn add(self, other: &'b BoundedRational) -> (r: BoundedRational)
        ensures
            op_sum_result(other@, (*self as int, 1int), r@),
    {
        let a = BoundedRational::from_bigint(BigInt::from(*self));
        BoundedRational::sum_of(other, &a)
    }
}

impl<'a, 'b> vstd::std_specs::ops::AddSpecImpl<&'b BoundedRational> for &'a usize {
    open spec fn obeys_add_spec() -> bool {
        false
    }

    open spec fn add_req(self, rhs: &'b BoundedRational) -> bool {
        true
    }

    open spec fn add_spec(self, rhs: &'b BoundedRational) -> BoundedRational {
        arbitrary()
    }
}

/// `BoundedRational += usize`.
impl core::ops::AddAssign<usize> for BoundedRational {
    fn add_assign(&mut self, other: usize)
        ensures
            op_sum_result(old(self)@, (other as int, 1int), final(self)@),
    {
        let b = BoundedRational::from_bigint(BigInt::from(other));
        let v = BoundedRational::sum_of(self, &b);
        *self = v;
    }
}

/// `BoundedRational += &usize`.
impl<'a> core::ops::AddAssign<&'a usize> for BoundedRational {
    fn add_assign(&mut self, other: &'a usize)
        ensures
            op_sum_result(old(self)@, (*other as int, 1int), final(self)@),
    {
        let b = BoundedRational::from_bigint(BigInt::from(*other));
        let v = BoundedRational::sum_of(self, &b);
        *self = v;
    }
}

// Addition with `i8`.

/// `BoundedRational + i8`.
impl core::ops::Add<i8> for BoundedRational {
    type Output = BoundedRational;

    fn add(self, other: i8) -> (r: BoundedRational)
        ensures
            op_sum_result(self@, (other as int, 1int), r@),
    {
        let b = BoundedRational::from_bigint(BigInt::from(other));
        BoundedRational::sum_of(&self, &b)
    }
}

impl vstd::std_specs::ops::AddSpecImpl<i8> for BoundedRational {
    open spec fn obeys_add_spec() -> bool {
        false
    }

    open spec fn add_req(self, rhs: i8) -> bool {
        true
    }

    open spec fn add_spec(self, rhs: i8) -> BoundedRational {
        arbitrary()
    }
}

/// `BoundedRational + &i8`.
impl<'a> core::ops::Add<&'a i8> for BoundedRational {
    type Output = BoundedRational;

    fn add(self, other: &'a i8) -> (r: BoundedRational)
        ensures
            op_sum_result(self@, (*other as int, 1int), r@),
    {
        let b = BoundedRational::from_bigint(BigInt::from(*other));
        BoundedRational::sum_of(&self, &b)
    }
}

impl<'a> vstd::std_specs::ops::AddSpecImpl<&'a i8> for BoundedRational {
    open spec fn obeys_add_spec() -> bool {
        false
    }

    open spec fn add_req(self, rhs: &'a i8) -> bool {
        true
    }

    open spec fn add_spec(self, rhs: &'a i8) -> BoundedRational {
        arbitrary()
    }
}

/// `&BoundedRational + i8`.
impl<'a> core::ops::Add<i8> for &'a BoundedRational {
    type Output = BoundedRational;

    fn add(self, other: i8) -> (r: BoundedRational)
        ensures
            op_sum_result(self@, (other as int, 1int), r@),
    {
        let b = BoundedRational::from_bigint(BigInt::from(other));
        BoundedRational::sum_of(self, &b)
    }
}

impl<'a> vstd::std_specs::ops::AddSpecImpl<i8> for &'a BoundedRational {
    open spec fn obeys_add_spec() -> bool {
        false
    }

    open spec fn add_req(self, rhs: i8) -> bool {
        true
    }

    open spec fn add_spec(self, rhs: i8) -> BoundedRational {
        arbitrary()
    }
}

/// `&BoundedRational + &i8`.
impl<'a, 'b> core::ops::Add<&'b i8> for &'a BoundedRational {
    type Output = BoundedRational;

    fn add(self, other: &'b i8) -> (r: BoundedRational)
        ensures
            op_sum_result(self@, (*other as int, 1int), r@),
    {
        let b = BoundedRational::from_bigint(BigInt::from(*other));
        BoundedRational::sum_of(self, &b)
    }
}

impl<'a, 'b> vstd::std_specs::ops::AddSpecImpl<&'b i8> for &'a BoundedRational {
    open spec fn obeys_add_spec() -> bool {
        false
    }

    open spec fn add_req(self, rhs: &'b i8) -> bool {
        true
    }

    open spec fn add_spec(self, rhs: &'b i8) -> BoundedRational {
        arbitrary()
    }
}

/// `i8 + BoundedRational`.
impl core::ops::Add<BoundedRational> for i8 {
    type Output = BoundedRational;

    fn add(self, other: BoundedRational) -> (r: BoundedRational)
        ensures
            op_sum_result(other@, (self as int, 1int), r@),
    {
        let a = BoundedRational::from_bigint(BigInt::from(self));
        BoundedRational::sum_of(&other, &a)
    }
}

impl vstd::std_specs::ops::AddSpecImpl<BoundedRational> for i8 {
    open spec fn obeys_add_spec() -> bool {
        false
    }

    open spec fn add_req(self, rhs: BoundedRational) -> bool {
        true
    }

    open spec fn add_spec(self, rhs: BoundedRational) -> BoundedRational {
        arbitrary()
    }
}

/// `&i8 + BoundedRational`.
impl<'a> core::ops::Add<BoundedRational> for &'a i8 {
    type Output = BoundedRational;

    fn add(self, other: BoundedRational) -> (r: BoundedRational)
        ensures
            op_sum_result(other@, (*self as int, 1int), r@),
    {
        let a = BoundedRational::from_bigint(BigInt::from(*self));
        BoundedRational::sum_of(&other, &a)
    }
}

impl<'a> vstd::std_specs::ops::AddSpecImpl<BoundedRational> for &'a i8 {
    open spec fn obeys_add_spec() -> bool {
        false
    }

    open spec fn add_req(self, rhs: BoundedRational) -> bool {
        true
    }

    open spec fn add_spec(self, rhs: BoundedRational) -> BoundedRational {
        arbitrary()
    }
}

/// `i8 + &BoundedRational`.
impl<'a> core::ops::Add<&'a BoundedRational> for i8 {
    type Output = BoundedRational;

    fn add(self, other: &'a BoundedRational) -> (r: BoundedRational)
        ensures
            op_sum_result(other@, (self as int, 1int), r@),
    {
        let a = BoundedRational::from_bigint(BigInt::from(self));
        BoundedRational::sum_of(other, &a)
    }
}

impl<'a> vstd::std_specs::ops::AddSpecImpl<&'a BoundedRational> for i8 {
    open spec fn obeys_add_spec() -> bool {
        false
    }

    open spec fn add_req(self, rhs: &'a BoundedRational) -> bool {
        true
    }

    open spec fn add_spec(self, rhs: &'a BoundedRational) -> BoundedRational {
        arbitrary()
    }
}

/// `&i8 + &BoundedRational`.
impl<'a, 'b> core::ops::Add<&'b BoundedRational> for &'a i8 {
    type Output = BoundedRational;

    fn add(self, other: &'b BoundedRational) -> (r: BoundedRational)
        ensures
            op_sum_result(other@, (*self as int, 1int), r@),
    {
        let a = BoundedRational::from_bigint(BigInt::from(*self));
        BoundedRational::sum_of(other, &a)
    }
}

impl<'a, 'b> vstd::std_specs::ops::AddSpecImpl<&'b BoundedRational> for &'a i8 {
    open spec fn obeys_add_spec() -> bool {
        false
    }

    open spec fn add_req(self, rhs: &'b BoundedRational) -> bool {
        true
    }

    open spec fn add_spec(self, rhs: &'b BoundedRational) -> BoundedRational {
        arbitrary()
    }
}

/// `BoundedRational += i8`.
impl core::ops::AddAssign<i8> for BoundedRational {
    fn add_assign(&mut self, other: i8)
        ensures
            op_sum_result(old(self)@, (other as int, 1int), final(self)@),
    {
        let b = BoundedRational::from_bigint(BigInt::from(other));
        let v = BoundedRational::sum_of(self, &b);
        *self = v;
    }
}

/// `BoundedRational += &i8`.
impl<'a> core::ops::AddAssign<&'a i8> for BoundedRational {
    fn add_assign(&mut self, other: &'a i8)
        ensures
            op_sum_result(old(self)@, (*other as int, 1int), final(self)@),
    {
        let b = BoundedRational::from_bigint(BigInt::from(*other));
        let v = BoundedRational::sum_of(self, &b);
        *self = v;
    }
}

// Addition with `i16`.

/// `BoundedRational + i16`.
impl core::ops::Add<i16> for BoundedRational {
    type Output = BoundedRational;

    fn add(self, other: i16) -> (r: BoundedRational)
        ensures
            op_sum_result(self@, (other as int, 1int), r@),
    {
        let b = BoundedRational::from_bigint(BigInt::from(other));
        BoundedRational::sum_of(&self, &b)
    }
}

impl vstd::std_specs::ops::AddSpecImpl<i16> for BoundedRational {
    open spec fn obeys_add_spec() -> bool {
        false
    }

    open spec fn add_req(self, rhs: i16) -> bool {
        true
    }

    open spec fn add_spec(self, rhs: i16) -> BoundedRational {
        arbitrary()
    }
}

/// `BoundedRational + &i16`.
impl<'a> core::ops::Add<&'a i16> for BoundedRational {
    type Output = BoundedRational;

    fn add(self, other: &'a i16) -> (r: BoundedRational)
        ensures
            op_sum_result(self@, (*other as int, 1int), r@),
    {
        let b = BoundedRational::from_bigint(BigInt::from(*other));
        BoundedRational::sum_of(&self, &b)
    }
}

impl<'a> vstd::std_specs::ops::AddSpecImpl<&'a i16> for BoundedRational {
    open spec fn obeys_add_spec() -> bool {
        false
    }

    open spec fn add_req(self, rhs: &'a i16) -> bool {
        true
    }

    open spec fn add_spec(self, rhs: &'a i16) -> BoundedRational {
        arbitrary()
    }
}

/// `&BoundedRational + i16`.
impl<'a> core::ops::Add<i16> for &'a BoundedRational {
    type Output = BoundedRational;

    fn add(self, other: i16) -> (r: BoundedRational)
        ensures
            op_sum_result(self@, (other as int, 1int), r@),
    {
        let b = BoundedRational::from_bigint(BigInt::from(other));
        BoundedRational::sum_of(self, &b)
    }
}

impl<'a> vstd::std_specs::ops::AddSpecImpl<i16> for &'a BoundedRational {
    open spec fn obeys_add_spec() -> bool {
        false
    }

    open spec fn add_req(self, rhs: i16) -> bool {
        true
    }

    open spec fn add_spec(self, rhs: i16) -> BoundedRational {
        arbitrary()
    }
}

/// `&BoundedRational + &i16`.
impl<'a, 'b> core::ops::Add<&'b i16> for &'a BoundedRational {
    type Output = BoundedRational;

    fn add(self, other: &'b i16) -> (r: BoundedRational)
        ensures
            op_sum_result(self@, (*other as int, 1int), r@),
    {
        let b = BoundedRational::from_bigint(BigInt::from(*other));
        BoundedRational::sum_of(self, &b)
    }
}

impl<'a, 'b> vstd::std_specs::ops::AddSpecImpl<&'b i16> for &'a BoundedRational {
    open spec fn obeys_add_spec() -> bool {
        false
    }

    open spec fn add_req(self, rhs: &'b i16) -> bool {
        true
    }

    open spec fn add_spec(self, rhs: &'b i16) -> BoundedRational {
        arbitrary()
    }
}

/// `i16 + BoundedRational`.
impl core::ops::Add<BoundedRational> for i16 {
    type Output = BoundedRational;

    fn add(self, other: BoundedRational) -> (r: BoundedRational)
        ensures
            op_sum_result(other@, (self as int, 1int), r@),
    {
        let a = BoundedRational::from_bigint(BigInt::from(self));
        BoundedRational::sum_of(&other, &a)
    }
}

impl vstd::std_specs::ops::AddSpecImpl<BoundedRational> for i16 {
    open spec fn obeys_add_spec() -> bool {
        false
    }

    open spec fn add_req(self, rhs: BoundedRational) -> bool {
        true
    }

    open spec fn add_spec(self, rhs: BoundedRational) -> BoundedRational {
        arbitrary()
    }
}

/// `&i16 + BoundedRational`.
impl<'a> core::ops::Add<BoundedRational> for &'a i16 {
    type Output = BoundedRational;

    fn add(self, other: BoundedRational) -> (r: BoundedRational)
        ensures
            op_sum_result(other@, (*self as int, 1int), r@),
    {
        let a = BoundedRational::from_bigint(BigInt::from(*self));
        BoundedRational::sum_of(&other, &a)
    }
}

impl<'a> vstd::std_specs::ops::AddSpecImpl<BoundedRational> for &'a i16 {
    open spec fn obeys_add_spec() -> bool {
        false
    }

    open spec fn add_req(self, rhs: BoundedRational) -> bool {
        true
    }

    open spec fn add_spec(self, rhs: BoundedRational) -> BoundedRational {
        arbitrary()
    }
}

/// `i16 + &BoundedRational`.
impl<'a> core::ops::Add<&'a BoundedRational> for i16 {
    type Output = BoundedRational;

    fn add(self, other: &'a BoundedRational) -> (r: BoundedRational)
        ensures
            op_sum_result(other@, (self as int, 1int), r@),
    {
        let a = BoundedRational::from_bigint(BigInt::from(self));
        BoundedRational::sum_of(other, &a)
    }
}

impl<'a> vstd::std_specs::ops::AddSpecImpl<&'a BoundedRational> for i16 {
    open spec fn obeys_add_spec() -> bool {
        false
    }

    open spec fn add_req(self, rhs: &'a BoundedRational) -> bool {
        true
    }

    open spec fn add_spec(self, rhs: &'a BoundedRational) -> BoundedRational {
        arbitrary()
    }
}

/// `&i16 + &BoundedRational`.
impl<'a, 'b> core::ops::Add<&'b BoundedRational> for &'a i16 {
    type Output = BoundedRational;

    fn add(self, other: &'b BoundedRational) -> (r: BoundedRational)
        ensures
            op_sum_result(other@, (*self as int, 1int), r@),
    {
        let a = BoundedRational::from_bigint(BigInt::from(*self));
        BoundedRational::sum_of(other, &a)
    }
}

impl<'a, 'b> vstd::std_specs::ops::AddSpecImpl<&'b BoundedRational> for &'a i16 {
    open spec fn obeys_add_spec() -> bool {
        false
    }

    open spec fn add_req(self, rhs: &'b BoundedRational) -> bool {
        true
    }

    open spec fn add_spec(self, rhs: &'b BoundedRational) -> BoundedRational {
        arbitrary()
    }
}

/// `BoundedRational += i16`.
impl core::ops::AddAssign<i16> for BoundedRational {
    fn add_assign(&mut self, other: i16)
        ensures
            op_sum_result(old(self)@, (other as int, 1int), final(self)@),
    {
        let b = BoundedRational::from_bigint(BigInt::from(other));
        let v = BoundedRational::sum_of(self, &b);
        *self = v;
    }
}

/// `BoundedRational += &i16`.
impl<'a> core::ops::AddAssign<&'a i16> for BoundedRational {
    fn add_assign(&mut self, other: &'a i16)
        ensures
            op_sum_result(old(self)@, (*other as int, 1int), final(self)@),
    {
        let b = BoundedRational::from_bigint(BigInt::from(*other));
        let v = BoundedRational::sum_of(self, &b);
        *self = v;
    }
}

// Addition with `i32`.

/// `BoundedRational + i32`.
impl core::ops::Add<i32> for BoundedRational {
    type Output = BoundedRational;

    fn add(self, other: i32) -> (r: BoundedRational)
        ensures
            op_sum_result(self@, (other as int, 1int), r@),
    {
        let b = BoundedRational::from_bigint(BigInt::from(other));
        BoundedRational::sum_of(&self, &b)
    }
}

impl vstd::std_specs::ops::AddSpecImpl<i32> for BoundedRational {
    open spec fn obeys_add_spec() -> bool {
        false
    }

    open spec fn add_req(self, rhs: i32) -> bool {
        true
    }

    open spec fn add_spec(self, rhs: i32) -> BoundedRational {
        arbitrary()
    }
}

/// `BoundedRational + &i32`.
impl<'a> core::ops::Add<&'a i32> for BoundedRational {
    type Output = BoundedRational;

    fn add(self, other: &'a i32) -> (r: BoundedRational)
        ensures
            op_sum_result(self@, (*other as int, 1int), r@),
    {
        let b = BoundedRational::from_bigint(BigInt::from(*other));
        BoundedRational::sum_of(&self, &b)
    }
}

impl<'a> vstd::std_specs::ops::AddSpecImpl<&'a i32> for BoundedRational {
    open spec fn obeys_add_spec() -> bool {
        false
    }

    open spec fn add_req(self, rhs: &'a i32) -> bool {
        true
    }

    open spec fn add_spec(self, rhs: &'a i32) -> BoundedRational {
        arbitrary()
    }
}

/// `&BoundedRational + i32`.
impl<'a> core::ops::Add<i32> for &'a BoundedRational {
    type Output = BoundedRational;

    fn add(self, other: i32) -> (r: BoundedRational)
        ensures
            op_sum_result(self@, (other as int, 1int), r@),
    {
        let b = BoundedRational::from_bigint(BigInt::from(other));
        BoundedRational::sum_of(self, &b)
    }
}

impl<'a> vstd::std_specs::ops::AddSpecImpl<i32> for &'a BoundedRational {
    open spec fn obeys_add_spec() -> bool {
        false
    }

    open spec fn add_req(self, rhs: i32) -> bool {
        true
    }

    open spec fn add_spec(self, rhs: i32) -> BoundedRational {
        arbitrary()
    }
}

/// `&BoundedRational + &i32`.
impl<'a, 'b> core::ops::Add<&'b i32> for &'a BoundedRational {
    type Output = BoundedRational;

    fn add(self, other: &'b i32) -> (r: BoundedRational)
        ensures
            op_sum_result(self@, (*other as int, 1int), r@),
    {
        let b = BoundedRational::from_bigint(BigInt::from(*other));
        BoundedRational::sum_of(self, &b)
    }
}

impl<'a, 'b> vstd::std_specs::ops::AddSpecImpl<&'b i32> for &'a BoundedRational {
    open spec fn obeys_add_spec() -> bool {
        false
    }

    open spec fn add_req(self, rhs: &'b i32) -> bool {
        true
    }

    open spec fn add_spec(self, rhs: &'b i32) -> BoundedRational {
        arbitrary()
    }
}

/// `i32 + BoundedRational`.
impl core::ops::Add<BoundedRational> for i32 {
    type Output = BoundedRational;

    fn add(self, other: BoundedRational) -> (r: BoundedRational)
        ensures
            op_sum_result(other@, (self as int, 1int), r@),
    {
        let a = BoundedRational::from_bigint(BigInt::from(self));
        BoundedRational::sum_of(&other, &a)
    }
}

impl vstd::std_specs::ops::AddSpecImpl<BoundedRational> for i32 {
    open spec fn obeys_add_spec() -> bool {
        false
    }

    open spec fn add_req(self, rhs: BoundedRational) -> bool {
        true
    }

    open spec fn add_spec(self, rhs: BoundedRational) -> BoundedRational {
        arbitrary()
    }
}

/// `&i32 + BoundedRational`.
impl<'a> core::ops::Add<BoundedRational> for &'a i32 {
    type Output = BoundedRational;

    fn add(self, other: BoundedRational) -> (r: BoundedRational)
        ensures
            op_sum_result(other@, (*self as int, 1int), r@),
    {
        let a = BoundedRational::from_bigint(BigInt::from(*self));
        BoundedRational::sum_of(&other, &a)
    }
}

impl<'a> vstd::std_specs::ops::AddSpecImpl<BoundedRational> for &'a i32 {
    open spec fn obeys_add_spec() -> bool {
        false
    }

    open spec fn add_req(self, rhs: BoundedRational) -> bool {
        true
    }

    open spec fn add_spec(self, rhs: BoundedRational) -> BoundedRational {
        arbitrary()
    }
}

/// `i32 + &BoundedRational`.
impl<'a> core::ops::Add<&'a BoundedRational> for i32 {
    type Output = BoundedRational;

    fn add(self, other: &'a BoundedRational) -> (r: BoundedRational)
        ensures
            op_sum_result(other@, (self as int, 1int), r@),
    {
        let a = BoundedRational::from_bigint(BigInt::from(self));
        BoundedRational::sum_of(other, &a)
    }
}

impl<'a> vstd::std_specs::ops::AddSpecImpl<&'a BoundedRational> for i32 {
    open spec fn obeys_add_spec() -> bool {
        false
    }

    open spec fn add_req(self, rhs: &'a BoundedRational) -> bool {
        true
    }

    open spec fn add_spec(self, rhs: &'a BoundedRational) -> BoundedRational {
        arbitrary()
    }
}

/// `&i32 + &BoundedRational`.
impl<'a, 'b> core::ops::Add<&'b BoundedRational> for &'a i32 {
    type Output = BoundedRational;

    fn add(self, other: &'b BoundedRational) -> (r: BoundedRational)
        ensures
            op_sum_result(other@, (*self as int, 1int), r@),
    {
        let a = BoundedRational::from_bigint(BigInt::from(*self));
        BoundedRational::sum_of(other, &a)
    }
}

impl<'a, 'b> vstd::std_specs::ops::AddSpecImpl<&'b BoundedRational> for &'a i32 {
    open spec fn obeys_add_spec() -> bool {
        false
    }

    open spec fn add_req(self, rhs: &'b BoundedRational) -> bool {
        true
    }

    open spec fn add_spec(self, rhs: &'b BoundedRational) -> BoundedRational {
        arbitrary()
    }
}

/// `BoundedRational += i32`.
impl core::ops::AddAssign<i32> for BoundedRational {
    fn add_assign(&mut self, other: i32)
        ensures
            op_sum_result(old(self)@, (other as int, 1int), final(self)@),
    {
        let b = BoundedRational::from_bigint(BigInt::from(other));
        let v = BoundedRational::sum_of(self, &b);
        *self = v;
    }
}

/// `BoundedRational += &i32`.
impl<'a> core::ops::AddAssign<&'a i32> for BoundedRational {
    fn add_assign(&mut self, other: &'a i32)
        ensures
            op_sum_result(old(self)@, (*other as int, 1int), final(self)@),
    {
        let b = BoundedRational::from_bigint(BigInt::from(*other));
        let v = BoundedRational::sum_of(self, &b);
        *self = v;
    }
}

// Addition with `i64`.

/// `BoundedRational + i64`.
impl core::ops::Add<i64> for BoundedRational {
    type Output = BoundedRational;

    fn add(self, other: i64) -> (r: BoundedRational)
        ensures
            op_sum_result(self@, (other as int, 1int), r@),
    {
        let b = BoundedRational::from_bigint(BigInt::from(other));
        BoundedRational::sum_of(&self, &b)
    }
}

impl vstd::std_specs::ops::AddSpecImpl<i64> for BoundedRational {
    open spec fn obeys_add_spec() -> bool {
        false
    }

    open spec fn add_req(self, rhs: i64) -> bool {
        true
    }

    open spec fn add_spec(self, rhs: i64) -> BoundedRational {
        arbitrary()
    }
}

/// `BoundedRational + &i64`.
impl<'a> core::ops::Add<&'a i64> for BoundedRational {
    type Output = BoundedRational;

    fn add(self, other: &'a i64) -> (r: BoundedRational)
        ensures
            op_sum_result(self@, (*other as int, 1int), r@),
    {
        let b = BoundedRational::from_bigint(BigInt::from(*other));
        BoundedRational::sum_of(&self, &b)
    }
}

impl<'a> vstd::std_specs::ops::AddSpecImpl<&'a i64> for BoundedRational {
    open spec fn obeys_add_spec() -> bool {
        false
    }

    open spec fn add_req(self, rhs: &'a i64) -> bool {
        true
    }

    open spec fn add_spec(self, rhs: &'a i64) -> BoundedRational {
        arbitrary()
    }
}

/// `&BoundedRational + i64`.
impl<'a> core::ops::Add<i64> for &'a BoundedRational {
    type Output = BoundedRational;

    fn add(self, other: i64) -> (r: BoundedRational)
        ensures
            op_sum_result(self@, (other as int, 1int), r@),
    {
        let b = BoundedRational::from_bigint(BigInt::from(other));
        BoundedRational::sum_of(self, &b)
    }
}

impl<'a> vstd::std_specs::ops::AddSpecImpl<i64> for &'a BoundedRational {
    open spec fn obeys_add_spec() -> bool {
        false
    }

    open spec fn add_req(self, rhs: i64) -> bool {
        true
    }

    open spec fn add_spec(self, rhs: i64) -> BoundedRational {
        arbitrary()
    }
}

/// `&BoundedRational + &i64`.
impl<'a, 'b> core::ops::Add<&'b i64> for &'a BoundedRational {
    type Output = BoundedRational;

    fn add(self, other: &'b i64) -> (r: BoundedRational)
        ensures
            op_sum_result(self@, (*other as int, 1int), r@),
    {
        let b = BoundedRational::from_bigint(BigInt::from(*other));
        BoundedRational::sum_of(self, &b)
    }
}

impl<'a, 'b> vstd::std_specs::ops::AddSpecImpl<&'b i64> for &'a BoundedRational {
    open spec fn obeys_add_spec() -> bool {
        false
    }

    open spec fn add_req(self, rhs: &'b i64) -> bool {
        true
    }

    open spec fn add_spec(self, rhs: &'b i64) -> BoundedRational {
        arbitrary()
    }
}

/// `i64 + BoundedRational`.
impl core::ops::Add<BoundedRational> for i64 {
    type Output = BoundedRational;

    fn add(self, other: BoundedRational) -> (r: BoundedRational)
        ensures
            op_sum_result(other@, (self as int, 1int), r@),
    {
        let a = BoundedRational::from_bigint(BigInt::from(self));
        BoundedRational::sum_of(&other, &a)
    }
}

impl vstd::std_specs::ops::AddSpecImpl<BoundedRational> for i64 {
    open spec fn obeys_add_spec() -> bool {
        false
    }

    open spec fn add_req(self, rhs: BoundedRational) -> bool {
        true
    }

    open spec fn add_spec(self, rhs: BoundedRational) -> BoundedRational {
        arbitrary()
    }
}

/// `&i64 + BoundedRational`.
impl<'a> core::ops::Add<BoundedRational> for &'a i64 {
    type Output = BoundedRational;

    fn add(self, other: BoundedRational) -> (r: BoundedRational)
        ensures
            op_sum_result(other@, (*self as int, 1int), r@),
    {
        let a = BoundedRational::from_bigint(BigInt::from(*self));
        BoundedRational::sum_of(&other, &a)
    }
}

impl<'a> vstd::std_specs::ops::AddSpecImpl<BoundedRational> for &'a i64 {
    open spec fn obeys_add_spec() -> bool {
        false
    }

    open spec fn add_req(self, rhs: BoundedRational) -> bool {
        true
    }

    open spec fn add_spec(self, rhs: BoundedRational) -> BoundedRational {
        arbitrary()
    }
}

/// `i64 + &BoundedRational`.
impl<'a> core::ops::Add<&'a BoundedRational> for i64 {
    type Output = BoundedRational;

    fn add(self, other: &'a BoundedRational) -> (r: BoundedRational)
        ensures
            op_sum_result(other@, (self as int, 1int), r@),
    {
        let a = BoundedRational::from_bigint(BigInt::from(self));
        BoundedRational::sum_of(other, &a)
    }
}

impl<'a> vstd::std_specs::ops::AddSpecImpl<&'a BoundedRational> for i64 {
    open spec fn obeys_add_spec() -> bool {
        false
    }

    open spec fn add_req(self, rhs: &'a BoundedRational) -> bool {
        true
    }

    open spec fn add_spec(self, rhs: &'a BoundedRational) -> BoundedRational {
        arbitrary()
    }
}

/// `&i64 + &BoundedRational`.
impl<'a, 'b> core::ops::Add<&'b BoundedRational> for &'a i64 {
    type Output = BoundedRational;

    fn add(self, other: &'b BoundedRational) -> (r: BoundedRational)
        ensures
            op_sum_result(other@, (*self as int, 1int), r@),
    {
        let a = BoundedRational::from_bigint(BigInt::from(*self));
        BoundedRational::sum_of(other, &a)
    }
}

impl<'a, 'b> vstd::std_specs::ops::AddSpecImpl<&'b BoundedRational> for &'a i64 {
    open spec fn obeys_add_spec() -> bool {
        false
    }

    open spec fn add_req(self, rhs: &'b BoundedRational) -> bool {
        true
    }

    open spec fn add_spec(self, rhs: &'b BoundedRational) -> BoundedRational {
        arbitrary()
    }
}

/// `BoundedRational += i64`.
impl core::ops::AddAssign<i64> for BoundedRational {
    fn add_assign(&mut self, other: i64)
        ensures
            op_sum_result(old(self)@, (other as int, 1int), final(self)@),
    {
        let b = BoundedRational::from_bigint(BigInt::from(other));
        let v = BoundedRational::sum_of(self, &b);
        *self = v;
    }
}

/// `BoundedRational += &i64`.
impl<'a> core::ops::AddAssign<&'a i64> for BoundedRational {
    fn add_assign(&mut self, other: &'a i64)
        ensures
            op_sum_result(old(self)@, (*other as int, 1int), final(self)@),
    {
        let b = BoundedRational::from_bigint(BigInt::from(*other));
        let v = BoundedRational::sum_of(self, &b);
        *self = v;
    }
}

// Addition with `i128`.

/// `BoundedRational + i128`.
impl core::ops::Add<i128> for BoundedRational {
    type Output = BoundedRational;

    fn add(self, other: i128) -> (r: BoundedRational)
        ensures
            op_sum_result(self@, (other as int, 1int), r@),
    {
        let b = BoundedRational::from_bigint(BigInt::from(other));
        BoundedRational::sum_of(&self, &b)
    }
}

impl vstd::std_specs::ops::AddSpecImpl<i128> for BoundedRational {
    open spec fn obeys_add_spec() -> bool {
        false
    }

    open spec fn add_req(self, rhs: i128) -> bool {
        true
    }

    open spec fn add_spec(self, rhs: i128) -> BoundedRational {
        arbitrary()
    }
}

/// `BoundedRational + &i128`.
impl<'a> core::ops::Add<&'a i128> for BoundedRational {
    type Output = BoundedRational;

    fn add(self, other: &'a i128) -> (r: BoundedRational)
        ensures
            op_sum_result(self@, (*other as int, 1int), r@),
    {
        let b = BoundedRational::from_bigint(BigInt::from(*other));
        BoundedRational::sum_of(&self, &b)
    }
}

impl<'a> vstd::std_specs::ops::AddSpecImpl<&'a i128> for BoundedRational {
    open spec fn obeys_add_spec() -> bool {
        false
    }

    open spec fn add_req(self, rhs: &'a i128) -> bool {
        true
    }

    open spec fn add_spec(self, rhs: &'a i128) -> BoundedRational {
        arbitrary()
    }
}

/// `&BoundedRational + i128`.
impl<'a> core::ops::Add<i128> for &'a BoundedRational {
    type Output = BoundedRational;

    fn add(self, other: i128) -> (r: BoundedRational)
        ensures
            op_sum_result(self@, (other as int, 1int), r@),
    {
        let b = BoundedRational::from_bigint(BigInt::from(other));
        BoundedRational::sum_of(self, &b)
    }
}

impl<'a> vstd::std_specs::ops::AddSpecImpl<i128> for &'a BoundedRational {
    open spec fn obeys_add_spec() -> bool {
        false
    }

    open spec fn add_req(self, rhs: i128) -> bool {
        true
    }

    open spec fn add_spec(self, rhs: i128) -> BoundedRational {
        arbitrary()
    }
}

/// `&BoundedRational + &i128`.
impl<'a, 'b> core::ops::Add<&'b i128> for &'a BoundedRational {
    type Output = BoundedRational;

    fn add(self, other: &'b i128) -> (r: BoundedRational)
        ensures
            op_sum_result(self@, (*other as int, 1int), r@),
    {
        let b = BoundedRational::from_bigint(BigInt::from(*other));
        BoundedRational::sum_of(self, &b)
    }
}

impl<'a, 'b> vstd::std_specs::ops::AddSpecImpl<&'b i128> for &'a BoundedRational {
    open spec fn obeys_add_spec() -> bool {
        false
    }

    open spec fn add_req(self, rhs: &'b i128) -> bool {
        true
    }

    open spec fn add_spec(self, rhs: &'b i128) -> BoundedRational {
        arbitrary()
    }
}

/// `i128 + BoundedRational`.
impl core::ops::Add<BoundedRational> for i128 {
    type Output = BoundedRational;

    fn add(self, other: BoundedRational) -> (r: BoundedRational)
        ensures
            op_sum_result(other@, (self as int, 1int), r@),
    {
        let a = BoundedRational::from_bigint(BigInt::from(self));
        BoundedRational::sum_of(&other, &a)
    }
}

impl vstd::std_specs::ops::AddSpecImpl<BoundedRational> for i128 {
    open spec fn obeys_add_spec() -> bool {
        false
    }

    open spec fn add_req(self, rhs: BoundedRational) -> bool {
        true
    }

    open spec fn add_spec(self, rhs: BoundedRational) -> BoundedRational {
        arbitrary()
    }
}

/// `&i128 + BoundedRational`.
impl<'a> core::ops::Add<BoundedRational> for &'a i128 {
    type Output = BoundedRational;

    fn add(self, other: BoundedRational) -> (r: BoundedRational)
        ensures
            op_sum_result(other@, (*self as int, 1int), r@),
    {
        let a = BoundedRational::from_bigint(BigInt::from(*self));
        BoundedRational::sum_of(&other, &a)
    }
}

impl<'a> vstd::std_specs::ops::AddSpecImpl<BoundedRational> for &'a i128 {
    open spec fn obeys_add_spec() -> bool {
        false
    }

    open spec fn add_req(self, rhs: BoundedRational) -> bool {
        true
    }

    open spec fn add_spec(self, rhs: BoundedRational) -> BoundedRational {
        arbitrary()
    }
}

/// `i128 + &BoundedRational`.
impl<'a> core::ops::Add<&'a BoundedRational> for i128 {
    type Output = BoundedRational;

    fn add(self, other: &'a BoundedRational) -> (r: BoundedRational)
        ensures
            op_sum_result(other@, (self as int, 1int), r@),
    {
        let a = BoundedRational::from_bigint(BigInt::from(self));
        BoundedRational::sum_of(other, &a)
    }
}

impl<'a> vstd::std_specs::ops::AddSpecImpl<&'a BoundedRational> for i128 {
    open spec fn obeys_add_spec() -> bool {
        false
    }

    open spec fn add_req(self, rhs: &'a BoundedRational) -> bool {
        true
    }

    open spec fn add_spec(self, rhs: &'a BoundedRational) -> BoundedRational {
        arbitrary()
    }
}

/// `&i128 + &BoundedRational`.
impl<'a, 'b> core::ops::Add<&'b BoundedRational> for &'a i128 {
    type Output = BoundedRational;

    fn add(self, other: &'b BoundedRational) -> (r: BoundedRational)
        ensures
            op_sum_result(other@, (*self as int, 1int), r@),
    {
        let a = BoundedRational::from_bigint(BigInt::from(*self));
        BoundedRational::sum_of(other, &a)
    }
}

impl<'a, 'b> vstd::std_specs::ops::AddSpecImpl<&'b BoundedRational> for &'a i128 {
    open spec fn obeys_add_spec() -> bool {
        false
    }

    open spec fn add_req(self, rhs: &'b BoundedRational) -> bool {
        true
    }

    open spec fn add_spec(self, rhs: &'b BoundedRational) -> BoundedRational {
        arbitrary()
    }
}

/// `BoundedRational += i128`.
impl core::ops::AddAssign<i128> for BoundedRational {
    fn add_assign(&mut self, other: i128)
        ensures
            op_sum_result(old(self)@, (other as int, 1int), final(self)@),
    {
        let b = BoundedRational::from_bigint(BigInt::from(other));
        let v = BoundedRational::sum_of(self, &b);
        *self = v;
    }
}

/// `BoundedRational += &i128`.
impl<'a> core::ops::AddAssign<&'a i128> for BoundedRational {
    fn add_assign(&mut self, other: &'a i128)
        ensures
            op_sum_result(old(self)@, (*other as int, 1int), final(self)@),
    {
        let b = BoundedRational::from_bigint(BigInt::from(*other));
        let v = BoundedRational::sum_of(self, &b);
        *self = v;
    }
}

// Addition with `isize`.

/// `BoundedRational + isize`.
impl core::ops::Add<isize> for BoundedRational {
    type Output = BoundedRational;

    fn add(self, other: isize) -> (r: BoundedRational)
        ensures
            op_sum_result(self@, (other as int, 1int), r@),
    {
        let b = BoundedRational::from_bigint(BigInt::from(other));
        BoundedRational::sum_of(&self, &b)
    }
}

impl vstd::std_specs::ops::AddSpecImpl<isize> for BoundedRational {
    open spec fn obeys_add_spec() -> bool {
        false
    }

    open spec fn add_req(self, rhs: isize) -> bool {
        true
    }

    open spec fn add_spec(self, rhs: isize) -> BoundedRational {
        arbitrary()
    }
}

/// `BoundedRational + &isize`.
impl<'a> core::ops::Add<&'a isize> for BoundedRational {
    type Output = BoundedRational;

    fn add(self, other: &'a isize) -> (r: BoundedRational)
        ensures
            op_sum_result(self@, (*other as int, 1int), r@),
    {
        let b = BoundedRational::from_bigint(BigInt::from(*other));
        BoundedRational::sum_of(&self, &b)
    }
}

impl<'a> vstd::std_specs::ops::AddSpecImpl<&'a isize> for BoundedRational {
    open spec fn obeys_add_spec() -> bool {
        false
    }

    open spec fn add_req(self, rhs: &'a isize) -> bool {
        true
    }

    open spec fn add_spec(self, rhs: &'a isize) -> BoundedRational {
        arbitrary()
    }
}

/// `&BoundedRational + isize`.
impl<'a> core::ops::Add<isize> for &'a BoundedRational {
    type Output = BoundedRational;

    fn add(self, other: isize) -> (r: BoundedRational)
        ensures
            op_sum_result(self@, (other as int, 1int), r@),
    {
        let b = BoundedRational::from_bigint(BigInt::from(other));
        BoundedRational::sum_of(self, &b)
    }
}

impl<'a> vstd::std_specs::ops::AddSpecImpl<isize> for &'a BoundedRational {
    open spec fn obeys_add_spec() -> bool {
        false
    }

    open spec fn add_req(self, rhs: isize) -> bool {
        true
    }

    open spec fn add_spec(self, rhs: isize) -> BoundedRational {
        arbitrary()
    }
}

/// `&BoundedRational + &isize`.
impl<'a, 'b> core::ops::Add<&'b isize> for &'a BoundedRational {
    type Output = BoundedRational;

    fn add(self, other: &'b isize) -> (r: BoundedRational)
        ensures
            op_sum_result(self@, (*other as int, 1int), r@),
    {
        let b = BoundedRational::from_bigint(BigInt::from(*other));
        BoundedRational::sum_of(self, &b)
    }
}

impl<'a, 'b> vstd::std_specs::ops::AddSpecImpl<&'b isize> for &'a BoundedRational {
    open spec fn obeys_add_spec() -> bool {
        false
    }

    open spec fn add_req(self, rhs: &'b isize) -> bool {
        true
    }

    open spec fn add_spec(self, rhs: &'b isize) -> BoundedRational {
        arbitrary()
    }
}

/// `isize + BoundedRational`.
impl core::ops::Add<BoundedRational> for isize {
    type Output = BoundedRational;

    fn add(self, other: BoundedRational) -> (r: BoundedRational)
        ensures
            op_sum_result(other@, (self as int, 1int), r@),
    {
        let a = BoundedRational::from_bigint(BigInt::from(self));
        BoundedRational::sum_of(&other, &a)
    }
}

impl vstd::std_specs::ops::AddSpecImpl<BoundedRational> for isize {
    open spec fn obeys_add_spec() -> bool {
        false
    }

    open spec fn add_req(self, rhs: BoundedRational) -> bool {
        true
    }

    open spec fn add_spec(self, rhs: BoundedRational) -> BoundedRational {
        arbitrary()
    }
}

/// `&isize + BoundedRational`.
impl<'a> core::ops::Add<BoundedRational> for &'a isize {
    type Output = BoundedRational;

    fn add(self, other: BoundedRational) -> (r: BoundedRational)
        ensures
            op_sum_result(other@, (*self as int, 1int), r@),
    {
        let a = BoundedRational::from_bigint(BigInt::from(*self));
        BoundedRational::sum_of(&other, &a)
    }
}

impl<'a> vstd::std_specs::ops::AddSpecImpl<BoundedRational> for &'a isize {
    open spec fn obeys_add_spec() -> bool {
        false
    }

    open spec fn add_req(self, rhs: BoundedRational) -> bool {
        true
    }

    open spec fn add_spec(self, rhs: BoundedRational) -> BoundedRational {
        arbitrary()
    }
}

/// `isize + &BoundedRational`.
impl<'a> core::ops::Add<&'a BoundedRational> for isize {
    type Output = BoundedRational;

    fn add(self, other: &'a BoundedRational) -> (r: BoundedRational)
        ensures
            op_sum_result(other@, (self as int, 1int), r@),
    {
        let a = BoundedRational::from_bigint(BigInt::from(self));
        BoundedRational::sum_of(other, &a)
    }
}

impl<'a> vstd::std_specs::ops::AddSpecImpl<&'a BoundedRational> for isize {
    open spec fn obeys_add_spec() -> bool {
        false
    }

    open spec fn add_req(self, rhs: &'a BoundedRational) -> bool {
        true
    }

    open spec fn add_spec(self, rhs: &'a BoundedRational) -> BoundedRational {
        arbitrary()
    }
}

/// `&isize + &BoundedRational`.
impl<'a, 'b> core::ops::Add<&'b BoundedRational> for &'a isize {
    type Output = BoundedRational;

    fn add(self, other: &'b BoundedRational) -> (r: BoundedRational)
        ensures
            op_sum_result(other@, (*self as int, 1int), r@),
    {
        let a = BoundedRational::from_bigint(BigInt::from(*self));
        BoundedRational::sum_of(other, &a)
    }
}

impl<'a, 'b> vstd::std_specs::ops::AddSpecImpl<&'b BoundedRational> for &'a isize {
    open spec fn obeys_add_spec() -> bool {
        false
    }

    open spec fn add_req(self, rhs: &'b BoundedRational) -> bool {
        true
    }

    open spec fn add_spec(self, rhs: &'b BoundedRational) -> BoundedRational {
        arbitrary()
    }
}

/// `BoundedRational += isize`.
impl core::ops::AddAssign<isize> for BoundedRational {
    fn add_assign(&mut self, other: isize)
        ensures
            op_sum_result(old(self)@, (other as int, 1int), final(self)@),
    {
        let b = BoundedRational::from_bigint(BigInt::from(other));
        let v = BoundedRational::sum_of(self, &b);
        *self = v;
    }
}

/// `BoundedRational += &isize`.
impl<'a> core::ops::AddAssign<&'a isize> for BoundedRational {
    fn add_assign(&mut self, other: &'a isize)
        ensures
            op_sum_result(old(self)@, (*other as int, 1int), final(self)@),
    {
        let b = BoundedRational::from_bigint(BigInt::from(*other));
        let v = BoundedRational::sum_of(self, &b);
        *self = v;
    }
}

// Addition with `BigInt`.

/// `BoundedRational + BigInt`.
impl core::ops::Add<BigInt> for BoundedRational {
    type Output = BoundedRational;

    fn add(self, other: BigInt) -> (r: BoundedRational)
        ensures
            op_sum_result(self@, (other@, 1int), r@),
    {
        let b = BoundedRational::from_bigint(other);
        BoundedRational::sum_of(&self, &b)
    }
}

impl vstd::std_specs::ops::AddSpecImpl<BigInt> for BoundedRational {
    open spec fn obeys_add_spec() -> bool {
        false
    }

    open spec fn add_req(self, rhs: BigInt) -> bool {
        true
    }

    open spec fn add_spec(self, rhs: BigInt) -> BoundedRational {
        arbitrary()
    }
}

/// `BoundedRational + &BigInt`.
impl<'a> core::ops::Add<&'a BigInt> for BoundedRational {
    type Output = BoundedRational;

    fn add(self, other: &'a BigInt) -> (r: BoundedRational)
        ensures
            op_sum_result(self@, (other@, 1int), r@),
    {
        let b = BoundedRational::from_bigint(other.clone());
        BoundedRational::sum_of(&self, &b)
    }
}

impl<'a> vstd::std_specs::ops::AddSpecImpl<&'a BigInt> for BoundedRational {
    open spec fn obeys_add_spec() -> bool {
        false
    }

    open spec fn add_req(self, rhs: &'a BigInt) -> bool {
        true
    }

    open spec fn add_spec(self, rhs: &'a BigInt) -> BoundedRational {
        arbitrary()
    }
}

/// `&BoundedRational + BigInt`.
impl<'a> core::ops::Add<BigInt> for &'a BoundedRational {
    type Output = BoundedRational;

    fn add(self, other: BigInt) -> (r: BoundedRational)
        ensures
            op_sum_result(self@, (other@, 1int), r@),
    {
        let b = BoundedRational::from_bigint(other);
        BoundedRational::sum_of(self, &b)
    }
}

impl<'a> vstd::std_specs::ops::AddSpecImpl<BigInt> for &'a BoundedRational {
    open spec fn obeys_add_spec() -> bool {
        false
    }

    open spec fn add_req(self, rhs: BigInt) -> bool {
        true
    }

    open spec fn add_spec(self, rhs: BigInt) -> BoundedRational {
        arbitrary()
    }
}

/// `&BoundedRational + &BigInt`.
impl<'a, 'b> core::ops::Add<&'b BigInt> for &'a BoundedRational {
    type Output = BoundedRational;

    fn add(self, other: &'b BigInt) -> (r: BoundedRational)
        ensures
            op_sum_result(self@, (other@, 1int), r@),
    {
        let b = BoundedRational::from_bigint(other.clone());
        BoundedRational::sum_of(self, &b)
    }
}

impl<'a, 'b> vstd::std_specs::ops::AddSpecImpl<&'b BigInt> for &'a BoundedRational {
    open spec fn obeys_add_spec() -> bool {
        false
    }

    open spec fn add_req(self, rhs: &'b BigInt) -> bool {
        true
    }

    open spec fn add_spec(self, rhs: &'b BigInt) -> BoundedRational {
        arbitrary()
    }
}

/// `BigInt + BoundedRational`.
impl core::ops::Add<BoundedRational> for BigInt {
    type Output = BoundedRational;

    fn add(self, other: BoundedRational) -> (r: BoundedRational)
        ensures
            op_sum_result(other@, (self@, 1int), r@),
    {
        let a = BoundedRational::from_bigint(self);
        BoundedRational::sum_of(&other, &a)
    }
}

impl vstd::std_specs::ops::AddSpecImpl<BoundedRational> for BigInt {
    open spec fn obeys_add_spec() -> bool {
        false
    }

    open spec fn add_req(self, rhs: BoundedRational) -> bool {
        true
    }

    open spec fn add_spec(self, rhs: BoundedRational) -> BoundedRational {
        arbitrary()
    }
}

/// `&BigInt + BoundedRational`.
impl<'a> core::ops::Add<BoundedRational> for &'a BigInt {
    type Output = BoundedRational;

    fn add(self, other: BoundedRational) -> (r: BoundedRational)
        ensures
            op_sum_result(other@, (self@, 1int), r@),
    {
        let a = BoundedRational::from_bigint(self.clone());
        BoundedRational::sum_of(&other, &a)
    }
}

impl<'a> vstd::std_specs::ops::AddSpecImpl<BoundedRational> for &'a BigInt {
    open spec fn obeys_add_spec() -> bool {
        false
    }

    open spec fn add_req(self, rhs: BoundedRational) -> bool {
        true
    }

    open spec fn add_spec(self, rhs: BoundedRational) -> BoundedRational {
        arbitrary()
    }
}

/// `BigInt + &BoundedRational`.
impl<'a> core::ops::Add<&'a BoundedRational> for BigInt {
    type Output = BoundedRational;

    fn add(self, other: &'a BoundedRational) -> (r: BoundedRational)
        ensures
            op_sum_result(other@, (self@, 1int), r@),
    {
        let a = BoundedRational::from_bigint(self);
        BoundedRational::sum_of(other, &a)
    }
}

impl<'a> vstd::std_specs::ops::AddSpecImpl<&'a BoundedRational> for BigInt {
    open spec fn obeys_add_spec() -> bool {
        false
    }

    open spec fn add_req(self, rhs: &'a BoundedRational) -> bool {
        true
    }

    open spec fn add_spec(self, rhs: &'a BoundedRational) -> BoundedRational {
        arbitrary()
    }
}

/// `&BigInt + &BoundedRational`.
impl<'a, 'b> core::ops::Add<&'b BoundedRational> for &'a BigInt {
    type Output = BoundedRational;

    fn add(self, other: &'b BoundedRational) -> (r: BoundedRational)
        ensures
            op_sum_result(other@, (self@, 1int), r@),
    {
        let a = BoundedRational::from_bigint(self.clone());
        BoundedRational::sum_of(other, &a)
    }
}

impl<'a, 'b> vstd::std_specs::ops::AddSpecImpl<&'b BoundedRational> for &'a BigInt {
    open spec fn obeys_add_spec() -> bool {
        false
    }

    open spec fn add_req(self, rhs: &'b BoundedRational) -> bool {
        true
    }

    open spec fn add_spec(self, rhs: &'b BoundedRational) -> BoundedRational {
        arbitrary()
    }
}

/// `BoundedRational += BigInt`.
impl core::ops::AddAssign<BigInt> for BoundedRational {
    fn add_assign(&mut self, other: BigInt)
        ensures
            op_sum_result(old(self)@, (other@, 1int), final(self)@),
    {
        let b = BoundedRational::from_bigint(other);
        let v = BoundedRational::sum_of(self, &b);
        *self = v;
    }
}

/// `BoundedRational += &BigInt`.
impl<'a> core::ops::AddAssign<&'a BigInt> for BoundedRational {
    fn add_assign(&mut self, other: &'a BigInt)
        ensures
            op_sum_result(old(self)@, (other@, 1int), final(self)@),
    {
        let b = BoundedRational::from_bigint(other.clone());
        let v = BoundedRational::sum_of(self, &b);
        *self = v;
    }
}

} // verus!
