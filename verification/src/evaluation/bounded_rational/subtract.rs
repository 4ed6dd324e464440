//! Subtraction operators of `BoundedRational`: with another rational, with
//! primitive integers and with `BigInt`s, by value and by reference.
use super::{BoundedRational, op_sum_result};
use crate::bigint::BigInt;
use crate::rational::{rat_neg};
use vstd::prelude::*;

verus! {

// Subtraction of two rationals.

/// `BoundedRational - BoundedRational`.
impl core::ops::Sub<BoundedRational> for BoundedRational {
    type Output = BoundedRational;

    fn sub(self, other: BoundedRational) -> (r: BoundedRational)
        ensures
            op_sum_result(self@, rat_neg(other@), r@),
    {
        BoundedRational::sum_of(&self, &(&other).negated())
    }
}

impl vstd::std_specs::ops::SubSpecImpl<BoundedRational> for BoundedRational {
    open spec fn obeys_sub_spec() -> bool {
        false
    }

    open spec fn sub_req(self, rhs: BoundedRational) -> bool {
        true
    }

    open spec fn sub_spec(self, rhs: BoundedRational) -> BoundedRational {
        arbitrary()
    }
}

/// `BoundedRational - &BoundedRational`.
impl<'a> core::ops::Sub<&'a BoundedRational> for BoundedRational {
    type Output = BoundedRational;

    fn sub(self, other: &'a BoundedRational) -> (r: BoundedRational)
        ensures
            op_sum_result(self@, rat_neg(other@), r@),
    {
        BoundedRational::sum_of(&self, &(other).negated())
    }
}

impl<'a> vstd::std_specs::ops::SubSpecImpl<&'a BoundedRational> for BoundedRational {
    open spec fn obeys_sub_spec() -> bool {
        false
    }

    open spec fn sub_req(self, rhs: &'a BoundedRational) -> bool {
        true
    }

    open spec fn sub_spec(self, rhs: &'a BoundedRational) -> BoundedRational {
        arbitrary()
    }
}

/// `&BoundedRational - BoundedRational`.
impl<'a> core::ops::Sub<BoundedRational> for &'a BoundedRational {
    type Output = BoundedRational;

    fn sub(self, other: BoundedRational) -> (r: BoundedRational)
        ensures
            op_sum_result(self@, rat_neg(other@), r@),
    {
        BoundedRational::sum_of(self, &(&other).negated())
    }
}

impl<'a> vstd::std_specs::ops::SubSpecImpl<BoundedRational> for &'a BoundedRational {
    open spec fn obeys_sub_spec() -> bool {
        false
    }

    open spec fn sub_req(self, rhs: BoundedRational) -> bool {
        true
    }

    open spec fn sub_spec(self, rhs: BoundedRational) -> BoundedRational {
        arbitrary()
    }
}

/// `&BoundedRational - &BoundedRational`.
impl<'a, 'b> core::ops::Sub<&'b BoundedRational> for &'a BoundedRational {
    type Output = BoundedRational;

    fn sub(self, other: &'b BoundedRational) -> (r: BoundedRational)
        ensures
            op_sum_result(self@, rat_neg(other@), r@),
    {
        BoundedRational::sum_of(self, &(other).negated())
    }
}

impl<'a, 'b> vstd::std_specs::ops::SubSpecImpl<&'b BoundedRational> for &'a BoundedRational {
    open spec fn obeys_sub_spec() -> bool {
        false
    }

    open spec fn sub_req(self, rhs: &'b BoundedRational) -> bool {
        true
    }

    open spec fn sub_spec(self, rhs: &'b BoundedRational) -> BoundedRational {
        arbitrary()
    }
}

/// `BoundedRational -= BoundedRational`.
impl core::ops::SubAssign<BoundedRational> for BoundedRational {
    fn sub_assign(&mut self, other: BoundedRational)
        ensures
            op_sum_result(old(self)@, rat_neg(other@), final(self)@),
    {
        let v = BoundedRational::sum_of(self, &(&other).negated());
        *self = v;
    }
}

/// `BoundedRational -= &BoundedRational`.
impl<'a> core::ops::SubAssign<&'a BoundedRational> for BoundedRational {
    fn sub_assign(&mut self, other: &'a BoundedRational)
        ensures
            op_sum_result(old(self)@, rat_neg(other@), final(self)@),
    {
        let v = BoundedRational::sum_of(self, &(other).negated());
        *self = v;
    }
}

// Subtraction with `u8`.

/// `BoundedRational - u8`.
impl core::ops::Sub<u8> for BoundedRational {
    type Output = BoundedRational;

    fn sub(self, other: u8) -> (r: BoundedRational)
        ensures
            op_sum_result(self@, rat_neg((other as int, 1int)), r@),
    {
        let b = BoundedRational::from_bigint(BigInt::from(other));
        BoundedRational::sum_of(&self, &(&b).negated())
    }
}

impl vstd::std_specs::ops::SubSpecImpl<u8> for BoundedRational {
    open spec fn obeys_sub_spec() -> bool {
        false
    }

    open spec fn sub_req(self, rhs: u8) -> bool {
        true
    }

    open spec fn sub_spec(self, rhs: u8) -> BoundedRational {
        arbitrary()
    }
}

/// `BoundedRational - &u8`.
impl<'a> core::ops::Sub<&'a u8> for BoundedRational {
    type Output = BoundedRational;

    fn sub(self, other: &'a u8) -> (r: BoundedRational)
        ensures
            op_sum_result(self@, rat_neg((*other as int, 1int)), r@),
    {
        let b = BoundedRational::from_bigint(BigInt::from(*other));
        BoundedRational::sum_of(&self, &(&b).negated())
    }
}

impl<'a> vstd::std_specs::ops::SubSpecImpl<&'a u8> for BoundedRational {
    open spec fn obeys_sub_spec() -> bool {
        false
    }

    open spec fn sub_req(self, rhs: &'a u8) -> bool {
        true
    }

    open spec fn sub_spec(self, rhs: &'a u8) -> BoundedRational {
        arbitrary()
    }
}

/// `&BoundedRational - u8`.
impl<'a> core::ops::Sub<u8> for &'a BoundedRational {
    type Output = BoundedRational;

    fn sub(self, other: u8) -> (r: BoundedRational)
        ensures
            op_sum_result(self@, rat_neg((other as int, 1int)), r@),
    {
        let b = BoundedRational::from_bigint(BigInt::from(other));
        BoundedRational::sum_of(self, &(&b).negated())
    }
}

impl<'a> vstd::std_specs::ops::SubSpecImpl<u8> for &'a BoundedRational {
    open spec fn obeys_sub_spec() -> bool {
        false
    }

    open spec fn sub_req(self, rhs: u8) -> bool {
        true
    }

    open spec fn sub_spec(self, rhs: u8) -> BoundedRational {
        arbitrary()
    }
}

/// `&BoundedRational - &u8`.
impl<'a, 'b> core::ops::Sub<&'b u8> for &'a BoundedRational {
    type Output = BoundedRational;

    fn sub(self, other: &'b u8) -> (r: BoundedRational)
        ensures
            op_sum_result(self@, rat_neg((*other as int, 1int)), r@),
    {
        let b = BoundedRational::from_bigint(BigInt::from(*other));
        BoundedRational::sum_of(self, &(&b).negated())
    }
}

impl<'a, 'b> vstd::std_specs::ops::SubSpecImpl<&'b u8> for &'a BoundedRational {
    open spec fn obeys_sub_spec() -> bool {
        false
    }

    open spec fn sub_req(self, rhs: &'b u8) -> bool {
        true
    }

    open spec fn sub_spec(self, rhs: &'b u8) -> BoundedRational {
        arbitrary()
    }
}

/// `u8 - BoundedRational`.
impl core::ops::Sub<BoundedRational> for u8 {
    type Output = BoundedRational;

    fn sub(self, other: BoundedRational) -> (r: BoundedRational)
        ensures
            op_sum_result((self as int, 1int), rat_neg(other@), r@),
    {
        let a = BoundedRational::from_bigint(BigInt::from(self));
        BoundedRational::sum_of(&a, &(&other).negated())
    }
}

impl vstd::std_specs::ops::SubSpecImpl<BoundedRational> for u8 {
    open spec fn obeys_sub_spec() -> bool {
        false
    }

    open spec fn sub_req(self, rhs: BoundedRational) -> bool {
        true
    }

    open spec fn sub_spec(self, rhs: BoundedRational) -> BoundedRational {
        arbitrary()
    }
}

/// `&u8 - BoundedRational`.
impl<'a> core::ops::Sub<BoundedRational> for &'a u8 {
    type Output = BoundedRational;

    fn sub(self, other: BoundedRational) -> (r: BoundedRational)
        ensures
            op_sum_result((*self as int, 1int), rat_neg(other@), r@),
    {
        let a = BoundedRational::from_bigint(BigInt::from(*self));
        BoundedRational::sum_of(&a, &(&other).negated())
    }
}

impl<'a> vstd::std_specs::ops::SubSpecImpl<BoundedRational> for &'a u8 {
    open spec fn obeys_sub_spec() -> bool {
        false
    }

    open spec fn sub_req(self, rhs: BoundedRational) -> bool {
        true
    }

    open spec fn sub_spec(self, rhs: BoundedRational) -> BoundedRational {
        arbitrary()
    }
}

/// `u8 - &BoundedRational`.
impl<'a> core::ops::Sub<&'a BoundedRational> for u8 {
    type Output = BoundedRational;

    fn sub(self, other: &'a BoundedRational) -> (r: BoundedRational)
        ensures
            op_sum_result((self as int, 1int), rat_neg(other@), r@),
    {
        let a = BoundedRational::from_bigint(BigInt::from(self));
        BoundedRational::sum_of(&a, &(other).negated())
    }
}

impl<'a> vstd::std_specs::ops::SubSpecImpl<&'a BoundedRational> for u8 {
    open spec fn obeys_sub_spec() -> bool {
        false
    }

    open spec fn sub_req(self, rhs: &'a BoundedRational) -> bool {
        true
    }

    open spec fn sub_spec(self, rhs: &'a BoundedRational) -> BoundedRational {
        arbitrary()
    }
}

/// `&u8 - &BoundedRational`.
impl<'a, 'b> core::ops::Sub<&'b BoundedRational> for &'a u8 {
    type Output = BoundedRational;

    fn sub(self, other: &'b BoundedRational) -> (r: BoundedRational)
        ensures
            op_sum_result((*self as int, 1int), rat_neg(other@), r@),
    {
        let a = BoundedRational::from_bigint(BigInt::from(*self));
        BoundedRational::sum_of(&a, &(other).negated())
    }
}

impl<'a, 'b> vstd::std_specs::ops::SubSpecImpl<&'b BoundedRational> for &'a u8 {
    open spec fn obeys_sub_spec() -> bool {
        false
    }

    open spec fn sub_req(self, rhs: &'b BoundedRational) -> bool {
        true
    }

    open spec fn sub_spec(self, rhs: &'b BoundedRational) -> BoundedRational {
        arbitrary()
    }
}

/// `BoundedRational -= u8`.
impl core::ops::SubAssign<u8> for BoundedRational {
    fn sub_assign(&mut self, other: u8)
        ensures
            op_sum_result(old(self)@, rat_neg((other as int, 1int)), final(self)@),
    {
        let b = BoundedRational::from_bigint(BigInt::from(other));
        let v = BoundedRational::sum_of(self, &(&b).negated());
        *self = v;
    }
}

/// `BoundedRational -= &u8`.
impl<'a> core::ops::SubAssign<&'a u8> for BoundedRational {
    fn sub_assign(&mut self, other: &'a u8)
        ensures
            op_sum_result(old(self)@, rat_neg((*other as int, 1int)), final(self)@),
    {
        let b = BoundedRational::from_bigint(BigInt::from(*other));
        let v = BoundedRational::sum_of(self, &(&b).negated());
        *self = v;
    }
}

// Subtraction with `u16`.

/// `BoundedRational - u16`.
impl core::ops::Sub<u16> for BoundedRational {
    type Output = BoundedRational;

    fn sub(self, other: u16) -> (r: BoundedRational)
        ensures
            op_sum_result(self@, rat_neg((other as int, 1int)), r@),
    {
        let b = BoundedRational::from_bigint(BigInt::from(other));
        BoundedRational::sum_of(&self, &(&b).negated())
    }
}

impl vstd::std_specs::ops::SubSpecImpl<u16> for BoundedRational {
    open spec fn obeys_sub_spec() -> bool {
        false
    }

    open spec fn sub_req(self, rhs: u16) -> bool {
        true
    }

    open spec fn sub_spec(self, rhs: u16) -> BoundedRational {
        arbitrary()
    }
}

/// `BoundedRational - &u16`.
impl<'a> core::ops::Sub<&'a u16> for BoundedRational {
    type Output = BoundedRational;

    fn sub(self, other: &'a u16) -> (r: BoundedRational)
        ensures
            op_sum_result(self@, rat_neg((*other as int, 1int)), r@),
    {
        let b = BoundedRational::from_bigint(BigInt::from(*other));
        BoundedRational::sum_of(&self, &(&b).negated())
    }
}

impl<'a> vstd::std_specs::ops::SubSpecImpl<&'a u16> for BoundedRational {
    open spec fn obeys_sub_spec() -> bool {
        false
    }

    open spec fn sub_req(self, rhs: &'a u16) -> bool {
        true
    }

    open spec fn sub_spec(self, rhs: &'a u16) -> BoundedRational {
        arbitrary()
    }
}

/// `&BoundedRational - u16`.
impl<'a> core::ops::Sub<u16> for &'a BoundedRational {
    type Output = BoundedRational;

    fn sub(self, other: u16) -> (r: BoundedRational)
        ensures
            op_sum_result(self@, rat_neg((other as int, 1int)), r@),
    {
        let b = BoundedRational::from_bigint(BigInt::from(other));
        BoundedRational::sum_of(self, &(&b).negated())
    }
}

impl<'a> vstd::std_specs::ops::SubSpecImpl<u16> for &'a BoundedRational {
    open spec fn obeys_sub_spec() -> bool {
        false
    }

    open spec fn sub_req(self, rhs: u16) -> bool {
        true
    }

    open spec fn sub_spec(self, rhs: u16) -> BoundedRational {
        arbitrary()
    }
}

/// `&BoundedRational - &u16`.
impl<'a, 'b> core::ops::Sub<&'b u16> for &'a BoundedRational {
    type Output = BoundedRational;

    fn sub(self, other: &'b u16) -> (r: BoundedRational)
        ensures
            op_sum_result(self@, rat_neg((*other as int, 1int)), r@),
    {
        let b = BoundedRational::from_bigint(BigInt::from(*other));
        BoundedRational::sum_of(self, &(&b).negated())
    }
}

impl<'a, 'b> vstd::std_specs::ops::SubSpecImpl<&'b u16> for &'a BoundedRational {
    open spec fn obeys_sub_spec() -> bool {
        false
    }

    open spec fn sub_req(self, rhs: &'b u16) -> bool {
        true
    }

    open spec fn sub_spec(self, rhs: &'b u16) -> BoundedRational {
        arbitrary()
    }
}

/// `u16 - BoundedRational`.
impl core::ops::Sub<BoundedRational> for u16 {
    type Output = BoundedRational;

    fn sub(self, other: BoundedRational) -> (r: BoundedRational)
        ensures
            op_sum_result((self as int, 1int), rat_neg(other@), r@),
    {
        let a = BoundedRational::from_bigint(BigInt::from(self));
        BoundedRational::sum_of(&a, &(&other).negated())
    }
}

impl vstd::std_specs::ops::SubSpecImpl<BoundedRational> for u16 {
    open spec fn obeys_sub_spec() -> bool {
        false
    }

    open spec fn sub_req(self, rhs: BoundedRational) -> bool {
        true
    }

    open spec fn sub_spec(self, rhs: BoundedRational) -> BoundedRational {
        arbitrary()
    }
}

/// `&u16 - BoundedRational`.
impl<'a> core::ops::Sub<BoundedRational> for &'a u16 {
    type Output = BoundedRational;

    fn sub(self, other: BoundedRational) -> (r: BoundedRational)
        ensures
            op_sum_result((*self as int, 1int), rat_neg(other@), r@),
    {
        let a = BoundedRational::from_bigint(BigInt::from(*self));
        BoundedRational::sum_of(&a, &(&other).negated())
    }
}

impl<'a> vstd::std_specs::ops::SubSpecImpl<BoundedRational> for &'a u16 {
    open spec fn obeys_sub_spec() -> bool {
        false
    }

    open spec fn sub_req(self, rhs: BoundedRational) -> bool {
        true
    }

    open spec fn sub_spec(self, rhs: BoundedRational) -> BoundedRational {
        arbitrary()
    }
}

/// `u16 - &BoundedRational`.
impl<'a> core::ops::Sub<&'a BoundedRational> for u16 {
    type Output = BoundedRational;

    fn sub(self, other: &'a BoundedRational) -> (r: BoundedRational)
        ensures
            op_sum_result((self as int, 1int), rat_neg(other@), r@),
    {
        let a = BoundedRational::from_bigint(BigInt::from(self));
        BoundedRational::sum_of(&a, &(other).negated())
    }
}

impl<'a> vstd::std_specs::ops::SubSpecImpl<&'a BoundedRational> for u16 {
    open spec fn obeys_sub_spec() -> bool {
        false
    }

    open spec fn sub_req(self, rhs: &'a BoundedRational) -> bool {
        true
    }

    open spec fn sub_spec(self, rhs: &'a BoundedRational) -> BoundedRational {
        arbitrary()
    }
}

/// `&u16 - &BoundedRational`.
impl<'a, 'b> core::ops::Sub<&'b BoundedRational> for &'a u16 {
    type Output = BoundedRational;

    fn sub(self, other: &'b BoundedRational) -> (r: BoundedRational)
        ensures
            op_sum_result((*self as int, 1int), rat_neg(other@), r@),
    {
        let a = BoundedRational::from_bigint(BigInt::from(*self));
        BoundedRational::sum_of(&a, &(other).negated())
    }
}

impl<'a, 'b> vstd::std_specs::ops::SubSpecImpl<&'b BoundedRational> for &'a u16 {
    open spec fn obeys_sub_spec() -> bool {
        false
    }

    open spec fn sub_req(self, rhs: &'b BoundedRational) -> bool {
        true
    }

    open spec fn sub_spec(self, rhs: &'b BoundedRational) -> BoundedRational {
        arbitrary()
    }
}

/// `BoundedRational -= u16`.
impl core::ops::SubAssign<u16> for BoundedRational {
    fn sub_assign(&mut self, other: u16)
        ensures
            op_sum_result(old(self)@, rat_neg((other as int, 1int)), final(self)@),
    {
        let b = BoundedRational::from_bigint(BigInt::from(other));
        let v = BoundedRational::sum_of(self, &(&b).negated());
        *self = v;
    }
}

/// `BoundedRational -= &u16`.
impl<'a> core::ops::SubAssign<&'a u16> for BoundedRational {
    fn sub_assign(&mut self, other: &'a u16)
        ensures
            op_sum_result(old(self)@, rat_neg((*other as int, 1int)), final(self)@),
    {
        let b = BoundedRational::from_bigint(BigInt::from(*other));
        let v = BoundedRational::sum_of(self, &(&b).negated());
        *self = v;
    }
}

// Subtraction with `u32`.

/// `BoundedRational - u32`.
impl core::ops::Sub<u32> for BoundedRational {
    type Output = BoundedRational;

    fn sub(self, other: u32) -> (r: BoundedRational)
        ensures
            op_sum_result(self@, rat_neg((other as int, 1int)), r@),
    {
        let b = BoundedRational::from_bigint(BigInt::from(other));
        BoundedRational::sum_of(&self, &(&b).negated())
    }
}

impl vstd::std_specs::ops::SubSpecImpl<u32> for BoundedRational {
    open spec fn obeys_sub_spec() -> bool {
        false
    }

    open spec fn sub_req(self, rhs: u32) -> bool {
        true
    }

    open spec fn sub_spec(self, rhs: u32) -> BoundedRational {
        arbitrary()
    }
}

/// `BoundedRational - &u32`.
impl<'a> core::ops::Sub<&'a u32> for BoundedRational {
    type Output = BoundedRational;

    fn sub(self, other: &'a u32) -> (r: BoundedRational)
        ensures
            op_sum_result(self@, rat_neg((*other as int, 1int)), r@),
    {
        let b = BoundedRational::from_bigint(BigInt::from(*other));
        BoundedRational::sum_of(&self, &(&b).negated())
    }
}

impl<'a> vstd::std_specs::ops::SubSpecImpl<&'a u32> for BoundedRational {
    open spec fn obeys_sub_spec() -> bool {
        false
    }

    open spec fn sub_req(self, rhs: &'a u32) -> bool {
        true
    }

    open spec fn sub_spec(self, rhs: &'a u32) -> BoundedRational {
        arbitrary()
    }
}

/// `&BoundedRational - u32`.
impl<'a> core::ops::Sub<u32> for &'a BoundedRational {
    type Output = BoundedRational;

    fn sub(self, other: u32) -> (r: BoundedRational)
        ensures
            op_sum_result(self@, rat_neg((other as int, 1int)), r@),
    {
        let b = BoundedRational::from_bigint(BigInt::from(other));
        BoundedRational::sum_of(self, &(&b).negated())
    }
}

impl<'a> vstd::std_specs::ops::SubSpecImpl<u32> for &'a BoundedRational {
    open spec fn obeys_sub_spec() -> bool {
        false
    }

    open spec fn sub_req(self, rhs: u32) -> bool {
        true
    }

    open spec fn sub_spec(self, rhs: u32) -> BoundedRational {
        arbitrary()
    }
}

/// `&BoundedRational - &u32`.
impl<'a, 'b> core::ops::Sub<&'b u32> for &'a BoundedRational {
    type Output = BoundedRational;

    fn sub(self, other: &'b u32) -> (r: BoundedRational)
        ensures
            op_sum_result(self@, rat_neg((*other as int, 1int)), r@),
    {
        let b = BoundedRational::from_bigint(BigInt::from(*other));
        BoundedRational::sum_of(self, &(&b).negated())
    }
}

impl<'a, 'b> vstd::std_specs::ops::SubSpecImpl<&'b u32> for &'a BoundedRational {
    open spec fn obeys_sub_spec() -> bool {
        false
    }

    open spec fn sub_req(self, rhs: &'b u32) -> bool {
        true
    }

    open spec fn sub_spec(self, rhs: &'b u32) -> BoundedRational {
        arbitrary()
    }
}

/// `u32 - BoundedRational`.
impl core::ops::Sub<BoundedRational> for u32 {
    type Output = BoundedRational;

    fn sub(self, other: BoundedRational) -> (r: BoundedRational)
        ensures
            op_sum_result((self as int, 1int), rat_neg(other@), r@),
    {
        let a = BoundedRational::from_bigint(BigInt::from(self));
        BoundedRational::sum_of(&a, &(&other).negated())
    }
}

impl vstd::std_specs::ops::SubSpecImpl<BoundedRational> for u32 {
    open spec fn obeys_sub_spec() -> bool {
        false
    }

    open spec fn sub_req(self, rhs: BoundedRational) -> bool {
        true
    }

    open spec fn sub_spec(self, rhs: BoundedRational) -> BoundedRational {
        arbitrary()
    }
}

/// `&u32 - BoundedRational`.
impl<'a> core::ops::Sub<BoundedRational> for &'a u32 {
    type Output = BoundedRational;

    fn sub(self, other: BoundedRational) -> (r: BoundedRational)
        ensures
            op_sum_result((*self as int, 1int), rat_neg(other@), r@),
    {
        let a = BoundedRational::from_bigint(BigInt::from(*self));
        BoundedRational::sum_of(&a, &(&other).negated())
    }
}

impl<'a> vstd::std_specs::ops::SubSpecImpl<BoundedRational> for &'a u32 {
    open spec fn obeys_sub_spec() -> bool {
        false
    }

    open spec fn sub_req(self, rhs: BoundedRational) -> bool {
        true
    }

    open spec fn sub_spec(self, rhs: BoundedRational) -> BoundedRational {
        arbitrary()
    }
}

/// `u32 - &BoundedRational`.
impl<'a> core::ops::Sub<&'a BoundedRational> for u32 {
    type Output = BoundedRational;

    fn sub(self, other: &'a BoundedRational) -> (r: BoundedRational)
        ensures
            op_sum_result((self as int, 1int), rat_neg(other@), r@),
    {
        let a = BoundedRational::from_bigint(BigInt::from(self));
        BoundedRational::sum_of(&a, &(other).negated())
    }
}

impl<'a> vstd::std_specs::ops::SubSpecImpl<&'a BoundedRational> for u32 {
    open spec fn obeys_sub_spec() -> bool {
        false
    }

    open spec fn sub_req(self, rhs: &'a BoundedRational) -> bool {
        true
    }

    open spec fn sub_spec(self, rhs: &'a BoundedRational) -> BoundedRational {
        arbitrary()
    }
}

/// `&u32 - &BoundedRational`.
impl<'a, 'b> core::ops::Sub<&'b BoundedRational> for &'a u32 {
    type Output = BoundedRational;

    fn sub(self, other: &'b BoundedRational) -> (r: BoundedRational)
        ensures
            op_sum_result((*self as int, 1int), rat_neg(other@), r@),
    {
        let a = BoundedRational::from_bigint(BigInt::from(*self));
        BoundedRational::sum_of(&a, &(other).negated())
    }
}

impl<'a, 'b> vstd::std_specs::ops::SubSpecImpl<&'b BoundedRational> for &'a u32 {
    open spec fn obeys_sub_spec() -> bool {
        false
    }

    open spec fn sub_req(self, rhs: &'b BoundedRational) -> bool {
        true
    }

    open spec fn sub_spec(self, rhs: &'b BoundedRational) -> BoundedRational {
        arbitrary()
    }
}

/// `BoundedRational -= u32`.
impl core::ops::SubAssign<u32> for BoundedRational {
    fn sub_assign(&mut self, other: u32)
        ensures
            op_sum_result(old(self)@, rat_neg((other as int, 1int)), final(self)@),
    {
        let b = BoundedRational::from_bigint(BigInt::from(other));
        let v = BoundedRational::sum_of(self, &(&b).negated());
        *self = v;
    }
}

/// `BoundedRational -= &u32`.
impl<'a> core::ops::SubAssign<&'a u32> for BoundedRational {
    fn sub_assign(&mut self, other: &'a u32)
        ensures
            op_sum_result(old(self)@, rat_neg((*other as int, 1int)), final(self)@),
    {
        let b = BoundedRational::from_bigint(BigInt::from(*other));
        let v = BoundedRational::sum_of(self, &(&b).negated());
        *self = v;
    }
}

// Subtraction with `u64`.

/// `BoundedRational - u64`.
impl core::ops::Sub<u64> for BoundedRational {
    type Output = BoundedRational;

    fn sub(self, other: u64) -> (r: BoundedRational)
        ensures
            op_sum_result(self@, rat_neg((other as int, 1int)), r@),
    {
        let b = BoundedRational::from_bigint(BigInt::from(other));
        BoundedRational::sum_of(&self, &(&b).negated())
    }
}

impl vstd::std_specs::ops::SubSpecImpl<u64> for BoundedRational {
    open spec fn obeys_sub_spec() -> bool {
        false
    }

    open spec fn sub_req(self, rhs: u64) -> bool {
        true
    }

    open spec fn sub_spec(self, rhs: u64) -> BoundedRational {
        arbitrary()
    }
}

/// `BoundedRational - &u64`.
impl<'a> core::ops::Sub<&'a u64> for BoundedRational {
    type Output = BoundedRational;

    fn sub(self, other: &'a u64) -> (r: BoundedRational)
        ensures
            op_sum_result(self@, rat_neg((*other as int, 1int)), r@),
    {
        let b = BoundedRational::from_bigint(BigInt::from(*other));
        BoundedRational::sum_of(&self, &(&b).negated())
    }
}

impl<'a> vstd::std_specs::ops::SubSpecImpl<&'a u64> for BoundedRational {
    open spec fn obeys_sub_spec() -> bool {
        false
    }

    open spec fn sub_req(self, rhs: &'a u64) -> bool {
        true
    }

    open spec fn sub_spec(self, rhs: &'a u64) -> BoundedRational {
        arbitrary()
    }
}

/// `&BoundedRational - u64`.
impl<'a> core::ops::Sub<u64> for &'a BoundedRational {
    type Output = BoundedRational;

    fn sub(self, other: u64) -> (r: BoundedRational)
        ensures
            op_sum_result(self@, rat_neg((other as int, 1int)), r@),
    {
        let b = BoundedRational::from_bigint(BigInt::from(other));
        BoundedRational::sum_of(self, &(&b).negated())
    }
}

impl<'a> vstd::std_specs::ops::SubSpecImpl<u64> for &'a BoundedRational {
    open spec fn obeys_sub_spec() -> bool {
        false
    }

    open spec fn sub_req(self, rhs: u64) -> bool {
        true
    }

    open spec fn sub_spec(self, rhs: u64) -> BoundedRational {
        arbitrary()
    }
}

/// `&BoundedRational - &u64`.
impl<'a, 'b> core::ops::Sub<&'b u64> for &'a BoundedRational {
    type Output = BoundedRational;

    fn sub(self, other: &'b u64) -> (r: BoundedRational)
        ensures
            op_sum_result(self@, rat_neg((*other as int, 1int)), r@),
    {
        let b = BoundedRational::from_bigint(BigInt::from(*other));
        BoundedRational::sum_of(self, &(&b).negated())
    }
}

impl<'a, 'b> vstd::std_specs::ops::SubSpecImpl<&'b u64> for &'a BoundedRational {
    open spec fn obeys_sub_spec() -> bool {
        false
    }

    open spec fn sub_req(self, rhs: &'b u64) -> bool {
        true
    }

    open spec fn sub_spec(self, rhs: &'b u64) -> BoundedRational {
        arbitrary()
    }
}

/// `u64 - BoundedRational`.
impl core::ops::Sub<BoundedRational> for u64 {
    type Output = BoundedRational;

    fn sub(self, other: BoundedRational) -> (r: BoundedRational)
        ensures
            op_sum_result((self as int, 1int), rat_neg(other@), r@),
    {
        let a = BoundedRational::from_bigint(BigInt::from(self));
        BoundedRational::sum_of(&a, &(&other).negated())
    }
}

impl vstd::std_specs::ops::SubSpecImpl<BoundedRational> for u64 {
    open spec fn obeys_sub_spec() -> bool {
        false
    }

    open spec fn sub_req(self, rhs: BoundedRational) -> bool {
        true
    }

    open spec fn sub_spec(self, rhs: BoundedRational) -> BoundedRational {
        arbitrary()
    }
}

/// `&u64 - BoundedRational`.
impl<'a> core::ops::Sub<BoundedRational> for &'a u64 {
    type Output = BoundedRational;

    fn sub(self, other: BoundedRational) -> (r: BoundedRational)
        ensures
            op_sum_result((*self as int, 1int), rat_neg(other@), r@),
    {
        let a = BoundedRational::from_bigint(BigInt::from(*self));
        BoundedRational::sum_of(&a, &(&other).negated())
    }
}

impl<'a> vstd::std_specs::ops::SubSpecImpl<BoundedRational> for &'a u64 {
    open spec fn obeys_sub_spec() -> bool {
        false
    }

    open spec fn sub_req(self, rhs: BoundedRational) -> bool {
        true
    }

    open spec fn sub_spec(self, rhs: BoundedRational) -> BoundedRational {
        arbitrary()
    }
}

/// `u64 - &BoundedRational`.
impl<'a> core::ops::Sub<&'a BoundedRational> for u64 {
    type Output = BoundedRational;

    fn sub(self, other: &'a BoundedRational) -> (r: BoundedRational)
        ensures
            op_sum_result((self as int, 1int), rat_neg(other@), r@),
    {
        let a = BoundedRational::from_bigint(BigInt::from(self));
        BoundedRational::sum_of(&a, &(other).negated())
    }
}

impl<'a> vstd::std_specs::ops::SubSpecImpl<&'a BoundedRational> for u64 {
    open spec fn obeys_sub_spec() -> bool {
        false
    }

    open spec fn sub_req(self, rhs: &'a BoundedRational) -> bool {
        true
    }

    open spec fn sub_spec(self, rhs: &'a BoundedRational) -> BoundedRational {
        arbitrary()
    }
}

/// `&u64 - &BoundedRational`.
impl<'a, 'b> core::ops::Sub<&'b BoundedRational> for &'a u64 {
    type Output = BoundedRational;

    fn sub(self, other: &'b BoundedRational) -> (r: BoundedRational)
        ensures
            op_sum_result((*self as int, 1int), rat_neg(other@), r@),
    {
        let a = BoundedRational::from_bigint(BigInt::from(*self));
        BoundedRational::sum_of(&a, &(other).negated())
    }
}

impl<'a, 'b> vstd::std_specs::ops::SubSpecImpl<&'b BoundedRational> for &'a u64 {
    open spec fn obeys_sub_spec() -> bool {
        false
    }

    open spec fn sub_req(self, rhs: &'b BoundedRational) -> bool {
        true
    }

    open spec fn sub_spec(self, rhs: &'b BoundedRational) -> BoundedRational {
        arbitrary()
    }
}

/// `BoundedRational -= u64`.
impl core::ops::SubAssign<u64> for BoundedRational {
    fn sub_assign(&mut self, other: u64)
        ensures
            op_sum_result(old(self)@, rat_neg((other as int, 1int)), final(self)@),
    {
        let b = BoundedRational::from_bigint(BigInt::from(other));
        let v = BoundedRational::sum_of(self, &(&b).negated());
        *self = v;
    }
}

/// `BoundedRational -= &u64`.
impl<'a> core::ops::SubAssign<&'a u64> for BoundedRational {
    fn sub_assign(&mut self, other: &'a u64)
        ensures
            op_sum_result(old(self)@, rat_neg((*other as int, 1int)), final(self)@),
    {
        let b = BoundedRational::from_bigint(BigInt::from(*other));
        let v = BoundedRational::sum_of(self, &(&b).negated());
        *self = v;
    }
}

// Subtraction with `u128`.

/// `BoundedRational - u128`.
impl core::ops::Sub<u128> for BoundedRational {
    type Output = BoundedRational;

    fn sub(self, other: u128) -> (r: BoundedRational)
        ensures
            op_sum_result(self@, rat_neg((other as int, 1int)), r@),
    {
        let b = BoundedRational::from_bigint(BigInt::from(other));
        BoundedRational::sum_of(&self, &(&b).negated())
    }
}

impl vstd::std_specs::ops::SubSpecImpl<u128> for BoundedRational {
    open spec fn obeys_sub_spec() -> bool {
        false
    }

    open spec fn sub_req(self, rhs: u128) -> bool {
        true
    }

    open spec fn sub_spec(self, rhs: u128) -> BoundedRational {
        arbitrary()
    }
}

/// `BoundedRational - &u128`.
impl<'a> core::ops::Sub<&'a u128> for BoundedRational {
    type Output = BoundedRational;

    fn sub(self, other: &'a u128) -> (r: BoundedRational)
        ensures
            op_sum_result(self@, rat_neg((*other as int, 1int)), r@),
    {
        let b = BoundedRational::from_bigint(BigInt::from(*other));
        BoundedRational::sum_of(&self, &(&b).negated())
    }
}

impl<'a> vstd::std_specs::ops::SubSpecImpl<&'a u128> for BoundedRational {
    open spec fn obeys_sub_spec() -> bool {
        false
    }

    open spec fn sub_req(self, rhs: &'a u128) -> bool {
        true
    }

    open spec fn sub_spec(self, rhs: &'a u128) -> BoundedRational {
        arbitrary()
    }
}

/// `&BoundedRational - u128`.
impl<'a> core::ops::Sub<u128> for &'a BoundedRational {
    type Output = BoundedRational;

    fn sub(self, other: u128) -> (r: BoundedRational)
        ensures
            op_sum_result(self@, rat_neg((other as int, 1int)), r@),
    {
        let b = BoundedRational::from_bigint(BigInt::from(other));
        BoundedRational::sum_of(self, &(&b).negated())
    }
}

impl<'a> vstd::std_specs::ops::SubSpecImpl<u128> for &'a BoundedRational {
    open spec fn obeys_sub_spec() -> bool {
        false
    }

    open spec fn sub_req(self, rhs: u128) -> bool {
        true
    }

    open spec fn sub_spec(self, rhs: u128) -> BoundedRational {
        arbitrary()
    }
}

/// `&BoundedRational - &u128`.
impl<'a, 'b> core::ops::Sub<&'b u128> for &'a BoundedRational {
    type Output = BoundedRational;

    fn sub(self, other: &'b u128) -> (r: BoundedRational)
        ensures
            op_sum_result(self@, rat_neg((*other as int, 1int)), r@),
    {
        let b = BoundedRational::from_bigint(BigInt::from(*other));
        BoundedRational::sum_of(self, &(&b).negated())
    }
}

impl<'a, 'b> vstd::std_specs::ops::SubSpecImpl<&'b u128> for &'a BoundedRational {
    open spec fn obeys_sub_spec() -> bool {
        false
    }

    open spec fn sub_req(self, rhs: &'b u128) -> bool {
        true
    }

    open spec fn sub_spec(self, rhs: &'b u128) -> BoundedRational {
        arbitrary()
    }
}

/// `u128 - BoundedRational`.
impl core::ops::Sub<BoundedRational> for u128 {
    type Output = BoundedRational;

    fn sub(self, other: BoundedRational) -> (r: BoundedRational)
        ensures
            op_sum_result((self as int, 1int), rat_neg(other@), r@),
    {
        let a = BoundedRational::from_bigint(BigInt::from(self));
        BoundedRational::sum_of(&a, &(&other).negated())
    }
}

impl vstd::std_specs::ops::SubSpecImpl<BoundedRational> for u128 {
    open spec fn obeys_sub_spec() -> bool {
        false
    }

    open spec fn sub_req(self, rhs: BoundedRational) -> bool {
        true
    }

    open spec fn sub_spec(self, rhs: BoundedRational) -> BoundedRational {
        arbitrary()
    }
}

/// `&u128 - BoundedRational`.
impl<'a> core::ops::Sub<BoundedRational> for &'a u128 {
    type Output = BoundedRational;

    fn sub(self, other: BoundedRational) -> (r: BoundedRational)
        ensures
            op_sum_result((*self as int, 1int), rat_neg(other@), r@),
    {
        let a = BoundedRational::from_bigint(BigInt::from(*self));
        BoundedRational::sum_of(&a, &(&other).negated())
    }
}

impl<'a> vstd::std_specs::ops::SubSpecImpl<BoundedRational> for &'a u128 {
    open spec fn obeys_sub_spec() -> bool {
        false
    }

    open spec fn sub_req(self, rhs: BoundedRational) -> bool {
        true
    }

    open spec fn sub_spec(self, rhs: BoundedRational) -> BoundedRational {
        arbitrary()
    }
}

/// `u128 - &BoundedRational`.
impl<'a> core::ops::Sub<&'a BoundedRational> for u128 {
    type Output = BoundedRational;

    fn sub(self, other: &'a BoundedRational) -> (r: BoundedRational)
        ensures
            op_sum_result((self as int, 1int), rat_neg(other@), r@),
    {
        let a = BoundedRational::from_bigint(BigInt::from(self));
        BoundedRational::sum_of(&a, &(other).negated())
    }
}

impl<'a> vstd::std_specs::ops::SubSpecImpl<&'a BoundedRational> for u128 {
    open spec fn obeys_sub_spec() -> bool {
        false
    }

    open spec fn sub_req(self, rhs: &'a BoundedRational) -> bool {
        true
    }

    open spec fn sub_spec(self, rhs: &'a BoundedRational) -> BoundedRational {
        arbitrary()
    }
}

/// `&u128 - &BoundedRational`.
impl<'a, 'b> core::ops::Sub<&'b BoundedRational> for &'a u128 {
    type Output = BoundedRational;

    fn sub(self, other: &'b BoundedRational) -> (r: BoundedRational)
        ensures
            op_sum_result((*self as int, 1int), rat_neg(other@), r@),
    {
        let a = BoundedRational::from_bigint(BigInt::from(*self));
        BoundedRational::sum_of(&a, &(other).negated())
    }
}

impl<'a, 'b> vstd::std_specs::ops::SubSpecImpl<&'b BoundedRational> for &'a u128 {
    open spec fn obeys_sub_spec() -> bool {
        false
    }

    open spec fn sub_req(self, rhs: &'b BoundedRational) -> bool {
        true
    }

    open spec fn sub_spec(self, rhs: &'b BoundedRational) -> BoundedRational {
        arbitrary()
    }
}

/// `BoundedRational -= u128`.
impl core::ops::SubAssign<u128> for BoundedRational {
    fn sub_assign(&mut self, other: u128)
        ensures
            op_sum_result(old(self)@, rat_neg((other as int, 1int)), final(self)@),
    {
        let b = BoundedRational::from_bigint(BigInt::from(other));
        let v = BoundedRational::sum_of(self, &(&b).negated());
        *self = v;
    }
}

/// `BoundedRational -= &u128`.
impl<'a> core::ops::SubAssign<&'a u128> for BoundedRational {
    fn sub_assign(&mut self, other: &'a u128)
        ensures
            op_sum_result(old(self)@, rat_neg((*other as int, 1int)), final(self)@),
    {
        let b = BoundedRational::from_bigint(BigInt::from(*other));
        let v = BoundedRational::sum_of(self, &(&b).negated());
        *self = v;
    }
}

// Subtraction with `usize`.

/// `BoundedRational - usize`.
impl core::ops::Sub<usize> for BoundedRational {
    type Output = BoundedRational;

    fn sub(self, other: usize) -> (r: BoundedRational)
        ensures
            op_sum_result(self@, rat_neg((other as int, 1int)), r@),
    {
        let b = BoundedRational::from_bigint(BigInt::from(other));
        BoundedRational::sum_of(&self, &(&b).negated())
    }
}

impl vstd::std_specs::ops::SubSpecImpl<usize> for BoundedRational {
    open spec fn obeys_sub_spec() -> bool {
        false
    }

    open spec fn sub_req(self, rhs: usize) -> bool {
        true
    }

    open spec fn sub_spec(self, rhs: usize) -> BoundedRational {
        arbitrary()
    }
}

/// `BoundedRational - &usize`.
impl<'a> core::ops::Sub<&'a usize> for BoundedRational {
    type Output = BoundedRational;

    fn sub(self, other: &'a usize) -> (r: BoundedRational)
        ensures
            op_sum_result(self@, rat_neg((*other as int, 1int)), r@),
    {
        let b = BoundedRational::from_bigint(BigInt::from(*other));
        BoundedRational::sum_of(&self, &(&b).negated())
    }
}

impl<'a> vstd::std_specs::ops::SubSpecImpl<&'a usize> for BoundedRational {
    open spec fn obeys_sub_spec() -> bool {
        false
    }

    open spec fn sub_req(self, rhs: &'a usize) -> bool {
        true
    }

    open spec fn sub_spec(self, rhs: &'a usize) -> BoundedRational {
        arbitrary()
    }
}

/// `&BoundedRational - usize`.
impl<'a> core::ops::Sub<usize> for &'a BoundedRational {
    type Output = BoundedRational;

    fn sub(self, other: usize) -> (r: BoundedRational)
        ensures
            op_sum_result(self@, rat_neg((other as int, 1int)), r@),
    {
        let b = BoundedRational::from_bigint(BigInt::from(other));
        BoundedRational::sum_of(self, &(&b).negated())
    }
}

impl<'a> vstd::std_specs::ops::SubSpecImpl<usize> for &'a BoundedRational {
    open spec fn obeys_sub_spec() -> bool {
        false
    }

    open spec fn sub_req(self, rhs: usize) -> bool {
        true
    }

    open spec fn sub_spec(self, rhs: usize) -> BoundedRational {
        arbitrary()
    }
}

/// `&BoundedRational - &usize`.
impl<'a, 'b> core::ops::Sub<&'b usize> for &'a BoundedRational {
    type Output = BoundedRational;

    fn sub(self, other: &'b usize) -> (r: BoundedRational)
        ensures
            op_sum_result(self@, rat_neg((*other as int, 1int)), r@),
    {
        let b = BoundedRational::from_bigint(BigInt::from(*other));
        BoundedRational::sum_of(self, &(&b).negated())
    }
}

impl<'a, 'b> vstd::std_specs::ops::SubSpecImpl<&'b usize> for &'a BoundedRational {
    open spec fn obeys_sub_spec() -> bool {
        false
    }

    open spec fn sub_req(self, rhs: &'b usize) -> bool {
        true
    }

    open spec fn sub_spec(self, rhs: &'b usize) -> BoundedRational {
        arbitrary()
    }
}

/// `usize - BoundedRational`.
impl core::ops::Sub<BoundedRational> for usize {
    type Output = BoundedRational;

    fn sub(self, other: BoundedRational) -> (r: BoundedRational)
        ensures
            op_sum_result((self as int, 1int), rat_neg(other@), r@),
    {
        let a = BoundedRational::from_bigint(BigInt::from(self));
        BoundedRational::sum_of(&a, &(&other).negated())
    }
}

impl vstd::std_specs::ops::SubSpecImpl<BoundedRational> for usize {
    open spec fn obeys_sub_spec() -> bool {
        false
    }

    open spec fn sub_req(self, rhs: BoundedRational) -> bool {
        true
    }

    open spec fn sub_spec(self, rhs: BoundedRational) -> BoundedRational {
        arbitrary()
    }
}

/// `&usize - BoundedRational`.
impl<'a> core::ops::Sub<BoundedRational> for &'a usize {
    type Output = BoundedRational;

    fn sub(self, other: BoundedRational) -> (r: BoundedRational)
        ensures
            op_sum_result((*self as int, 1int), rat_neg(other@), r@),
    {
        let a = BoundedRational::from_bigint(BigInt::from(*self));
        BoundedRational::sum_of(&a, &(&other).negated())
    }
}

impl<'a> vstd::std_specs::ops::SubSpecImpl<BoundedRational> for &'a usize {
    open spec fn obeys_sub_spec() -> bool {
        false
    }

    open spec fn sub_req(self, rhs: BoundedRational) -> bool {
        true
    }

    open spec fn sub_spec(self, rhs: BoundedRational) -> BoundedRational {
        arbitrary()
    }
}

/// `usize - &BoundedRational`.
impl<'a> core::ops::Sub<&'a BoundedRational> for usize {
    type Output = BoundedRational;

    fn sub(self, other: &'a BoundedRational) -> (r: BoundedRational)
        ensures
            op_sum_result((self as int, 1int), rat_neg(other@), r@),
    {
        let a = BoundedRational::from_bigint(BigInt::from(self));
        BoundedRational::sum_of(&a, &(other).negated())
    }
}

impl<'a> vstd::std_specs::ops::SubSpecImpl<&'a BoundedRational> for usize {
    open spec fn obeys_sub_spec() -> bool {
        false
    }

    open spec fn sub_req(self, rhs: &'a BoundedRational) -> bool {
        true
    }

    open spec fn sub_spec(self, rhs: &'a BoundedRational) -> BoundedRational {
        arbitrary()
    }
}

/// `&usize - &BoundedRational`.
impl<'a, 'b> core::ops::Sub<&'b BoundedRational> for &'a usize {
    type Output = BoundedRational;

    fn sub(self, other: &'b BoundedRational) -> (r: BoundedRational)
        ensures
            op_sum_result((*self as int, 1int), rat_neg(other@), r@),
    {
        let a = BoundedRational::from_bigint(BigInt::from(*self));
        BoundedRational::sum_of(&a, &(other).negated())
    }
}

impl<'a, 'b> vstd::std_specs::ops::SubSpecImpl<&'b BoundedRational> for &'a usize {
    open spec fn obeys_sub_spec() -> bool {
        false
    }

    open spec fn sub_req(self, rhs: &'b BoundedRational) -> bool {
        true
    }

    open spec fn sub_spec(self, rhs: &'b BoundedRational) -> BoundedRational {
        arbitrary()
    }
}

/// `BoundedRational -= usize`.
impl core::ops::SubAssign<usize> for BoundedRational {
    fn sub_assign(&mut self, other: usize)
        ensures
            op_sum_result(old(self)@, rat_neg((other as int, 1int)), final(self)@),
    {
        let b = BoundedRational::from_bigint(BigInt::from(other));
        let v = BoundedRational::sum_of(self, &(&b).negated());
        *self = v;
    }
}

/// `BoundedRational -= &usize`.
impl<'a> core::ops::SubAssign<&'a usize> for BoundedRational {
    fn sub_assign(&mut self, other: &'a usize)
        ensures
            op_sum_result(old(self)@, rat_neg((*other as int, 1int)), final(self)@),
    {
        let b = BoundedRational::from_bigint(BigInt::from(*other));
        let v = BoundedRational::sum_of(self, &(&b).negated());
        *self = v;
    }
}

// Subtraction with `i8`.

/// `BoundedRational - i8`.
impl core::ops::Sub<i8> for BoundedRational {
    type Output = BoundedRational;

    fn sub(self, other: i8) -> (r: BoundedRational)
        ensures
            op_sum_result(self@, rat_neg((other as int, 1int)), r@),
    {
        let b = BoundedRational::from_bigint(BigInt::from(other));
        BoundedRational::sum_of(&self, &(&b).negated())
    }
}

impl vstd::std_specs::ops::SubSpecImpl<i8> for BoundedRational {
    open spec fn obeys_sub_spec() -> bool {
        false
    }

    open spec fn sub_req(self, rhs: i8) -> bool {
        true
    }

    open spec fn sub_spec(self, rhs: i8) -> BoundedRational {
        arbitrary()
    }
}

/// `BoundedRational - &i8`.
impl<'a> core::ops::Sub<&'a i8> for BoundedRational {
    type Output = BoundedRational;

    fn sub(self, other: &'a i8) -> (r: BoundedRational)
        ensures
            op_sum_result(self@, rat_neg((*other as int, 1int)), r@),
    {
        let b = BoundedRational::from_bigint(BigInt::from(*other));
        BoundedRational::sum_of(&self, &(&b).negated())
    }
}

impl<'a> vstd::std_specs::ops::SubSpecImpl<&'a i8> for BoundedRational {
    open spec fn obeys_sub_spec() -> bool {
        false
    }

    open spec fn sub_req(self, rhs: &'a i8) -> bool {
        true
    }

    open spec fn sub_spec(self, rhs: &'a i8) -> BoundedRational {
        arbitrary()
    }
}

/// `&BoundedRational - i8`.
impl<'a> core::ops::Sub<i8> for &'a BoundedRational {
    type Output = BoundedRational;

    fn sub(self, other: i8) -> (r: BoundedRational)
        ensures
            op_sum_result(self@, rat_neg((other as int, 1int)), r@),
    {
        let b = BoundedRational::from_bigint(BigInt::from(other));
        BoundedRational::sum_of(self, &(&b).negated())
    }
}

impl<'a> vstd::std_specs::ops::SubSpecImpl<i8> for &'a BoundedRational {
    open spec fn obeys_sub_spec() -> bool {
        false
    }

    open spec fn sub_req(self, rhs: i8) -> bool {
        true
    }

    open spec fn sub_spec(self, rhs: i8) -> BoundedRational {
        arbitrary()
    }
}

/// `&BoundedRational - &i8`.
impl<'a, 'b> core::ops::Sub<&'b i8> for &'a BoundedRational {
    type Output = BoundedRational;

    fn sub(self, other: &'b i8) -> (r: BoundedRational)
        ensures
            op_sum_result(self@, rat_neg((*other as int, 1int)), r@),
    {
        let b = BoundedRational::from_bigint(BigInt::from(*other));
        BoundedRational::sum_of(self, &(&b).negated())
    }
}

impl<'a, 'b> vstd::std_specs::ops::SubSpecImpl<&'b i8> for &'a BoundedRational {
    open spec fn obeys_sub_spec() -> bool {
        false
    }

    open spec fn sub_req(self, rhs: &'b i8) -> bool {
        true
    }

    open spec fn sub_spec(self, rhs: &'b i8) -> BoundedRational {
        arbitrary()
    }
}

/// `i8 - BoundedRational`.
impl core::ops::Sub<BoundedRational> for i8 {
    type Output = BoundedRational;

    fn sub(self, other: BoundedRational) -> (r: BoundedRational)
        ensures
            op_sum_result((self as int, 1int), rat_neg(other@), r@),
    {
        let a = BoundedRational::from_bigint(BigInt::from(self));
        BoundedRational::sum_of(&a, &(&other).negated())
    }
}

impl vstd::std_specs::ops::SubSpecImpl<BoundedRational> for i8 {
    open spec fn obeys_sub_spec() -> bool {
        false
    }

    open spec fn sub_req(self, rhs: BoundedRational) -> bool {
        true
    }

    open spec fn sub_spec(self, rhs: BoundedRational) -> BoundedRational {
        arbitrary()
    }
}

/// `&i8 - BoundedRational`.
impl<'a> core::ops::Sub<BoundedRational> for &'a i8 {
    type Output = BoundedRational;

    fn sub(self, other: BoundedRational) -> (r: BoundedRational)
        ensures
            op_sum_result((*self as int, 1int), rat_neg(other@), r@),
    {
        let a = BoundedRational::from_bigint(BigInt::from(*self));
        BoundedRational::sum_of(&a, &(&other).negated())
    }
}

impl<'a> vstd::std_specs::ops::SubSpecImpl<BoundedRational> for &'a i8 {
    open spec fn obeys_sub_spec() -> bool {
        false
    }

    open spec fn sub_req(self, rhs: BoundedRational) -> bool {
        true
    }

    open spec fn sub_spec(self, rhs: BoundedRational) -> BoundedRational {
        arbitrary()
    }
}

/// `i8 - &BoundedRational`.
impl<'a> core::ops::Sub<&'a BoundedRational> for i8 {
    type Output = BoundedRational;

    fn sub(self, other: &'a BoundedRational) -> (r: BoundedRational)
        ensures
            op_sum_result((self as int, 1int), rat_neg(other@), r@),
    {
        let a = BoundedRational::from_bigint(BigInt::from(self));
        BoundedRational::sum_of(&a, &(other).negated())
    }
}

impl<'a> vstd::std_specs::ops::SubSpecImpl<&'a BoundedRational> for i8 {
    open spec fn obeys_sub_spec() -> bool {
        false
    }

    open spec fn sub_req(self, rhs: &'a BoundedRational) -> bool {
        true
    }

    open spec fn sub_spec(self, rhs: &'a BoundedRational) -> BoundedRational {
        arbitrary()
    }
}

/// `&i8 - &BoundedRational`.
impl<'a, 'b> core::ops::Sub<&'b BoundedRational> for &'a i8 {
    type Output = BoundedRational;

    fn sub(self, other: &'b BoundedRational) -> (r: BoundedRational)
        ensures
            op_sum_result((*self as int, 1int), rat_neg(other@), r@),
    {
        let a = BoundedRational::from_bigint(BigInt::from(*self));
        BoundedRational::sum_of(&a, &(other).negated())
    }
}

impl<'a, 'b> vstd::std_specs::ops::SubSpecImpl<&'b BoundedRational> for &'a i8 {
    open spec fn obeys_sub_spec() -> bool {
        false
    }

    open spec fn sub_req(self, rhs: &'b BoundedRational) -> bool {
        true
    }

    open spec fn sub_spec(self, rhs: &'b BoundedRational) -> BoundedRational {
        arbitrary()
    }
}

/// `BoundedRational -= i8`.
impl core::ops::SubAssign<i8> for BoundedRational {
    fn sub_assign(&mut self, other: i8)
        ensures
            op_sum_result(old(self)@, rat_neg((other as int, 1int)), final(self)@),
    {
        let b = BoundedRational::from_bigint(BigInt::from(other));
        let v = BoundedRational::sum_of(self, &(&b).negated());
        *self = v;
    }
}

/// `BoundedRational -= &i8`.
impl<'a> core::ops::SubAssign<&'a i8> for BoundedRational {
    fn sub_assign(&mut self, other: &'a i8)
        ensures
            op_sum_result(old(self)@, rat_neg((*other as int, 1int)), final(self)@),
    {
        let b = BoundedRational::from_bigint(BigInt::from(*other));
        let v = BoundedRational::sum_of(self, &(&b).negated());
        *self = v;
    }
}

// Subtraction with `i16`.

/// `BoundedRational - i16`.
impl core::ops::Sub<i16> for BoundedRational {
    type Output = BoundedRational;

    fn sub(self, other: i16) -> (r: BoundedRational)
        ensures
            op_sum_result(self@, rat_neg((other as int, 1int)), r@),
    {
        let b = BoundedRational::from_bigint(BigInt::from(other));
        BoundedRational::sum_of(&self, &(&b).negated())
    }
}

impl vstd::std_specs::ops::SubSpecImpl<i16> for BoundedRational {
    open spec fn obeys_sub_spec() -> bool {
        false
    }

    open spec fn sub_req(self, rhs: i16) -> bool {
        true
    }

    open spec fn sub_spec(self, rhs: i16) -> BoundedRational {
        arbitrary()
    }
}

/// `BoundedRational - &i16`.
impl<'a> core::ops::Sub<&'a i16> for BoundedRational {
    type Output = BoundedRational;

    fn sub(self, other: &'a i16) -> (r: BoundedRational)
        ensures
            op_sum_result(self@, rat_neg((*other as int, 1int)), r@),
    {
        let b = BoundedRational::from_bigint(BigInt::from(*other));
        BoundedRational::sum_of(&self, &(&b).negated())
    }
}

impl<'a> vstd::std_specs::ops::SubSpecImpl<&'a i16> for BoundedRational {
    open spec fn obeys_sub_spec() -> bool {
        false
    }

    open spec fn sub_req(self, rhs: &'a i16) -> bool {
        true
    }

    open spec fn sub_spec(self, rhs: &'a i16) -> BoundedRational {
        arbitrary()
    }
}

/// `&BoundedRational - i16`.
impl<'a> core::ops::Sub<i16> for &'a BoundedRational {
    type Output = BoundedRational;

    fn sub(self, other: i16) -> (r: BoundedRational)
        ensures
            op_sum_result(self@, rat_neg((other as int, 1int)), r@),
    {
        let b = BoundedRational::from_bigint(BigInt::from(other));
        BoundedRational::sum_of(self, &(&b).negated())
    }
}

impl<'a> vstd::std_specs::ops::SubSpecImpl<i16> for &'a BoundedRational {
    open spec fn obeys_sub_spec() -> bool {
        false
    }

    open spec fn sub_req(self, rhs: i16) -> bool {
        true
    }

    open spec fn sub_spec(self, rhs: i16) -> BoundedRational {
        arbitrary()
    }
}

/// `&BoundedRational - &i16`.
impl<'a, 'b> core::ops::Sub<&'b i16> for &'a BoundedRational {
    type Output = BoundedRational;

    fn sub(self, other: &'b i16) -> (r: BoundedRational)
        ensures
            op_sum_result(self@, rat_neg((*other as int, 1int)), r@),
    {
        let b = BoundedRational::from_bigint(BigInt::from(*other));
        BoundedRational::sum_of(self, &(&b).negated())
    }
}

impl<'a, 'b> vstd::std_specs::ops::SubSpecImpl<&'b i16> for &'a BoundedRational {
    open spec fn obeys_sub_spec() -> bool {
        false
    }

    open spec fn sub_req(self, rhs: &'b i16) -> bool {
        true
    }

    open spec fn sub_spec(self, rhs: &'b i16) -> BoundedRational {
        arbitrary()
    }
}

/// `i16 - BoundedRational`.
impl core::ops::Sub<BoundedRational> for i16 {
    type Output = BoundedRational;

    fn sub(self, other: BoundedRational) -> (r: BoundedRational)
        ensures
            op_sum_result((self as int, 1int), rat_neg(other@), r@),
    {
        let a = BoundedRational::from_bigint(BigInt::from(self));
        BoundedRational::sum_of(&a, &(&other).negated())
    }
}

impl vstd::std_specs::ops::SubSpecImpl<BoundedRational> for i16 {
    open spec fn obeys_sub_spec() -> bool {
        false
    }

    open spec fn sub_req(self, rhs: BoundedRational) -> bool {
        true
    }

    open spec fn sub_spec(self, rhs: BoundedRational) -> BoundedRational {
        arbitrary()
    }
}

/// `&i16 - BoundedRational`.
impl<'a> core::ops::Sub<BoundedRational> for &'a i16 {
    type Output = BoundedRational;

    fn sub(self, other: BoundedRational) -> (r: BoundedRational)
        ensures
            op_sum_result((*self as int, 1int), rat_neg(other@), r@),
    {
        let a = BoundedRational::from_bigint(BigInt::from(*self));
        BoundedRational::sum_of(&a, &(&other).negated())
    }
}

impl<'a> vstd::std_specs::ops::SubSpecImpl<BoundedRational> for &'a i16 {
    open spec fn obeys_sub_spec() -> bool {
        false
    }

    open spec fn sub_req(self, rhs: BoundedRational) -> bool {
        true
    }

    open spec fn sub_spec(self, rhs: BoundedRational) -> BoundedRational {
        arbitrary()
    }
}

/// `i16 - &BoundedRational`.
impl<'a> core::ops::Sub<&'a BoundedRational> for i16 {
    type Output = BoundedRational;

    fn sub(self, other: &'a BoundedRational) -> (r: BoundedRational)
        ensures
            op_sum_result((self as int, 1int), rat_neg(other@), r@),
    {
        let a = BoundedRational::from_bigint(BigInt::from(self));
        BoundedRational::sum_of(&a, &(other).negated())
    }
}

impl<'a> vstd::std_specs::ops::SubSpecImpl<&'a BoundedRational> for i16 {
    open spec fn obeys_sub_spec() -> bool {
        false
    }

    open spec fn sub_req(self, rhs: &'a BoundedRational) -> bool {
        true
    }

    open spec fn sub_spec(self, rhs: &'a BoundedRational) -> BoundedRational {
        arbitrary()
    }
}

/// `&i16 - &BoundedRational`.
impl<'a, 'b> core::ops::Sub<&'b BoundedRational> for &'a i16 {
    type Output = BoundedRational;

    fn sub(self, other: &'b BoundedRational) -> (r: BoundedRational)
        ensures
            op_sum_result((*self as int, 1int), rat_neg(other@), r@),
    {
        let a = BoundedRational::from_bigint(BigInt::from(*self));
        BoundedRational::sum_of(&a, &(other).negated())
    }
}

impl<'a, 'b> vstd::std_specs::ops::SubSpecImpl<&'b BoundedRational> for &'a i16 {
    open spec fn obeys_sub_spec() -> bool {
        false
    }

    open spec fn sub_req(self, rhs: &'b BoundedRational) -> bool {
        true
    }

    open spec fn sub_spec(self, rhs: &'b BoundedRational) -> BoundedRational {
        arbitrary()
    }
}

/// `BoundedRational -= i16`.
impl core::ops::SubAssign<i16> for BoundedRational {
    fn sub_assign(&mut self, other: i16)
        ensures
            op_sum_result(old(self)@, rat_neg((other as int, 1int)), final(self)@),
    {
        let b = BoundedRational::from_bigint(BigInt::from(other));
        let v = BoundedRational::sum_of(self, &(&b).negated());
        *self = v;
    }
}

/// `BoundedRational -= &i16`.
impl<'a> core::ops::SubAssign<&'a i16> for BoundedRational {
    fn sub_assign(&mut self, other: &'a i16)
        ensures
            op_sum_result(old(self)@, rat_neg((*other as int, 1int)), final(self)@),
    {
        let b = BoundedRational::from_bigint(BigInt::from(*other));
        let v = BoundedRational::sum_of(self, &(&b).negated());
        *self = v;
    }
}

// Subtraction with `i32`.

/// `BoundedRational - i32`.
impl core::ops::Sub<i32> for BoundedRational {
    type Output = BoundedRational;

    fn sub(self, other: i32) -> (r: BoundedRational)
        ensures
            op_sum_result(self@, rat_neg((other as int, 1int)), r@),
    {
        let b = BoundedRational::from_bigint(BigInt::from(other));
        BoundedRational::sum_of(&self, &(&b).negated())
    }
}

impl vstd::std_specs::ops::SubSpecImpl<i32> for BoundedRational {
    open spec fn obeys_sub_spec() -> bool {
        false
    }

    open spec fn sub_req(self, rhs: i32) -> bool {
        true
    }

    open spec fn sub_spec(self, rhs: i32) -> BoundedRational {
        arbitrary()
    }
}

/// `BoundedRational - &i32`.
impl<'a> core::ops::Sub<&'a i32> for BoundedRational {
    type Output = BoundedRational;

    fn sub(self, other: &'a i32) -> (r: BoundedRational)
        ensures
            op_sum_result(self@, rat_neg((*other as int, 1int)), r@),
    {
        let b = BoundedRational::from_bigint(BigInt::from(*other));
        BoundedRational::sum_of(&self, &(&b).negated())
    }
}

impl<'a> vstd::std_specs::ops::SubSpecImpl<&'a i32> for BoundedRational {
    open spec fn obeys_sub_spec() -> bool {
        false
    }

    open spec fn sub_req(self, rhs: &'a i32) -> bool {
        true
    }

    open spec fn sub_spec(self, rhs: &'a i32) -> BoundedRational {
        arbitrary()
    }
}

/// `&BoundedRational - i32`.
impl<'a> core::ops::Sub<i32> for &'a BoundedRational {
    type Output = BoundedRational;

    fn sub(self, other: i32) -> (r: BoundedRational)
        ensures
            op_sum_result(self@, rat_neg((other as int, 1int)), r@),
    {
        let b = BoundedRational::from_bigint(BigInt::from(other));
        BoundedRational::sum_of(self, &(&b).negated())
    }
}

impl<'a> vstd::std_specs::ops::SubSpecImpl<i32> for &'a BoundedRational {
    open spec fn obeys_sub_spec() -> bool {
        false
    }

    open spec fn sub_req(self, rhs: i32) -> bool {
        true
    }

    open spec fn sub_spec(self, rhs: i32) -> BoundedRational {
        arbitrary()
    }
}

/// `&BoundedRational - &i32`.
impl<'a, 'b> core::ops::Sub<&'b i32> for &'a BoundedRational {
    type Output = BoundedRational;

    fn sub(self, other: &'b i32) -> (r: BoundedRational)
        ensures
            op_sum_result(self@, rat_neg((*other as int, 1int)), r@),
    {
        let b = BoundedRational::from_bigint(BigInt::from(*other));
        BoundedRational::sum_of(self, &(&b).negated())
    }
}

impl<'a, 'b> vstd::std_specs::ops::SubSpecImpl<&'b i32> for &'a BoundedRational {
    open spec fn obeys_sub_spec() -> bool {
        false
    }

    open spec fn sub_req(self, rhs: &'b i32) -> bool {
        true
    }

    open spec fn sub_spec(self, rhs: &'b i32) -> BoundedRational {
        arbitrary()
    }
}

/// `i32 - BoundedRational`.
impl core::ops::Sub<BoundedRational> for i32 {
    type Output = BoundedRational;

    fn sub(self, other: BoundedRational) -> (r: BoundedRational)
        ensures
            op_sum_result((self as int, 1int), rat_neg(other@), r@),
    {
        let a = BoundedRational::from_bigint(BigInt::from(self));
        BoundedRational::sum_of(&a, &(&other).negated())
    }
}

impl vstd::std_specs::ops::SubSpecImpl<BoundedRational> for i32 {
    open spec fn obeys_sub_spec() -> bool {
        false
    }

    open spec fn sub_req(self, rhs: BoundedRational) -> bool {
        true
    }

    open spec fn sub_spec(self, rhs: BoundedRational) -> BoundedRational {
        arbitrary()
    }
}

/// `&i32 - BoundedRational`.
impl<'a> core::ops::Sub<BoundedRational> for &'a i32 {
    type Output = BoundedRational;

    fn sub(self, other: BoundedRational) -> (r: BoundedRational)
        ensures
            op_sum_result((*self as int, 1int), rat_neg(other@), r@),
    {
        let a = BoundedRational::from_bigint(BigInt::from(*self));
        BoundedRational::sum_of(&a, &(&other).negated())
    }
}

impl<'a> vstd::std_specs::ops::SubSpecImpl<BoundedRational> for &'a i32 {
    open spec fn obeys_sub_spec() -> bool {
        false
    }

    open spec fn sub_req(self, rhs: BoundedRational) -> bool {
        true
    }

    open spec fn sub_spec(self, rhs: BoundedRational) -> BoundedRational {
        arbitrary()
    }
}

/// `i32 - &BoundedRational`.
impl<'a> core::ops::Sub<&'a BoundedRational> for i32 {
    type Output = BoundedRational;

    fn sub(self, other: &'a BoundedRational) -> (r: BoundedRational)
        ensures
            op_sum_result((self as int, 1int), rat_neg(other@), r@),
    {
        let a = BoundedRational::from_bigint(BigInt::from(self));
        BoundedRational::sum_of(&a, &(other).negated())
    }
}

impl<'a> vstd::std_specs::ops::SubSpecImpl<&'a BoundedRational> for i32 {
    open spec fn obeys_sub_spec() -> bool {
        false
    }

    open spec fn sub_req(self, rhs: &'a BoundedRational) -> bool {
        true
    }

    open spec fn sub_spec(self, rhs: &'a BoundedRational) -> BoundedRational {
        arbitrary()
    }
}

/// `&i32 - &BoundedRational`.
impl<'a, 'b> core::ops::Sub<&'b BoundedRational> for &'a i32 {
    type Output = BoundedRational;

    fn sub(self, other: &'b BoundedRational) -> (r: BoundedRational)
        ensures
            op_sum_result((*self as int, 1int), rat_neg(other@), r@),
    {
        let a = BoundedRational::from_bigint(BigInt::from(*self));
        BoundedRational::sum_of(&a, &(other).negated())
    }
}

impl<'a, 'b> vstd::std_specs::ops::SubSpecImpl<&'b BoundedRational> for &'a i32 {
    open spec fn obeys_sub_spec() -> bool {
        false
    }

    open spec fn sub_req(self, rhs: &'b BoundedRational) -> bool {
        true
    }

    open spec fn sub_spec(self, rhs: &'b BoundedRational) -> BoundedRational {
        arbitrary()
    }
}

/// `BoundedRational -= i32`.
impl core::ops::SubAssign<i32> for BoundedRational {
    fn sub_assign(&mut self, other: i32)
        ensures
            op_sum_result(old(self)@, rat_neg((other as int, 1int)), final(self)@),
    {
        let b = BoundedRational::from_bigint(BigInt::from(other));
        let v = BoundedRational::sum_of(self, &(&b).negated());
        *self = v;
    }
}

/// `BoundedRational -= &i32`.
impl<'a> core::ops::SubAssign<&'a i32> for BoundedRational {
    fn sub_assign(&mut self, other: &'a i32)
        ensures
            op_sum_result(old(self)@, rat_neg((*other as int, 1int)), final(self)@),
    {
        let b = BoundedRational::from_bigint(BigInt::from(*other));
        let v = BoundedRational::sum_of(self, &(&b).negated());
        *self = v;
    }
}

// Subtraction with `i64`.

/// `BoundedRational - i64`.
impl core::ops::Sub<i64> for BoundedRational {
    type Output = BoundedRational;

    fn sub(self, other: i64) -> (r: BoundedRational)
        ensures
            op_sum_result(self@, rat_neg((other as int, 1int)), r@),
    {
        let b = BoundedRational::from_bigint(BigInt::from(other));
        BoundedRational::sum_of(&self, &(&b).negated())
    }
}

impl vstd::std_specs::ops::SubSpecImpl<i64> for BoundedRational {
    open spec fn obeys_sub_spec() -> bool {
        false
    }

    open spec fn sub_req(self, rhs: i64) -> bool {
        true
    }

    open spec fn sub_spec(self, rhs: i64) -> BoundedRational {
        arbitrary()
    }
}

/// `BoundedRational - &i64`.
impl<'a> core::ops::Sub<&'a i64> for BoundedRational {
    type Output = BoundedRational;

    fn sub(self, other: &'a i64) -> (r: BoundedRational)
        ensures
            op_sum_result(self@, rat_neg((*other as int, 1int)), r@),
    {
        let b = BoundedRational::from_bigint(BigInt::from(*other));
        BoundedRational::sum_of(&self, &(&b).negated())
    }
}

impl<'a> vstd::std_specs::ops::SubSpecImpl<&'a i64> for BoundedRational {
    open spec fn obeys_sub_spec() -> bool {
        false
    }

    open spec fn sub_req(self, rhs: &'a i64) -> bool {
        true
    }

    open spec fn sub_spec(self, rhs: &'a i64) -> BoundedRational {
        arbitrary()
    }
}

/// `&BoundedRational - i64`.
impl<'a> core::ops::Sub<i64> for &'a BoundedRational {
    type Output = BoundedRational;

    fn sub(self, other: i64) -> (r: BoundedRational)
        ensures
            op_sum_result(self@, rat_neg((other as int, 1int)), r@),
    {
        let b = BoundedRational::from_bigint(BigInt::from(other));
        BoundedRational::sum_of(self, &(&b).negated())
    }
}

impl<'a> vstd::std_specs::ops::SubSpecImpl<i64> for &'a BoundedRational {
    open spec fn obeys_sub_spec() -> bool {
        false
    }

    open spec fn sub_req(self, rhs: i64) -> bool {
        true
    }

    open spec fn sub_spec(self, rhs: i64) -> BoundedRational {
        arbitrary()
    }
}

/// `&BoundedRational - &i64`.
impl<'a, 'b> core::ops::Sub<&'b i64> for &'a BoundedRational {
    type Output = BoundedRational;

    fn sub(self, other: &'b i64) -> (r: BoundedRational)
        ensures
            op_sum_result(self@, rat_neg((*other as int, 1int)), r@),
    {
        let b = BoundedRational::from_bigint(BigInt::from(*other));
        BoundedRational::sum_of(self, &(&b).negated())
    }
}

impl<'a, 'b> vstd::std_specs::ops::SubSpecImpl<&'b i64> for &'a BoundedRational {
    open spec fn obeys_sub_spec() -> bool {
        false
    }

    open spec fn sub_req(self, rhs: &'b i64) -> bool {
        true
    }

    open spec fn sub_spec(self, rhs: &'b i64) -> BoundedRational {
        arbitrary()
    }
}

/// `i64 - BoundedRational`.
impl core::ops::Sub<BoundedRational> for i64 {
    type Output = BoundedRational;

    fn sub(self, other: BoundedRational) -> (r: BoundedRational)
        ensures
            op_sum_result((self as int, 1int), rat_neg(other@), r@),
    {
        let a = BoundedRational::from_bigint(BigInt::from(self));
        BoundedRational::sum_of(&a, &(&other).negated())
    }
}

impl vstd::std_specs::ops::SubSpecImpl<BoundedRational> for i64 {
    open spec fn obeys_sub_spec() -> bool {
        false
    }

    open spec fn sub_req(self, rhs: BoundedRational) -> bool {
        true
    }

    open spec fn sub_spec(self, rhs: BoundedRational) -> BoundedRational {
        arbitrary()
    }
}

/// `&i64 - BoundedRational`.
impl<'a> core::ops::Sub<BoundedRational> for &'a i64 {
    type Output = BoundedRational;

    fn sub(self, other: BoundedRational) -> (r: BoundedRational)
        ensures
            op_sum_result((*self as int, 1int), rat_neg(other@), r@),
    {
        let a = BoundedRational::from_bigint(BigInt::from(*self));
        BoundedRational::sum_of(&a, &(&other).negated())
    }
}

impl<'a> vstd::std_specs::ops::SubSpecImpl<BoundedRational> for &'a i64 {
    open spec fn obeys_sub_spec() -> bool {
        false
    }

    open spec fn sub_req(self, rhs: BoundedRational) -> bool {
        true
    }

    open spec fn sub_spec(self, rhs: BoundedRational) -> BoundedRational {
        arbitrary()
    }
}

/// `i64 - &BoundedRational`.
impl<'a> core::ops::Sub<&'a BoundedRational> for i64 {
    type Output = BoundedRational;

    fn sub(self, other: &'a BoundedRational) -> (r: BoundedRational)
        ensures
            op_sum_result((self as int, 1int), rat_neg(other@), r@),
    {
        let a = BoundedRational::from_bigint(BigInt::from(self));
        BoundedRational::sum_of(&a, &(other).negated())
    }
}

impl<'a> vstd::std_specs::ops::SubSpecImpl<&'a BoundedRational> for i64 {
    open spec fn obeys_sub_spec() -> bool {
        false
    }

    open spec fn sub_req(self, rhs: &'a BoundedRational) -> bool {
        true
    }

    open spec fn sub_spec(self, rhs: &'a BoundedRational) -> BoundedRational {
        arbitrary()
    }
}

/// `&i64 - &BoundedRational`.
impl<'a, 'b> core::ops::Sub<&'b BoundedRational> for &'a i64 {
    type Output = BoundedRational;

    fn sub(self, other: &'b BoundedRational) -> (r: BoundedRational)
        ensures
            op_sum_result((*self as int, 1int), rat_neg(other@), r@),
    {
        let a = BoundedRational::from_bigint(BigInt::from(*self));
        BoundedRational::sum_of(&a, &(other).negated())
    }
}

impl<'a, 'b> vstd::std_specs::ops::SubSpecImpl<&'b BoundedRational> for &'a i64 {
    open spec fn obeys_sub_spec() -> bool {
        false
    }

    open spec fn sub_req(self, rhs: &'b BoundedRational) -> bool {
        true
    }

    open spec fn sub_spec(self, rhs: &'b BoundedRational) -> BoundedRational {
        arbitrary()
    }
}

/// `BoundedRational -= i64`.
impl core::ops::SubAssign<i64> for BoundedRational {
    fn sub_assign(&mut self, other: i64)
        ensures
            op_sum_result(old(self)@, rat_neg((other as int, 1int)), final(self)@),
    {
        let b = BoundedRational::from_bigint(BigInt::from(other));
        let v = BoundedRational::sum_of(self, &(&b).negated());
        *self = v;
    }
}

/// `BoundedRational -= &i64`.
impl<'a> core::ops::SubAssign<&'a i64> for BoundedRational {
    fn sub_assign(&mut self, other: &'a i64)
        ensures
            op_sum_result(old(self)@, rat_neg((*other as int, 1int)), final(self)@),
    {
        let b = BoundedRational::from_bigint(BigInt::from(*other));
        let v = BoundedRational::sum_of(self, &(&b).negated());
        *self = v;
    }
}

// Subtraction with `i128`.

/// `BoundedRational - i128`.
impl core::ops::Sub<i128> for BoundedRational {
    type Output = BoundedRational;

    fn sub(self, other: i128) -> (r: BoundedRational)
        ensures
            op_sum_result(self@, rat_neg((other as int, 1int)), r@),
    {
        let b = BoundedRational::from_bigint(BigInt::from(other));
        BoundedRational::sum_of(&self, &(&b).negated())
    }
}

impl vstd::std_specs::ops::SubSpecImpl<i128> for BoundedRational {
    open spec fn obeys_sub_spec() -> bool {
        false
    }

    open spec fn sub_req(self, rhs: i128) -> bool {
        true
    }

    open spec fn sub_spec(self, rhs: i128) -> BoundedRational {
        arbitrary()
    }
}

/// `BoundedRational - &i128`.
impl<'a> core::ops::Sub<&'a i128> for BoundedRational {
    type Output = BoundedRational;

    fn sub(self, other: &'a i128) -> (r: BoundedRational)
        ensures
            op_sum_result(self@, rat_neg((*other as int, 1int)), r@),
    {
        let b = BoundedRational::from_bigint(BigInt::from(*other));
        BoundedRational::sum_of(&self, &(&b).negated())
    }
}

impl<'a> vstd::std_specs::ops::SubSpecImpl<&'a i128> for BoundedRational {
    open spec fn obeys_sub_spec() -> bool {
        false
    }

    open spec fn sub_req(self, rhs: &'a i128) -> bool {
        true
    }

    open spec fn sub_spec(self, rhs: &'a i128) -> BoundedRational {
        arbitrary()
    }
}

/// `&BoundedRational - i128`.
impl<'a> core::ops::Sub<i128> for &'a BoundedRational {
    type Output = BoundedRational;

    fn sub(self, other: i128) -> (r: BoundedRational)
        ensures
            op_sum_result(self@, rat_neg((other as int, 1int)), r@),
    {
        let b = BoundedRational::from_bigint(BigInt::from(other));
        BoundedRational::sum_of(self, &(&b).negated())
    }
}

impl<'a> vstd::std_specs::ops::SubSpecImpl<i128> for &'a BoundedRational {
    open spec fn obeys_sub_spec() -> bool {
        false
    }

    open spec fn sub_req(self, rhs: i128) -> bool {
        true
    }

    open spec fn sub_spec(self, rhs: i128) -> BoundedRational {
        arbitrary()
    }
}

/// `&BoundedRational - &i128`.
impl<'a, 'b> core::ops::Sub<&'b i128> for &'a BoundedRational {
    type Output = BoundedRational;

    fn sub(self, other: &'b i128) -> (r: BoundedRational)
        ensures
            op_sum_result(self@, rat_neg((*other as int, 1int)), r@),
    {
        let b = BoundedRational::from_bigint(BigInt::from(*other));
        BoundedRational::sum_of(self, &(&b).negated())
    }
}

impl<'a, 'b> vstd::std_specs::ops::SubSpecImpl<&'b i128> for &'a BoundedRational {
    open spec fn obeys_sub_spec() -> bool {
        false
    }

    open spec fn sub_req(self, rhs: &'b i128) -> bool {
        true
    }

    open spec fn sub_spec(self, rhs: &'b i128) -> BoundedRational {
        arbitrary()
    }
}

/// `i128 - BoundedRational`.
impl core::ops::Sub<BoundedRational> for i128 {
    type Output = BoundedRational;

    fn sub(self, other: BoundedRational) -> (r: BoundedRational)
        ensures
            op_sum_result((self as int, 1int), rat_neg(other@), r@),
    {
        let a = BoundedRational::from_bigint(BigInt::from(self));
        BoundedRational::sum_of(&a, &(&other).negated())
    }
}

impl vstd::std_specs::ops::SubSpecImpl<BoundedRational> for i128 {
    open spec fn obeys_sub_spec() -> bool {
        false
    }

    open spec fn sub_req(self, rhs: BoundedRational) -> bool {
        true
    }

    open spec fn sub_spec(self, rhs: BoundedRational) -> BoundedRational {
        arbitrary()
    }
}

/// `&i128 - BoundedRational`.
impl<'a> core::ops::Sub<BoundedRational> for &'a i128 {
    type Output = BoundedRational;

    fn sub(self, other: BoundedRational) -> (r: BoundedRational)
        ensures
            op_sum_result((*self as int, 1int), rat_neg(other@), r@),
    {
        let a = BoundedRational::from_bigint(BigInt::from(*self));
        BoundedRational::sum_of(&a, &(&other).negated())
    }
}

impl<'a> vstd::std_specs::ops::SubSpecImpl<BoundedRational> for &'a i128 {
    open spec fn obeys_sub_spec() -> bool {
        false
    }

    open spec fn sub_req(self, rhs: BoundedRational) -> bool {
        true
    }

    open spec fn sub_spec(self, rhs: BoundedRational) -> BoundedRational {
        arbitrary()
    }
}

/// `i128 - &BoundedRational`.
impl<'a> core::ops::Sub<&'a BoundedRational> for i128 {
    type Output = BoundedRational;

    fn sub(self, other: &'a BoundedRational) -> (r: BoundedRational)
        ensures
            op_sum_result((self as int, 1int), rat_neg(other@), r@),
    {
        let a = BoundedRational::from_bigint(BigInt::from(self));
        BoundedRational::sum_of(&a, &(other).negated())
    }
}

impl<'a> vstd::std_specs::ops::SubSpecImpl<&'a BoundedRational> for i128 {
    open spec fn obeys_sub_spec() -> bool {
        false
    }

    open spec fn sub_req(self, rhs: &'a BoundedRational) -> bool {
        true
    }

    open spec fn sub_spec(self, rhs: &'a BoundedRational) -> BoundedRational {
        arbitrary()
    }
}

/// `&i128 - &BoundedRational`.
impl<'a, 'b> core::ops::Sub<&'b BoundedRational> for &'a i128 {
    type Output = BoundedRational;

    fn sub(self, other: &'b BoundedRational) -> (r: BoundedRational)
        ensures
            op_sum_result((*self as int, 1int), rat_neg(other@), r@),
    {
        let a = BoundedRational::from_bigint(BigInt::from(*self));
        BoundedRational::sum_of(&a, &(other).negated())
    }
}

impl<'a, 'b> vstd::std_specs::ops::SubSpecImpl<&'b BoundedRational> for &'a i128 {
    open spec fn obeys_sub_spec() -> bool {
        false
    }

    open spec fn sub_req(self, rhs: &'b BoundedRational) -> bool {
        true
    }

    open spec fn sub_spec(self, rhs: &'b BoundedRational) -> BoundedRational {
        arbitrary()
    }
}

/// `BoundedRational -= i128`.
impl core::ops::SubAssign<i128> for BoundedRational {
    fn sub_assign(&mut self, other: i128)
        ensures
            op_sum_result(old(self)@, rat_neg((other as int, 1int)), final(self)@),
    {
        let b = BoundedRational::from_bigint(BigInt::from(other));
        let v = BoundedRational::sum_of(self, &(&b).negated());
        *self = v;
    }
}

/// `BoundedRational -= &i128`.
impl<'a> core::ops::SubAssign<&'a i128> for BoundedRational {
    fn sub_assign(&mut self, other: &'a i128)
        ensures
            op_sum_result(old(self)@, rat_neg((*other as int, 1int)), final(self)@),
    {
        let b = BoundedRational::from_bigint(BigInt::from(*other));
        let v = BoundedRational::sum_of(self, &(&b).negated());
        *self = v;
    }
}

// Subtraction with `isize`.

/// `BoundedRational - isize`.
impl core::ops::Sub<isize> for BoundedRational {
    type Output = BoundedRational;

    fn sub(self, other: isize) -> (r: BoundedRational)
        ensures
            op_sum_result(self@, rat_neg((other as int, 1int)), r@),
    {
        let b = BoundedRational::from_bigint(BigInt::from(other));
        BoundedRational::sum_of(&self, &(&b).negated())
    }
}

impl vstd::std_specs::ops::SubSpecImpl<isize> for BoundedRational {
    open spec fn obeys_sub_spec() -> bool {
        false
    }

    open spec fn sub_req(self, rhs: isize) -> bool {
        true
    }

    open spec fn sub_spec(self, rhs: isize) -> BoundedRational {
        arbitrary()
    }
}

/// `BoundedRational - &isize`.
impl<'a> core::ops::Sub<&'a isize> for BoundedRational {
    type Output = BoundedRational;

    fn sub(self, other: &'a isize) -> (r: BoundedRational)
        ensures
            op_sum_result(self@, rat_neg((*other as int, 1int)), r@),
    {
        let b = BoundedRational::from_bigint(BigInt::from(*other));
        BoundedRational::sum_of(&self, &(&b).negated())
    }
}

impl<'a> vstd::std_specs::ops::SubSpecImpl<&'a isize> for BoundedRational {
    open spec fn obeys_sub_spec() -> bool {
        false
    }

    open spec fn sub_req(self, rhs: &'a isize) -> bool {
        true
    }

    open spec fn sub_spec(self, rhs: &'a isize) -> BoundedRational {
        arbitrary()
    }
}

/// `&BoundedRational - isize`.
impl<'a> core::ops::Sub<isize> for &'a BoundedRational {
    type Output = BoundedRational;

    fn sub(self, other: isize) -> (r: BoundedRational)
        ensures
            op_sum_result(self@, rat_neg((other as int, 1int)), r@),
    {
        let b = BoundedRational::from_bigint(BigInt::from(other));
        BoundedRational::sum_of(self, &(&b).negated())
    }
}

impl<'a> vstd::std_specs::ops::SubSpecImpl<isize> for &'a BoundedRational {
    open spec fn obeys_sub_spec() -> bool {
        false
    }

    open spec fn sub_req(self, rhs: isize) -> bool {
        true
    }

    open spec fn sub_spec(self, rhs: isize) -> BoundedRational {
        arbitrary()
    }
}

/// `&BoundedRational - &isize`.
impl<'a, 'b> core::ops::Sub<&'b isize> for &'a BoundedRational {
    type Output = BoundedRational;

    fn sub(self, other: &'b isize) -> (r: BoundedRational)
        ensures
            op_sum_result(self@, rat_neg((*other as int, 1int)), r@),
    {
        let b = BoundedRational::from_bigint(BigInt::from(*other));
        BoundedRational::sum_of(self, &(&b).negated())
    }
}

impl<'a, 'b> vstd::std_specs::ops::SubSpecImpl<&'b isize> for &'a BoundedRational {
    open spec fn obeys_sub_spec() -> bool {
        false
    }

    open spec fn sub_req(self, rhs: &'b isize) -> bool {
        true
    }

    open spec fn sub_spec(self, rhs: &'b isize) -> BoundedRational {
        arbitrary()
    }
}

/// `isize - BoundedRational`.
impl core::ops::Sub<BoundedRational> for isize {
    type Output = BoundedRational;

    fn sub(self, other: BoundedRational) -> (r: BoundedRational)
        ensures
            op_sum_result((self as int, 1int), rat_neg(other@), r@),
    {
        let a = BoundedRational::from_bigint(BigInt::from(self));
        BoundedRational::sum_of(&a, &(&other).negated())
    }
}

impl vstd::std_specs::ops::SubSpecImpl<BoundedRational> for isize {
    open spec fn obeys_sub_spec() -> bool {
        false
    }

    open spec fn sub_req(self, rhs: BoundedRational) -> bool {
        true
    }

    open spec fn sub_spec(self, rhs: BoundedRational) -> BoundedRational {
        arbitrary()
    }
}

/// `&isize - BoundedRational`.
impl<'a> core::ops::Sub<BoundedRational> for &'a isize {
    type Output = BoundedRational;

    fn sub(self, other: BoundedRational) -> (r: BoundedRational)
        ensures
            op_sum_result((*self as int, 1int), rat_neg(other@), r@),
    {
        let a = BoundedRational::from_bigint(BigInt::from(*self));
        BoundedRational::sum_of(&a, &(&other).negated())
    }
}

impl<'a> vstd::std_specs::ops::SubSpecImpl<BoundedRational> for &'a isize {
    open spec fn obeys_sub_spec() -> bool {
        false
    }

    open spec fn sub_req(self, rhs: BoundedRational) -> bool {
        true
    }

    open spec fn sub_spec(self, rhs: BoundedRational) -> BoundedRational {
        arbitrary()
    }
}

/// `isize - &BoundedRational`.
impl<'a> core::ops::Sub<&'a BoundedRational> for isize {
    type Output = BoundedRational;

    fn sub(self, other: &'a BoundedRational) -> (r: BoundedRational)
        ensures
            op_sum_result((self as int, 1int), rat_neg(other@), r@),
    {
        let a = BoundedRational::from_bigint(BigInt::from(self));
        BoundedRational::sum_of(&a, &(other).negated())
    }
}

impl<'a> vstd::std_specs::ops::SubSpecImpl<&'a BoundedRational> for isize {
    open spec fn obeys_sub_spec() -> bool {
        false
    }

    open spec fn sub_req(self, rhs: &'a BoundedRational) -> bool {
        true
    }

    open spec fn sub_spec(self, rhs: &'a BoundedRational) -> BoundedRational {
        arbitrary()
    }
}

/// `&isize - &BoundedRational`.
impl<'a, 'b> core::ops::Sub<&'b BoundedRational> for &'a isize {
    type Output = BoundedRational;

    fn sub(self, other: &'b BoundedRational) -> (r: BoundedRational)
        ensures
            op_sum_result((*self as int, 1int), rat_neg(other@), r@),
    {
        let a = BoundedRational::from_bigint(BigInt::from(*self));
        BoundedRational::sum_of(&a, &(other).negated())
    }
}

impl<'a, 'b> vstd::std_specs::ops::SubSpecImpl<&'b BoundedRational> for &'a isize {
    open spec fn obeys_sub_spec() -> bool {
        false
    }

    open spec fn sub_req(self, rhs: &'b BoundedRational) -> bool {
        true
    }

    open spec fn sub_spec(self, rhs: &'b BoundedRational) -> BoundedRational {
        arbitrary()
    }
}

/// `BoundedRational -= isize`.
impl core::ops::SubAssign<isize> for BoundedRational {
    fn sub_assign(&mut self, other: isize)
        ensures
            op_sum_result(old(self)@, rat_neg((other as int, 1int)), final(self)@),
    {
        let b = BoundedRational::from_bigint(BigInt::from(other));
        let v = BoundedRational::sum_of(self, &(&b).negated());
        *self = v;
    }
}

/// `BoundedRational -= &isize`.
impl<'a> core::ops::SubAssign<&'a isize> for BoundedRational {
    fn sub_assign(&mut self, other: &'a isize)
        ensures
            op_sum_result(old(self)@, rat_neg((*other as int, 1int)), final(self)@),
    {
        let b = BoundedRational::from_bigint(BigInt::from(*other));
        let v = BoundedRational::sum_of(self, &(&b).negated());
        *self = v;
    }
}

// Subtraction with `BigInt`.

/// `BoundedRational - BigInt`.
impl core::ops::Sub<BigInt> for BoundedRational {
    type Output = BoundedRational;

    fn sub(self, other: BigInt) -> (r: BoundedRational)
        ensures
            op_sum_result(self@, rat_neg((other@, 1int)), r@),
    {
        let b = BoundedRational::from_bigint(other);
        BoundedRational::sum_of(&self, &(&b).negated())
    }
}

impl vstd::std_specs::ops::SubSpecImpl<BigInt> for BoundedRational {
    open spec fn obeys_sub_spec() -> bool {
        false
    }

    open spec fn sub_req(self, rhs: BigInt) -> bool {
        true
    }

    open spec fn sub_spec(self, rhs: BigInt) -> BoundedRational {
        arbitrary()
    }
}

/// `BoundedRational - &BigInt`.
impl<'a> core::ops::Sub<&'a BigInt> for BoundedRational {
    type Output = BoundedRational;

    fn sub(self, other: &'a BigInt) -> (r: BoundedRational)
        ensures
            op_sum_result(self@, rat_neg((other@, 1int)), r@),
    {
        let b = BoundedRational::from_bigint(other.clone());
        BoundedRational::sum_of(&self, &(&b).negated())
    }
}

impl<'a> vstd::std_specs::ops::SubSpecImpl<&'a BigInt> for BoundedRational {
    open spec fn obeys_sub_spec() -> bool {
        false
    }

    open spec fn sub_req(self, rhs: &'a BigInt) -> bool {
        true
    }

    open spec fn sub_spec(self, rhs: &'a BigInt) -> BoundedRational {
        arbitrary()
    }
}

/// `&BoundedRational - BigInt`.
impl<'a> core::ops::Sub<BigInt> for &'a BoundedRational {
    type Output = BoundedRational;

    fn sub(self, other: BigInt) -> (r: BoundedRational)
        ensures
            op_sum_result(self@, rat_neg((other@, 1int)), r@),
    {
        let b = BoundedRational::from_bigint(other);
        BoundedRational::sum_of(self, &(&b).negated())
    }
}

impl<'a> vstd::std_specs::ops::SubSpecImpl<BigInt> for &'a BoundedRational {
    open spec fn obeys_sub_spec() -> bool {
        false
    }

    open spec fn sub_req(self, rhs: BigInt) -> bool {
        true
    }

    open spec fn sub_spec(self, rhs: BigInt) -> BoundedRational {
        arbitrary()
    }
}

/// `&BoundedRational - &BigInt`.
impl<'a, 'b> core::ops::Sub<&'b BigInt> for &'a BoundedRational {
    type Output = BoundedRational;

    fn sub(self, other: &'b BigInt) -> (r: BoundedRational)
        ensures
            op_sum_result(self@, rat_neg((other@, 1int)), r@),
    {
        let b = BoundedRational::from_bigint(other.clone());
        BoundedRational::sum_of(self, &(&b).negated())
    }
}

impl<'a, 'b> vstd::std_specs::ops::SubSpecImpl<&'b BigInt> for &'a BoundedRational {
    open spec fn obeys_sub_spec() -> bool {
        false
    }

    open spec fn sub_req(self, rhs: &'b BigInt) -> bool {
        true
    }

    open spec fn sub_spec(self, rhs: &'b BigInt) -> BoundedRational {
        arbitrary()
    }
}

/// `BigInt - BoundedRational`.
impl core::ops::Sub<BoundedRational> for BigInt {
    type Output = BoundedRational;

    fn sub(self, other: BoundedRational) -> (r: BoundedRational)
        ensures
            op_sum_result((self@, 1int), rat_neg(other@), r@),
    {
        let a = BoundedRational::from_bigint(self);
        BoundedRational::sum_of(&a, &(&other).negated())
    }
}

impl vstd::std_specs::ops::SubSpecImpl<BoundedRational> for BigInt {
    open spec fn obeys_sub_spec() -> bool {
        false
    }

    open spec fn sub_req(self, rhs: BoundedRational) -> bool {
        true
    }

    open spec fn sub_spec(self, rhs: BoundedRational) -> BoundedRational {
        arbitrary()
    }
}

/// `&BigInt - BoundedRational`.
impl<'a> core::ops::Sub<BoundedRational> for &'a BigInt {
    type Output = BoundedRational;

    fn sub(self, other: BoundedRational) -> (r: BoundedRational)
        ensures
            op_sum_result((self@, 1int), rat_neg(other@), r@),
    {
        let a = BoundedRational::from_bigint(self.clone());
        BoundedRational::sum_of(&a, &(&other).negated())
    }
}

impl<'a> vstd::std_specs::ops::SubSpecImpl<BoundedRational> for &'a BigInt {
    open spec fn obeys_sub_spec() -> bool {
        false
    }

    open spec fn sub_req(self, rhs: BoundedRational) -> bool {
        true
    }

    open spec fn sub_spec(self, rhs: BoundedRational) -> BoundedRational {
        arbitrary()
    }
}

/// `BigInt - &BoundedRational`.
impl<'a> core::ops::Sub<&'a BoundedRational> for BigInt {
    type Output = BoundedRational;

    fn sub(self, other: &'a BoundedRational) -> (r: BoundedRational)
        ensures
            op_sum_result((self@, 1int), rat_neg(other@), r@),
    {
        let a = BoundedRational::from_bigint(self);
        BoundedRational::sum_of(&a, &(other).negated())
    }
}

impl<'a> vstd::std_specs::ops::SubSpecImpl<&'a BoundedRational> for BigInt {
    open spec fn obeys_sub_spec() -> bool {
        false
    }

    open spec fn sub_req(self, rhs: &'a BoundedRational) -> bool {
        true
    }

    open spec fn sub_spec(self, rhs: &'a BoundedRational) -> BoundedRational {
        arbitrary()
    }
}

/// `&BigInt - &BoundedRational`.
impl<'a, 'b> core::ops::Sub<&'b BoundedRational> for &'a BigInt {
    type Output = BoundedRational;

    fn sub(self, other: &'b BoundedRational) -> (r: BoundedRational)
        ensures
            op_sum_result((self@, 1int), rat_neg(other@), r@),
    {
        let a = BoundedRational::from_bigint(self.clone());
        BoundedRational::sum_of(&a, &(other).negated())
    }
}

impl<'a, 'b> vstd::std_specs::ops::SubSpecImpl<&'b BoundedRational> for &'a BigInt {
    open spec fn obeys_sub_spec() -> bool {
        false
    }

    open spec fn sub_req(self, rhs: &'b BoundedRational) -> bool {
        true
    }

    open spec fn sub_spec(self, rhs: &'b BoundedRational) -> BoundedRational {
        arbitrary()
    }
}

/// `BoundedRational -= BigInt`.
impl core::ops::SubAssign<BigInt> for BoundedRational {
    fn sub_assign(&mut self, other: BigInt)
        ensures
            op_sum_result(old(self)@, rat_neg((other@, 1int)), final(self)@),
    {
        let b = BoundedRational::from_bigint(other);
        let v = BoundedRational::sum_of(self, &(&b).negated());
        *self = v;
    }
}

/// `BoundedRational -= &BigInt`.
impl<'a> core::ops::SubAssign<&'a BigInt> for BoundedRational {
    fn sub_assign(&mut self, other: &'a BigInt)
        ensures
            op_sum_result(old(self)@, rat_neg((other@, 1int)), final(self)@),
    {
        let b = BoundedRational::from_bigint(other.clone());
        let v = BoundedRational::sum_of(self, &(&b).negated());
        *self = v;
    }
}

} // verus!
