//! Operator, comparison and conversion traits of `BigInt`.
use super::{
    big_add, big_div, big_eq, big_from_i128, big_from_u128, big_mul, big_neg, big_order, big_shl,
    big_shr, big_sub, int_order, trunc_div, BigInt,
};
use vstd::arithmetic::power2::pow2;
use vstd::prelude::*;

verus! {

impl Clone for BigInt {
    fn clone(&self) -> (r: BigInt)
        ensures
            r@ == self@,
    {
        BigInt { bytes: self.bytes.clone() }
    }
}

impl PartialEq for BigInt {
    fn eq(&self, other: &BigInt) -> (r: bool) {
        big_eq(self, other)
    }
}

impl vstd::std_specs::cmp::PartialEqSpecImpl for BigInt {
    open spec fn obeys_eq_spec() -> bool {
        true
    }

    open spec fn eq_spec(&self, other: &BigInt) -> bool {
        self@ == other@
    }
}

impl Eq for BigInt {
}

impl PartialOrd for BigInt {
    fn partial_cmp(&self, other: &BigInt) -> (r: Option<core::cmp::Ordering>) {
        Some(big_order(self, other))
    }
}

impl vstd::std_specs::cmp::PartialOrdSpecImpl for BigInt {
    open spec fn obeys_partial_cmp_spec() -> bool {
        true
    }

    open spec fn partial_cmp_spec(&self, other: &BigInt) -> Option<core::cmp::Ordering> {
        Some(int_order(self@, other@))
    }
}

impl From<i128> for BigInt {
    fn from(x: i128) -> (r: BigInt)
        ensures
            r@ == x as int,
    {
        big_from_i128(x)
    }
}

impl vstd::std_specs::convert::FromSpecImpl<i128> for BigInt {
    open spec fn obeys_from_spec() -> bool {
        false
    }

    open spec fn from_spec(x: i128) -> BigInt {
        arbitrary()
    }
}

impl From<i64> for BigInt {
    fn from(x: i64) -> (r: BigInt)
        ensures
            r@ == x as int,
    {
        big_from_i128(x as i128)
    }
}

impl vstd::std_specs::convert::FromSpecImpl<i64> for BigInt {
    open spec fn obeys_from_spec() -> bool {
        false
    }

    open spec fn from_spec(x: i64) -> BigInt {
        arbitrary()
    }
}

impl From<i32> for BigInt {
    fn from(x: i32) -> (r: BigInt)
        ensures
            r@ == x as int,
    {
        big_from_i128(x as i128)
    }
}

impl vstd::std_specs::convert::FromSpecImpl<i32> for BigInt {
    open spec fn obeys_from_spec() -> bool {
        false
    }

    open spec fn from_spec(x: i32) -> BigInt {
        arbitrary()
    }
}

impl From<i16> for BigInt {
    fn from(x: i16) -> (r: BigInt)
        ensures
            r@ == x as int,
    {
        big_from_i128(x as i128)
    }
}

impl vstd::std_specs::convert::FromSpecImpl<i16> for BigInt {
    open spec fn obeys_from_spec() -> bool {
        false
    }

    open spec fn from_spec(x: i16) -> BigInt {
        arbitrary()
    }
}

impl From<i8> for BigInt {
    fn from(x: i8) -> (r: BigInt)
        ensures
            r@ == x as int,
    {
        big_from_i128(x as i128)
    }
}

impl vstd::std_specs::convert::FromSpecImpl<i8> for BigInt {
    open spec fn obeys_from_spec() -> bool {
        false
    }

    open spec fn from_spec(x: i8) -> BigInt {
        arbitrary()
    }
}

impl From<isize> for BigInt {
    fn from(x: isize) -> (r: BigInt)
        ensures
            r@ == x as int,
    {
        big_from_i128(x as i128)
    }
}

impl vstd::std_specs::convert::FromSpecImpl<isize> for BigInt {
    open spec fn obeys_from_spec() -> bool {
        false
    }

    open spec fn from_spec(x: isize) -> BigInt {
        arbitrary()
    }
}

impl From<u128> for BigInt {
    fn from(x: u128) -> (r: BigInt)
        ensures
            r@ == x as int,
    {
        big_from_u128(x)
    }
}

impl vstd::std_specs::convert::FromSpecImpl<u128> for BigInt {
    open spec fn obeys_from_spec() -> bool {
        false
    }

    open spec fn from_spec(x: u128) -> BigInt {
        arbitrary()
    }
}

impl From<u64> for BigInt {
    fn from(x: u64) -> (r: BigInt)
        ensures
            r@ == x as int,
    {
        big_from_u128(x as u128)
    }
}

impl vstd::std_specs::convert::FromSpecImpl<u64> for BigInt {
    open spec fn obeys_from_spec() -> bool {
        false
    }

    open spec fn from_spec(x: u64) -> BigInt {
        arbitrary()
    }
}

impl From<u32> for BigInt {
    fn from(x: u32) -> (r: BigInt)
        ensures
            r@ == x as int,
    {
        big_from_u128(x as u128)
    }
}

impl vstd::std_specs::convert::FromSpecImpl<u32> for BigInt {
    open spec fn obeys_from_spec() -> bool {
        false
    }

    open spec fn from_spec(x: u32) -> BigInt {
        arbitrary()
    }
}

impl From<u16> for BigInt {
    fn from(x: u16) -> (r: BigInt)
        ensures
            r@ == x as int,
    {
        big_from_u128(x as u128)
    }
}

impl vstd::std_specs::convert::FromSpecImpl<u16> for BigInt {
    open spec fn obeys_from_spec() -> bool {
        false
    }

    open spec fn from_spec(x: u16) -> BigInt {
        arbitrary()
    }
}

impl From<u8> for BigInt {
    fn from(x: u8) -> (r: BigInt)
        ensures
            r@ == x as int,
    {
        big_from_u128(x as u128)
    }
}

impl vstd::std_specs::convert::FromSpecImpl<u8> for BigInt {
    open spec fn obeys_from_spec() -> bool {
        false
    }

    open spec fn from_spec(x: u8) -> BigInt {
        arbitrary()
    }
}

impl From<usize> for BigInt {
    fn from(x: usize) -> (r: BigInt)
        ensures
            r@ == x as int,
    {
        big_from_u128(x as u128)
    }
}

impl vstd::std_specs::convert::FromSpecImpl<usize> for BigInt {
    open spec fn obeys_from_spec() -> bool {
        false
    }

    open spec fn from_spec(x: usize) -> BigInt {
        arbitrary()
    }
}

impl core::ops::Neg for BigInt {
    type Output = BigInt;

    fn neg(self) -> (r: BigInt)
        ensures
            r@ == -self@,
    {
        big_neg(&self)
    }
}

impl vstd::std_specs::ops::NegSpecImpl for BigInt {
    open spec fn obeys_neg_spec() -> bool {
        false
    }

    open spec fn neg_req(self) -> bool {
        true
    }

    open spec fn neg_spec(self) -> BigInt {
        arbitrary()
    }
}

impl<'a> core::ops::Neg for &'a BigInt {
    type Output = BigInt;

    fn neg(self) -> (r: BigInt)
        ensures
            r@ == -self@,
    {
        big_neg(self)
    }
}

impl<'a> vstd::std_specs::ops::NegSpecImpl for &'a BigInt {
    open spec fn obeys_neg_spec() -> bool {
        false
    }

    open spec fn neg_req(self) -> bool {
        true
    }

    open spec fn neg_spec(self) -> BigInt {
        arbitrary()
    }
}

impl core::ops::Add<BigInt> for BigInt {
    type Output = BigInt;

    fn add(self, other: BigInt) -> (r: BigInt)
        ensures
            r@ == self@ + other@,
    {
        big_add(&self, &other)
    }
}

impl vstd::std_specs::ops::AddSpecImpl<BigInt> for BigInt {
    open spec fn obeys_add_spec() -> bool {
        false
    }

    open spec fn add_req(self, rhs: BigInt) -> bool {
        true
    }

    open spec fn add_spec(self, rhs: BigInt) -> BigInt {
        arbitrary()
    }
}

impl<'a> core::ops::Add<&'a BigInt> for BigInt {
    type Output = BigInt;

    fn add(self, other: &'a BigInt) -> (r: BigInt)
        ensures
            r@ == self@ + other@,
    {
        big_add(&self, other)
    }
}

impl<'a> vstd::std_specs::ops::AddSpecImpl<&'a BigInt> for BigInt {
    open spec fn obeys_add_spec() -> bool {
        false
    }

    open spec fn add_req(self, rhs: &'a BigInt) -> bool {
        true
    }

    open spec fn add_spec(self, rhs: &'a BigInt) -> BigInt {
        arbitrary()
    }
}

impl<'a> core::ops::Add<BigInt> for &'a BigInt {
    type Output = BigInt;

    fn add(self, other: BigInt) -> (r: BigInt)
        ensures
            r@ == self@ + other@,
    {
        big_add(self, &other)
    }
}

impl<'a> vstd::std_specs::ops::AddSpecImpl<BigInt> for &'a BigInt {
    open spec fn obeys_add_spec() -> bool {
        false
    }

    open spec fn add_req(self, rhs: BigInt) -> bool {
        true
    }

    open spec fn add_spec(self, rhs: BigInt) -> BigInt {
        arbitrary()
    }
}

impl<'a, 'b> core::ops::Add<&'b BigInt> for &'a BigInt {
    type Output = BigInt;

    fn add(self, other: &'b BigInt) -> (r: BigInt)
        ensures
            r@ == self@ + other@,
    {
        big_add(self, other)
    }
}

impl<'a, 'b> vstd::std_specs::ops::AddSpecImpl<&'b BigInt> for &'a BigInt {
    open spec fn obeys_add_spec() -> bool {
        false
    }

    open spec fn add_req(self, rhs: &'b BigInt) -> bool {
        true
    }

    open spec fn add_spec(self, rhs: &'b BigInt) -> BigInt {
        arbitrary()
    }
}

impl core::ops::Sub<BigInt> for BigInt {
    type Output = BigInt;

    fn sub(self, other: BigInt) -> (r: BigInt)
        ensures
            r@ == self@ - other@,
    {
        big_sub(&self, &other)
    }
}

impl vstd::std_specs::ops::SubSpecImpl<BigInt> for BigInt {
    open spec fn obeys_sub_spec() -> bool {
        false
    }

    open spec fn sub_req(self, rhs: BigInt) -> bool {
        true
    }

    open spec fn sub_spec(self, rhs: BigInt) -> BigInt {
        arbitrary()
    }
}

impl<'a> core::ops::Sub<&'a BigInt> for BigInt {
    type Output = BigInt;

    fn sub(self, other: &'a BigInt) -> (r: BigInt)
        ensures
            r@ == self@ - other@,
    {
        big_sub(&self, other)
    }
}

impl<'a> vstd::std_specs::ops::SubSpecImpl<&'a BigInt> for BigInt {
    open spec fn obeys_sub_spec() -> bool {
        false
    }

    open spec fn sub_req(self, rhs: &'a BigInt) -> bool {
        true
    }

    open spec fn sub_spec(self, rhs: &'a BigInt) -> BigInt {
        arbitrary()
    }
}

impl<'a> core::ops::Sub<BigInt> for &'a BigInt {
    type Output = BigInt;

    fn sub(self, other: BigInt) -> (r: BigInt)
        ensures
            r@ == self@ - other@,
    {
        big_sub(self, &other)
    }
}

impl<'a> vstd::std_specs::ops::SubSpecImpl<BigInt> for &'a BigInt {
    open spec fn obeys_sub_spec() -> bool {
        false
    }

    open spec fn sub_req(self, rhs: BigInt) -> bool {
        true
    }

    open spec fn sub_spec(self, rhs: BigInt) -> BigInt {
        arbitrary()
    }
}

impl<'a, 'b> core::ops::Sub<&'b BigInt> for &'a BigInt {
    type Output = BigInt;

    fn sub(self, other: &'b BigInt) -> (r: BigInt)
        ensures
            r@ == self@ - other@,
    {
        big_sub(self, other)
    }
}

impl<'a, 'b> vstd::std_specs::ops::SubSpecImpl<&'b BigInt> for &'a BigInt {
    open spec fn obeys_sub_spec() -> bool {
        false
    }

    open spec fn sub_req(self, rhs: &'b BigInt) -> bool {
        true
    }

    open spec fn sub_spec(self, rhs: &'b BigInt) -> BigInt {
        arbitrary()
    }
}

impl core::ops::Mul<BigInt> for BigInt {
    type Output = BigInt;

    fn mul(self, other: BigInt) -> (r: BigInt)
        ensures
            r@ == self@ * other@,
    {
        big_mul(&self, &other)
    }
}

impl vstd::std_specs::ops::MulSpecImpl<BigInt> for BigInt {
    open spec fn obeys_mul_spec() -> bool {
        false
    }

    open spec fn mul_req(self, rhs: BigInt) -> bool {
        true
    }

    open spec fn mul_spec(self, rhs: BigInt) -> BigInt {
        arbitrary()
    }
}

impl<'a> core::ops::Mul<&'a BigInt> for BigInt {
    type Output = BigInt;

    fn mul(self, other: &'a BigInt) -> (r: BigInt)
        ensures
            r@ == self@ * other@,
    {
        big_mul(&self, other)
    }
}

impl<'a> vstd::std_specs::ops::MulSpecImpl<&'a BigInt> for BigInt {
    open spec fn obeys_mul_spec() -> bool {
        false
    }

    open spec fn mul_req(self, rhs: &'a BigInt) -> bool {
        true
    }

    open spec fn mul_spec(self, rhs: &'a BigInt) -> BigInt {
        arbitrary()
    }
}

impl<'a> core::ops::Mul<BigInt> for &'a BigInt {
    type Output = BigInt;

    fn mul(self, other: BigInt) -> (r: BigInt)
        ensures
            r@ == self@ * other@,
    {
        big_mul(self, &other)
    }
}

impl<'a> vstd::std_specs::ops::MulSpecImpl<BigInt> for &'a BigInt {
    open spec fn obeys_mul_spec() -> bool {
        false
    }

    open spec fn mul_req(self, rhs: BigInt) -> bool {
        true
    }

    open spec fn mul_spec(self, rhs: BigInt) -> BigInt {
        arbitrary()
    }
}

impl<'a, 'b> core::ops::Mul<&'b BigInt> for &'a BigInt {
    type Output = BigInt;

    fn mul(self, other: &'b BigInt) -> (r: BigInt)
        ensures
            r@ == self@ * other@,
    {
        big_mul(self, other)
    }
}

impl<'a, 'b> vstd::std_specs::ops::MulSpecImpl<&'b BigInt> for &'a BigInt {
    open spec fn obeys_mul_spec() -> bool {
        false
    }

    open spec fn mul_req(self, rhs: &'b BigInt) -> bool {
        true
    }

    open spec fn mul_spec(self, rhs: &'b BigInt) -> BigInt {
        arbitrary()
    }
}

impl core::ops::Div<BigInt> for BigInt {
    type Output = BigInt;

    fn div(self, other: BigInt) -> (r: BigInt)
        ensures
            r@ == trunc_div(self@, other@),
    {
        big_div(&self, &other)
    }
}

impl vstd::std_specs::ops::DivSpecImpl<BigInt> for BigInt {
    open spec fn obeys_div_spec() -> bool {
        false
    }

    open spec fn div_req(self, rhs: BigInt) -> bool {
        rhs@ != 0
    }

    open spec fn div_spec(self, rhs: BigInt) -> BigInt {
        arbitrary()
    }
}

impl<'a> core::ops::Div<&'a BigInt> for BigInt {
    type Output = BigInt;

    fn div(self, other: &'a BigInt) -> (r: BigInt)
        ensures
            r@ == trunc_div(self@, other@),
    {
        big_div(&self, other)
    }
}

impl<'a> vstd::std_specs::ops::DivSpecImpl<&'a BigInt> for BigInt {
    open spec fn obeys_div_spec() -> bool {
        false
    }

    open spec fn div_req(self, rhs: &'a BigInt) -> bool {
        rhs@ != 0
    }

    open spec fn div_spec(self, rhs: &'a BigInt) -> BigInt {
        arbitrary()
    }
}

impl<'a> core::ops::Div<BigInt> for &'a BigInt {
    type Output = BigInt;

    fn div(self, other: BigInt) -> (r: BigInt)
        ensures
            r@ == trunc_div(self@, other@),
    {
        big_div(self, &other)
    }
}

impl<'a> vstd::std_specs::ops::DivSpecImpl<BigInt> for &'a BigInt {
    open spec fn obeys_div_spec() -> bool {
        false
    }

    open spec fn div_req(self, rhs: BigInt) -> bool {
        rhs@ != 0
    }

    open spec fn div_spec(self, rhs: BigInt) -> BigInt {
        arbitrary()
    }
}

impl<'a, 'b> core::ops::Div<&'b BigInt> for &'a BigInt {
    type Output = BigInt;

    fn div(self, other: &'b BigInt) -> (r: BigInt)
        ensures
            r@ == trunc_div(self@, other@),
    {
        big_div(self, other)
    }
}

impl<'a, 'b> vstd::std_specs::ops::DivSpecImpl<&'b BigInt> for &'a BigInt {
    open spec fn obeys_div_spec() -> bool {
        false
    }

    open spec fn div_req(self, rhs: &'b BigInt) -> bool {
        rhs@ != 0
    }

    open spec fn div_spec(self, rhs: &'b BigInt) -> BigInt {
        arbitrary()
    }
}

impl core::ops::Shl<usize> for BigInt {
    type Output = BigInt;

    fn shl(self, n: usize) -> (r: BigInt)
        ensures
            r@ == self@ * pow2(n as nat),
    {
        big_shl(&self, n)
    }
}

impl vstd::std_specs::ops::ShlSpecImpl<usize> for BigInt {
    open spec fn obeys_shl_spec() -> bool {
        false
    }

    open spec fn shl_req(self, rhs: usize) -> bool {
        true
    }

    open spec fn shl_spec(self, rhs: usize) -> BigInt {
        arbitrary()
    }
}

impl<'a> core::ops::Shl<usize> for &'a BigInt {
    type Output = BigInt;

    fn shl(self, n: usize) -> (r: BigInt)
        ensures
            r@ == self@ * pow2(n as nat),
    {
        big_shl(self, n)
    }
}

impl<'a> vstd::std_specs::ops::ShlSpecImpl<usize> for &'a BigInt {
    open spec fn obeys_shl_spec() -> bool {
        false
    }

    open spec fn shl_req(self, rhs: usize) -> bool {
        true
    }

    open spec fn shl_spec(self, rhs: usize) -> BigInt {
        arbitrary()
    }
}

impl core::ops::Shr<usize> for BigInt {
    type Output = BigInt;

    fn shr(self, n: usize) -> (r: BigInt)
        ensures
            r@ == self@ / (pow2(n as nat) as int),
    {
        big_shr(&self, n)
    }
}

impl vstd::std_specs::ops::ShrSpecImpl<usize> for BigInt {
    open spec fn obeys_shr_spec() -> bool {
        false
    }

    open spec fn shr_req(self, rhs: usize) -> bool {
        true
    }

    open spec fn shr_spec(self, rhs: usize) -> BigInt {
        arbitrary()
    }
}

impl<'a> core::ops::Shr<usize> for &'a BigInt {
    type Output = BigInt;

    fn shr(self, n: usize) -> (r: BigInt)
        ensures
            r@ == self@ / (pow2(n as nat) as int),
    {
        big_shr(self, n)
    }
}

impl<'a> vstd::std_specs::ops::ShrSpecImpl<usize> for &'a BigInt {
    open spec fn obeys_shr_spec() -> bool {
        false
    }

    open spec fn shr_req(self, rhs: usize) -> bool {
        true
    }

    open spec fn shr_spec(self, rhs: usize) -> BigInt {
        arbitrary()
    }
}

} // verus!
