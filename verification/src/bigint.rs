//! Arbitrary-precision signed integers.
//!
//! `BigInt` holds the two's-complement little-endian bytes of its value, and
//! every arithmetic operation is carried out by `num_bigint`; the value of a
//! `BigInt` in specifications is the mathematical integer `x@: int`.
use vstd::arithmetic::power2::pow2;
use vstd::prelude::*;

mod ops;

verus! {

/// An arbitrary-precision signed integer.
#[derive(Debug)]
pub struct BigInt {
    bytes: Vec<u8>,
}

/// The sign of a `BigInt`.
#[derive(Clone, Copy, Debug, PartialEq, Eq, Structural)]
pub enum Sign {
    Minus,
    NoSign,
    Plus,
}

/// Value of a little-endian sequence of unsigned bytes.
pub open spec fn le_unsigned(s: Seq<u8>) -> nat
    decreases s.len(),
{
    if s.len() == 0 {
        0
    } else {
        s[0] as nat + 256 * le_unsigned(s.drop_first())
    }
}

/// `256^n`.
pub open spec fn pow256(n: nat) -> nat
    decreases n,
{
    if n == 0 {
        1
    } else {
        256 * pow256((n - 1) as nat)
    }
}

/// Value of a little-endian two's-complement byte sequence.
pub open spec fn twos_value(s: Seq<u8>) -> int {
    if s.len() == 0 {
        0
    } else if s.last() >= 128 {
        le_unsigned(s) - pow256(s.len())
    } else {
        le_unsigned(s) as int
    }
}

impl View for BigInt {
    type V = int;

    closed spec fn view(&self) -> int {
        twos_value(self.bytes@)
    }
}

pub open spec fn abs(x: int) -> nat {
    if x < 0 {
        (-x) as nat
    } else {
        x as nat
    }
}

/// Number of bits of a natural number: the least `k` with `n < 2^k`.
pub open spec fn nat_bits(n: nat) -> nat
    decreases n,
{
    if n == 0 {
        0
    } else {
        1 + nat_bits(n / 2)
    }
}

/// Number of bits of the magnitude of `x` (the sign is not counted).
pub open spec fn int_bits(x: int) -> nat {
    nat_bits(abs(x))
}

/// The sign of an integer.
pub open spec fn sign_of(x: int) -> Sign {
    if x < 0 {
        Sign::Minus
    } else if x == 0 {
        Sign::NoSign
    } else {
        Sign::Plus
    }
}

/// Division rounding toward zero, as Rust's `/` does.
pub open spec fn trunc_div(a: int, b: int) -> int {
    let q = (abs(a) / abs(b)) as int;
    if (a < 0) == (b < 0) {
        q
    } else {
        -q
    }
}

/// Greatest common divisor of two natural numbers (Euclid); `gcd(0, 0) == 0`.
pub open spec fn gcd(a: nat, b: nat) -> nat
    decreases b,
{
    if b == 0 {
        a
    } else {
        gcd(b, a % b)
    }
}

/// The decimal digit character of `d < 10`.
pub open spec fn digit_char(d: nat) -> char {
    if d == 0 {
        '0'
    } else if d == 1 {
        '1'
    } else if d == 2 {
        '2'
    } else if d == 3 {
        '3'
    } else if d == 4 {
        '4'
    } else if d == 5 {
        '5'
    } else if d == 6 {
        '6'
    } else if d == 7 {
        '7'
    } else if d == 8 {
        '8'
    } else {
        '9'
    }
}

/// Decimal digits of a natural number, most significant first, without
/// leading zeros (`"0"` for zero).
pub open spec fn decimal_digits(n: nat) -> Seq<char>
    decreases n,
{
    if n < 10 {
        seq![digit_char(n)]
    } else {
        decimal_digits(n / 10).push(digit_char(n % 10))
    }
}

/// Decimal representation of an integer: a `-` for negative values, then
/// the digits of the magnitude.
pub open spec fn decimal_chars(x: int) -> Seq<char> {
    if x < 0 {
        seq!['-'] + decimal_digits(abs(x))
    } else {
        decimal_digits(abs(x))
    }
}

/// A positive number of `k` bits lies in `[2^(k-1), 2^k)`.
pub proof fn lemma_nat_bits_bounds(n: nat)
    requires
        n > 0,
    ensures
        nat_bits(n) >= 1,
        pow2((nat_bits(n) - 1) as nat) <= n < pow2(nat_bits(n)),
    decreases n,
{
    if n / 2 == 0 {
        vstd::arithmetic::power2::lemma2_to64();
        assert(n == 1);
        assert(nat_bits(0) == 0);
        assert(nat_bits(n) == 1);
    } else {
        lemma_nat_bits_bounds(n / 2);
        let b = nat_bits(n / 2);
        assert(nat_bits(n) == b + 1);
        vstd::arithmetic::power2::lemma_pow2_unfold(b + 1);
        vstd::arithmetic::power2::lemma_pow2_unfold(b);
        assert(2 * (n / 2) <= n <= 2 * (n / 2) + 1);
    }
}

/// The digit character of `d < 36`: `0-9`, then `a-z`.
pub open spec fn radix_digit_char(d: nat) -> char {
    if d < 10 {
        (d + 48) as char
    } else {
        (d + 87) as char
    }
}

/// The digits of `u` in the given base, most significant first.
pub open spec fn radix_digits(u: nat, base: nat) -> Seq<char>
    decreases u,
{
    if base < 2 {
        Seq::empty()
    } else if u < base {
        seq![radix_digit_char(u)]
    } else {
        proof {
            vstd::arithmetic::div_mod::lemma_div_decreases(u as int, base as int);
        }
        radix_digits(u / base, base).push(radix_digit_char(u % base))
    }
}

/// The digits of `x` in the given base, with a `-` in front of a negative
/// value: how `num_bigint` writes an integer in a radix.
pub open spec fn signed_radix_digits(x: int, base: nat) -> Seq<char> {
    (if x < 0 {
        seq!['-']
    } else {
        Seq::<char>::empty()
    }) + radix_digits(abs(x), base)
}

/// The order of two integers.
pub open spec fn int_order(a: int, b: int) -> core::cmp::Ordering {
    if a < b {
        core::cmp::Ordering::Less
    } else if a == b {
        core::cmp::Ordering::Equal
    } else {
        core::cmp::Ordering::Greater
    }
}

/// `BigInt::from(i128)` of `num_bigint`: the integer with the same value.
#[verifier::external_body]
fn big_from_i128(x: i128) -> (r: BigInt)
    ensures
        r@ == x as int,
{
    BigInt { bytes: num_bigint::BigInt::from(x).to_signed_bytes_le() }
}

/// `BigInt::from(u128)` of `num_bigint`: the integer with the same value.
#[verifier::external_body]
fn big_from_u128(x: u128) -> (r: BigInt)
    ensures
        r@ == x as int,
{
    BigInt { bytes: num_bigint::BigInt::from(x).to_signed_bytes_le() }
}

/// `PartialEq::eq` of `num_bigint::BigInt`: equality of values.
#[verifier::external_body]
fn big_eq(a: &BigInt, b: &BigInt) -> (r: bool)
    ensures
        r == (a@ == b@),
{
    num_bigint::BigInt::from_signed_bytes_le(&a.bytes) == num_bigint::BigInt::from_signed_bytes_le(
        &b.bytes,
    )
}

/// `Ord::cmp` of `num_bigint::BigInt`: the order of values.
#[verifier::external_body]
fn big_order(a: &BigInt, b: &BigInt) -> (r: core::cmp::Ordering)
    ensures
        r == int_order(a@, b@),
{
    let x = num_bigint::BigInt::from_signed_bytes_le(&a.bytes);
    let y = num_bigint::BigInt::from_signed_bytes_le(&b.bytes);
    x.cmp(&y)
}

/// `BigInt::sign` of `num_bigint`: whether the value is negative, zero or
/// positive.
#[verifier::external_body]
fn big_sign(a: &BigInt) -> (r: Sign)
    ensures
        r == sign_of(a@),
{
    match num_bigint::BigInt::from_signed_bytes_le(&a.bytes).sign() {
        num_bigint::Sign::Minus => Sign::Minus,
        num_bigint::Sign::NoSign => Sign::NoSign,
        num_bigint::Sign::Plus => Sign::Plus,
    }
}

/// `BigInt::bits` of `num_bigint`: the fewest bits that express the
/// magnitude, sign not included.
#[verifier::external_body]
fn big_bits(a: &BigInt) -> (r: u64)
    ensures
        r == int_bits(a@),
{
    num_bigint::BigInt::from_signed_bytes_le(&a.bytes).bits()
}

/// `Neg` of `num_bigint::BigInt`.
#[verifier::external_body]
fn big_neg(a: &BigInt) -> (r: BigInt)
    ensures
        r@ == -a@,
{
    BigInt { bytes: (-num_bigint::BigInt::from_signed_bytes_le(&a.bytes)).to_signed_bytes_le() }
}

/// `Add` of `num_bigint::BigInt`.
#[verifier::external_body]
fn big_add(a: &BigInt, b: &BigInt) -> (r: BigInt)
    ensures
        r@ == a@ + b@,
{
    let x = num_bigint::BigInt::from_signed_bytes_le(&a.bytes);
    let y = num_bigint::BigInt::from_signed_bytes_le(&b.bytes);
    BigInt { bytes: (x + y).to_signed_bytes_le() }
}

/// `Sub` of `num_bigint::BigInt`.
#[verifier::external_body]
fn big_sub(a: &BigInt, b: &BigInt) -> (r: BigInt)
    ensures
        r@ == a@ - b@,
{
    let x = num_bigint::BigInt::from_signed_bytes_le(&a.bytes);
    let y = num_bigint::BigInt::from_signed_bytes_le(&b.bytes);
    BigInt { bytes: (x - y).to_signed_bytes_le() }
}

/// `Mul` of `num_bigint::BigInt`.
#[verifier::external_body]
fn big_mul(a: &BigInt, b: &BigInt) -> (r: BigInt)
    ensures
        r@ == a@ * b@,
{
    let x = num_bigint::BigInt::from_signed_bytes_le(&a.bytes);
    let y = num_bigint::BigInt::from_signed_bytes_le(&b.bytes);
    BigInt { bytes: (x * y).to_signed_bytes_le() }
}

/// `Div` of `num_bigint::BigInt`: the quotient rounded toward zero. It
/// panics on a zero divisor, which `requires` leaves out.
#[verifier::external_body]
fn big_div(a: &BigInt, b: &BigInt) -> (r: BigInt)
    requires
        b@ != 0,
    ensures
        r@ == trunc_div(a@, b@),
{
    let x = num_bigint::BigInt::from_signed_bytes_le(&a.bytes);
    let y = num_bigint::BigInt::from_signed_bytes_le(&b.bytes);
    BigInt { bytes: (x / y).to_signed_bytes_le() }
}

/// `Integer::gcd` of `num_bigint::BigInt`: the non-negative greatest common
/// divisor of the two magnitudes.
#[verifier::external_body]
fn big_gcd(a: &BigInt, b: &BigInt) -> (r: BigInt)
    ensures
        r@ == gcd(abs(a@), abs(b@)) as int,
{
    let x = num_bigint::BigInt::from_signed_bytes_le(&a.bytes);
    let y = num_bigint::BigInt::from_signed_bytes_le(&b.bytes);
    BigInt { bytes: num_integer::Integer::gcd(&x, &y).to_signed_bytes_le() }
}

/// `Shl<usize>` of `num_bigint::BigInt`: multiplication by `2^n`.
#[verifier::external_body]
fn big_shl(a: &BigInt, n: usize) -> (r: BigInt)
    ensures
        r@ == a@ * pow2(n as nat),
{
    BigInt { bytes: (num_bigint::BigInt::from_signed_bytes_le(&a.bytes) << n).to_signed_bytes_le() }
}

/// `Shr<usize>` of `num_bigint::BigInt`: division by `2^n` rounded down
/// (toward negative infinity).
#[verifier::external_body]
fn big_shr(a: &BigInt, n: usize) -> (r: BigInt)
    ensures
        r@ == a@ / (pow2(n as nat) as int),
{
    BigInt { bytes: (num_bigint::BigInt::from_signed_bytes_le(&a.bytes) >> n).to_signed_bytes_le() }
}

/// `ToPrimitive::to_i64` of `num_bigint::BigInt`: the value when it fits in
/// an `i64`, `None` otherwise.
#[verifier::external_body]
fn big_to_i64(a: &BigInt) -> (r: Option<i64>)
    ensures
        r is Some <==> i64::MIN <= a@ <= i64::MAX,
        r matches Some(v) ==> v as int == a@,
{
    num_traits::ToPrimitive::to_i64(&num_bigint::BigInt::from_signed_bytes_le(&a.bytes))
}

/// `BigInt::to_str_radix` of `num_bigint`: a `-` for a negative value,
/// then the digits of the magnitude in the radix (lower-case letters). It
/// panics outside radices `2..=36`, which `requires` leaves out.
#[verifier::external_body]
fn big_to_str_radix(a: &BigInt, radix: u32) -> (r: String)
    requires
        2 <= radix <= 36,
    ensures
        r@ == signed_radix_digits(a@, radix as nat),
{
    num_bigint::BigInt::from_signed_bytes_le(&a.bytes).to_str_radix(radix)
}

/// `ToString::to_string` (through `Display`) of `num_bigint::BigInt`: the
/// decimal representation.
#[verifier::external_body]
fn big_to_decimal(a: &BigInt) -> (r: String)
    ensures
        r@ == decimal_chars(a@),
{
    num_bigint::BigInt::from_signed_bytes_le(&a.bytes).to_string()
}

/// `Hash::hash` of `num_bigint::BigInt`: feeds the value to the hasher.
/// Nothing is stated of the hasher's state.
#[verifier::external_body]
fn hash_value<H: core::hash::Hasher>(a: &BigInt, state: &mut H) {
    core::hash::Hash::hash(&num_bigint::BigInt::from_signed_bytes_le(&a.bytes), state)
}

/// Feeds the hasher the fraction `numerator/denominator`, which must be
/// `value` in lowest terms with a positive denominator: the one form that
/// every representation of the value shares, so that equal values are fed
/// the same data. This is the only way in which the crate feeds a hasher.
pub(crate) fn hash_canonical<H: core::hash::Hasher>(
    numerator: &BigInt,
    denominator: &BigInt,
    value: &crate::evaluation::bounded_rational::BoundedRational,
    state: &mut H,
)
    requires
        (numerator@, denominator@) == crate::rational::canonical(value@),
{
    hash_value(numerator, state);
    hash_value(denominator, state);
}

impl BigInt {
    /// The sign of this integer.
    pub fn sign(&self) -> (r: Sign)
        ensures
            r == sign_of(self@),
    {
        big_sign(self)
    }

    /// The order of the two values.
    pub fn cmp(&self, other: &BigInt) -> (r: core::cmp::Ordering)
        ensures
            r == int_order(self@, other@),
    {
        big_order(self, other)
    }

    /// The fewest bits that express the magnitude, sign not included.
    pub fn bits(&self) -> (r: u64)
        ensures
            r == int_bits(self@),
    {
        big_bits(self)
    }

    /// The non-negative greatest common divisor of the two magnitudes.
    pub fn gcd(&self, other: &BigInt) -> (r: BigInt)
        ensures
            r@ == gcd(abs(self@), abs(other@)) as int,
    {
        big_gcd(self, other)
    }

    /// The value as an `i64`, when it fits.
    pub fn to_i64(&self) -> (r: Option<i64>)
        ensures
            r is Some <==> i64::MIN <= self@ <= i64::MAX,
            r matches Some(v) ==> v as int == self@,
    {
        big_to_i64(self)
    }

    /// The value written in a radix, with a `-` in front when negative.
    pub fn to_str_radix(&self, radix: u32) -> (r: String)
        requires
            2 <= radix <= 36,
        ensures
            r@ == signed_radix_digits(self@, radix as nat),
    {
        big_to_str_radix(self, radix)
    }

    /// The decimal representation of the value.
    pub fn to_string(&self) -> (r: String)
        ensures
            r@ == decimal_chars(self@),
    {
        big_to_decimal(self)
    }
}

} // verus!
