//! Arbitrary-precision rational arithmetic with a bounded size budget.
//!
//! A `BoundedRational` is a fraction `numerator/denominator` of `BigInt`s
//! whose denominator is never zero. Fractions are not always kept in lowest
//! terms: reduction happens when a value grows too big, and otherwise at
//! random, one time in sixteen. Every operation is exact: its result has the
//! value of the mathematical operation on the values of its operands.
use crate::bigint::{abs, decimal_chars, decimal_digits, int_bits, BigInt, Sign};
use crate::text::{chars_of, string_from_chars};
use vstd::arithmetic::power::pow;
use crate::evaluation::constants::{minus_one, minus_two, one, ten, two, zero, MAX_SIZE};
use crate::evaluation::errors::ZeroDivisionError;
use crate::bigint::{gcd, trunc_div};
use crate::rational::{
    canonical, is_integer, lemma_canonical, lemma_integer_canonical, lemma_order_equal,
    lemma_order_scaled, lemma_positive_den, lemma_rat_add_congruent, lemma_rat_eq_trans,
    lemma_rat_mul_congruent, lemma_reduce, lemma_sign_order,
    positive_den_of, rat_add, rat_eq, rat_inv, rat_mul, rat_neg, rat_order, rat_sign, reduce_of,
    Frac,
};
use core::cmp::Ordering;
use core::ops::Neg;
use vstd::prelude::*;
use vstd::string::StringExecFns;

mod add;
mod divide;
pub mod double;
pub mod laws;
pub mod totals;
mod multiply;
mod subtract;

verus! {

/// Error returned when a `BoundedRational` is constructed with a zero
/// denominator.
#[derive(Clone, Copy, Debug, PartialEq, Eq, Structural)]
pub struct ZeroDenominatorError;

impl ZeroDenominatorError {
    /// The message of this error.
    pub fn to_string(&self) -> (r: String)
        ensures
            r@ == "denominator must not be zero"@,
    {
        String::from_str("denominator must not be zero")
    }
}

/// A zero denominator is a division by zero.
impl From<ZeroDenominatorError> for ZeroDivisionError {
    fn from(e: ZeroDenominatorError) -> (r: ZeroDivisionError) {
        ZeroDivisionError
    }
}

impl vstd::std_specs::convert::FromSpecImpl<ZeroDenominatorError> for ZeroDivisionError {
    open spec fn obeys_from_spec() -> bool {
        true
    }

    open spec fn from_spec(e: ZeroDenominatorError) -> ZeroDivisionError {
        ZeroDivisionError
    }
}

/// Error returned when constructing a `BoundedRational` from a non-finite
/// `f64` (`NaN` or infinite), neither of which has a rational value.
#[derive(Clone, Copy, Debug, PartialEq, Eq, Structural)]
pub struct NonFiniteError;

impl NonFiniteError {
    /// The message of this error.
    pub fn to_string(&self) -> (r: String)
        ensures
            r@ == "value is NaN or infinite; has no rational representation"@,
    {
        String::from_str("value is NaN or infinite; has no rational representation")
    }
}

/// The value `v`, in lowest terms with a positive denominator, has more
/// than `MAX_SIZE` bits in its two parts together (and is not an integer):
/// too big to be kept as an exact rational.
pub open spec fn exceeds_size(v: Frac) -> bool {
    too_big_frac(canonical(v))
}

/// Fractions with the same value exceed the size alike.
pub proof fn lemma_same_size(x: Frac, y: Frac)
    requires
        x.1 != 0,
        y.1 != 0,
        rat_eq(x, y),
    ensures
        exceeds_size(x) == exceeds_size(y),
{
    crate::rational::lemma_canonical_unique(x, y);
}

/// `-1`, `0` or `1`: the sign of an integer.
pub open spec fn int_signum(x: int) -> int {
    if x < 0 {
        -1
    } else if x == 0 {
        0
    } else {
        1
    }
}

/// The combined bit length above which a fraction is too big, unless it is
/// an integer.
pub open spec fn too_big_frac(x: Frac) -> bool {
    x.1 != 1 && int_bits(x.0) + int_bits(x.1) > MAX_SIZE
}

/// The bit lengths of all four parts of two fractions.
pub open spec fn bits_of_both(x: Frac, y: Frac) -> nat {
    int_bits(x.0) + int_bits(x.1) + int_bits(y.0) + int_bits(y.1)
}

/// Three quarters of `MAX_SIZE`: the size of operands above which they are
/// reduced before an addition or a multiplication.
pub open spec fn pre_reduce_threshold() -> int {
    MAX_SIZE * 3 / 4
}

/// A possibly reduced `x`: `x` itself, or `x` reduced with a positive
/// denominator, which it must be when `x` is too big.
pub open spec fn maybe_reduced(x: Frac, y: Frac) -> bool {
    &&& (y == x || y == reduce_of(positive_den_of(x)))
    &&& too_big_frac(x) ==> y == reduce_of(positive_den_of(x))
}

/// The fraction that addition forms before it is possibly reduced: a zero
/// operand gives the other one; large operands are reduced first.
pub open spec fn sum_frac(x: Frac, y: Frac) -> Frac {
    if x.0 == 0 {
        y
    } else if y.0 == 0 {
        x
    } else if bits_of_both(x, y) > pre_reduce_threshold() {
        rat_add(canonical(x), canonical(y))
    } else {
        rat_add(x, y)
    }
}

/// What addition returns for the operands `x` and `y`: the value `x + y`,
/// as the fraction `sum_frac(x, y)`, possibly reduced.
pub open spec fn sum_result(x: Frac, y: Frac, z: Frac) -> bool {
    &&& maybe_reduced(sum_frac(x, y), z)
    &&& rat_eq(z, rat_add(x, y))
    &&& z.1 != 0
}

/// `x`, or `0/1` when its numerator is zero: what `BoundedRational::new`
/// makes of a pair.
pub open spec fn zero_as_one(x: Frac) -> Frac {
    if x.0 == 0 {
        (0, 1)
    } else {
        x
    }
}

/// The fraction that the `+` operator forms before it is possibly reduced:
/// like `sum_frac`, with a zero sum written `0/1`.
pub open spec fn op_sum_frac(x: Frac, y: Frac) -> Frac {
    if x.0 == 0 {
        y
    } else if y.0 == 0 {
        x
    } else {
        zero_as_one(sum_frac(x, y))
    }
}

/// What the `+` operator returns for `x` and `y`: the value `x + y`, as the
/// fraction `op_sum_frac(x, y)`, possibly reduced.
pub open spec fn op_sum_result(x: Frac, y: Frac, z: Frac) -> bool {
    &&& maybe_reduced(op_sum_frac(x, y), z)
    &&& rat_eq(z, rat_add(x, y))
    &&& z.1 != 0
}

/// Multiplication by `1` or `-1` returns the other operand (negated)
/// without multiplying.
pub open spec fn product_shortcut(x: Frac, y: Frac) -> bool {
    x.0 == x.1 || y.0 == y.1 || x.0 == -x.1 || y.0 == -y.1
}

/// Multiplication reduces its operands first, and then not the product,
/// when the operands or either part of the product would be large.
pub open spec fn product_pre_reduces(x: Frac, y: Frac) -> bool {
    ||| bits_of_both(x, y) > pre_reduce_threshold()
    ||| int_bits(x.0) + int_bits(y.0) > pre_reduce_threshold()
    ||| int_bits(x.1) + int_bits(y.1) > pre_reduce_threshold()
}

/// The fraction that multiplication forms before it is possibly reduced.
pub open spec fn product_frac(x: Frac, y: Frac) -> Frac {
    if x.0 == x.1 {
        y
    } else if y.0 == y.1 {
        x
    } else if x.0 == -x.1 {
        rat_neg(y)
    } else if y.0 == -y.1 {
        rat_neg(x)
    } else if product_pre_reduces(x, y) {
        rat_mul(canonical(x), canonical(y))
    } else {
        rat_mul(x, y)
    }
}

/// What multiplication returns for the operands `x` and `y`: the value
/// `x * y`, as the fraction `product_frac(x, y)`, possibly reduced unless a
/// shortcut or the pre-reduction applied.
pub open spec fn product_result(x: Frac, y: Frac, z: Frac) -> bool {
    &&& if product_shortcut(x, y) || product_pre_reduces(x, y) {
        z == product_frac(x, y)
    } else {
        maybe_reduced(product_frac(x, y), z)
    }
    &&& rat_eq(z, rat_mul(x, y))
    &&& z.1 != 0
}

/// `ds` with zeros in front, up to `width` characters.
pub open spec fn pad_zeros(ds: Seq<char>, width: nat) -> Seq<char> {
    if ds.len() < width {
        Seq::new((width - ds.len()) as nat, |i: int| '0') + ds
    } else {
        ds
    }
}

/// The decimal string of `x` with exactly `n` digits after the point,
/// truncated toward zero: the digits of `|x| * 10^n` rounded down, with at
/// least one digit before the point, and a `-` when `x` is negative.
pub open spec fn truncated_string(x: Frac, n: nat) -> Seq<char> {
    let q = ((abs(x.0) * pow(10, n)) / (abs(x.1) as int)) as nat;
    let ds = pad_zeros(decimal_digits(q), n + 1);
    let k = ds.len() - n;
    (if rat_sign(x) < 0 {
        seq!['-']
    } else {
        Seq::<char>::empty()
    }) + ds.subrange(0, k) + seq!['.'] + ds.subrange(k, ds.len() as int)
}

/// A possibly reduced fraction has the value of the fraction it came from.
pub proof fn lemma_maybe_reduced(x: Frac, y: Frac)
    requires
        x.1 != 0,
        maybe_reduced(x, y),
    ensures
        rat_eq(y, x),
        y.1 != 0,
{
    lemma_canonical(x);
    if y != x {
        assert(y == reduce_of(positive_den_of(x)));
    }
}

/// The fraction that addition forms has the value of the sum.
pub proof fn lemma_sum_frac(x: Frac, y: Frac)
    requires
        x.1 != 0,
        y.1 != 0,
    ensures
        rat_eq(sum_frac(x, y), rat_add(x, y)),
        sum_frac(x, y).1 != 0,
        rat_add(x, y).1 != 0,
{
    assert(x.1 * y.1 != 0) by (nonlinear_arith)
        requires
            x.1 != 0,
            y.1 != 0,
    ;
    if x.0 == 0 {
        assert(y.0 * (x.1 * y.1) == (x.0 * y.1 + x.1 * y.0) * y.1) by (nonlinear_arith)
            requires
                x.0 == 0,
        ;
    } else if y.0 == 0 {
        assert(x.0 * (x.1 * y.1) == (x.0 * y.1 + x.1 * y.0) * x.1) by (nonlinear_arith)
            requires
                y.0 == 0,
        ;
    } else if bits_of_both(x, y) > pre_reduce_threshold() {
        lemma_canonical(x);
        lemma_canonical(y);
        lemma_rat_add_congruent(canonical(x), canonical(y), x, y);
        let c = canonical(x);
        let d = canonical(y);
        assert(c.1 * d.1 != 0) by (nonlinear_arith)
            requires
                c.1 > 0,
                d.1 > 0,
        ;
    }
}

/// The fraction that the `+` operator forms has the value of the sum.
pub proof fn lemma_op_sum_frac(x: Frac, y: Frac)
    requires
        x.1 != 0,
        y.1 != 0,
    ensures
        rat_eq(op_sum_frac(x, y), rat_add(x, y)),
        op_sum_frac(x, y).1 != 0,
        rat_add(x, y).1 != 0,
{
    lemma_sum_frac(x, y);
    let f = sum_frac(x, y);
    if x.0 != 0 && y.0 != 0 && f.0 == 0 {
        let z: Frac = (0, 1);
        assert(0 * f.1 == 0) by (nonlinear_arith);
        assert(rat_eq(z, f));
        lemma_rat_eq_trans(z, f, rat_add(x, y));
    }
}

/// The fraction that multiplication forms has the value of the product.
pub proof fn lemma_product_frac(x: Frac, y: Frac)
    requires
        x.1 != 0,
        y.1 != 0,
    ensures
        rat_eq(product_frac(x, y), rat_mul(x, y)),
        product_frac(x, y).1 != 0,
        rat_mul(x, y).1 != 0,
{
    assert(x.1 * y.1 != 0) by (nonlinear_arith)
        requires
            x.1 != 0,
            y.1 != 0,
    ;
    if x.0 == x.1 {
        assert(y.0 * (x.1 * y.1) == (x.0 * y.0) * y.1) by (nonlinear_arith)
            requires
                x.0 == x.1,
        ;
    } else if y.0 == y.1 {
        assert(x.0 * (x.1 * y.1) == (x.0 * y.0) * x.1) by (nonlinear_arith)
            requires
                y.0 == y.1,
        ;
    } else if x.0 == -x.1 {
        assert((-y.0) * (x.1 * y.1) == (x.0 * y.0) * y.1) by (nonlinear_arith)
            requires
                x.0 == -x.1,
        ;
    } else if y.0 == -y.1 {
        assert((-x.0) * (x.1 * y.1) == (x.0 * y.0) * x.1) by (nonlinear_arith)
            requires
                y.0 == -y.1,
        ;
    } else if product_pre_reduces(x, y) {
        lemma_canonical(x);
        lemma_canonical(y);
        lemma_rat_mul_congruent(canonical(x), canonical(y), x, y);
        let c = canonical(x);
        let d = canonical(y);
        assert(c.1 * d.1 != 0) by (nonlinear_arith)
            requires
                c.1 > 0,
                d.1 > 0,
        ;
    }
}

/// `num_bigint`'s sign as `-1`, `0` or `1`.
fn signum_bigint(x: &BigInt) -> (r: i32)
    ensures
        r == int_signum(x@),
{
    match x.sign() {
        Sign::Minus => -1,
        Sign::NoSign => 0,
        Sign::Plus => 1,
    }
}

/// `rand`'s thread-local generator: a random `u32`. Nothing is promised of
/// the value.
#[verifier::external_body]
fn random_u32() -> (r: u32) {
    rand::RngCore::next_u32(&mut rand::rng())
}

/// A ratio of two arbitrary-precision integers, `numerator/denominator`.
///
/// The arithmetic functions (`add`, `subtract`, `multiply`, `divide`)
/// return `None` when the exact result, in lowest terms, has more than
/// `MAX_SIZE` bits, telling the caller to fall back to a constructive real;
/// a `None` argument, standing for such a value, gives `None`.
#[derive(Debug)]
pub struct BoundedRational {
    numerator: BigInt,
    denominator: BigInt,
}

impl View for BoundedRational {
    type V = Frac;

    closed spec fn view(&self) -> Frac {
        (self.numerator@, self.denominator@)
    }
}

impl BoundedRational {
    /// The denominator is never zero.
    #[verifier::type_invariant]
    pub closed spec fn well_formed(self) -> bool {
        self.denominator@ != 0
    }

    /// Read-only access to the numerator.
    pub fn numerator(&self) -> (r: &BigInt)
        ensures
            r@ == self@.0,
    {
        &self.numerator
    }

    /// Read-only access to the denominator.
    pub fn denominator(&self) -> (r: &BigInt)
        ensures
            r@ == self@.1,
            r@ != 0,
    {
        proof {
            use_type_invariant(self);
        }
        &self.denominator
    }

    /// Creates a new `BoundedRational` with the given numerator and
    /// denominator; a zero numerator gives `0/1`.
    ///
    /// Error: `Err(ZeroDenominatorError)` if `d` is zero.
    pub fn new(n: BigInt, d: BigInt) -> (r: Result<Self, ZeroDenominatorError>)
        ensures
            r is Err <==> d@ == 0,
            r matches Ok(x) ==> x@ == (if n@ == 0 {
                (0int, 1int)
            } else {
                (n@, d@)
            }),
    {
        if d == zero() {
            return Err(ZeroDenominatorError);
        }
        if n == zero() {
            return Ok(BoundedRational { numerator: zero(), denominator: one() });
        }
        Ok(BoundedRational { numerator: n, denominator: d })
    }

    /// Creates a `BoundedRational` equal to the integer `n` (denominator 1).
    pub fn from_bigint(n: BigInt) -> (r: Self)
        ensures
            r@ == (n@, 1int),
    {
        BoundedRational { numerator: n, denominator: one() }
    }

    /// Creates a `BoundedRational` from two `i64` values.
    ///
    /// Error: `Err(ZeroDenominatorError)` if `d` is zero.
    pub fn from_longs(n: i64, d: i64) -> (r: Result<Self, ZeroDenominatorError>)
        ensures
            r is Err <==> d == 0,
            r matches Ok(x) ==> x@ == (if n == 0 {
                (0int, 1int)
            } else {
                (n as int, d as int)
            }),
    {
        Self::new(BigInt::from(n), BigInt::from(d))
    }

    /// Creates a `BoundedRational` equal to the integer `n` (denominator 1).
    pub fn from_long(n: i64) -> (r: Self)
        ensures
            r@ == (n as int, 1int),
    {
        Self::from_bigint(BigInt::from(n))
    }

    /// Returns `true` if the rational is too large to be useful: its
    /// numerator and denominator together have more than `MAX_SIZE` bits.
    /// Integers (denominator 1) are never too big.
    pub fn too_big(&self) -> (r: bool)
        ensures
            r == too_big_frac(self@),
    {
        if self.denominator == one() {
            return false;
        }
        self.numerator.bits().saturating_add(self.denominator.bits()) > MAX_SIZE as u64
    }

    /// Returns a copy of this rational with a positive denominator: when the
    /// denominator is negative, both parts are negated.
    pub fn positive_den(&self) -> (r: BoundedRational)
        ensures
            r@ == positive_den_of(self@),
            r@.1 > 0,
            rat_eq(r@, self@),
    {
        proof {
            use_type_invariant(self);
            lemma_positive_den(self@);
        }
        if self.denominator < zero() {
            BoundedRational { numerator: (&self.numerator).neg(), denominator: (&self.denominator).neg() }
        } else {
            self.clone()
        }
    }

    /// Returns an equivalent fraction in lowest terms: both parts divided by
    /// their gcd. The sign of the denominator is kept. An integer
    /// (denominator 1) is returned unchanged.
    pub fn reduce(&self) -> (r: BoundedRational)
        ensures
            r@ == reduce_of(self@),
            rat_eq(r@, self@),
            gcd(abs(r@.0), abs(r@.1)) == 1,
    {
        proof {
            use_type_invariant(self);
            lemma_reduce(self@);
        }
        if self.denominator == one() {
            return self.clone();
        }
        let divisor = self.numerator.gcd(&self.denominator);
        proof {
            crate::number_theory::lemma_gcd_divides(
                crate::bigint::abs(self@.0),
                crate::bigint::abs(self@.1),
            );
        }
        BoundedRational {
            numerator: &self.numerator / &divisor,
            denominator: &self.denominator / &divisor,
        }
    }

    /// `r` reduced (with a positive denominator) when `r` is too big or
    /// when `draw` has its four low bits clear, and `r` itself otherwise.
    /// `None` gives `None`.
    pub fn maybe_reduce_with(r: Option<BoundedRational>, draw: u32) -> (res: Option<
        BoundedRational,
    >)
        ensures
            r is None ==> res is None,
            r matches Some(x) ==> res matches Some(y) && y@ == (if too_big_frac(x@) || draw & 0xf
                == 0 {
                reduce_of(positive_den_of(x@))
            } else {
                x@
            }),
    {
        let r = match r {
            Some(r) => r,
            None => return None,
        };
        let should_reduce = r.too_big() || (draw & 0xf) == 0;
        if !should_reduce {
            return Some(r);
        }
        Some(r.positive_den().reduce())
    }

    /// A possibly reduced `r`: reduction (with a positive denominator)
    /// happens when `r` is too big, and otherwise at random one time in
    /// sixteen. `None` gives `None`.
    pub fn maybe_reduce(r: Option<BoundedRational>) -> (res: Option<BoundedRational>)
        ensures
            r is None ==> res is None,
            r matches Some(x) ==> res matches Some(y) && maybe_reduced(x@, y@),
    {
        match r {
            Some(x) => {
                if x.too_big() {
                    Self::maybe_reduce_with(Some(x), 0)
                } else {
                    Self::maybe_reduce_with(Some(x), random_u32())
                }
            },
            None => None,
        }
    }

    /// Converts an `i64` into a `BoundedRational` with denominator 1.
    pub fn value_of_long(x: i64) -> (r: BoundedRational)
        ensures
            r@ == (x as int, 1int),
    {
        match x {
            -2 => BoundedRational::from_bigint(minus_two()),
            -1 => BoundedRational::from_bigint(minus_one()),
            0 => BoundedRational::from_bigint(zero()),
            1 => BoundedRational::from_bigint(one()),
            2 => BoundedRational::from_bigint(two()),
            10 => BoundedRational::from_bigint(ten()),
            _ => BoundedRational::from_long(x),
        }
    }

    /// Returns the argument with the opposite sign. Returns `None` only for
    /// a `None` argument.
    pub fn negate(r: Option<BoundedRational>) -> (res: Option<BoundedRational>)
        ensures
            r is None <==> res is None,
            r matches Some(x) ==> res matches Some(y) && y@ == rat_neg(x@),
    {
        let r = match r {
            Some(r) => r,
            None => return None,
        };
        proof {
            use_type_invariant(&r);
        }
        Some(BoundedRational { numerator: (&r.numerator).neg(), denominator: r.denominator })
    }
}

impl BoundedRational {
    /// Whether this value, reduced to lowest terms, has more than
    /// `MAX_SIZE` bits: `exceeds_size`.
    fn exceeds_size_bits(&self) -> (r: bool)
        ensures
            r == exceeds_size(self@),
    {
        self.reduce().positive_den().too_big()
    }

    /// Returns the sum of `r1` and `r2`, possibly reduced; `None` if either
    /// argument is `None`, or if the exact sum in lowest terms has more than
    /// `MAX_SIZE` bits (see `exceeds_size`), for the caller to fall back to
    /// a constructive real.
    ///
    /// A zero operand gives the other operand. When the operands together
    /// have more than three quarters of `MAX_SIZE` bits, both are reduced
    /// (with positive denominators) before the cross multiplication.
    pub fn add(r1: Option<BoundedRational>, r2: Option<BoundedRational>) -> (res: Option<
        BoundedRational,
    >)
        ensures
            res is None <==> (r1 is None || r2 is None || (r1 matches Some(x) && r2 matches Some(
                y,
            ) && exceeds_size(rat_add(x@, y@)))),
            r1 matches Some(x) ==> r2 matches Some(y) ==> res matches Some(z) ==> sum_result(
                x@,
                y@,
                z@,
            ),
    {
        let r1 = match r1 {
            Some(r) => r,
            None => return None,
        };
        let r2 = match r2 {
            Some(r) => r,
            None => return None,
        };
        let ghost x = r1@;
        let ghost y = r2@;
        proof {
            use_type_invariant(&r1);
            use_type_invariant(&r2);
            lemma_sum_frac(x, y);
        }
        let z = Self::sum_value(r1, r2);
        proof {
            lemma_same_size(z@, rat_add(x, y));
        }
        if z.exceeds_size_bits() {
            None
        } else {
            Some(z)
        }
    }

    /// The sum that `add` returns when it is not too big.
    fn sum_value(r1: BoundedRational, r2: BoundedRational) -> (z: BoundedRational)
        ensures
            sum_result(r1@, r2@, z@),
    {
        proof {
            use_type_invariant(&r1);
            use_type_invariant(&r2);
            lemma_sum_frac(r1@, r2@);
        }
        let ghost x = r1@;
        let ghost y = r2@;
        if r1.numerator == zero() {
            let res = Self::maybe_reduce_value(r2);
            proof {
                lemma_maybe_reduced(sum_frac(x, y), res@);
                lemma_rat_eq_trans(res@, sum_frac(x, y), rat_add(x, y));
            }
            return res;
        }
        if r2.numerator == zero() {
            let res = Self::maybe_reduce_value(r1);
            proof {
                lemma_maybe_reduced(sum_frac(x, y), res@);
                lemma_rat_eq_trans(res@, sum_frac(x, y), rat_add(x, y));
            }
            return res;
        }
        let input_bits = r1.numerator.bits().saturating_add(r1.denominator.bits()).saturating_add(
            r2.numerator.bits(),
        ).saturating_add(r2.denominator.bits());
        let (r1, r2) = if input_bits > (MAX_SIZE as u64 * 3 / 4) {
            (r1.reduce().positive_den(), r2.reduce().positive_den())
        } else {
            (r1, r2)
        };
        proof {
            use_type_invariant(&r1);
            use_type_invariant(&r2);
            assert(r1@.1 * r2@.1 != 0) by (nonlinear_arith)
                requires
                    r1@.1 != 0,
                    r2@.1 != 0,
            ;
        }
        let den = &r1.denominator * &r2.denominator;
        let num = &(&r1.numerator * &r2.denominator) + &(&r1.denominator * &r2.numerator);
        let res = Self::maybe_reduce_value(BoundedRational { numerator: num, denominator: den });
        proof {
            assert(sum_frac(x, y) == rat_add(r1@, r2@));
            lemma_maybe_reduced(sum_frac(x, y), res@);
            lemma_rat_eq_trans(res@, sum_frac(x, y), rat_add(x, y));
        }
        res
    }

    /// Returns `r1 - r2`, that is `r1 + (-r2)`; `None` if either argument is
    /// `None`, or if the exact difference in lowest terms has more than
    /// `MAX_SIZE` bits.
    pub fn subtract(r1: Option<BoundedRational>, r2: Option<BoundedRational>) -> (res: Option<
        BoundedRational,
    >)
        ensures
            res is None <==> (r1 is None || r2 is None || (r1 matches Some(x) && r2 matches Some(
                y,
            ) && exceeds_size(rat_add(x@, rat_neg(y@))))),
            r1 matches Some(x) ==> r2 matches Some(y) ==> res matches Some(z) ==> sum_result(
                x@,
                rat_neg(y@),
                z@,
            ),
    {
        BoundedRational::add(r1, BoundedRational::negate(r2))
    }

    /// Returns `true` if this rational equals the integer `n`, that is when
    /// `numerator == n * denominator`.
    pub fn equals(&self, n: &BigInt) -> (r: bool)
        ensures
            r == (self@.0 == n@ * self@.1),
    {
        self.numerator == n * &self.denominator
    }

    /// Returns the product of `r1` and `r2`, possibly reduced; `None` if
    /// either argument is `None`, or if the exact product in lowest terms has
    /// more than `MAX_SIZE` bits (see `exceeds_size`), for the caller to fall
    /// back to a constructive real.
    ///
    /// A factor equal to `1` gives the other factor, and a factor equal to
    /// `-1` gives the other factor negated. When the operands, or the
    /// numerators or the denominators of the product, have more than three
    /// quarters of `MAX_SIZE` bits, both operands are reduced (with positive
    /// denominators) first and the product is returned as it is; otherwise
    /// the product is possibly reduced.
    pub fn multiply(r1: Option<BoundedRational>, r2: Option<BoundedRational>) -> (res: Option<
        BoundedRational,
    >)
        ensures
            res is None <==> (r1 is None || r2 is None || (r1 matches Some(x) && r2 matches Some(
                y,
            ) && exceeds_size(rat_mul(x@, y@)))),
            r1 matches Some(x) ==> r2 matches Some(y) ==> res matches Some(z) ==> product_result(
                x@,
                y@,
                z@,
            ),
    {
        let r1 = match r1 {
            Some(r) => r,
            None => return None,
        };
        let r2 = match r2 {
            Some(r) => r,
            None => return None,
        };
        let ghost x = r1@;
        let ghost y = r2@;
        proof {
            use_type_invariant(&r1);
            use_type_invariant(&r2);
            lemma_product_frac(x, y);
        }
        let z = Self::product_value(r1, r2);
        proof {
            lemma_same_size(z@, rat_mul(x, y));
        }
        if z.exceeds_size_bits() {
            None
        } else {
            Some(z)
        }
    }

    /// The product that `multiply` returns when it is not too big.
    fn product_value(r1: BoundedRational, r2: BoundedRational) -> (z: BoundedRational)
        ensures
            product_result(r1@, r2@, z@),
    {
        proof {
            use_type_invariant(&r1);
            use_type_invariant(&r2);
            lemma_product_frac(r1@, r2@);
        }
        let ghost x = r1@;
        let ghost y = r2@;
        if r1.equals(&one()) {
            return r2;
        }
        if r2.equals(&one()) {
            return r1;
        }
        if r1.equals(&minus_one()) {
            return BoundedRational { numerator: (&r2.numerator).neg(), denominator: r2.denominator };
        }
        if r2.equals(&minus_one()) {
            return BoundedRational { numerator: (&r1.numerator).neg(), denominator: r1.denominator };
        }
        let threshold: u64 = MAX_SIZE as u64 * 3 / 4;
        let input_bits = r1.numerator.bits().saturating_add(r1.denominator.bits()).saturating_add(
            r2.numerator.bits(),
        ).saturating_add(r2.denominator.bits());
        let result_num_bits = r1.numerator.bits().saturating_add(r2.numerator.bits());
        let result_den_bits = r1.denominator.bits().saturating_add(r2.denominator.bits());
        let already_reduced = input_bits > threshold || result_num_bits > threshold
            || result_den_bits > threshold;
        let (r1, r2) = if already_reduced {
            (r1.reduce().positive_den(), r2.reduce().positive_den())
        } else {
            (r1, r2)
        };
        proof {
            use_type_invariant(&r1);
            use_type_invariant(&r2);
            assert(r1@.1 * r2@.1 != 0) by (nonlinear_arith)
                requires
                    r1@.1 != 0,
                    r2@.1 != 0,
            ;
        }
        let result = BoundedRational {
            numerator: &r1.numerator * &r2.numerator,
            denominator: &r1.denominator * &r2.denominator,
        };
        if already_reduced {
            result
        } else {
            let res = BoundedRational::maybe_reduce_value(result);
            proof {
                lemma_maybe_reduced(product_frac(x, y), res@);
                lemma_rat_eq_trans(res@, product_frac(x, y), rat_mul(x, y));
            }
            res
        }
    }

    /// Returns the reciprocal of `r`: numerator and denominator swapped.
    /// `None` gives `Ok(None)`.
    ///
    /// Error: `Err(ZeroDivisionError)` if `r` is zero.
    pub fn inverse(r: Option<BoundedRational>) -> (res: Result<
        Option<BoundedRational>,
        ZeroDivisionError,
    >)
        ensures
            r is None ==> res matches Ok(None),
            r matches Some(x) ==> (res is Err <==> x@.0 == 0),
            r matches Some(x) ==> res matches Ok(v) ==> v matches Some(y) && y@ == rat_inv(x@),
    {
        let r = match r {
            Some(r) => r,
            None => return Ok(None),
        };
        if r.numerator == zero() {
            return Err(ZeroDivisionError);
        }
        Ok(Some(BoundedRational { numerator: r.denominator, denominator: r.numerator }))
    }

    /// Returns `r1 / r2`, computed as `r1 * inverse(r2)`; `Ok(None)` if
    /// either argument is `None` or the exact quotient in lowest terms has
    /// more than `MAX_SIZE` bits.
    ///
    /// Error: `Err(ZeroDivisionError)` if `r2` is zero.
    pub fn divide(r1: Option<BoundedRational>, r2: Option<BoundedRational>) -> (res: Result<
        Option<BoundedRational>,
        ZeroDivisionError,
    >)
        ensures
            res is Err <==> (r2 matches Some(y) && y@.0 == 0),
            res matches Ok(v) ==> (v is None <==> (r1 is None || r2 is None || (r1 matches Some(x)
                && r2 matches Some(y) && exceeds_size(rat_mul(x@, rat_inv(y@)))))),
            r1 matches Some(x) ==> r2 matches Some(y) ==> res matches Ok(Some(z)) ==> product_result(
                x@,
                rat_inv(y@),
                z@,
            ),
    {
        match BoundedRational::inverse(r2) {
            Ok(inv) => Ok(BoundedRational::multiply(r1, inv)),
            Err(e) => Err(e),
        }
    }

    /// Returns the sign of this rational: `-1`, `0` or `1`. The sign of a
    /// fraction is the sign of the numerator times the sign of the
    /// denominator.
    pub fn signum(&self) -> (r: i32)
        ensures
            r == rat_sign(self@),
    {
        proof {
            use_type_invariant(self);
        }
        signum_bigint(&self.numerator) * signum_bigint(&self.denominator)
    }

    /// `n1 * n2`, skipping the multiplication when either side is `1` or
    /// `-1`.
    fn cross_multiply(n1: &BigInt, n2: &BigInt) -> (r: BigInt)
        ensures
            r@ == n1@ * n2@,
    {
        if *n1 == one() {
            n2.clone()
        } else if *n1 == minus_one() {
            n2.neg()
        } else if *n2 == one() {
            n1.clone()
        } else if *n2 == minus_one() {
            n1.neg()
        } else {
            n1 * n2
        }
    }

    /// Compares the values of `self` and `other`.
    ///
    /// Different signs decide at once; otherwise `a/b` and `c/d` are compared
    /// by cross multiplication, `a*d` against `c*b`, the result reversed when
    /// exactly one of the denominators is negative.
    pub fn compare_to(&self, other: &BoundedRational) -> (r: Ordering)
        ensures
            r == rat_order(self@, other@),
    {
        proof {
            use_type_invariant(self);
            use_type_invariant(other);
            lemma_sign_order(self@, other@);
        }
        let sign1 = self.signum();
        let sign2 = other.signum();
        if sign1 != sign2 {
            return if sign1 < sign2 {
                Ordering::Less
            } else {
                Ordering::Greater
            };
        }
        if self.numerator == zero() && other.signum() == 1 {
            return Ordering::Less;
        }
        if self.numerator == zero() && other.signum() == -1 {
            return Ordering::Greater;
        }
        if self.signum() == 1 && other.numerator == zero() {
            return Ordering::Greater;
        }
        if self.signum() == -1 && other.numerator == zero() {
            return Ordering::Less;
        }
        let lhs = Self::cross_multiply(&self.numerator, &other.denominator);
        let rhs = Self::cross_multiply(&other.numerator, &self.denominator);
        let cross = lhs.cmp(&rhs);
        let s1 = signum_bigint(&self.denominator);
        let s2 = signum_bigint(&other.denominator);
        proof {
            assert(-1 <= s1 * s2 <= 1) by (nonlinear_arith)
                requires
                    -1 <= s1 <= 1,
                    -1 <= s2 <= 1,
            ;
        }
        let den_sign_product = s1 * s2;
        proof {
            let x = self@;
            let y = other@;
            assert(x.1 * y.1 != 0 && (den_sign_product < 0) == (x.1 * y.1 < 0)) by (nonlinear_arith)
                requires
                    x.1 != 0,
                    y.1 != 0,
                    den_sign_product == int_signum(x.1) * int_signum(y.1),
            ;
            lemma_order_scaled(x.0 * y.1, y.0 * x.1, x.1 * y.1);
        }
        if den_sign_product < 0 {
            match cross {
                Ordering::Less => Ordering::Greater,
                Ordering::Equal => Ordering::Equal,
                Ordering::Greater => Ordering::Less,
            }
        } else {
            cross
        }
    }

    /// Returns this value as an `i64`, provided it is a whole number.
    ///
    /// Errors: `Err("intValue of non-int")` when the value has a fractional
    /// part, and `Err("intValue: numerator does not fit in i64")` when the
    /// integer is outside the range of `i64`.
    pub fn int_value(&self) -> (r: Result<i64, &'static str>)
        ensures
            r is Ok <==> is_integer(self@) && i64::MIN <= trunc_div(self@.0, self@.1)
                <= i64::MAX,
            r matches Ok(v) ==> v == trunc_div(self@.0, self@.1),
            r matches Err(e) ==> e@ == (if is_integer(self@) {
                "intValue: numerator does not fit in i64"@
            } else {
                "intValue of non-int"@
            }),
    {
        proof {
            use_type_invariant(self);
            lemma_integer_canonical(self@);
        }
        let reduced = self.reduce().positive_den();
        if reduced.denominator != one() {
            return Err("intValue of non-int");
        }
        match reduced.numerator.to_i64() {
            Some(v) => Ok(v),
            None => Err("intValue: numerator does not fit in i64"),
        }
    }
}

impl BoundedRational {
    /// Returns a decimal string with exactly `n` digits after the decimal
    /// point. The value is truncated (rounded toward zero); there is always
    /// at least one digit before the point, and a `-` in front of a negative
    /// value.
    pub fn to_string_truncated(&self, n: u32) -> (r: String)
        ensures
            r@ == truncated_string(self@, n as nat),
    {
        proof {
            use_type_invariant(self);
        }
        let mut scale = one();
        let mut i: u32 = 0;
        proof {
            vstd::arithmetic::power::lemma_pow0(10);
        }
        while i < n
            invariant
                i <= n,
                scale@ == pow(10, i as nat),
            decreases n - i,
        {
            proof {
                vstd::arithmetic::power::lemma_pow_adds(10, i as nat, 1);
                vstd::arithmetic::power::lemma_pow1(10);
            }
            scale = &scale * &ten();
            i = i + 1;
        }
        let mut num_abs = self.numerator.clone();
        if num_abs < zero() {
            num_abs = (&num_abs).neg();
        }
        let mut den_abs = self.denominator.clone();
        if den_abs < zero() {
            den_abs = (&den_abs).neg();
        }
        proof {
            vstd::arithmetic::power::lemma_pow_positive(10, n as nat);
            assert(num_abs@ * scale@ >= 0) by (nonlinear_arith)
                requires
                    num_abs@ >= 0,
                    scale@ > 0,
            ;
        }
        let q = &(&num_abs * &scale) / &den_abs;
        let text = q.to_string();
        let digits = chars_of(text.as_str());
        let ghost q_nat = ((abs(self@.0) * pow(10, n as nat)) / (abs(self@.1) as int)) as nat;
        assert(digits@ == decimal_digits(q_nat));
        let width: u64 = n as u64 + 1;
        let mut padded: Vec<char> = Vec::new();
        if (digits.len() as u64) < width {
            let missing: u64 = width - digits.len() as u64;
            let mut j: u64 = 0;
            while j < missing
                invariant
                    j <= missing,
                    padded@ == Seq::new(j as nat, |k: int| '0'),
                decreases missing - j,
            {
                padded.push('0');
                j = j + 1;
            }
        }
        let mut j: usize = 0;
        let ghost zeros = padded@;
        while j < digits.len()
            invariant
                j <= digits.len(),
                padded@ == zeros + digits@.subrange(0, j as int),
            decreases digits.len() - j,
        {
            padded.push(digits[j]);
            j = j + 1;
        }
        let ghost ds = pad_zeros(decimal_digits(q_nat), n as nat + 1);
        assert(padded@ == ds);
        let split = padded.len() - n as usize;
        let mut out: Vec<char> = Vec::new();
        if self.signum() < 0 {
            out.push('-');
        }
        let ghost prefix = out@;
        let mut k: usize = 0;
        while k < split
            invariant
                k <= split,
                split <= padded.len(),
                out@ == prefix + padded@.subrange(0, k as int),
            decreases split - k,
        {
            out.push(padded[k]);
            k = k + 1;
        }
        out.push('.');
        let ghost head = out@;
        while k < padded.len()
            invariant
                split <= k <= padded.len(),
                out@ == head + padded@.subrange(split as int, k as int),
            decreases padded.len() - k,
        {
            out.push(padded[k]);
            k = k + 1;
        }
        string_from_chars(&out)
    }

    /// The fraction that `Hash` feeds to the hasher: this one reduced, with
    /// a positive denominator.
    pub fn hash_key(&self) -> (r: BoundedRational)
        ensures
            r@ == canonical(self@),
    {
        self.reduce().positive_den()
    }

    /// The raw, possibly unreduced, fraction as `numerator/denominator`.
    pub fn to_string(&self) -> (r: String)
        ensures
            r@ == decimal_chars(self@.0) + seq!['/'] + decimal_chars(self@.1),
    {
        let mut s = self.numerator.to_string();
        s.append("/");
        let d = self.denominator.to_string();
        s.append(d.as_str());
        proof {
            reveal_strlit("/");
        }
        s
    }
}

impl BoundedRational {
    /// `n/d`, or `0/1` when `n` is zero.
    fn from_parts(n: BigInt, d: BigInt) -> (r: BoundedRational)
        requires
            d@ != 0,
        ensures
            r@ == zero_as_one((n@, d@)),
    {
        match BoundedRational::new(n, d) {
            Ok(r) => r,
            Err(_) => BoundedRational { numerator: zero(), denominator: one() },
        }
    }

    /// `r`, possibly reduced: see `maybe_reduce`.
    fn maybe_reduce_value(r: BoundedRational) -> (res: BoundedRational)
        ensures
            maybe_reduced(r@, res@),
    {
        match BoundedRational::maybe_reduce(Some(r)) {
            Some(x) => x,
            None => BoundedRational { numerator: zero(), denominator: one() },
        }
    }

    /// The sum that the `+` operator computes: a zero operand gives the
    /// other one (possibly reduced); large operands are reduced first; the
    /// cross-multiplied sum goes through `new` and is possibly reduced.
    pub(crate) fn sum_of(a: &BoundedRational, b: &BoundedRational) -> (r: BoundedRational)
        ensures
            op_sum_result(a@, b@, r@),
    {
        proof {
            use_type_invariant(a);
            use_type_invariant(b);
            lemma_op_sum_frac(a@, b@);
        }
        let ghost x = a@;
        let ghost y = b@;
        let res = if a.numerator == zero() {
            BoundedRational::maybe_reduce_value(b.clone())
        } else if b.numerator == zero() {
            BoundedRational::maybe_reduce_value(a.clone())
        } else {
            let input_bits = a.numerator.bits().saturating_add(a.denominator.bits()).saturating_add(
                b.numerator.bits(),
            ).saturating_add(b.denominator.bits());
            if input_bits > (MAX_SIZE as u64 * 3 / 4) {
                let ra = a.reduce().positive_den();
                let rb = b.reduce().positive_den();
                proof {
                    assert(ra@.1 * rb@.1 != 0) by (nonlinear_arith)
                        requires
                            ra@.1 > 0,
                            rb@.1 > 0,
                    ;
                }
                let den = &ra.denominator * &rb.denominator;
                let num = &(&ra.numerator * &rb.denominator) + &(&ra.denominator * &rb.numerator);
                BoundedRational::maybe_reduce_value(BoundedRational::from_parts(num, den))
            } else {
                proof {
                    assert(x.1 * y.1 != 0) by (nonlinear_arith)
                        requires
                            x.1 != 0,
                            y.1 != 0,
                    ;
                }
                let den = &a.denominator * &b.denominator;
                let num = &(&a.numerator * &b.denominator) + &(&a.denominator * &b.numerator);
                BoundedRational::maybe_reduce_value(BoundedRational::from_parts(num, den))
            }
        };
        proof {
            lemma_maybe_reduced(op_sum_frac(x, y), res@);
            lemma_rat_eq_trans(res@, op_sum_frac(x, y), rat_add(x, y));
        }
        res
    }

    /// `-self`: the numerator negated.
    pub(crate) fn negated(&self) -> (r: BoundedRational)
        ensures
            r@ == rat_neg(self@),
    {
        match BoundedRational::negate(Some(self.clone())) {
            Some(x) => x,
            None => BoundedRational { numerator: zero(), denominator: one() },
        }
    }

    /// The product that the `*` operator computes: see `multiply`.
    pub(crate) fn product_of(a: &BoundedRational, b: &BoundedRational) -> (r: BoundedRational)
        ensures
            product_result(a@, b@, r@),
    {
        BoundedRational::product_value(a.clone(), b.clone())
    }

    /// The quotient that the `/` operator computes: `a` times the
    /// reciprocal of `b`, which must not be zero.
    pub(crate) fn quotient_of(a: &BoundedRational, b: &BoundedRational) -> (r: BoundedRational)
        requires
            b@.0 != 0,
        ensures
            product_result(a@, rat_inv(b@), r@),
    {
        match BoundedRational::inverse(Some(b.clone())) {
            Ok(Some(inv)) => BoundedRational::product_value(a.clone(), inv),
            _ => BoundedRational { numerator: zero(), denominator: one() },
        }
    }

    /// Divides `self` by `other`, returning an error instead of panicking
    /// when `other` is zero.
    ///
    /// Error: `Err(ZeroDivisionError)` if `other` is zero; otherwise `Ok`
    /// with the exact quotient.
    pub fn checked_div(&self, other: &BoundedRational) -> (r: Result<
        BoundedRational,
        ZeroDivisionError,
    >)
        ensures
            r is Err <==> other@.0 == 0,
            r matches Ok(q) ==> product_result(self@, rat_inv(other@), q@),
    {
        if other.numerator == zero() {
            return Err(ZeroDivisionError);
        }
        Ok(BoundedRational::quotient_of(self, other))
    }
}

impl PartialEq for BoundedRational {
    /// Two rationals are equal when they have the same value, whatever
    /// their representations.
    fn eq(&self, other: &BoundedRational) -> (r: bool) {
        proof {
            use_type_invariant(self);
            use_type_invariant(other);
            lemma_order_equal(self@, other@);
        }
        match self.compare_to(other) {
            Ordering::Equal => true,
            _ => false,
        }
    }
}

impl vstd::std_specs::cmp::PartialEqSpecImpl for BoundedRational {
    open spec fn obeys_eq_spec() -> bool {
        true
    }

    open spec fn eq_spec(&self, other: &BoundedRational) -> bool {
        rat_eq(self@, other@)
    }
}

impl Eq for BoundedRational {
}

impl core::hash::Hash for BoundedRational {
    /// Hashes the fraction reduced to lowest terms with a positive
    /// denominator, so that equal values hash alike.
    fn hash<H: core::hash::Hasher>(&self, state: &mut H) {
        let key = self.hash_key();
        crate::bigint::hash_canonical(&key.numerator, &key.denominator, self, state);
    }
}

impl Clone for BoundedRational {
    fn clone(&self) -> (r: BoundedRational)
        ensures
            r@ == self@,
    {
        proof {
            use_type_invariant(self);
        }
        BoundedRational { numerator: self.numerator.clone(), denominator: self.denominator.clone() }
    }
}

} // verus!
