//! What holds of `BoundedRational` across its operations, stated over the
//! fractions (`x@`) of its values and over the results that the operations'
//! contracts describe.
use crate::bigint::{abs, gcd, int_bits, int_order, lemma_nat_bits_bounds, trunc_div};
use crate::evaluation::bounded_rational::double::{double_frac, nearest_double};
use crate::evaluation::bounded_rational::{
    exceeds_size, lemma_maybe_reduced, lemma_same_size, maybe_reduced, op_sum_result,
    product_result, sum_result,
};
use crate::ieee::{
    is_finite_bits, is_negative_bits, lemma_rounds_to_exact,
    lemma_rounds_to_same_value, lemma_rounds_to_unique,
    lemma_scaled_monotone, lemma_scaled_top, magnitude_bits, rounds_to, scaled_value, sign_bit,
};
use crate::rational::{
    canonical, is_integer, lemma_canonical, lemma_canonical_unique, lemma_order_equal,
    lemma_order_scaled, lemma_rat_eq_trans, lowest_terms, reduce_of, rat_add, rat_eq, rat_inv, rat_mul,
    rat_neg, rat_order, rat_sign, Frac,
};
use vstd::arithmetic::power2::{lemma_pow2_pos, pow2};
use vstd::prelude::*;

verus! {

/// `(x + y) - y` has the value of `x`.
proof fn lemma_add_sub_value(x: Frac, y: Frac, s: Frac, t: Frac)
    requires
        x.1 != 0,
        y.1 != 0,
        s.1 != 0,
        t.1 != 0,
        rat_eq(s, rat_add(x, y)),
        rat_eq(t, rat_add(s, rat_neg(y))),
    ensures
        rat_eq(t, x),
{
    let xy = rat_add(x, y);
    let back = rat_add(xy, rat_neg(y));
    assert(xy.1 != 0 && back.1 != 0) by (nonlinear_arith)
        requires
            x.1 != 0,
            y.1 != 0,
            xy.1 == x.1 * y.1,
            back.1 == xy.1 * y.1,
    ;
    crate::rational::lemma_rat_add_congruent(s, rat_neg(y), xy, rat_neg(y));
    assert(rat_eq(back, x)) by (nonlinear_arith)
        requires
            back == ((x.0 * y.1 + x.1 * y.0) * y.1 + (x.1 * y.1) * (-y.0), (x.1 * y.1) * y.1),
    ;
    let sy = rat_add(s, rat_neg(y));
    assert(sy.1 != 0) by (nonlinear_arith)
        requires
            s.1 != 0,
            y.1 != 0,
            sy.1 == s.1 * y.1,
    ;
    lemma_rat_eq_trans(t, sy, back);
    lemma_rat_eq_trans(t, back, x);
}

/// Adding a value and then subtracting it again gives back a value equal
/// to the first: `subtract(add(x, y), y) == x` for the Option-returning
/// functions.
pub proof fn add_then_subtract_round_trips(x: Frac, y: Frac, s: Frac, t: Frac)
    requires
        x.1 != 0,
        y.1 != 0,
        sum_result(x, y, s),
        sum_result(s, rat_neg(y), t),
    ensures
        rat_eq(t, x),
{
    lemma_add_sub_value(x, y, s, t);
}

/// The same round trip through the `+` and `-` operators:
/// `(x + y) - y == x`.
pub proof fn operators_add_then_subtract_round_trips(x: Frac, y: Frac, s: Frac, t: Frac)
    requires
        x.1 != 0,
        y.1 != 0,
        op_sum_result(x, y, s),
        op_sum_result(s, rat_neg(y), t),
    ensures
        rat_eq(t, x),
{
    lemma_add_sub_value(x, y, s, t);
}

/// Addition commutes: `add(x, y) == add(y, x)`.
pub proof fn addition_commutes(x: Frac, y: Frac, s: Frac, t: Frac)
    requires
        x.1 != 0,
        y.1 != 0,
        sum_result(x, y, s),
        sum_result(y, x, t),
    ensures
        rat_eq(s, t),
{
    let a = rat_add(x, y);
    let b = rat_add(y, x);
    assert(a.1 != 0 && rat_eq(a, b)) by (nonlinear_arith)
        requires
            x.1 != 0,
            y.1 != 0,
            a == (x.0 * y.1 + x.1 * y.0, x.1 * y.1),
            b == (y.0 * x.1 + y.1 * x.0, y.1 * x.1),
    ;
    lemma_rat_eq_trans(s, a, b);
    lemma_rat_eq_trans(s, b, t);
}

/// A part of fewer than 2^128 in magnitude has at most 128 bits.
proof fn lemma_bits_below_128(x: int)
    requires
        abs(x) < 0x1_0000_0000_0000_0000_0000_0000_0000_0000,
    ensures
        int_bits(x) <= 128,
{
    if abs(x) > 0 {
        lemma_nat_bits_bounds(abs(x));
        vstd::arithmetic::power2::lemma2_to64();
        vstd::arithmetic::power2::lemma_pow2_adds(64, 64);
        if int_bits(x) > 128 {
            vstd::arithmetic::power2::lemma_pow2_strictly_increases(
                128,
                (int_bits(x) - 1) as nat,
            );
        }
    }
}

/// Reduction does not make a part bigger.
proof fn lemma_reduce_shrinks(v: Frac)
    requires
        v.1 != 0,
    ensures
        abs(canonical(v).0) <= abs(v.0),
        abs(canonical(v).1) <= abs(v.1),
{
    if v.1 != 1 {
        let g = gcd(abs(v.0), abs(v.1));
        crate::number_theory::lemma_gcd_divides(abs(v.0), abs(v.1));
        assert(g > 0);
        let a = abs(v.0);
        let b = abs(v.1);
        assert(a / g <= a && b / g <= b) by (nonlinear_arith)
            requires
                g >= 1,
        ;
    }
    crate::rational::lemma_reduce(v);
    crate::rational::lemma_positive_den(reduce_of(v));
}

/// A value whose parts are below 2^128 in magnitude is never too big.
proof fn lemma_small_not_too_big(v: Frac)
    requires
        v.1 != 0,
        abs(v.0) < 0x1_0000_0000_0000_0000_0000_0000_0000_0000,
        abs(v.1) < 0x1_0000_0000_0000_0000_0000_0000_0000_0000,
    ensures
        !exceeds_size(v),
{
    lemma_reduce_shrinks(v);
    lemma_bits_below_128(canonical(v).0);
    lemma_bits_below_128(canonical(v).1);
}

/// For values whose parts fit in an `i64`, as `from_longs` makes them,
/// adding and then subtracting succeeds at both steps and gives back the
/// first value: `subtract(add(Some(l), Some(r)), Some(r)) == Some(l)`.
pub proof fn add_then_subtract_round_trips_for_longs(x: Frac, y: Frac, s: Frac, t: Frac)
    requires
        x.1 != 0,
        y.1 != 0,
        i64::MIN <= x.0 <= i64::MAX,
        i64::MIN <= x.1 <= i64::MAX,
        i64::MIN <= y.0 <= i64::MAX,
        i64::MIN <= y.1 <= i64::MAX,
    ensures
        !exceeds_size(rat_add(x, y)),
        sum_result(x, y, s) ==> !exceeds_size(rat_add(s, rat_neg(y))),
        sum_result(x, y, s) && sum_result(s, rat_neg(y), t) ==> rat_eq(t, x),
{
    let m: int = 0x8000_0000_0000_0000;
    let sum = rat_add(x, y);
    assert(-m * m <= x.0 * y.1 <= m * m && -m * m <= x.1 * y.0 <= m * m && -m * m <= x.1 * y.1
        <= m * m && x.1 * y.1 != 0) by (nonlinear_arith)
        requires
            -m <= x.0 <= m,
            -m <= x.1 <= m,
            -m <= y.0 <= m,
            -m <= y.1 <= m,
            x.1 != 0,
            y.1 != 0,
    ;
    lemma_small_not_too_big(sum);
    lemma_small_not_too_big(x);
    if sum_result(x, y, s) {
        let back = rat_add(s, rat_neg(y));
        assert(back.1 != 0) by (nonlinear_arith)
            requires
                s.1 != 0,
                y.1 != 0,
                back.1 == s.1 * y.1,
        ;
        lemma_add_sub_value(x, y, s, back);
        lemma_same_size(back, x);
        if sum_result(s, rat_neg(y), t) {
            lemma_add_sub_value(x, y, s, t);
        }
    }
}

/// The `+` operator commutes, with primitive integers and `BigInt`s as
/// with rationals: `x + y == y + x`.
pub proof fn operators_addition_commutes(x: Frac, y: Frac, s: Frac, t: Frac)
    requires
        x.1 != 0,
        y.1 != 0,
        op_sum_result(x, y, s),
        op_sum_result(y, x, t),
    ensures
        rat_eq(s, t),
{
    let a = rat_add(x, y);
    let b = rat_add(y, x);
    assert(a.1 != 0 && rat_eq(a, b)) by (nonlinear_arith)
        requires
            x.1 != 0,
            y.1 != 0,
            a == (x.0 * y.1 + x.1 * y.0, x.1 * y.1),
            b == (y.0 * x.1 + y.1 * x.0, y.1 * x.1),
    ;
    lemma_rat_eq_trans(s, a, b);
    lemma_rat_eq_trans(s, b, t);
}

/// Multiplication commutes, through `multiply` and through the `*`
/// operator: `x * y == y * x`.
pub proof fn multiplication_commutes(x: Frac, y: Frac, p: Frac, q: Frac)
    requires
        x.1 != 0,
        y.1 != 0,
        product_result(x, y, p),
        product_result(y, x, q),
    ensures
        rat_eq(p, q),
{
    let a = rat_mul(x, y);
    let b = rat_mul(y, x);
    assert(a.1 != 0 && rat_eq(a, b)) by (nonlinear_arith)
        requires
            x.1 != 0,
            y.1 != 0,
            a == (x.0 * y.0, x.1 * y.1),
            b == (y.0 * x.0, y.1 * x.1),
    ;
    lemma_rat_eq_trans(p, a, b);
    lemma_rat_eq_trans(p, b, q);
}

/// Dividing by a non-zero value and multiplying by it again gives back a
/// value equal to the dividend: `(x / y) * y == x`.
pub proof fn divide_then_multiply_round_trips(x: Frac, y: Frac, q: Frac, p: Frac)
    requires
        x.1 != 0,
        y.1 != 0,
        y.0 != 0,
        product_result(x, rat_inv(y), q),
        product_result(q, y, p),
    ensures
        rat_eq(p, x),
{
    let xq = rat_mul(x, rat_inv(y));
    let back = rat_mul(xq, y);
    assert(xq.1 != 0 && back.1 != 0 && rat_eq(back, x)) by (nonlinear_arith)
        requires
            x.1 != 0,
            y.0 != 0,
            y.1 != 0,
            xq == (x.0 * y.1, x.1 * y.0),
            back == ((x.0 * y.1) * y.0, (x.1 * y.0) * y.1),
    ;
    crate::rational::lemma_rat_mul_congruent(q, y, xq, y);
    let qy = rat_mul(q, y);
    assert(qy.1 != 0) by (nonlinear_arith)
        requires
            q.1 != 0,
            y.1 != 0,
            qy.1 == q.1 * y.1,
    ;
    lemma_rat_eq_trans(p, qy, back);
    lemma_rat_eq_trans(p, back, x);
}

/// Negating twice gives back the same fraction.
pub proof fn negation_is_an_involution(x: Frac)
    ensures
        rat_neg(rat_neg(x)) == x,
{
}

/// Taking the reciprocal twice gives back the same fraction.
pub proof fn inverse_is_an_involution(x: Frac)
    ensures
        rat_inv(rat_inv(x)) == x,
{
}

/// `==` on `BoundedRational` (equality of values) is an equivalence.
pub proof fn equality_is_an_equivalence(x: Frac, y: Frac, z: Frac)
    requires
        x.1 != 0,
        y.1 != 0,
        z.1 != 0,
    ensures
        rat_eq(x, x),
        rat_eq(x, y) ==> rat_eq(y, x),
        rat_eq(x, y) && rat_eq(y, z) ==> rat_eq(x, z),
{
    if rat_eq(x, y) && rat_eq(y, z) {
        lemma_rat_eq_trans(x, y, z);
    }
}

/// Equal values hash alike: `Hash` can feed a hasher only the fraction
/// `canonical(x)` of the value `x` it hashes (that is what
/// `hash_canonical` requires), and that fraction is the same for any two
/// equal values, and different for different values.
pub proof fn equal_values_hash_alike(x: Frac, y: Frac)
    requires
        x.1 != 0,
        y.1 != 0,
    ensures
        rat_eq(x, y) <==> canonical(x) == canonical(y),
        lowest_terms(canonical(x)),
{
    lemma_canonical(x);
    lemma_canonical(y);
    if rat_eq(x, y) {
        lemma_canonical_unique(x, y);
    }
    if canonical(x) == canonical(y) {
        lemma_rat_eq_trans(x, canonical(x), y);
    }
}

/// `compare_to` agrees with equality: it is `Equal` exactly for equal
/// values.
pub proof fn compare_to_agrees_with_equality(x: Frac, y: Frac)
    requires
        x.1 != 0,
        y.1 != 0,
    ensures
        (rat_order(x, y) == core::cmp::Ordering::Equal) == rat_eq(x, y),
{
    lemma_order_equal(x, y);
}

/// `compare_to` agrees with cross multiplication: `a/b` against `c/d`
/// orders as `a*d` against `c*b`, reversed when exactly one of the
/// denominators is negative.
pub proof fn compare_to_agrees_with_cross_multiplication(x: Frac, y: Frac)
    requires
        x.1 != 0,
        y.1 != 0,
    ensures
        rat_order(x, y) == (if (x.1 < 0) != (y.1 < 0) {
            int_order(y.0 * x.1, x.0 * y.1)
        } else {
            int_order(x.0 * y.1, y.0 * x.1)
        }),
{
    assert(x.1 * y.1 != 0 && ((x.1 * y.1 < 0) == ((x.1 < 0) != (y.1 < 0)))) by (nonlinear_arith)
        requires
            x.1 != 0,
            y.1 != 0,
    ;
    lemma_order_scaled(x.0 * y.1, y.0 * x.1, x.1 * y.1);
}

/// `compare_to` is antisymmetric: swapping the operands reverses the
/// order.
pub proof fn compare_to_is_antisymmetric(x: Frac, y: Frac)
    requires
        x.1 != 0,
        y.1 != 0,
    ensures
        (rat_order(x, y) == core::cmp::Ordering::Less) == (rat_order(y, x)
            == core::cmp::Ordering::Greater),
        (rat_order(x, y) == core::cmp::Ordering::Equal) == (rat_order(y, x)
            == core::cmp::Ordering::Equal),
{
    let a = (x.0 * y.1 - y.0 * x.1) * (x.1 * y.1);
    let b = (y.0 * x.1 - x.0 * y.1) * (y.1 * x.1);
    assert(b == -a) by (nonlinear_arith)
        requires
            a == (x.0 * y.1 - y.0 * x.1) * (x.1 * y.1),
            b == (y.0 * x.1 - x.0 * y.1) * (y.1 * x.1),
    ;
}

/// `compare_to` is transitive: `x < y` and `y < z` give `x < z`.
pub proof fn compare_to_is_transitive(x: Frac, y: Frac, z: Frac)
    requires
        x.1 != 0,
        y.1 != 0,
        z.1 != 0,
        rat_order(x, y) == core::cmp::Ordering::Less,
        rat_order(y, z) == core::cmp::Ordering::Less,
    ensures
        rat_order(x, z) == core::cmp::Ordering::Less,
{
    let p = (x.0 * y.1 - y.0 * x.1) * (x.1 * y.1);
    let q = (y.0 * z.1 - z.0 * y.1) * (y.1 * z.1);
    let r = (x.0 * z.1 - z.0 * x.1) * (x.1 * z.1);
    let a = x.0 * y.1 - y.0 * x.1;
    let b = y.0 * z.1 - z.0 * y.1;
    let c = x.0 * z.1 - z.0 * x.1;
    let k = x.1 * y.1 * z.1;
    assert(a * z.1 + b * x.1 == y.1 * c) by (nonlinear_arith)
        requires
            a == x.0 * y.1 - y.0 * x.1,
            b == y.0 * z.1 - z.0 * y.1,
            c == x.0 * z.1 - z.0 * x.1,
    ;
    assert(p * (z.1 * z.1) == k * (a * z.1)) by (nonlinear_arith)
        requires
            p == a * (x.1 * y.1),
            k == x.1 * y.1 * z.1,
    ;
    assert(q * (x.1 * x.1) == k * (b * x.1)) by (nonlinear_arith)
        requires
            q == b * (y.1 * z.1),
            k == x.1 * y.1 * z.1,
    ;
    assert(k * (y.1 * c) == r * (y.1 * y.1)) by (nonlinear_arith)
        requires
            r == c * (x.1 * z.1),
            k == x.1 * y.1 * z.1,
    ;
    assert(p * (z.1 * z.1) + q * (x.1 * x.1) == r * (y.1 * y.1)) by (nonlinear_arith)
        requires
            p * (z.1 * z.1) == k * (a * z.1),
            q * (x.1 * x.1) == k * (b * x.1),
            k * (y.1 * c) == r * (y.1 * y.1),
            a * z.1 + b * x.1 == y.1 * c,
    ;
    assert(r < 0) by (nonlinear_arith)
        requires
            p < 0,
            q < 0,
            x.1 != 0,
            y.1 != 0,
            z.1 != 0,
            p * (z.1 * z.1) + q * (x.1 * x.1) == r * (y.1 * y.1),
    ;
}

/// A result that `maybe_reduce` reduced is in lowest terms with a
/// positive denominator, and every result of it has the value it was
/// given.
pub proof fn maybe_reduce_keeps_value(x: Frac, y: Frac)
    requires
        x.1 != 0,
        maybe_reduced(x, y),
    ensures
        rat_eq(y, x),
        y != x ==> lowest_terms(y),
{
    lemma_maybe_reduced(x, y);
    lemma_canonical(x);
}

/// `int_value` of `value_of_long(n)` is `Ok(n)`: the fraction `n/1` is an
/// integer whose quotient is `n`.
pub proof fn int_value_of_long_round_trips(n: i64)
    ensures
        is_integer((n as int, 1int)),
        trunc_div(n as int, 1) == n,
{
    assert(abs(n as int) % 1 == 0);
    assert(abs(n as int) / 1 == abs(n as int));
}

/// The double nearest to a value is unique: `double_value_bits` is
/// determined by the value alone.
pub proof fn nearest_double_is_unique(x: Frac, r: int, s: int)
    requires
        x.1 != 0,
        nearest_double(x, r),
        nearest_double(x, s),
    ensures
        r == s,
{
    if rat_sign(x) > 0 {
        lemma_rounds_to_unique(abs(x.0) as int, abs(x.1) as int, r, s);
    } else if rat_sign(x) < 0 {
        lemma_rounds_to_unique(abs(x.0) as int, abs(x.1) as int, r - sign_bit(), s - sign_bit());
    }
}

/// Converting a finite double other than `-0.0` to a `BoundedRational`
/// (`value_of_double_bits`) and back (`double_value_bits`) gives the same
/// double. (`-0.0` comes back as `0.0`, the double of the value zero.)
pub proof fn double_round_trips(bits: int, r: int)
    requires
        0 <= bits < 2 * sign_bit(),
        is_finite_bits(bits),
        bits != sign_bit(),
        nearest_double(double_frac(bits), r),
    ensures
        r == bits,
{
    let x = double_frac(bits);
    let mag = magnitude_bits(bits);
    crate::evaluation::bounded_rational::double::lemma_double_frac_value(bits);
    vstd::arithmetic::div_mod::lemma_fundamental_div_mod(bits, sign_bit());
    let sv = scaled_value(mag);
    let p = pow2(1075) as int;
    lemma_pow2_pos(1075);
    lemma_scaled_top();
    if mag == 0 {
        assert(bits == 0);
        assert(x.0 * p == 0) by (nonlinear_arith)
            requires
                x.0 * p == 0 * x.1,
        ;
        assert(x.0 == 0) by (nonlinear_arith)
            requires
                x.0 * p == 0,
                p > 0,
        ;
        return ;
    }
    lemma_scaled_monotone(0, mag);
    assert(sv > 0);
    let neg = is_negative_bits(bits);
    let v = if neg {
        -sv
    } else {
        sv
    };
    assert(x.0 * p == v * x.1);
    assert((x.0 > 0) == !neg && (x.0 < 0) == neg && abs(x.0) * p == sv * x.1) by (nonlinear_arith)
        requires
            x.0 * p == v * x.1,
            v == (if neg {
                -sv
            } else {
                sv
            }),
            sv > 0,
            p > 0,
            x.1 > 0,
    ;
    lemma_rounds_to_exact(mag);
    let m = if neg {
        r - sign_bit()
    } else {
        r
    };
    assert(rounds_to(abs(x.0) as int, x.1, m));
    lemma_rounds_to_same_value(abs(x.0) as int, x.1, sv, p, m);
    lemma_rounds_to_unique(sv, p, m, mag);
}

} // verus!
