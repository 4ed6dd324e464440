//! The mathematical model of a fraction: a pair `(numerator, denominator)`
//! of integers with a non-zero denominator, and the operations on it.
use crate::bigint::{abs, gcd, int_order, trunc_div};
use crate::number_theory::{
    lemma_gcd_divides, lemma_gcd_of_multiple, lemma_gcd_quotients_coprime,
    lemma_lowest_terms_unique, lemma_trunc_div_exact,
};
use vstd::arithmetic::div_mod::{lemma_fundamental_div_mod, lemma_mod_multiples_basic};
use vstd::prelude::*;

verus! {

/// A fraction `(numerator, denominator)`.
pub type Frac = (int, int);

/// The two fractions denote the same rational number.
pub open spec fn rat_eq(x: Frac, y: Frac) -> bool {
    x.0 * y.1 == y.0 * x.1
}

/// `x + y`, cross-multiplied: `(n1 * d2 + d1 * n2) / (d1 * d2)`.
pub open spec fn rat_add(x: Frac, y: Frac) -> Frac {
    (x.0 * y.1 + x.1 * y.0, x.1 * y.1)
}

/// `-x`.
pub open spec fn rat_neg(x: Frac) -> Frac {
    (-x.0, x.1)
}

/// `x * y`.
pub open spec fn rat_mul(x: Frac, y: Frac) -> Frac {
    (x.0 * y.0, x.1 * y.1)
}

/// `1 / x`: numerator and denominator swapped.
pub open spec fn rat_inv(x: Frac) -> Frac {
    (x.1, x.0)
}

/// The order of the rational numbers `x` and `y` (denominators non-zero):
/// the sign of `x - y`, which is the sign of `(n1 * d2 - n2 * d1) * (d1 * d2)`.
pub open spec fn rat_order(x: Frac, y: Frac) -> core::cmp::Ordering {
    int_order((x.0 * y.1 - y.0 * x.1) * (x.1 * y.1), 0)
}

/// The sign of the rational number `x`: -1, 0 or 1.
pub open spec fn rat_sign(x: Frac) -> int {
    if x.0 == 0 {
        0
    } else if (x.0 < 0) == (x.1 < 0) {
        1
    } else {
        -1
    }
}

/// `x` with both parts negated when the denominator is negative.
pub open spec fn positive_den_of(x: Frac) -> Frac {
    if x.1 < 0 {
        (-x.0, -x.1)
    } else {
        x
    }
}

/// `x` with both parts divided by their gcd; an integer (denominator 1) is
/// left as it is.
pub open spec fn reduce_of(x: Frac) -> Frac {
    if x.1 == 1 {
        x
    } else {
        let g = gcd(abs(x.0), abs(x.1)) as int;
        (trunc_div(x.0, g), trunc_div(x.1, g))
    }
}

/// `x` reduced, then given a positive denominator.
pub open spec fn canonical(x: Frac) -> Frac {
    positive_den_of(reduce_of(x))
}

/// `x` is in lowest terms with a positive denominator.
pub open spec fn lowest_terms(x: Frac) -> bool {
    x.1 > 0 && gcd(abs(x.0), abs(x.1)) == 1
}

/// `x` is an integer: its denominator divides its numerator.
pub open spec fn is_integer(x: Frac) -> bool {
    abs(x.0) % abs(x.1) == 0
}

/// `rat_eq` is symmetric and transitive over non-zero denominators.
pub proof fn lemma_rat_eq_trans(x: Frac, y: Frac, z: Frac)
    requires
        x.1 != 0,
        y.1 != 0,
        z.1 != 0,
        rat_eq(x, y),
        rat_eq(y, z),
    ensures
        rat_eq(x, z),
        rat_eq(z, x),
        rat_eq(y, x),
{
    assert(y.1 * (x.0 * z.1 - z.0 * x.1) == 0) by (nonlinear_arith)
        requires
            x.0 * y.1 == y.0 * x.1,
            y.0 * z.1 == z.0 * y.1,
    ;
    assert(x.0 * z.1 - z.0 * x.1 == 0) by (nonlinear_arith)
        requires
            y.1 * (x.0 * z.1 - z.0 * x.1) == 0,
            y.1 != 0,
    ;
}

/// Negating both parts keeps the value and the magnitudes.
pub proof fn lemma_positive_den(x: Frac)
    requires
        x.1 != 0,
    ensures
        rat_eq(positive_den_of(x), x),
        positive_den_of(x).1 > 0,
        abs(positive_den_of(x).0) == abs(x.0),
        abs(positive_den_of(x).1) == abs(x.1),
{
    assert((-x.0) * x.1 == x.0 * (-x.1)) by (nonlinear_arith);
}

/// Reduction keeps the value and the sign of the denominator, and leaves a
/// fraction whose parts are coprime.
pub proof fn lemma_reduce(x: Frac)
    requires
        x.1 != 0,
    ensures
        rat_eq(reduce_of(x), x),
        reduce_of(x).1 != 0,
        (reduce_of(x).1 > 0) == (x.1 > 0),
        gcd(abs(reduce_of(x).0), abs(reduce_of(x).1)) == 1,
{
    if x.1 == 1 {
        assert(abs(x.0) % 1 == 0);
        assert(gcd(1, 0) == 1);
    } else {
        let n = abs(x.0);
        let d = abs(x.1);
        lemma_gcd_divides(n, d);
        let g = gcd(n, d);
        lemma_trunc_div_exact(x.0, g as int);
        lemma_trunc_div_exact(x.1, g as int);
        lemma_gcd_quotients_coprime(n, d);
        let a = trunc_div(x.0, g as int);
        let b = trunc_div(x.1, g as int);
        assert(a * x.1 == x.0 * b) by (nonlinear_arith)
            requires
                a * g == x.0,
                b * g == x.1,
        ;
        assert(b != 0 && ((b > 0) == (x.1 > 0))) by (nonlinear_arith)
            requires
                b * g == x.1,
                x.1 != 0,
                g > 0,
        ;
    }
}

/// Both orders of reduction and sign normalisation give a fraction in
/// lowest terms with the same value.
pub proof fn lemma_canonical(x: Frac)
    requires
        x.1 != 0,
    ensures
        lowest_terms(canonical(x)),
        rat_eq(canonical(x), x),
        lowest_terms(reduce_of(positive_den_of(x))),
        rat_eq(reduce_of(positive_den_of(x)), x),
{
    lemma_reduce(x);
    lemma_positive_den(reduce_of(x));
    lemma_rat_eq_trans(canonical(x), reduce_of(x), x);
    lemma_positive_den(x);
    lemma_reduce(positive_den_of(x));
    lemma_rat_eq_trans(reduce_of(positive_den_of(x)), positive_den_of(x), x);
}

/// Fractions with the same value have the same canonical form.
pub proof fn lemma_canonical_unique(x: Frac, y: Frac)
    requires
        x.1 != 0,
        y.1 != 0,
        rat_eq(x, y),
    ensures
        canonical(x) == canonical(y),
        reduce_of(positive_den_of(x)) == canonical(y),
{
    lemma_canonical(x);
    lemma_canonical(y);
    let cx = canonical(x);
    let cy = canonical(y);
    lemma_rat_eq_trans(cx, x, y);
    lemma_rat_eq_trans(cx, y, cy);
    lemma_lowest_terms_unique(cx.0, cx.1, cy.0, cy.1);
    let rx = reduce_of(positive_den_of(x));
    lemma_rat_eq_trans(rx, x, y);
    lemma_rat_eq_trans(rx, y, cy);
    lemma_lowest_terms_unique(rx.0, rx.1, cy.0, cy.1);
}

/// Addition respects equality of values.
pub proof fn lemma_rat_add_congruent(a: Frac, b: Frac, c: Frac, d: Frac)
    requires
        rat_eq(a, c),
        rat_eq(b, d),
    ensures
        rat_eq(rat_add(a, b), rat_add(c, d)),
{
    assert((a.0 * b.1) * (c.1 * d.1) == (c.0 * d.1) * (a.1 * b.1)) by (nonlinear_arith)
        requires
            a.0 * c.1 == c.0 * a.1,
    ;
    assert((a.1 * b.0) * (c.1 * d.1) == (c.1 * d.0) * (a.1 * b.1)) by (nonlinear_arith)
        requires
            b.0 * d.1 == d.0 * b.1,
    ;
    assert((a.0 * b.1 + a.1 * b.0) * (c.1 * d.1) == (a.0 * b.1) * (c.1 * d.1) + (a.1 * b.0) * (
    c.1 * d.1)) by (nonlinear_arith);
    assert((c.0 * d.1 + c.1 * d.0) * (a.1 * b.1) == (c.0 * d.1) * (a.1 * b.1) + (c.1 * d.0) * (
    a.1 * b.1)) by (nonlinear_arith);
}

/// Multiplication respects equality of values.
pub proof fn lemma_rat_mul_congruent(a: Frac, b: Frac, c: Frac, d: Frac)
    requires
        rat_eq(a, c),
        rat_eq(b, d),
    ensures
        rat_eq(rat_mul(a, b), rat_mul(c, d)),
{
    assert((a.0 * b.0) * (c.1 * d.1) == (c.0 * d.0) * (a.1 * b.1)) by (nonlinear_arith)
        requires
            a.0 * c.1 == c.0 * a.1,
            b.0 * d.1 == d.0 * b.1,
    ;
}

/// The sign of a fraction is the sign of the product of its parts.
pub proof fn lemma_rat_sign_product(x: Frac)
    requires
        x.1 != 0,
    ensures
        rat_sign(x) == 1 <==> x.0 * x.1 > 0,
        rat_sign(x) == 0 <==> x.0 * x.1 == 0,
        rat_sign(x) == -1 <==> x.0 * x.1 < 0,
{
    if x.0 > 0 && x.1 > 0 {
        assert(x.0 * x.1 > 0) by (nonlinear_arith)
            requires
                x.0 > 0,
                x.1 > 0,
        ;
    } else if x.0 < 0 && x.1 < 0 {
        assert(x.0 * x.1 > 0) by (nonlinear_arith)
            requires
                x.0 < 0,
                x.1 < 0,
        ;
    } else if x.0 > 0 && x.1 < 0 {
        assert(x.0 * x.1 < 0) by (nonlinear_arith)
            requires
                x.0 > 0,
                x.1 < 0,
        ;
    } else if x.0 < 0 && x.1 > 0 {
        assert(x.0 * x.1 < 0) by (nonlinear_arith)
            requires
                x.0 < 0,
                x.1 > 0,
        ;
    }
}

/// Fractions of different signs are ordered by their signs.
pub proof fn lemma_sign_order(x: Frac, y: Frac)
    requires
        x.1 != 0,
        y.1 != 0,
    ensures
        rat_sign(x) < rat_sign(y) ==> rat_order(x, y) == core::cmp::Ordering::Less,
        rat_sign(x) > rat_sign(y) ==> rat_order(x, y) == core::cmp::Ordering::Greater,
{
    lemma_rat_sign_product(x);
    lemma_rat_sign_product(y);
    let p = x.0 * x.1;
    let q = y.0 * y.1;
    let a = y.1 * y.1;
    let b = x.1 * x.1;
    assert(a > 0 && b > 0) by (nonlinear_arith)
        requires
            x.1 != 0,
            y.1 != 0,
            a == y.1 * y.1,
            b == x.1 * x.1,
    ;
    assert((x.0 * y.1 - y.0 * x.1) * (x.1 * y.1) == p * a - q * b) by (nonlinear_arith)
        requires
            p == x.0 * x.1,
            q == y.0 * y.1,
            a == y.1 * y.1,
            b == x.1 * x.1,
    ;
    if rat_sign(x) < rat_sign(y) {
        assert(p * a - q * b < 0) by (nonlinear_arith)
            requires
                a > 0,
                b > 0,
                (p < 0 && q >= 0) || (p <= 0 && q > 0),
        ;
    }
    if rat_sign(x) > rat_sign(y) {
        assert(p * a - q * b > 0) by (nonlinear_arith)
            requires
                a > 0,
                b > 0,
                (p > 0 && q <= 0) || (p >= 0 && q < 0),
        ;
    }
}

/// Scaling a difference by a positive factor keeps its order, and by a
/// negative factor reverses it.
pub proof fn lemma_order_scaled(a: int, b: int, k: int)
    requires
        k != 0,
    ensures
        k > 0 ==> int_order((a - b) * k, 0) == int_order(a, b),
        k < 0 ==> int_order((a - b) * k, 0) == int_order(b, a),
{
    if a < b {
        assert(k > 0 ==> (a - b) * k < 0) by (nonlinear_arith)
            requires
                a < b,
        ;
        assert(k < 0 ==> (a - b) * k > 0) by (nonlinear_arith)
            requires
                a < b,
        ;
    } else if a > b {
        assert(k > 0 ==> (a - b) * k > 0) by (nonlinear_arith)
            requires
                a > b,
        ;
        assert(k < 0 ==> (a - b) * k < 0) by (nonlinear_arith)
            requires
                a > b,
        ;
    } else {
        assert((a - b) * k == 0) by (nonlinear_arith)
            requires
                a == b,
        ;
    }
}

/// Two fractions are `Equal` in order exactly when they have the same value.
pub proof fn lemma_order_equal(x: Frac, y: Frac)
    requires
        x.1 != 0,
        y.1 != 0,
    ensures
        (rat_order(x, y) == core::cmp::Ordering::Equal) == rat_eq(x, y),
{
    assert(x.1 * y.1 != 0) by (nonlinear_arith)
        requires
            x.1 != 0,
            y.1 != 0,
    ;
    lemma_order_scaled(x.0 * y.1, y.0 * x.1, x.1 * y.1);
}

/// When the denominator divides the numerator, dividing rounded toward zero
/// gives the exact quotient.
pub proof fn lemma_integer_quotient(x: Frac)
    requires
        x.1 != 0,
        is_integer(x),
    ensures
        trunc_div(x.0, x.1) * x.1 == x.0,
{
    let n = abs(x.0);
    let d = abs(x.1);
    lemma_fundamental_div_mod(n as int, d as int);
    let k = (n / d) as int;
    assert(n == k * d);
    if x.0 >= 0 && x.1 > 0 {
    } else if x.0 < 0 && x.1 < 0 {
        assert(k * x.1 == x.0) by (nonlinear_arith)
            requires
                n == k * d,
                n == -x.0,
                d == -x.1,
        ;
    } else if x.0 >= 0 && x.1 < 0 {
        assert((-k) * x.1 == x.0) by (nonlinear_arith)
            requires
                n == k * d,
                n == x.0,
                d == -x.1,
        ;
    } else {
        assert((-k) * x.1 == x.0) by (nonlinear_arith)
            requires
                n == k * d,
                n == -x.0,
                d == x.1,
        ;
    }
}

/// A fraction is an integer exactly when its canonical form has
/// denominator 1, whose numerator is then the integer.
pub proof fn lemma_integer_canonical(x: Frac)
    requires
        x.1 != 0,
    ensures
        (canonical(x).1 == 1) == is_integer(x),
        is_integer(x) ==> canonical(x).0 == trunc_div(x.0, x.1),
{
    lemma_canonical(x);
    let c = canonical(x);
    if c.1 == 1 {
        assert(x.0 == c.0 * x.1);
        assert(abs(x.0) == abs(c.0) * abs(x.1)) by (nonlinear_arith)
            requires
                x.0 == c.0 * x.1,
        ;
        lemma_mod_multiples_basic(abs(c.0) as int, abs(x.1) as int);
    }
    if is_integer(x) {
        lemma_integer_quotient(x);
        let t = trunc_div(x.0, x.1);
        assert(c.0 == t * c.1) by (nonlinear_arith)
            requires
                c.0 * x.1 == x.0 * c.1,
                t * x.1 == x.0,
                x.1 != 0,
        ;
        assert(abs(c.0) == abs(t) * abs(c.1)) by (nonlinear_arith)
            requires
                c.0 == t * c.1,
        ;
        lemma_gcd_of_multiple(abs(t), abs(c.1));
    }
}

} // verus!
