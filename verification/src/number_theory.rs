//! Facts about greatest common divisors that the reductions of
//! `BoundedRational` rest on.
use crate::bigint::{abs, gcd, trunc_div};
use vstd::arithmetic::div_mod::{
    lemma_fundamental_div_mod, lemma_fundamental_div_mod_converse, lemma_mod_multiples_basic,
    lemma_mod_self_0, lemma_small_mod,
};
use vstd::prelude::*;

verus! {

/// If `g` divides `x` and `y`, it divides `k * x + y`.
pub proof fn lemma_divides_linear(x: int, y: int, k: int, g: int)
    requires
        g > 0,
        x % g == 0,
        y % g == 0,
    ensures
        (k * x + y) % g == 0,
{
    lemma_fundamental_div_mod(x, g);
    lemma_fundamental_div_mod(y, g);
    let qx = x / g;
    let qy = y / g;
    assert(k * x + y == (k * qx + qy) * g) by (nonlinear_arith)
        requires
            x == g * qx,
            y == g * qy,
    ;
    lemma_mod_multiples_basic(k * qx + qy, g);
}

/// `gcd(a, b)` divides `a` and `b`, and is zero only for `gcd(0, 0)`.
pub proof fn lemma_gcd_divides(a: nat, b: nat)
    ensures
        gcd(a, b) > 0 ==> a % gcd(a, b) == 0 && b % gcd(a, b) == 0,
        (gcd(a, b) == 0) == (a == 0 && b == 0),
    decreases b,
{
    if b == 0 {
        if a > 0 {
            lemma_mod_self_0(a as int);
            lemma_small_mod(0, a);
        }
    } else {
        let r = a % b;
        lemma_gcd_divides(b, r);
        let g = gcd(b, r);
        assert(g > 0);
        lemma_fundamental_div_mod(a as int, b as int);
        lemma_divides_linear(b as int, r as int, (a / b) as int, g as int);
        assert(a == (a / b) * b + r) by (nonlinear_arith)
            requires
                a == b * (a / b) + r,
        ;
    }
}

/// `(k * a) % (k * b) == k * (a % b)`.
pub proof fn lemma_mod_scale(a: nat, b: nat, k: nat)
    requires
        b > 0,
        k > 0,
    ensures
        (k * a) % (k * b) == k * (a % b),
{
    lemma_fundamental_div_mod(a as int, b as int);
    let q = a / b;
    let r = a % b;
    assert(k * a == q * (k * b) + k * r && 0 <= k * r < k * b) by (nonlinear_arith)
        requires
            a == b * q + r,
            0 <= r < b,
            k > 0,
    ;
    lemma_fundamental_div_mod_converse((k * a) as int, (k * b) as int, q as int, (k * r) as int);
}

/// `gcd(k * a, k * b) == k * gcd(a, b)`.
pub proof fn lemma_gcd_scale(a: nat, b: nat, k: nat)
    requires
        k > 0,
    ensures
        gcd(k * a, k * b) == k * gcd(a, b),
    decreases b,
{
    if b == 0 {
        assert(k * b == 0);
    } else {
        assert(k * b > 0) by (nonlinear_arith)
            requires
                k > 0,
                b > 0,
        ;
        lemma_mod_scale(a, b, k);
        lemma_gcd_scale(b, a % b, k);
    }
}

/// Dividing both numbers by their gcd leaves coprime numbers.
pub proof fn lemma_gcd_quotients_coprime(a: nat, b: nat)
    requires
        gcd(a, b) > 0,
    ensures
        gcd(a / gcd(a, b), b / gcd(a, b)) == 1,
{
    let g = gcd(a, b);
    lemma_gcd_divides(a, b);
    lemma_fundamental_div_mod(a as int, g as int);
    lemma_fundamental_div_mod(b as int, g as int);
    let a1 = a / g;
    let b1 = b / g;
    lemma_gcd_scale(a1, b1, g);
    assert(g * a1 == a && g * b1 == b);
    let h = gcd(a1, b1);
    assert(g * h == g);
    assert(h == 1) by (nonlinear_arith)
        requires
            g * h == g,
            g > 0,
    ;
}

/// `gcd(k * m, m) == m`.
pub proof fn lemma_gcd_of_multiple(k: nat, m: nat)
    requires
        m > 0,
    ensures
        gcd(k * m, m) == m,
{
    lemma_mod_multiples_basic(k as int, m as int);
    assert(gcd(m, 0) == m);
}

/// Coefficients `(x, y)` with `a * x + b * y == gcd(a, b)`.
pub open spec fn bezout(a: nat, b: nat) -> (int, int)
    decreases b,
{
    if b == 0 {
        (1, 0)
    } else {
        let (x, y) = bezout(b, a % b);
        (y, x - (a / b) as int * y)
    }
}

/// Bezout's identity.
pub proof fn lemma_bezout(a: nat, b: nat)
    ensures
        a * bezout(a, b).0 + b * bezout(a, b).1 == gcd(a, b),
    decreases b,
{
    if b != 0 {
        lemma_bezout(b, a % b);
        lemma_fundamental_div_mod(a as int, b as int);
        let (x, y) = bezout(b, a % b);
        let q = (a / b) as int;
        let r = (a % b) as int;
        assert(a * y + b * (x - q * y) == b * x + r * y) by (nonlinear_arith)
            requires
                a == b * q + r,
        ;
    }
}

/// If `b` divides `a * c` and `a`, `b` are coprime, then `b` divides `c`.
pub proof fn lemma_coprime_divides(a: nat, b: nat, c: nat)
    requires
        b > 0,
        gcd(a, b) == 1,
        (a * c) % b == 0,
    ensures
        c % b == 0,
{
    lemma_bezout(a, b);
    let (x, y) = bezout(a, b);
    lemma_fundamental_div_mod((a * c) as int, b as int);
    let t = (a * c) / b;
    assert(c == (t * x + c * y) * b) by (nonlinear_arith)
        requires
            a * x + b * y == 1,
            a * c == b * t,
    ;
    lemma_mod_multiples_basic(t * x + c * y, b as int);
}

/// Two fractions in lowest terms with positive denominators that have the
/// same value are the same pair.
pub proof fn lemma_lowest_terms_unique(a: int, b: int, c: int, d: int)
    requires
        b > 0,
        d > 0,
        gcd(abs(a), abs(b)) == 1,
        gcd(abs(c), abs(d)) == 1,
        a * d == c * b,
    ensures
        a == c,
        b == d,
{
    let ua = abs(a);
    let uc = abs(c);
    let ub = b as nat;
    let ud = d as nat;
    assert(ua * ud == uc * ub) by (nonlinear_arith)
        requires
            a * d == c * b,
            b > 0,
            d > 0,
            ua == (if a < 0 { -a } else { a }),
            uc == (if c < 0 { -c } else { c }),
            ub == b,
            ud == d,
    ;
    lemma_mod_multiples_basic(uc as int, ub as int);
    lemma_coprime_divides(ua, ub, ud);
    lemma_mod_multiples_basic(ua as int, ud as int);
    assert(ud * ua == uc * ub) by (nonlinear_arith)
        requires
            ua * ud == uc * ub,
    ;
    assert((uc * ub) % ud == 0);
    lemma_coprime_divides(uc, ud, ub);
    lemma_fundamental_div_mod(ud as int, ub as int);
    lemma_fundamental_div_mod(ub as int, ud as int);
    assert(b == d) by (nonlinear_arith)
        requires
            ud == ub * (ud / ub),
            ub == ud * (ub / ud),
            ub > 0,
            ud > 0,
            b == ub,
            d == ud,
    ;
    assert(a == c) by (nonlinear_arith)
        requires
            a * d == c * b,
            b == d,
            b > 0,
    ;
}

/// Division rounding toward zero is exact when the divisor divides the
/// magnitude of the dividend.
pub proof fn lemma_trunc_div_exact(a: int, g: int)
    requires
        g > 0,
        abs(a) % (g as nat) == 0,
    ensures
        trunc_div(a, g) * g == a,
        abs(trunc_div(a, g)) == abs(a) / (g as nat),
{
    lemma_fundamental_div_mod(abs(a) as int, g);
    let q = (abs(a) / (g as nat)) as int;
    assert(q * g == abs(a));
    assert((-q) * g == -(q * g)) by (nonlinear_arith);
}

} // verus!
