//! The IEEE 754 binary64 format seen through its bit patterns: the value
//! that a pattern stands for, and the pattern that a positive rational
//! rounds to.
//!
//! A non-negative pattern `b` splits into the biased exponent
//! `b / 2^52` and the fraction `b % 2^52`. Patterns of non-negative doubles
//! are ordered as their values, from `0` (the value zero) to `inf_bits()`
//! (positive infinity).
use vstd::arithmetic::div_mod::{lemma_fundamental_div_mod, lemma_fundamental_div_mod_converse};
use vstd::arithmetic::power2::{
    lemma2_to64, lemma2_to64_rest, lemma_pow2_adds, lemma_pow2_pos, lemma_pow2_unfold, pow2,
};
use vstd::prelude::*;

verus! {

/// `2^52`, the weight of the lowest bit of the exponent field.
pub open spec fn frac_unit() -> int {
    0x10_0000_0000_0000
}

/// The bit pattern of positive infinity.
pub open spec fn inf_bits() -> int {
    2047 * frac_unit()
}

/// The sign bit of a pattern.
pub open spec fn sign_bit() -> int {
    0x8000_0000_0000_0000
}

/// The biased exponent field of a non-negative pattern.
pub open spec fn exp_field(b: int) -> int {
    b / frac_unit()
}

/// The fraction field of a non-negative pattern.
pub open spec fn frac_field(b: int) -> int {
    b % frac_unit()
}

/// `2^1075` times the value of the non-negative double with pattern `b`:
/// `2 * fraction` for subnormals, `(2^52 + fraction) * 2^exponent`
/// otherwise. For `inf_bits()` this is `2^1075 * 2^1024`, the power of two
/// just beyond the largest finite double.
pub open spec fn scaled_value(b: int) -> int {
    if exp_field(b) == 0 {
        2 * frac_field(b)
    } else {
        (frac_unit() + frac_field(b)) * pow2(exp_field(b) as nat)
    }
}

/// The gap between the value of pattern `b` and that of `b + 1`, scaled as
/// in `scaled_value`.
pub open spec fn scaled_gap(b: int) -> int {
    if exp_field(b) == 0 {
        2
    } else {
        pow2(exp_field(b) as nat) as int
    }
}

/// `b` is the pattern of the double nearest to `n/d` (`n >= 0`, `d > 0`):
/// `n/d` lies at or above the midpoint between `b - 1` and `b`, and below
/// the midpoint between `b` and `b + 1`. A value halfway between two
/// doubles therefore goes to the one of larger magnitude, and a value at or
/// beyond the midpoint between the largest finite double and `2^1024` gives
/// infinity.
pub open spec fn rounds_to(n: int, d: int, b: int) -> bool {
    &&& 0 <= b <= inf_bits()
    &&& (b == 0 || n * pow2(1076) >= d * (scaled_value(b - 1) + scaled_value(b)))
    &&& (b == inf_bits() || n * pow2(1076) < d * (scaled_value(b) + scaled_value(b + 1)))
}

/// The next pattern's value is one gap further.
pub proof fn lemma_scaled_step(b: int)
    requires
        0 <= b < inf_bits(),
    ensures
        scaled_value(b + 1) == scaled_value(b) + scaled_gap(b),
        scaled_gap(b) > 0,
        exp_field(b) <= exp_field(b + 1) <= exp_field(b) + 1,
        exp_field(b + 1) == exp_field(b) <==> frac_field(b) + 1 < frac_unit(),
{
    let u = frac_unit();
    let e = exp_field(b);
    let f = frac_field(b);
    lemma_fundamental_div_mod(b, u);
    lemma_pow2_pos(e as nat);
    if f + 1 < u {
        lemma_fundamental_div_mod_converse(b + 1, u, e, f + 1);
        if e != 0 {
            let p = pow2(e as nat) as int;
            assert((u + f + 1) * p == (u + f) * p + p) by (nonlinear_arith);
        }
    } else {
        lemma_fundamental_div_mod_converse(b + 1, u, e + 1, 0);
        lemma_pow2_unfold((e + 1) as nat);
        if e == 0 {
            lemma2_to64();
        } else {
            let p = pow2(e as nat) as int;
            assert((u + f) * p + p == u * (2 * p)) by (nonlinear_arith)
                requires
                    f == u - 1,
            ;
        }
    }
}

/// Values grow with patterns.
pub proof fn lemma_scaled_monotone(b: int, c: int)
    requires
        0 <= b <= c <= inf_bits(),
    ensures
        scaled_value(b) <= scaled_value(c),
        b < c ==> scaled_value(b) < scaled_value(c),
    decreases c - b,
{
    if b < c {
        lemma_scaled_step(c - 1);
        lemma_scaled_monotone(b, c - 1);
    }
}

/// Every gap is at least the subnormal one.
pub proof fn lemma_gap_at_least_two(b: int)
    requires
        b >= 0,
    ensures
        scaled_gap(b) >= 2,
{
    let e = exp_field(b);
    if e > 0 {
        lemma_pow2_unfold(e as nat);
        lemma_pow2_pos((e - 1) as nat);
    }
}

/// A mantissa `m` rounded to nearest (halves up) at the scale `2^t`, for a
/// value below `2^54 * 2^t` that is, when `t > 1`, at least `2^53 * 2^t`,
/// gives the pattern `(t - 1) * 2^52 + m`: the pattern of the nearest
/// double. (`t` is the biased exponent, `1` for subnormals; a mantissa that
/// rounded up to `2^53` carries into the exponent field.)
pub proof fn lemma_assembled_rounds_to(n: int, d: int, t: nat, m: int)
    requires
        n >= 0,
        d > 0,
        1 <= t <= 2046,
        d * ((2 * m - 1) * pow2(t)) <= n * pow2(1076),
        n * pow2(1076) < d * ((2 * m + 1) * pow2(t)),
        n * pow2(1076) < d * (4 * frac_unit() * pow2(t)),
        t > 1 ==> d * (2 * frac_unit() * pow2(t)) <= n * pow2(1076),
    ensures
        0 <= m <= 2 * frac_unit(),
        rounds_to(n, d, (t - 1) * frac_unit() + m),
{
    let u = frac_unit();
    let s = pow2(t) as int;
    let w = n * pow2(1076);
    let b = (t - 1) * u + m;
    lemma_pow2_pos(t);
    lemma_pow2_pos(1076);
    assert(w >= 0) by (nonlinear_arith)
        requires
            n >= 0,
            pow2(1076) > 0,
            w == n * pow2(1076),
    ;
    assert(0 <= m <= 2 * u) by (nonlinear_arith)
        requires
            d * ((2 * m - 1) * s) <= w,
            w < d * ((2 * m + 1) * s),
            w < d * (4 * u * s),
            w >= 0,
            d > 0,
            s > 0,
    ;
    if t > 1 {
        assert(m >= u) by (nonlinear_arith)
            requires
                d * (2 * u * s) <= w,
                w < d * ((2 * m + 1) * s),
                d > 0,
                s > 0,
        ;
    }
    // The value of the pattern is `m * 2^t`, and the gap above it at least `2^t`.

    if m < u {
        assert(t == 1);
        lemma_fundamental_div_mod_converse(b, u, 0, m);
        lemma2_to64();
    } else if m < 2 * u {
        lemma_fundamental_div_mod_converse(b, u, t as int, m - u);
    } else {
        lemma_fundamental_div_mod_converse(b, u, (t + 1) as int, 0);
        lemma_pow2_unfold(t + 1);
        assert(u * (2 * s) == m * s) by (nonlinear_arith)
            requires
                m == 2 * u,
        ;
    }
    assert(scaled_value(b) == m * s);
    assert(scaled_gap(b) >= s) by {
        lemma2_to64();
        if m >= 2 * u {
            lemma_pow2_unfold(t + 1);
        }
    }
    if b < inf_bits() {
        lemma_scaled_step(b);
        let g = scaled_gap(b);
        assert(w < d * (scaled_value(b) + scaled_value(b + 1))) by (nonlinear_arith)
            requires
                w < d * ((2 * m + 1) * s),
                scaled_value(b) == m * s,
                scaled_value(b + 1) == m * s + g,
                g >= s,
                d > 0,
        ;
    }
    if b > 0 {
        lemma_scaled_step(b - 1);
        let g = scaled_gap(b - 1);
        lemma_gap_at_least_two(b - 1);
        if t == 1 {
            lemma2_to64();
        } else if m > u {
            lemma_fundamental_div_mod_converse(b - 1, u, t as int, m - u - 1);
        } else if m == 2 * u {
            lemma_fundamental_div_mod_converse(b - 1, u, t as int, u - 1);
        }
        if g >= s {
            assert(w >= d * (scaled_value(b - 1) + scaled_value(b))) by (nonlinear_arith)
                requires
                    d * ((2 * m - 1) * s) <= w,
                    scaled_value(b) == m * s,
                    scaled_value(b) == scaled_value(b - 1) + g,
                    g >= s,
                    d > 0,
            ;
        } else {
            assert(t > 1 && m == u);
            assert(w >= d * (scaled_value(b - 1) + scaled_value(b))) by (nonlinear_arith)
                requires
                    d * (2 * u * s) <= w,
                    m == u,
                    scaled_value(b) == m * s,
                    scaled_value(b) == scaled_value(b - 1) + g,
                    g > 0,
                    d > 0,
            ;
        }
    }
}

/// Dividing both sides of an inequality by a power of two.
pub proof fn lemma_scale_down(w: int, x: int, s: nat, t: nat)
    ensures
        w * pow2(s) >= x * pow2(t + s) ==> w >= x * pow2(t),
        w * pow2(s) < x * pow2(t + s) ==> w < x * pow2(t),
{
    lemma_pow2_adds(t, s);
    lemma_pow2_pos(s);
    let p = pow2(s) as int;
    let q = pow2(t) as int;
    assert(w * p >= (x * q) * p ==> w >= x * q) by (nonlinear_arith)
        requires
            p > 0,
    ;
    assert(w * p < (x * q) * p ==> w < x * q) by (nonlinear_arith)
        requires
            p > 0,
    ;
    assert(x * (q * p) == (x * q) * p) by (nonlinear_arith);
}

/// Lower bound on `n/d` from the quotient `q` of `l` bits of `n * 2^s1` by
/// `d * 2^s2`: `n/d >= 2^(k - 1076)` when `k + s1 == l - 1 + s2 + 1076`.
pub proof fn lemma_quotient_lower(n: int, d: int, s1: nat, s2: nat, q: int, l: nat, k: nat)
    requires
        n > 0,
        d > 0,
        l >= 1,
        q == (n * pow2(s1)) / (d * pow2(s2)),
        pow2((l - 1) as nat) <= q,
        k + s1 == l - 1 + s2 + 1076,
    ensures
        n * pow2(1076) >= d * pow2(k),
{
    let a = n * pow2(s1);
    let b = d * pow2(s2);
    lemma_pow2_pos(s2);
    assert(b > 0) by (nonlinear_arith)
        requires
            d > 0,
            pow2(s2) > 0,
            b == d * pow2(s2),
    ;
    lemma_fundamental_div_mod(a, b);
    let h = pow2((l - 1) as nat) as int;
    assert(a >= h * b) by (nonlinear_arith)
        requires
            a == b * q + a % b,
            a % b >= 0,
            q >= h,
            b > 0,
    ;
    lemma_pow2_adds((l - 1) as nat, s2);
    lemma_pow2_adds(((l - 1) as nat + s2) as nat, 1076);
    lemma_pow2_adds(1076, s1);
    let e = ((l - 1) as nat + s2 + 1076) as nat;
    lemma_pow2_pos(1076);
    assert(n * pow2(1076) * pow2(s1) >= d * pow2(e)) by (nonlinear_arith)
        requires
            a >= h * b,
            a == n * pow2(s1),
            b == d * pow2(s2),
            pow2(e) == h * pow2(s2) * pow2(1076),
            pow2(1076) > 0,
    ;
    lemma_pow2_pos(1076);
    lemma_scale_down(n * pow2(1076), d, s1, k);
}

/// Upper bound on `n/d` from the quotient `q` of `l` bits of `n * 2^s1` by
/// `d * 2^s2`: `n/d < 2^(k - 1076)` when `k + s1 >= l + s2 + 1076`.
pub proof fn lemma_quotient_upper(n: int, d: int, s1: nat, s2: nat, q: int, l: nat, k: nat)
    requires
        n > 0,
        d > 0,
        q == (n * pow2(s1)) / (d * pow2(s2)),
        q < pow2(l),
        k + s1 >= l + s2 + 1076,
    ensures
        n * pow2(1076) < d * pow2(k),
{
    let a = n * pow2(s1);
    let b = d * pow2(s2);
    lemma_pow2_pos(s2);
    assert(b > 0) by (nonlinear_arith)
        requires
            d > 0,
            pow2(s2) > 0,
            b == d * pow2(s2),
    ;
    lemma_fundamental_div_mod(a, b);
    let h = pow2(l) as int;
    assert(a < h * b) by (nonlinear_arith)
        requires
            a == b * q + a % b,
            a % b < b,
            q + 1 <= h,
            b > 0,
    ;
    let e = (l + s2 + 1076) as nat;
    lemma_pow2_adds(l, s2);
    lemma_pow2_adds(l + s2, 1076);
    lemma_pow2_adds(k, s1);
    lemma_pow2_pos(1076);
    if e < k + s1 {
        vstd::arithmetic::power2::lemma_pow2_strictly_increases(e, k + s1);
    }
    assert(n * pow2(1076) * pow2(s1) < d * pow2(k + s1)) by (nonlinear_arith)
        requires
            a < h * b,
            a == n * pow2(s1),
            b == d * pow2(s2),
            pow2(e) == h * pow2(s2) * pow2(1076),
            pow2(e) <= pow2(k + s1),
            pow2(1076) > 0,
            d > 0,
    ;
    lemma_scale_down(n * pow2(1076), d, s1, k);
}

/// Rounding the quotient `q` of `n * 2^s1` by `d * 2^s2` at `2^x` (adding
/// half of `2^x`, then shifting) rounds `n/d` itself: `m` is `n/d` at the
/// scale `2^(t - 1076)`, rounded to nearest with halves up.
pub proof fn lemma_rounded_quotient(
    n: int,
    d: int,
    s1: nat,
    s2: nat,
    q: int,
    x: nat,
    m: int,
    t: nat,
)
    requires
        n > 0,
        d > 0,
        x >= 1,
        q == (n * pow2(s1)) / (d * pow2(s2)),
        m == (q + pow2((x - 1) as nat)) / (pow2(x) as int),
        t + s1 == x - 1 + s2 + 1076,
    ensures
        d * ((2 * m - 1) * pow2(t)) <= n * pow2(1076),
        n * pow2(1076) < d * ((2 * m + 1) * pow2(t)),
{
    let a = n * pow2(s1);
    let b = d * pow2(s2);
    lemma_pow2_pos(s2);
    lemma_pow2_pos((x - 1) as nat);
    assert(b > 0) by (nonlinear_arith)
        requires
            d > 0,
            pow2(s2) > 0,
            b == d * pow2(s2),
    ;
    let h = pow2((x - 1) as nat) as int;
    lemma_pow2_unfold(x);
    lemma_fundamental_div_mod(a, b);
    lemma_fundamental_div_mod(q + h, 2 * h);
    assert((2 * m - 1) * h * b <= a && a < (2 * m + 1) * h * b) by (nonlinear_arith)
        requires
            a == b * q + a % b,
            0 <= a % b < b,
            q + h == (2 * h) * m + (q + h) % (2 * h),
            0 <= (q + h) % (2 * h) < 2 * h,
            b > 0,
            h > 0,
    ;
    let e = ((x - 1) as nat + s2 + 1076) as nat;
    lemma_pow2_adds((x - 1) as nat, s2);
    lemma_pow2_adds(((x - 1) as nat + s2) as nat, 1076);
    lemma_pow2_adds(t, s1);
    lemma_pow2_pos(1076);
    let w = n * pow2(1076);
    assert(w * pow2(s1) >= (d * (2 * m - 1)) * pow2(t + s1) && w * pow2(s1) < (d * (2 * m + 1))
        * pow2(t + s1)) by (nonlinear_arith)
        requires
            (2 * m - 1) * h * b <= a,
            a < (2 * m + 1) * h * b,
            a == n * pow2(s1),
            b == d * pow2(s2),
            w == n * pow2(1076),
            pow2(t + s1) == h * pow2(s2) * pow2(1076),
            pow2(1076) > 0,
    ;
    lemma_scale_down(w, d * (2 * m - 1), s1, t);
    lemma_scale_down(w, d * (2 * m + 1), s1, t);
    assert(d * (2 * m - 1) * pow2(t) == d * ((2 * m - 1) * pow2(t))) by (nonlinear_arith);
    assert(d * (2 * m + 1) * pow2(t) == d * ((2 * m + 1) * pow2(t))) by (nonlinear_arith);
}

/// A value of at least `2^(k - 1076)` with `k >= 2100`, that is at least
/// `2^1024`, rounds to infinity.
pub proof fn lemma_rounds_to_inf(n: int, d: int, k: nat)
    requires
        d > 0,
        k >= 2100,
        n * pow2(1076) >= d * pow2(k),
    ensures
        rounds_to(n, d, inf_bits()),
{
    lemma_scaled_top();
    lemma_frac_unit();
    lemma_pow2_adds(54, 2046);
    if k > 2100 {
        vstd::arithmetic::power2::lemma_pow2_strictly_increases(2100, k);
    }
    let p = pow2(2046) as int;
    assert(d * (scaled_value(inf_bits() - 1) + scaled_value(inf_bits())) <= d * pow2(k))
        by (nonlinear_arith)
        requires
            scaled_value(inf_bits()) == 2 * frac_unit() * p,
            scaled_value(inf_bits() - 1) == (2 * frac_unit() - 1) * p,
            pow2(2100) == 4 * frac_unit() * p,
            pow2(2100) <= pow2(k),
            p >= 0,
            d > 0,
    ;
}

/// A value below `2^-1075`, half the smallest subnormal, rounds to zero.
pub proof fn lemma_rounds_to_zero(n: int, d: int)
    requires
        n >= 0,
        d > 0,
        n * pow2(1076) < 2 * d,
    ensures
        rounds_to(n, d, 0),
{
    lemma_scaled_top();
    assert(d * (scaled_value(0) + scaled_value(1)) == 2 * d) by (nonlinear_arith)
        requires
            scaled_value(0) == 0,
            scaled_value(1) == 2,
    ;
}

/// The pattern nearest to a value is unique.
pub proof fn lemma_rounds_to_unique(n: int, d: int, b: int, c: int)
    requires
        d > 0,
        rounds_to(n, d, b),
        rounds_to(n, d, c),
    ensures
        b == c,
{
    if b < c {
        lemma_scaled_monotone(b, c - 1);
        lemma_scaled_monotone(b + 1, c);
        assert(false) by (nonlinear_arith)
            requires
                n * pow2(1076) < d * (scaled_value(b) + scaled_value(b + 1)),
                n * pow2(1076) >= d * (scaled_value(c - 1) + scaled_value(c)),
                scaled_value(b) <= scaled_value(c - 1),
                scaled_value(b + 1) <= scaled_value(c),
                d > 0,
        ;
    } else if c < b {
        lemma_scaled_monotone(c, b - 1);
        lemma_scaled_monotone(c + 1, b);
        assert(false) by (nonlinear_arith)
            requires
                n * pow2(1076) < d * (scaled_value(c) + scaled_value(c + 1)),
                n * pow2(1076) >= d * (scaled_value(b - 1) + scaled_value(b)),
                scaled_value(c) <= scaled_value(b - 1),
                scaled_value(c + 1) <= scaled_value(b),
                d > 0,
        ;
    }
}

/// The value of a finite double rounds to that double.
pub proof fn lemma_rounds_to_exact(b: int)
    requires
        0 <= b < inf_bits(),
    ensures
        rounds_to(scaled_value(b), pow2(1075) as int, b),
{
    lemma_pow2_unfold(1076);
    let p = pow2(1075) as int;
    let v = scaled_value(b);
    lemma_scaled_step(b);
    if b > 0 {
        lemma_scaled_step(b - 1);
    }
    assert(v * (2 * p) == p * (v + v)) by (nonlinear_arith);
    lemma_pow2_pos(1075);
    assert(b > 0 ==> p * (scaled_value(b - 1) + v) <= p * (v + v)) by (nonlinear_arith)
        requires
            b > 0 ==> scaled_value(b - 1) < v,
            p > 0,
    ;
    assert(p * (v + v) < p * (v + scaled_value(b + 1))) by (nonlinear_arith)
        requires
            v < scaled_value(b + 1),
            p > 0,
    ;
}

/// Rounding depends on the value `n/d` only.
pub proof fn lemma_rounds_to_same_value(n: int, d: int, n2: int, d2: int, b: int)
    requires
        d > 0,
        d2 > 0,
        n * d2 == n2 * d,
        rounds_to(n, d, b),
    ensures
        rounds_to(n2, d2, b),
{
    let p = pow2(1076) as int;
    let lo = scaled_value(b - 1) + scaled_value(b);
    let hi = scaled_value(b) + scaled_value(b + 1);
    assert(b != 0 ==> n2 * p >= d2 * lo) by (nonlinear_arith)
        requires
            b != 0 ==> n * p >= d * lo,
            n * d2 == n2 * d,
            d > 0,
            d2 > 0,
    ;
    assert(b != inf_bits() ==> n2 * p < d2 * hi) by (nonlinear_arith)
        requires
            b != inf_bits() ==> n * p < d * hi,
            n * d2 == n2 * d,
            d > 0,
            d2 > 0,
    ;
}

/// The pattern without its sign bit.
pub open spec fn magnitude_bits(bits: int) -> int {
    bits % sign_bit()
}

/// The sign bit of the pattern is set.
pub open spec fn is_negative_bits(bits: int) -> bool {
    bits >= sign_bit()
}

/// The pattern stands for a finite double: its exponent field is not all
/// ones (which marks the infinities and the NaNs).
pub open spec fn is_finite_bits(bits: int) -> bool {
    exp_field(magnitude_bits(bits)) != 2047
}

/// The value of the finite double with pattern `bits`, as a numerator over
/// the denominator `2^1075`.
pub open spec fn double_value_frac(bits: int) -> (int, int) {
    let v = scaled_value(magnitude_bits(bits));
    (if is_negative_bits(bits) {
        -v
    } else {
        v
    }, pow2(1075) as int)
}

/// The integer significand of a non-negative pattern: the fraction, with
/// the hidden leading bit `2^52` of normal doubles.
pub open spec fn significand(mag: int) -> int {
    if exp_field(mag) == 0 {
        frac_field(mag)
    } else {
        frac_unit() + frac_field(mag)
    }
}

/// The binary exponent of a non-negative pattern: its value is
/// `significand(mag) * 2^binary_exponent(mag)`.
pub open spec fn binary_exponent(mag: int) -> int {
    if exp_field(mag) == 0 {
        -1074
    } else {
        exp_field(mag) - 1075
    }
}

/// The scaled value is the significand times `2^(exponent + 1075)`.
pub proof fn lemma_scaled_significand(mag: int)
    requires
        mag >= 0,
    ensures
        binary_exponent(mag) + 1075 >= 1,
        scaled_value(mag) == significand(mag) * pow2((binary_exponent(mag) + 1075) as nat),
        0 <= significand(mag) < 2 * frac_unit(),
        exp_field(mag) != 0 ==> significand(mag) >= frac_unit(),
{
    lemma_fundamental_div_mod(mag, frac_unit());
    if exp_field(mag) == 0 {
        lemma2_to64();
        let f = frac_field(mag);
        assert(f * pow2(1) == 2 * f) by (nonlinear_arith)
            requires
                pow2(1) == 2,
        ;
    } else {
        assert((binary_exponent(mag) + 1075) as nat == exp_field(mag) as nat);
    }
}

/// The values at the top of the finite range.
pub proof fn lemma_scaled_top()
    ensures
        scaled_value(inf_bits()) == 2 * frac_unit() * pow2(2046),
        scaled_value(inf_bits() - 1) == (2 * frac_unit() - 1) * pow2(2046),
        scaled_value(0) == 0,
        scaled_value(1) == 2,
{
    let u = frac_unit();
    lemma_fundamental_div_mod_converse(inf_bits(), u, 2047, 0);
    lemma_fundamental_div_mod_converse(inf_bits() - 1, u, 2046, u - 1);
    lemma_fundamental_div_mod_converse(0, u, 0, 0);
    lemma_fundamental_div_mod_converse(1, u, 0, 1);
    lemma_pow2_unfold(2047);
    let p = pow2(2046) as int;
    assert(u * (2 * p) == 2 * u * p) by (nonlinear_arith);
}

/// `2^52` as a power of two.
pub proof fn lemma_frac_unit()
    ensures
        pow2(52) == frac_unit(),
        pow2(53) == 2 * frac_unit(),
        pow2(54) == 4 * frac_unit(),
{
    lemma2_to64();
    lemma2_to64_rest();
}

} // verus!
