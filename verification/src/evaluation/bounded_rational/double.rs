//! Conversions between `BoundedRational` and IEEE 754 binary64 values,
//! which are handed over as their bit patterns.
use crate::bigint::{abs, lemma_nat_bits_bounds, BigInt};
use crate::evaluation::bounded_rational::{BoundedRational, NonFiniteError};
use crate::evaluation::constants::one;
use crate::ieee::{
    binary_exponent, double_value_frac,
    is_finite_bits, is_negative_bits, lemma_assembled_rounds_to, lemma_frac_unit,
    lemma_quotient_lower, lemma_quotient_upper, lemma_rounded_quotient, lemma_rounds_to_inf,
    lemma_rounds_to_same_value, lemma_rounds_to_zero, lemma_scaled_significand, magnitude_bits,
    rounds_to, scaled_value, sign_bit, significand,
};
use crate::rational::{lemma_canonical, rat_eq, rat_sign, Frac};
use core::ops::Neg;
use vstd::arithmetic::power2::{lemma_pow2_adds, lemma_pow2_pos, lemma_pow2_strictly_increases, pow2};
use vstd::prelude::*;

verus! {

/// The bit pattern of positive infinity.
const INF_BITS: u64 = 0x7FF0_0000_0000_0000;

/// The sign bit of a pattern.
const SIGN_BIT: u64 = 0x8000_0000_0000_0000;

/// The double with pattern `bits` is a whole number in the range of `i64`:
/// of magnitude below `2^63`, or `-2^63` itself.
pub open spec fn double_fits_long(bits: int) -> bool {
    let mag = magnitude_bits(bits);
    let m = significand(mag);
    let e = binary_exponent(mag);
    if e >= 0 {
        m * pow2(e as nat) < pow2(63) || (is_negative_bits(bits) && m * pow2(e as nat) == pow2(
            63,
        ))
    } else {
        m % (pow2((-e) as nat) as int) == 0
    }
}

/// The whole number that such a double stands for.
pub open spec fn double_whole(bits: int) -> int {
    let mag = magnitude_bits(bits);
    let m = significand(mag);
    let e = binary_exponent(mag);
    let w = if e >= 0 {
        m * pow2(e as nat)
    } else {
        m / (pow2((-e) as nat) as int)
    };
    if is_negative_bits(bits) {
        -w
    } else {
        w
    }
}

/// The fraction that `value_of_double_bits` gives for the finite double
/// with pattern `bits`: a whole number in the range of `i64` as that
/// integer over `1`; any other value as its signed significand times
/// `2^exponent`, the power of two going to the denominator when the
/// exponent is negative.
pub open spec fn double_frac(bits: int) -> Frac {
    if double_fits_long(bits) {
        (double_whole(bits), 1)
    } else {
        let mag = magnitude_bits(bits);
        let m = if is_negative_bits(bits) {
            -significand(mag)
        } else {
            significand(mag)
        };
        let e = binary_exponent(mag);
        if e >= 0 {
            (m * pow2(e as nat), 1)
        } else {
            (m, pow2((-e) as nat) as int)
        }
    }
}

/// `r` is the pattern of the double nearest to the value of `x`, a value
/// halfway between two doubles going to the one farther from zero: `+0.0`
/// for zero, the pattern that `rounds_to` gives for the magnitude, with
/// the sign bit set for a negative value.
pub open spec fn nearest_double(x: Frac, r: int) -> bool {
    if rat_sign(x) == 0 {
        r == 0
    } else if rat_sign(x) > 0 {
        rounds_to(abs(x.0) as int, abs(x.1) as int, r)
    } else {
        r >= sign_bit() && rounds_to(abs(x.0) as int, abs(x.1) as int, r - sign_bit())
    }
}

/// The fraction of `double_frac` has the double's value.
pub proof fn lemma_double_frac_value(bits: int)
    requires
        0 <= bits < 2 * sign_bit(),
        is_finite_bits(bits),
    ensures
        double_frac(bits).1 > 0,
        rat_eq(double_frac(bits), double_value_frac(bits)),
{
    let mag = magnitude_bits(bits);
    let m = significand(mag);
    let e = binary_exponent(mag);
    let sv = scaled_value(mag);
    let p = pow2(1075) as int;
    let neg = is_negative_bits(bits);
    lemma_scaled_significand(mag);
    lemma_pow2_pos(1075);
    assert(double_value_frac(bits) == (if neg {
        -sv
    } else {
        sv
    }, p));
    if e >= 0 {
        lemma_pow2_adds(e as nat, 1075);
        assert(m * pow2(e as nat) * p == sv) by (nonlinear_arith)
            requires
                sv == m * pow2((e + 1075) as nat),
                pow2((e + 1075) as nat) == pow2(e as nat) * p,
        ;
        let a = m * pow2(e as nat);
        assert((-a) * p == (-sv) * 1 && a * p == sv * 1) by (nonlinear_arith)
            requires
                a * p == sv,
        ;
        assert((-m) * pow2(e as nat) == -a) by (nonlinear_arith)
            requires
                a == m * pow2(e as nat),
        ;
        assert(double_frac(bits) == (if neg {
            -a
        } else {
            a
        }, 1int));
    } else {
        let d = pow2((-e) as nat) as int;
        lemma_pow2_pos((-e) as nat);
        lemma_pow2_adds((-e) as nat, (e + 1075) as nat);
        assert(((-e) + (e + 1075)) as nat == 1075);
        if double_fits_long(bits) {
            vstd::arithmetic::div_mod::lemma_fundamental_div_mod(m, d);
            assert((m / d) * p == sv) by (nonlinear_arith)
                requires
                    m == d * (m / d) + m % d,
                    m % d == 0,
                    sv == m * pow2((e + 1075) as nat),
                    p == d * pow2((e + 1075) as nat),
            ;
            let a = m / d;
            assert((-a) * p == (-sv) * 1 && a * p == sv * 1) by (nonlinear_arith)
                requires
                    a * p == sv,
            ;
        } else {
            assert(m * p == sv * d) by (nonlinear_arith)
                requires
                    sv == m * pow2((e + 1075) as nat),
                    p == d * pow2((e + 1075) as nat),
            ;
            assert((-m) * p == (-sv) * d) by (nonlinear_arith)
                requires
                    m * p == sv * d,
            ;
        }
    }
}

/// The pattern of the double nearest to `n/d`, for positive `n` and `d`;
/// halves go to the larger double (see `rounds_to`).
///
/// `n/d` is first placed between powers of two by the bit lengths of `n`
/// and `d`; values that are certainly below half the smallest subnormal
/// give zero and values that are certainly at least `2^1024` infinity.
/// Otherwise the quotient is computed with about 80 bits more than the 53
/// of a mantissa, its bit length gives the exact binary exponent, and the
/// mantissa is rounded from it (at the subnormal scale for small values).
fn nearest_bits(n: &BigInt, d: &BigInt) -> (r: u64)
    requires
        n@ > 0,
        d@ > 0,
    ensures
        rounds_to(n@, d@, r as int),
{
    let nb = n.bits();
    let db = d.bits();
    proof {
        lemma_nat_bits_bounds(abs(n@));
        lemma_nat_bits_bounds(abs(d@));
        lemma_pow2_pos(1076);
    }
    let ghost w = n@ * pow2(1076);
    if nb > db && nb - db > 1100 {
        proof {
            // n/d > 2^(nb - 1 - db) >= 2^1100
            lemma_pow2_adds((nb - 1) as nat, 1076);
            lemma_pow2_adds(db as nat, 2100);
            lemma_pow2_strictly_increases((db + 2100) as nat, (nb - 1 + 1076) as nat);
            lemma_pow2_pos(2100);
            assert(w >= d@ * pow2(2100)) by (nonlinear_arith)
                requires
                    w == n@ * pow2(1076),
                    n@ >= pow2((nb - 1) as nat),
                    d@ < pow2(db as nat),
                    pow2((nb - 1 + 1076) as nat) == pow2((nb - 1) as nat) * pow2(1076),
                    pow2((db + 2100) as nat) == pow2(db as nat) * pow2(2100),
                    pow2((db + 2100) as nat) < pow2((nb - 1 + 1076) as nat),
                    pow2(2100) > 0,
                    pow2(1076) > 0,
            ;
            lemma_rounds_to_inf(n@, d@, 2100);
        }
        return INF_BITS;
    }
    if db > nb && db - nb > 1100 {
        proof {
            // n/d < 2^(nb - db + 1) <= 2^-1100
            lemma_pow2_adds(nb as nat, 1076);
            lemma_pow2_strictly_increases((nb + 1076) as nat, (db - 1) as nat);
            assert(w < 2 * d@) by (nonlinear_arith)
                requires
                    w == n@ * pow2(1076),
                    n@ < pow2(nb as nat),
                    d@ >= pow2((db - 1) as nat),
                    pow2((nb + 1076) as nat) == pow2(nb as nat) * pow2(1076),
                    pow2((nb + 1076) as nat) < pow2((db - 1) as nat),
                    pow2(1076) > 0,
            ;
            lemma_rounds_to_zero(n@, d@);
        }
        return 0;
    }
    // The value lies between 2^(appr_exp - 1) and 2^(appr_exp + 1).
    let appr_exp: i64 = if nb >= db {
        (nb - db) as i64
    } else {
        -((db - nb) as i64)
    };
    let needed_prec: i64 = appr_exp - 80;
    let s1: usize = if needed_prec < 0 {
        (-needed_prec) as usize
    } else {
        0
    };
    let s2: usize = if needed_prec > 0 {
        needed_prec as usize
    } else {
        0
    };
    let dividend = n << s1;
    let divisor = d << s2;
    proof {
        lemma_pow2_pos(s2 as nat);
        assert(divisor@ > 0) by (nonlinear_arith)
            requires
                divisor@ == d@ * pow2(s2 as nat),
                d@ > 0,
                pow2(s2 as nat) > 0,
        ;
        lemma_pow2_pos(s1 as nat);
        assert(dividend@ > 0) by (nonlinear_arith)
            requires
                dividend@ == n@ * pow2(s1 as nat),
                n@ > 0,
                pow2(s1 as nat) > 0,
        ;
    }
    let quotient = &dividend / &divisor;
    let ghost q = quotient@;
    proof {
        assert(q == dividend@ / divisor@);
        // 2^79 <= q < 2^81
        let a = dividend@;
        let b = divisor@;
        vstd::arithmetic::div_mod::lemma_fundamental_div_mod(a, b);
        lemma_pow2_adds((nb - 1) as nat, s1 as nat);
        lemma_pow2_adds(nb as nat, s1 as nat);
        lemma_pow2_adds(db as nat, s2 as nat);
        lemma_pow2_adds((db - 1) as nat, s2 as nat);
        lemma_pow2_adds(79, (db + s2) as nat);
        lemma_pow2_adds(81, (db - 1 + s2) as nat);
        assert((nb - 1 + s1) as nat == (79 + (db + s2)) as nat);
        assert((nb + s1) as nat == (81 + (db - 1 + s2)) as nat);
        let lo = pow2(79) as int;
        let hi = pow2(81) as int;
        lemma_pow2_pos(79);
        lemma_pow2_pos(81);
        assert(lo * b < a) by (nonlinear_arith)
            requires
                a == n@ * pow2(s1 as nat),
                b == d@ * pow2(s2 as nat),
                n@ >= pow2((nb - 1) as nat),
                d@ < pow2(db as nat),
                pow2((nb - 1 + s1) as nat) == pow2((nb - 1) as nat) * pow2(s1 as nat),
                pow2((db + s2) as nat) == pow2(db as nat) * pow2(s2 as nat),
                pow2((79 + (db + s2)) as nat) == lo * pow2((db + s2) as nat),
                pow2((nb - 1 + s1) as nat) == pow2((79 + (db + s2)) as nat),
                pow2(s1 as nat) > 0,
                pow2(s2 as nat) > 0,
                lo > 0,
        ;
        assert(a < hi * b) by (nonlinear_arith)
            requires
                a == n@ * pow2(s1 as nat),
                b == d@ * pow2(s2 as nat),
                n@ < pow2(nb as nat),
                d@ >= pow2((db - 1) as nat),
                pow2((nb + s1) as nat) == pow2(nb as nat) * pow2(s1 as nat),
                pow2((db - 1 + s2) as nat) == pow2((db - 1) as nat) * pow2(s2 as nat),
                pow2((81 + (db - 1 + s2)) as nat) == hi * pow2((db - 1 + s2) as nat),
                pow2((nb + s1) as nat) == pow2((81 + (db - 1 + s2)) as nat),
                pow2(s1 as nat) > 0,
                pow2(s2 as nat) > 0,
                hi > 0,
        ;
        assert(lo <= q < hi) by (nonlinear_arith)
            requires
                a == b * q + a % b,
                0 <= a % b < b,
                lo * b < a,
                a < hi * b,
                b > 0,
        ;
        lemma_nat_bits_bounds(abs(q));
    }
    let q_length = quotient.bits();
    proof {
        let l = q_length as nat;
        if l < 80 {
            lemma_pow2_strictly_increases(l, 79);
        }
        if l > 81 {
            lemma_pow2_strictly_increases(81, (l - 1) as nat);
        }
        assert(80 <= l <= 81);
    }
    // The value lies in [2^exponent, 2^(exponent + 1)).
    let exponent: i64 = needed_prec + q_length as i64 - 1;
    if exponent > 1023 {
        proof {
            let k = (exponent + 1076) as nat;
            lemma_quotient_lower(n@, d@, s1 as nat, s2 as nat, q, q_length as nat, k);
            lemma_rounds_to_inf(n@, d@, k);
        }
        return INF_BITS;
    }
    // Round at 2^extra_bits: the last mantissa bit of a normal double, or
    // the scale of subnormals.
    let (extra_bits, biased): (i64, u64) = if exponent >= -1022 {
        (q_length as i64 - 53, (exponent + 1023) as u64)
    } else {
        (-needed_prec - 1074, 1)
    };
    let rounding = BigInt::from(1u8) << (extra_bits - 1) as usize;
    let big_mantissa = &(&quotient + &rounding) >> extra_bits as usize;
    proof {
        let t = biased as nat;
        lemma_rounded_quotient(
            n@,
            d@,
            s1 as nat,
            s2 as nat,
            q,
            extra_bits as nat,
            big_mantissa@,
            t,
        );
        lemma_frac_unit();
        lemma_pow2_adds(54, t);
        lemma_quotient_upper(n@, d@, s1 as nat, s2 as nat, q, q_length as nat, 54 + t);
        if exponent >= -1022 {
            lemma_pow2_adds(53, t);
            lemma_quotient_lower(n@, d@, s1 as nat, s2 as nat, q, q_length as nat, 53 + t);
        }
        lemma_assembled_rounds_to(n@, d@, t, big_mantissa@);
    }
    let mantissa: u64 = match big_mantissa.to_i64() {
        Some(v) => v as u64,
        None => 0,
    };
    (biased - 1) * 0x10_0000_0000_0000 + mantissa
}

impl BoundedRational {
    /// Converts the finite `f64` with bit pattern `bits` into an exact
    /// `BoundedRational`.
    ///
    /// The fraction is exactly the binary value stored in the double. A
    /// whole number in the range of `i64` goes through `value_of_long`; any
    /// other value is its significand times a power of two.
    ///
    /// Error: `Err(NonFiniteError)` for the patterns of infinities and NaNs.
    pub fn value_of_double_bits(bits: u64) -> (r: Result<BoundedRational, NonFiniteError>)
        ensures
            r is Err <==> !is_finite_bits(bits as int),
            r matches Ok(x) ==> x@ == double_frac(bits as int) && x@.1 > 0,
            r matches Ok(x) ==> rat_eq(x@, double_value_frac(bits as int)),
    {
        let negative = bits >= SIGN_BIT;
        let biased_exp: u64 = (bits >> 52u64) & 0x7ff;
        let fraction: u64 = bits & 0xF_FFFF_FFFF_FFFF;
        proof {
            assert(biased_exp == (bits % 0x8000_0000_0000_0000) / 0x10_0000_0000_0000)
                by (bit_vector)
                requires
                    biased_exp == (bits >> 52u64) & 0x7ff,
            ;
            assert(fraction == (bits % 0x8000_0000_0000_0000) % 0x10_0000_0000_0000)
                by (bit_vector)
                requires
                    fraction == bits & 0xF_FFFF_FFFF_FFFF,
            ;
        }
        let ghost mag = magnitude_bits(bits as int);
        if biased_exp == 0x7ff {
            return Err(NonFiniteError);
        }
        proof {
            lemma_double_frac_value(bits as int);
            lemma_scaled_significand(mag);
            lemma_frac_unit();
            vstd::arithmetic::power2::lemma2_to64_rest();
        }
        let mantissa: u64 = if biased_exp == 0 {
            fraction
        } else {
            fraction + 0x10_0000_0000_0000
        };
        let exp: i64 = if biased_exp == 0 {
            -1074
        } else {
            biased_exp as i64 - 1075
        };
        assert(mantissa == significand(mag) && exp == binary_exponent(mag));
        // Fast path: whole numbers within the range of `i64` reuse the
        // integer constructor.
        let whole: Option<u64> = if mantissa == 0 {
            proof {
                if exp < 0 {
                    lemma_pow2_pos((-exp) as nat);
                    vstd::arithmetic::div_mod::lemma_small_mod(0, pow2((-exp) as nat));
                }
                assert(double_fits_long(bits as int));
            }
            Some(0)
        } else if exp >= 0 {
            if exp <= 11 {
                proof {
                    if exp < 11 {
                        lemma_pow2_strictly_increases(exp as nat, 11);
                    }
                    lemma_pow2_adds(53, 11);
                    lemma_pow2_pos(exp as nat);
                    vstd::arithmetic::power2::lemma2_to64();
                    assert(mantissa * pow2(exp as nat) <= u64::MAX) by (nonlinear_arith)
                        requires
                            mantissa < pow2(53),
                            pow2(exp as nat) <= pow2(11),
                            pow2(exp as nat) > 0,
                            pow2(64) == pow2(53) * pow2(11),
                            pow2(64) == u64::MAX + 1,
                    ;
                    vstd::bits::lemma_u64_shl_is_mul(mantissa, exp as u64);
                }
                let w = mantissa << (exp as u64);
                assert(w == mantissa * pow2(exp as nat));
                assert(double_fits_long(bits as int) <==> (w < SIGN_BIT || (negative && w
                    == SIGN_BIT)));
                if w < SIGN_BIT || (negative && w == SIGN_BIT) {
                    Some(w)
                } else {
                    None
                }
            } else {
                proof {
                    if exp > 12 {
                        lemma_pow2_strictly_increases(12, exp as nat);
                    }
                    lemma_pow2_adds(52, 12);
                    lemma_pow2_strictly_increases(63, 64);
                    assert(mantissa * pow2(exp as nat) > pow2(63)) by (nonlinear_arith)
                        requires
                            mantissa >= pow2(52),
                            pow2(exp as nat) >= pow2(12),
                            pow2(64) == pow2(52) * pow2(12),
                            pow2(63) < pow2(64),
                    ;
                    assert(!double_fits_long(bits as int));
                }
                None
            }
        } else if exp > -64 {
            proof {
                vstd::bits::lemma_u64_pow2_no_overflow((-exp) as nat);
                vstd::bits::lemma_u64_shl_is_mul(1, (-exp) as u64);
            }
            let p = 1u64 << ((-exp) as u64);
            assert(p == pow2((-exp) as nat));
            assert(double_fits_long(bits as int) <==> mantissa % p == 0);
            if mantissa % p == 0 {
                Some(mantissa / p)
            } else {
                None
            }
        } else {
            proof {
                lemma_pow2_strictly_increases(53, (-exp) as nat);
                vstd::arithmetic::div_mod::lemma_small_mod(
                    mantissa as nat,
                    pow2((-exp) as nat),
                );
                assert(!double_fits_long(bits as int));
            }
            None
        };
        assert(whole is Some <==> double_fits_long(bits as int));
        match whole {
            Some(w) => {
                assert(w < SIGN_BIT || (negative && w == SIGN_BIT));
                let v: i64 = if negative {
                    if w == SIGN_BIT {
                        i64::MIN
                    } else {
                        -(w as i64)
                    }
                } else {
                    w as i64
                };
                Ok(BoundedRational::value_of_long(v))
            },
            None => {
                let signed_mantissa: i64 = if negative {
                    -(mantissa as i64)
                } else {
                    mantissa as i64
                };
                if exp >= 0 {
                    let numerator = BigInt::from(signed_mantissa) << (exp as usize);
                    Ok(BoundedRational { numerator, denominator: one() })
                } else {
                    proof {
                        lemma_pow2_pos((-exp) as nat);
                    }
                    let denominator = one() << ((-exp) as usize);
                    Ok(BoundedRational { numerator: BigInt::from(signed_mantissa), denominator })
                }
            },
        }
    }

    /// The bit pattern of the `f64` closest to this value. A value exactly
    /// halfway between two doubles is rounded away from zero; a value too
    /// small for the smallest subnormal gives zero (`-0.0` when negative),
    /// and a value too large for the largest finite double gives an
    /// infinity of its sign.
    pub fn double_value_bits(&self) -> (r: u64)
        ensures
            nearest_double(self@, r as int),
    {
        let nicer = self.reduce().positive_den();
        let ghost x = self@;
        let ghost c = nicer@;
        proof {
            use_type_invariant(self);
            lemma_canonical(x);
        }
        let sign = nicer.signum();
        proof {
            // `nicer` has the value of `self`, with a positive denominator.
            assert(c.0 * x.1 == x.0 * c.1);
            assert(c.1 > 0);
            assert(abs(c.0) * abs(x.1) == abs(x.0) * c.1) by (nonlinear_arith)
                requires
                    c.0 * x.1 == x.0 * c.1,
                    c.1 > 0,
            ;
            assert((c.0 > 0) == (rat_sign(x) > 0) && (c.0 < 0) == (rat_sign(x) < 0))
                by (nonlinear_arith)
                requires
                    c.0 * x.1 == x.0 * c.1,
                    c.1 > 0,
                    x.1 != 0,
                    rat_sign(x) == (if x.0 == 0 {
                        0int
                    } else if (x.0 < 0) == (x.1 < 0) {
                        1int
                    } else {
                        -1int
                    }),
            ;
        }
        if sign == 0 {
            return 0;
        }
        if sign < 0 {
            let magnitude = (&nicer.numerator).neg();
            let bits = nearest_bits(&magnitude, &nicer.denominator);
            proof {
                lemma_rounds_to_same_value(abs(c.0) as int, c.1, abs(x.0) as int, abs(x.1) as int, bits as int);
            }
            return bits + SIGN_BIT;
        }
        let bits = nearest_bits(&nicer.numerator, &nicer.denominator);
        proof {
            lemma_rounds_to_same_value(abs(c.0) as int, c.1, abs(x.0) as int, abs(x.1) as int, bits as int);
        }
        bits
    }
}

} // verus!
