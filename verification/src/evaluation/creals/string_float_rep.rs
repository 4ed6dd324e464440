//! A scientific-notation snapshot of a constructive real.
use crate::bigint::{decimal_chars, decimal_digits, radix_digits, signed_radix_digits, BigInt};
use crate::evaluation::constants::one;
use core::ops::Neg;
use crate::text::{chars_of, decimal_u64, push_chars, push_str, string_from_chars};
use vstd::arithmetic::power2::pow2;
use vstd::prelude::*;

verus! {

/// The value of an ASCII digit or letter, as `char::to_digit` reads it:
/// `'0'..='9'` are 0 to 9, and `'a'..='z'` (or `'A'..='Z'`) are 10 to 35.
pub open spec fn char_digit(c: char) -> Option<nat> {
    if '0' <= c <= '9' {
        Some((c as int - 48) as nat)
    } else if 'a' <= c <= 'z' {
        Some((c as int - 87) as nat)
    } else if 'A' <= c <= 'Z' {
        Some((c as int - 55) as nat)
    } else {
        None
    }
}

/// `c` is a digit of the given radix.
pub open spec fn is_radix_symbol(c: char, radix: nat) -> bool {
    char_digit(c) matches Some(v) && v < radix
}

/// `s` without one leading `-`.
pub open spec fn unsigned_part(s: Seq<char>) -> Seq<char> {
    if s.len() > 0 && s[0] == '-' {
        s.skip(1)
    } else {
        s
    }
}

/// The first character of `s` that is not a digit of the radix, if any.
pub open spec fn first_invalid_symbol(s: Seq<char>, radix: nat) -> Option<char>
    decreases s.len(),
{
    if s.len() == 0 {
        None
    } else if !is_radix_symbol(s[0], radix) {
        Some(s[0])
    } else {
        first_invalid_symbol(s.skip(1), radix)
    }
}

/// The message for a field with a symbol that is not a digit of the radix.
pub open spec fn symbol_error(field: Seq<char>, c: char, radix: u8) -> Seq<char> {
    field + " contains invalid symbol '"@ + seq![c] + "' for radix "@ + decimal_digits(
        radix as nat,
    )
}

/// `s`, or `s` without one leading `-` when a sign is allowed.
pub open spec fn digits_part(s: Seq<char>, signed: bool) -> Seq<char> {
    if signed {
        unsigned_part(s)
    } else {
        s
    }
}

/// The error that `StringFloatRep::new` returns, if any: a radix outside
/// `2..=16`, a mantissa symbol that is not a digit of the radix, or an
/// exponent symbol (after one optional leading `-`) that is not a digit of
/// the radix.
pub open spec fn new_error(mantissa: Seq<char>, radix: u8, exponent: Seq<char>) -> Option<
    Seq<char>,
> {
    if !(2 <= radix <= 16) {
        Some("radix must be between 2 and 16, got "@ + decimal_digits(radix as nat))
    } else {
        match first_invalid_symbol(mantissa, radix as nat) {
            Some(c) => Some(symbol_error("mantissa"@, c, radix)),
            None => match first_invalid_symbol(unsigned_part(exponent), radix as nat) {
                Some(c) => Some(symbol_error("exponent"@, c, radix)),
                None => None,
            },
        }
    }
}

/// The value of a run of digits of the radix, most significant first
/// (`Some(0)` for no digits); `None` if a character is not a digit.
pub open spec fn digits_value(s: Seq<char>, radix: nat) -> Option<nat>
    decreases s.len(),
{
    if s.len() == 0 {
        Some(0)
    } else {
        match (digits_value(s.drop_last(), radix), char_digit(s.last())) {
            (Some(a), Some(d)) => if d < radix {
                Some(a * radix + d)
            } else {
                None
            },
            _ => None,
        }
    }
}

/// The value of an exponent: its digits in the radix (none counting as
/// `0`), negated when it starts with `-`.
pub open spec fn exponent_value(s: Seq<char>, radix: nat) -> int {
    let v = digits_value(unsigned_part(s), radix).unwrap() as int;
    if s.len() > 0 && s[0] == '-' {
        -v
    } else {
        v
    }
}

/// The displayed exponent, one less than the value of `exponent`: within
/// the range of `i64` as `radix_fmt` writes an `i64` (two's complement for
/// a negative value outside base 10); beyond it as `num_bigint` writes an
/// integer (a `-` and the digits of the magnitude).
pub open spec fn adjusted_exponent_text(exponent: Seq<char>, radix: nat) -> Seq<char> {
    let a = exponent_value(exponent, radix) - 1;
    if i64::MIN <= a <= i64::MAX {
        radix_string(a, radix)
    } else {
        signed_radix_digits(a, radix)
    }
}

/// How `radix_fmt` displays an `i64` in a base: in base 10 as a signed
/// decimal, and in any other base as the digits of its 64-bit two's
/// complement.
pub open spec fn radix_string(n: int, base: nat) -> Seq<char> {
    if base == 10 {
        decimal_chars(n)
    } else {
        radix_digits(
            if n < 0 {
                (n + pow2(64)) as nat
            } else {
                n as nat
            },
            base,
        )
    }
}

/// `radix_fmt::radix(n, base)` displayed (through `ToString`). The base
/// must be in `2..=36`, or `radix_fmt` panics.
#[verifier::external_body]
fn radix_format(n: i64, base: u8) -> (r: Vec<char>)
    requires
        2 <= base <= 36,
    ensures
        r@ == radix_string(n as int, base as nat),
{
    radix_fmt::radix(n, base).to_string().chars().collect()
}

/// The value of `c` as a digit, as `char::to_digit` reads it.
fn digit_value(c: char) -> (r: Option<u32>)
    ensures
        r matches Some(v) ==> char_digit(c) == Some(v as nat),
        r is None ==> char_digit(c) is None,
{
    if '0' <= c && c <= '9' {
        Some((c as u32) - 48)
    } else if 'a' <= c && c <= 'z' {
        Some((c as u32) - 87)
    } else if 'A' <= c && c <= 'Z' {
        Some((c as u32) - 55)
    } else {
        None
    }
}

/// Represents a number in scientific notation as an approximation of a
/// constructive real: `sign × 0.mantissa × radix^exponent`.
///
/// `mantissa` and `exponent` are strings of digits of `radix` (`2..=16`,
/// letters in either case); `exponent` may start with a `-`. When displayed,
/// the value is normalised to one digit before the point, with the exponent
/// decremented: `0.314159 × 10^1` is displayed as `3.14159e0`.
#[derive(Debug, Clone)]
pub struct StringFloatRep {
    /// The sign of the number: `-1`, `0` or `1`.
    pub sign: i8,
    /// The significant digits, with the point implicitly before them.
    pub mantissa: String,
    /// The base of the mantissa and the exponent, in `2..=16`.
    pub radix: u8,
    /// The power of `radix` that scales the mantissa, written in `radix`.
    pub exponent: String,
}

/// Checks that `s`, without one leading `-`, is made of digits of the
/// radix (case-insensitive); otherwise the message names `field` and the
/// first invalid symbol.
fn validate(s: &str, field: &str, radix: u8, signed: bool) -> (r: Result<(), String>)
    ensures
        r is Ok <==> first_invalid_symbol(digits_part(s@, signed), radix as nat) is None,
        r matches Err(e) ==> first_invalid_symbol(digits_part(s@, signed), radix as nat) matches Some(
            c,
        ) && e@ == symbol_error(field@, c, radix),
{
    let cs = chars_of(s);
    let start: usize = if signed && cs.len() > 0 && cs[0] == '-' {
        1
    } else {
        0
    };
    let ghost body = digits_part(s@, signed);
    assert(body == cs@.subrange(start as int, cs.len() as int));
    let mut i = start;
    while i < cs.len()
        invariant
            start <= i <= cs.len(),
            body == digits_part(s@, signed),
            body == cs@.subrange(start as int, cs.len() as int),
            first_invalid_symbol(body, radix as nat) == first_invalid_symbol(
                cs@.subrange(i as int, cs.len() as int),
                radix as nat,
            ),
        decreases cs.len() - i,
    {
        let ch = cs[i];
        let ghost rest = cs@.subrange(i as int, cs.len() as int);
        assert(rest[0] == ch);
        assert(rest.skip(1) == cs@.subrange(i + 1, cs.len() as int));
        let valid = match digit_value(ch) {
            Some(v) => v < radix as u32,
            None => false,
        };
        if !valid {
            assert(!is_radix_symbol(ch, radix as nat));
            assert(first_invalid_symbol(rest, radix as nat) == Some(ch));
            assert(first_invalid_symbol(body, radix as nat) == Some(ch));
            let mut m: Vec<char> = Vec::new();
            push_str(&mut m, field);
            push_str(&mut m, " contains invalid symbol '");
            m.push(ch);
            push_str(&mut m, "' for radix ");
            let d = decimal_u64(radix as u64);
            push_chars(&mut m, &d);
            assert(m@ == symbol_error(field@, ch, radix));
            return Err(string_from_chars(&m));
        }
        i = i + 1;
    }
    Ok(())
}

/// A run with no invalid symbol has a value, and so does each of its
/// prefixes, one digit at a time.
proof fn lemma_valid_digits(s: Seq<char>, i: int, radix: nat)
    requires
        0 <= i < s.len(),
        first_invalid_symbol(s, radix) is None,
    ensures
        is_radix_symbol(s[i], radix),
    decreases i,
{
    if i > 0 {
        lemma_valid_digits(s.skip(1), i - 1, radix);
    }
}

/// The value of a validated exponent, as a `BigInt`.
fn exponent_bigint(e: &Vec<char>, radix: u8) -> (r: BigInt)
    requires
        2 <= radix <= 16,
        first_invalid_symbol(unsigned_part(e@), radix as nat) is None,
    ensures
        r@ == exponent_value(e@, radix as nat),
{
    let negative = e.len() > 0 && e[0] == '-';
    let start: usize = if negative {
        1
    } else {
        0
    };
    let ghost body = unsigned_part(e@);
    assert(body == e@.subrange(start as int, e.len() as int));
    let base = BigInt::from(radix);
    let mut acc = BigInt::from(0u8);
    let mut i = start;
    proof {
        assert(body.subrange(0, 0) =~= Seq::<char>::empty());
    }
    while i < e.len()
        invariant
            start <= i <= e.len(),
            2 <= radix <= 16,
            base@ == radix as int,
            body == e@.subrange(start as int, e.len() as int),
            first_invalid_symbol(body, radix as nat) is None,
            digits_value(body.subrange(0, i - start), radix as nat) == Some(acc@ as nat),
            acc@ >= 0,
        decreases e.len() - i,
    {
        proof {
            lemma_valid_digits(body, i - start, radix as nat);
        }
        assert(body.subrange(0, i + 1 - start).drop_last() == body.subrange(0, i - start));
        assert(body.subrange(0, i + 1 - start).last() == e@[i as int]);
        let d: u32 = match digit_value(e[i]) {
            Some(v) => v,
            None => 0,
        };
        let next = &(&acc * &base) + &BigInt::from(d);
        proof {
            assert(next@ >= 0) by (nonlinear_arith)
                requires
                    next@ == acc@ * base@ + d,
                    acc@ >= 0,
                    base@ >= 2,
            ;
        }
        acc = next;
        i = i + 1;
    }
    assert(body.subrange(0, body.len() as int) == body);
    if negative {
        (&acc).neg()
    } else {
        acc
    }
}

/// The normalised display of a `StringFloatRep`: the first mantissa digit,
/// a point and the other digits (just a point for an empty mantissa), `e`
/// and the exponent minus one (see `adjusted_exponent_text`), then
/// `(radix N)` unless the radix is 10; a `-` in front of a negative number.
pub open spec fn display_string(x: StringFloatRep) -> Seq<char> {
    let m = x.mantissa@;
    (if x.sign < 0 {
        seq!['-']
    } else {
        Seq::<char>::empty()
    }) + (if m.len() > 0 {
        seq![m[0], '.'] + m.skip(1)
    } else {
        seq!['.']
    }) + seq!['e'] + adjusted_exponent_text(x.exponent@, x.radix as nat) + (if x.radix == 10 {
        Seq::<char>::empty()
    } else {
        "(radix "@ + decimal_digits(x.radix as nat) + ")"@
    })
}

impl StringFloatRep {
    /// The normalised scientific-notation string `[-]d.dddde<exponent>`,
    /// followed by `(radix N)` for a radix other than 10. Every value that
    /// `new` accepts can be displayed: an empty mantissa shows as a lone
    /// point, and an exponent with no digits counts as `0`.
    pub fn to_string(&self) -> (r: String)
        requires
            new_error(self.mantissa@, self.radix, self.exponent@) is None,
        ensures
            r@ == display_string(*self),
    {
        let m = chars_of(self.mantissa.as_str());
        let mut out: Vec<char> = Vec::new();
        if self.sign < 0 {
            out.push('-');
        }
        if m.len() > 0 {
            out.push(m[0]);
            out.push('.');
            let ghost head = out@;
            let mut i: usize = 1;
            while i < m.len()
                invariant
                    1 <= i <= m.len(),
                    out@ == head + m@.subrange(1, i as int),
                decreases m.len() - i,
            {
                out.push(m[i]);
                i = i + 1;
            }
            assert(m@.subrange(1, m.len() as int) == m@.skip(1));
        } else {
            out.push('.');
        }
        out.push('e');
        let adjusted = self.compute_adjusted_exponent();
        push_chars(&mut out, &adjusted);
        if self.radix != 10 {
            push_str(&mut out, "(radix ");
            let d = decimal_u64(self.radix as u64);
            push_chars(&mut out, &d);
            push_str(&mut out, ")");
        }
        string_from_chars(&out)
    }

    /// The exponent decremented by one, written in the radix: the decimal
    /// point moves one place right when the value is displayed.
    fn compute_adjusted_exponent(&self) -> (r: Vec<char>)
        requires
            new_error(self.mantissa@, self.radix, self.exponent@) is None,
        ensures
            r@ == adjusted_exponent_text(self.exponent@, self.radix as nat),
    {
        let e = chars_of(self.exponent.as_str());
        let value = exponent_bigint(&e, self.radix);
        let adjusted = &value - &one();
        match adjusted.to_i64() {
            Some(a) => radix_format(a, self.radix),
            None => {
                let text = adjusted.to_str_radix(self.radix as u32);
                chars_of(text.as_str())
            },
        }
    }

    /// Creates a new `StringFloatRep` from its parts, validating them.
    ///
    /// Errors: an `Err` message if `radix` is outside `2..=16`, if the
    /// mantissa holds a symbol that is not a digit of `radix`, or if the
    /// exponent (without one leading `-`) does.
    pub fn new(sign: i8, mantissa: String, radix: u8, exponent: String) -> (r: Result<
        Self,
        String,
    >)
        ensures
            r is Ok <==> new_error(mantissa@, radix, exponent@) is None,
            r matches Ok(x) ==> x.sign == sign && x.mantissa@ == mantissa@ && x.radix == radix
                && x.exponent@ == exponent@,
            r matches Err(e) ==> new_error(mantissa@, radix, exponent@) == Some(e@),
    {
        if !(2 <= radix && radix <= 16) {
            let mut m: Vec<char> = Vec::new();
            push_str(&mut m, "radix must be between 2 and 16, got ");
            let d = decimal_u64(radix as u64);
            push_chars(&mut m, &d);
            return Err(string_from_chars(&m));
        }
        match validate(mantissa.as_str(), "mantissa", radix, false) {
            Ok(()) => {},
            Err(e) => return Err(e),
        }
        match validate(exponent.as_str(), "exponent", radix, true) {
            Ok(()) => {},
            Err(e) => return Err(e),
        }
        Ok(Self { sign, mantissa, radix, exponent })
    }
}

} // verus!
