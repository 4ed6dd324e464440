//! A scientific-notation snapshot of a constructive real, with its exponent
//! held as a number.
use crate::bigint::{decimal_chars, decimal_digits};
use crate::text::{decimal_i64, decimal_u64, push_chars, push_str, string_from_chars};
use vstd::prelude::*;

verus! {

/// Represents a number in scientific notation as an approximation of a
/// constructive real: `sign × 0.mantissa × radix^exponent`.
#[derive(Debug, Clone)]
pub struct StringFloatRep {
    /// The sign of the number: `-1`, `0` or `1`.
    pub sign: i8,
    /// The significant digits, with the point implicitly before them.
    pub mantissa: String,
    /// The base of the numeric system (e.g. `10`).
    pub radix: u32,
    /// The power of `radix` that scales the mantissa.
    pub exponent: i32,
}

/// The display of a `StringFloatRep`: `[-]mantissaE<exponent>`, followed by
/// `(radix N)` for a radix other than 10.
pub open spec fn display_string(x: StringFloatRep) -> Seq<char> {
    (if x.sign < 0 {
        seq!['-']
    } else {
        Seq::<char>::empty()
    }) + x.mantissa@ + seq!['E'] + decimal_chars(x.exponent as int) + (if x.radix == 10 {
        Seq::<char>::empty()
    } else {
        "(radix "@ + decimal_digits(x.radix as nat) + ")"@
    })
}

impl StringFloatRep {
    /// Creates a new `StringFloatRep` from its parts.
    pub fn new(sign: i8, mantissa: String, radix: u32, exponent: i32) -> (r: Self)
        ensures
            r.sign == sign,
            r.mantissa@ == mantissa@,
            r.radix == radix,
            r.exponent == exponent,
    {
        Self { sign, mantissa, radix, exponent }
    }

    /// The human-readable form `[-]mantissaE<exponent>`, followed by
    /// `(radix N)` for a radix other than 10.
    pub fn to_string(&self) -> (r: String)
        ensures
            r@ == display_string(*self),
    {
        let mut out: Vec<char> = Vec::new();
        if self.sign < 0 {
            out.push('-');
        }
        push_str(&mut out, self.mantissa.as_str());
        out.push('E');
        let e = decimal_i64(self.exponent as i64);
        push_chars(&mut out, &e);
        if self.radix != 10 {
            push_str(&mut out, "(radix ");
            let d = decimal_u64(self.radix as u64);
            push_chars(&mut out, &d);
            push_str(&mut out, ")");
        }
        string_from_chars(&out)
    }
}

} // verus!
