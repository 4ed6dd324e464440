//! A scientific-notation snapshot of a constructive real whose exponent is
//! held as a number.
pub mod string_float_rep;
