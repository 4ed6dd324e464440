//! Building blocks of constructive reals: numbers that can be computed to
//! any precision on demand.
//!
//! - `string_float_rep`: `StringFloatRep`, a scientific-notation snapshot
//!   of a constructive real at some precision.
//! - `cr`: the `CR` trait, the approximation cache, and the precision
//!   helpers.
pub mod cr;
pub mod string_float_rep;

pub use cr::CR;
pub use string_float_rep::StringFloatRep;
