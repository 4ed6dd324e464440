//! Boehm-style arbitrary-precision real arithmetic.
//!
//! This crate implements exact real arithmetic using two complementary
//! representations:
//!
//! - bounded rationals: exact fractions of arbitrary-precision integers,
//!   within a size budget;
//! - constructive reals: numbers approximated to any precision on demand.
pub mod bigint;
pub mod bounded_rational;
pub mod bytes;
pub mod creals;
pub mod evaluation;
pub mod ieee;
pub mod number_theory;
pub mod rational;
pub mod text;
