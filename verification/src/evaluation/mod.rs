//! Evaluation utilities for computing with real numbers: exact bounded
//! rationals, and the building blocks of constructive reals.
pub mod bounded_rational;
pub mod constants;
pub mod creals;
pub mod errors;
