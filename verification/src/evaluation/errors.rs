//! Errors shared across the crate.
use vstd::prelude::*;
use vstd::string::StringExecFns;

verus! {

/// Error returned when an operation tries to divide by zero.
#[derive(Clone, Copy, Debug, PartialEq, Eq, Structural)]
pub struct ZeroDivisionError;

impl ZeroDivisionError {
    /// The message of this error.
    pub fn to_string(&self) -> (r: String)
        ensures
            r@ == "division by zero"@,
    {
        String::from_str("division by zero")
    }
}

} // verus!
