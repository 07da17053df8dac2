//! The ways in which asking a question can fail.

use vstd::prelude::*;
use vstd::string::StringExecFns;

verus! {

/// Why `ask` failed: a read failed on one of the three input paths, or the
/// captured answer was rejected by the configured predicate.
#[derive(Clone, Copy, Debug, PartialEq, Eq, Structural)]
pub enum AskError {
    /// A line could not be read from a redirected input source.
    ReadInput,
    /// A line could not be read from the process's standard input.
    ReadStdin,
    /// A masked (echo-suppressed) read failed.
    ReadMasked,
    /// The configured validation predicate rejected the answer.
    Validation,
}

impl AskError {
    /// The human-readable cause carried by this error.
    pub fn message(&self) -> (r: String)
        ensures
            self is ReadInput ==> r@ == "Unable to read from input."@,
            self is ReadStdin ==> r@ == "Unable to read from STDIN."@,
            self is ReadMasked ==> r@ == "Unable to read input."@,
            self is Validation ==> r@ == "Response failed validation"@,
    {
        match self {
            AskError::ReadInput => String::from_str("Unable to read from input."),
            AskError::ReadStdin => String::from_str("Unable to read from STDIN."),
            AskError::ReadMasked => String::from_str("Unable to read input."),
            AskError::Validation => String::from_str("Response failed validation"),
        }
    }
}

} // verus!
