//! The error of the code parser.

use vstd::prelude::*;

verus! {

/// Why bytes could not be read as codes.
#[derive(Debug, Clone, Copy, PartialEq, Eq, Structural)]
pub enum CodeError {
    /// The data is not as long as its leading bytes say.
    LengthMismatch {
        /// The length that the leading bytes ask for.
        expected: usize,
        /// The length of the data.
        actual: usize,
    },
}

} // verus!
