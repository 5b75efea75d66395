//! The ways in which a round can refuse its input.

use vstd::prelude::*;

verus! {

/// Why a round refused its input. A refused round has drawn no randomness.
#[derive(Clone, Copy, Debug, PartialEq, Eq, Structural)]
pub enum OtError {
    /// A choice bit was neither 0 nor 1.
    InvalidChoiceBit,
    /// A message of the masked encoding was not as long as the mask.
    PayloadLengthMismatch,
    /// The sequences handed to a batched round were not equally long.
    ArityMismatch,
}

} // verus!
