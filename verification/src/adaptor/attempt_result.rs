//! Result of one password attempt made by an adaptor.

use vstd::prelude::*;

verus! {

/// Outcome of trying a single candidate: either the candidate is the
/// password, or it is not. A strategy that could not run at all reports an
/// error instead (see [`CrackError::Verification`](crate::safe_cracker::errors::CrackError)),
/// which is a different thing from a tried-and-wrong candidate.
#[derive(Debug, PartialEq, Eq, Structural, Clone, Copy)]
pub enum AttemptResult {
    /// The tried candidate is the password.
    Success,
    /// The tried candidate is not the password; the search goes on.
    Failure,
}

} // verus!
