//! The base adaptor trait that all verification strategies implement.

use vstd::prelude::*;

use crate::adaptor::attempt_result::AttemptResult;
use crate::safe_cracker::errors::CrackError;

verus! {

/// A verification strategy: the external collaborator that judges whether a
/// candidate is the correct password. The search driver calls
/// [`try_password`](BaseAdaptor::try_password) once per candidate, in order.
///
/// An adaptor must behave as a pure check of the candidate: which candidates
/// match is [`spec_matches`](BaseAdaptor::spec_matches), and on which
/// candidates the check itself cannot run is
/// [`spec_errs`](BaseAdaptor::spec_errs). These two spec functions are what
/// the driver's contract is stated over.
pub trait BaseAdaptor {
    /// Which candidates this strategy accepts as the password. A verified
    /// adaptor overrides this with its own meaning; the default says no
    /// candidate matches. An implementation left unverified proves nothing
    /// about its `try_password`, so nothing follows about it from here
    /// either.
    open spec fn spec_matches(&self, password: Seq<char>) -> bool {
        false
    }

    /// On which candidates the underlying check fails to execute at all.
    /// The default says it always executes.
    open spec fn spec_errs(&self, password: Seq<char>) -> bool {
        false
    }

    /// Try one candidate. `Ok(AttemptResult::Success)` ends the search;
    /// `Ok(AttemptResult::Failure)` lets it continue; `Err` means the check
    /// itself could not run and aborts the search.
    fn try_password(&self, password: &String) -> (r: Result<AttemptResult, CrackError>)
        ensures
            r matches Ok(a) ==> !self.spec_errs(password@) && (a is Success
                <==> self.spec_matches(password@)),
            r matches Err(e) ==> self.spec_errs(password@) && e matches CrackError::Verification(
                _,
            ),
    ;
}

} // verus!
