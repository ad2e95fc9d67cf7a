//! The terminal result of a search run.

use core::time::Duration;
use vstd::prelude::*;

verus! {

/// Result of one run of the `SafeCracker`. Immutable once produced; owned by
/// the caller. The elapsed time is measured by the driver and nothing is
/// promised of it.
pub enum PasswordCrackResult {
    /// The password was found. Carries the password and the duration of the
    /// run.
    Success(String, Duration),
    /// Every candidate was tried and none matched. Carries the duration of
    /// the run.
    Failure(Duration),
}

} // verus!
