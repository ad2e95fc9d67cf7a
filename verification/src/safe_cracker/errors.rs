//! The error taxonomy of the engine.
//!
//! Configuration mistakes and unavailable sources are construction-time
//! errors: no search starts. A failing read or a strategy that cannot run
//! are run-time errors: they abort the search, distinct from a clean
//! exhaustion of all candidates.

use vstd::prelude::*;

verus! {

/// Every fatal error the engine can surface. A tried-and-wrong password is
/// not an error: it is the `Failure` branch of a successful attempt.
#[derive(Debug)]
pub enum CrackError {
    /// `try_common_passwords` is enabled but no common-list options were
    /// supplied (construction-time configuration error).
    MissingCommonListOptions,
    /// `try_brute_forcing` is enabled but no brute-force options were
    /// supplied (construction-time configuration error).
    MissingBruteForceOptions,
    /// The brute-force minimum size is not strictly below the maximum size
    /// (construction-time configuration error).
    InvalidSizeRange,
    /// No character class at all was selected for brute forcing
    /// (construction-time configuration error).
    NoCharacterSetSelected,
    /// The requested slice of the common password list is above the hard
    /// ceiling (construction-time configuration error).
    CommonListLimitTooLarge,
    /// The configured custom password list is not an existing regular file
    /// (construction-time configuration error). Carries the offending path.
    InvalidCustomListPath(String),
    /// A configured source could not be opened at construction time.
    /// Carries the offending location.
    SourceUnavailable(String),
    /// A line could not be read or decoded from a source. Fatal to the whole
    /// sequence: a garbled read could mask a true negative result. Carries a
    /// description of the failing location.
    SourceRead(String),
    /// The verification strategy itself failed to execute, as opposed to
    /// reporting a wrong password. Aborts the run. Carries the strategy's
    /// description of what went wrong.
    Verification(String),
}

impl CrackError {
    /// True of the errors that can only arise while validating a
    /// configuration, before any search work begins.
    pub open spec fn is_configuration_error(self) -> bool {
        match self {
            CrackError::MissingCommonListOptions => true,
            CrackError::MissingBruteForceOptions => true,
            CrackError::InvalidSizeRange => true,
            CrackError::NoCharacterSetSelected => true,
            CrackError::CommonListLimitTooLarge => true,
            CrackError::InvalidCustomListPath(_) => true,
            CrackError::SourceUnavailable(_) => false,
            CrackError::SourceRead(_) => false,
            CrackError::Verification(_) => false,
        }
    }
}

} // verus!
