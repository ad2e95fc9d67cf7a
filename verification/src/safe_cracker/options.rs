//! The options that configure a whole search run, to use with `SafeCracker`.

use vstd::prelude::*;

use crate::safe_cracker::brute_force_options::BruteForceOptions;
use crate::safe_cracker::common_pw_list_options::CommonPwListOptions;

verus! {

/// Which sources take part in a search run, in what amounts, and whether
/// progress is reported. Validated when a driver is built from it: a feature
/// flag without its sub-options is a configuration error, never a silent
/// default.
pub struct Options {
    /// If `quiet` is true, the caller should emit no progress messages.
    /// Observational only: it never affects the outcome of a run.
    pub quiet: bool,
    /// Whether to try the most common passwords first.
    pub try_common_passwords: bool,
    /// Options for the common password list. Required if
    /// `try_common_passwords` is enabled.
    pub common_password_options: Option<CommonPwListOptions>,
    /// Whether to try to brute force the password. This would run last.
    pub try_brute_forcing: bool,
    /// Brute forcing options. Required if `try_brute_forcing` is enabled.
    pub brute_forcing_options: Option<BruteForceOptions>,
    /// Path to a custom password list, a newline-separated list of
    /// passwords, tried after the common list.
    pub custom_pw_list_path: Option<String>,
}

impl Options {
    /// The construction-time invariant: every enabled feature carries its
    /// sub-options.
    pub open spec fn is_valid(self) -> bool {
        &&& (self.try_common_passwords ==> self.common_password_options is Some)
        &&& (self.try_brute_forcing ==> self.brute_forcing_options is Some)
    }

    /// Bundle the given settings, unvalidated; building a driver validates.
    pub fn new(
        quiet: bool,
        try_common_passwords: bool,
        common_password_options: Option<CommonPwListOptions>,
        try_brute_forcing: bool,
        brute_forcing_options: Option<BruteForceOptions>,
        custom_pw_list_path: Option<String>,
    ) -> (r: Options)
        ensures
            r == (Options {
                quiet,
                try_common_passwords,
                common_password_options,
                try_brute_forcing,
                brute_forcing_options,
                custom_pw_list_path,
            }),
    {
        Options {
            quiet,
            try_common_passwords,
            common_password_options,
            try_brute_forcing,
            brute_forcing_options,
            custom_pw_list_path,
        }
    }

    /// Progress messages on, the first million common passwords, brute
    /// forcing with its default parameters, and no custom list.
    pub fn default() -> (r: Options)
        ensures
            r.quiet == false,
            r.try_common_passwords == true,
            r.common_password_options matches Some(c) && c.amount_to_use == Some(1_000_000usize),
            r.try_brute_forcing == true,
            r.brute_forcing_options is Some,
            r.custom_pw_list_path is None,
            r.is_valid(),
    {
        Self::new(
            false,
            true,
            Some(CommonPwListOptions::default()),
            true,
            Some(BruteForceOptions::default()),
            None,
        )
    }
}

} // verus!
