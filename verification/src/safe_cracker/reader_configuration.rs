//! Where one password list lives and how much of it to use.

use vstd::prelude::*;

verus! {

/// One resolved password-list source: its location, and an optional cap on
/// how many candidates to draw from it. `amount == None` means the whole
/// list. The location must name a line-oriented text resource; whoever opens
/// it turns it into a [`PwSource`](crate::safe_cracker::password_reader::PwSource).
pub struct PwListConfiguration {
    /// Path of the password list file.
    pub path: String,
    /// How many passwords to draw from it at most; `None` for all.
    pub amount: Option<usize>,
}

impl PwListConfiguration {
    /// Pair a location with its cap.
    pub fn new(path: &str, amount: Option<usize>) -> (r: Self)
        ensures
            r.path@ == path@,
            r.amount == amount,
    {
        PwListConfiguration { path: path.to_owned(), amount }
    }
}

} // verus!
