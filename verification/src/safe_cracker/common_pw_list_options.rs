//! Options for the built-in common password list.

use vstd::prelude::*;

use crate::safe_cracker::errors::CrackError;

verus! {

/// The hard ceiling on how much of the common password list may be used.
pub const MAX_AMOUNT: usize = 10_000_000;

/// How much of the built-in common password list to use.
#[derive(Copy, Clone)]
pub struct CommonPwListOptions {
    /// How many of the common password list to use, at most [`MAX_AMOUNT`].
    /// `None` means the whole list.
    pub amount_to_use: Option<usize>,
}

impl CommonPwListOptions {
    /// The construction-time invariant: a requested amount stays at or
    /// below the hard ceiling.
    pub open spec fn is_valid(self) -> bool {
        self.amount_to_use matches Some(a) ==> a <= MAX_AMOUNT
    }

    /// Use the first million passwords of the list.
    pub fn default() -> (r: Self)
        ensures
            r.amount_to_use == Some(1_000_000usize),
    {
        Self::build(Some(1_000_000)).unwrap()
    }

    /// Validate and build. An amount above the hard ceiling is a
    /// configuration error; `None` (use the whole list) is always accepted.
    pub fn build(amount_to_use: Option<usize>) -> (r: Result<Self, CrackError>)
        ensures
            r is Ok <==> (amount_to_use matches Some(a) ==> a <= MAX_AMOUNT),
            r matches Ok(c) ==> c.amount_to_use == amount_to_use,
            r matches Err(e) ==> e is CommonListLimitTooLarge,
    {
        match amount_to_use {
            Some(amount) => {
                if amount > MAX_AMOUNT {
                    Err(CrackError::CommonListLimitTooLarge)
                } else {
                    Ok(CommonPwListOptions { amount_to_use })
                }
            },
            None => Ok(CommonPwListOptions { amount_to_use }),
        }
    }
}

} // verus!
