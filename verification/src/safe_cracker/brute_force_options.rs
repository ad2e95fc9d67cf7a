//! Options that configure how the brute-forcing step would be done.
//!
//! Brute-force candidate generation itself is out of scope: only the
//! configuration contract such a generator would need is defined and
//! enforced here.

use vstd::prelude::*;

use crate::safe_cracker::errors::CrackError;

verus! {

/// Validated brute-force parameters: a password-length window and at least
/// one character class to draw from.
#[derive(Copy, Clone)]
pub struct BruteForceOptions {
    /// Minimum size of the password being searched.
    pub minimum_size: usize,
    /// Maximum size of the password being searched.
    pub maximum_size: usize,
    /// Whether to include numbers in the search.
    pub include_numbers: bool,
    /// Whether to include ASCII characters in the search.
    pub include_characters: bool,
    /// Whether to include symbols in the search.
    pub include_symbols: bool,
}

impl BruteForceOptions {
    /// The construction-time invariant: the length window is non-empty and
    /// some character class is selected.
    pub open spec fn is_valid(self) -> bool {
        &&& self.minimum_size < self.maximum_size
        &&& (self.include_numbers || self.include_characters || self.include_symbols)
    }

    /// Sizes 2 to 10, numbers and characters but no symbols.
    pub fn default() -> (r: Self)
        ensures
            r == (BruteForceOptions {
                minimum_size: 2usize,
                maximum_size: 10usize,
                include_numbers: true,
                include_characters: true,
                include_symbols: false,
            }),
    {
        Self::build(2, 10, true, true, false).unwrap()
    }

    /// Validate and build. Fails fast: a window with `minimum_size` not
    /// strictly below `maximum_size`, or no character class at all, is a
    /// configuration error; nothing is silently corrected.
    pub fn build(
        minimum_size: usize,
        maximum_size: usize,
        include_numbers: bool,
        include_characters: bool,
        include_symbols: bool,
    ) -> (r: Result<Self, CrackError>)
        ensures
            r is Ok <==> (minimum_size < maximum_size && (include_numbers || include_characters
                || include_symbols)),
            r matches Ok(o) ==> o == (BruteForceOptions {
                minimum_size,
                maximum_size,
                include_numbers,
                include_characters,
                include_symbols,
            }),
            r matches Err(e) ==> (if minimum_size >= maximum_size {
                e is InvalidSizeRange
            } else {
                e is NoCharacterSetSelected
            }),
    {
        if minimum_size >= maximum_size {
            return Err(CrackError::InvalidSizeRange);
        }

        if include_numbers == false && include_symbols == false && include_characters == false {
            return Err(CrackError::NoCharacterSetSelected);
        }

        Ok(BruteForceOptions {
            maximum_size,
            minimum_size,
            include_characters,
            include_numbers,
            include_symbols,
        })
    }
}

} // verus!
