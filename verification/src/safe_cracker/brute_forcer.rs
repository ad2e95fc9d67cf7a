//! The brute-force candidate generator, present as a configuration holder
//! only: combinatorial candidate generation is out of scope.

use vstd::prelude::*;

use crate::safe_cracker::brute_force_options::BruteForceOptions;

verus! {

/// Holder of validated brute-force parameters.
pub struct BruteForcer {
    options: BruteForceOptions,
}

impl BruteForcer {
    /// The options this brute forcer was created with.
    pub closed spec fn spec_options(self) -> BruteForceOptions {
        self.options
    }

    /// Wrap the given, already validated, options.
    pub fn new(options: BruteForceOptions) -> (r: Self)
        ensures
            r.spec_options() == options,
    {
        Self { options }
    }
}

} // verus!
