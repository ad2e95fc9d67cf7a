//! `TestAdaptor` is a simple adaptor for testing and benchmarking purposes:
//! it accepts exactly one known password. It mocks how a normal adaptor
//! might work; the delay a real check would take is recorded but not acted
//! on, since waiting is not this library's business.

use core::time::Duration;
use vstd::prelude::*;

use crate::adaptor::attempt_result::AttemptResult;
use crate::adaptor::base::BaseAdaptor;
use crate::safe_cracker::errors::CrackError;
use crate::safe_cracker::timing::duration_from_millis;

verus! {

/// An adaptor that accepts exactly the password it was created with, and
/// never fails to execute.
pub struct TestAdaptor {
    password: String,
    delay: Duration,
}

impl TestAdaptor {
    /// The one password this adaptor accepts.
    pub closed spec fn spec_password(&self) -> Seq<char> {
        self.password@
    }

    /// An adaptor that answers immediately.
    pub fn without_delay(password: &str) -> (r: Self)
        ensures
            r.spec_password() == password@,
    {
        TestAdaptor::new(password, duration_from_millis(0))
    }

    /// An adaptor that accepts `password`, nominally taking `delay` per
    /// attempt.
    pub fn new(password: &str, delay: Duration) -> (r: Self)
        ensures
            r.spec_password() == password@,
    {
        TestAdaptor { password: password.to_owned(), delay }
    }
}

impl BaseAdaptor for TestAdaptor {
    /// Exactly the configured password matches.
    open spec fn spec_matches(&self, password: Seq<char>) -> bool {
        password == self.spec_password()
    }

    /// This check always executes.
    open spec fn spec_errs(&self, password: Seq<char>) -> bool {
        false
    }

    fn try_password(&self, password: &String) -> (r: Result<AttemptResult, CrackError>) {
        if *password == self.password {
            Ok(AttemptResult::Success)
        } else {
            Ok(AttemptResult::Failure)
        }
    }
}

} // verus!
