//! The search driver: owns the candidate sequence for one run, feeds each
//! candidate to the verification strategy, and produces a terminal result
//! with timing.

use vstd::prelude::*;

use crate::adaptor::attempt_result::AttemptResult;
use crate::adaptor::base::BaseAdaptor;
use crate::safe_cracker::brute_forcer::BruteForcer;
use crate::safe_cracker::errors::CrackError;
use crate::safe_cracker::options::Options;
use crate::safe_cracker::password_crack_result::PasswordCrackResult;
use crate::safe_cracker::password_reader::{sources_model, PasswordReader, PwSource};
use crate::safe_cracker::reader_configuration::PwListConfiguration;
use crate::safe_cracker::timing::{elapsed_since, instant_now};

verus! {

/// The location of the built-in common password list.
pub open spec fn common_pw_path() -> Seq<char> {
    "resources/common-passwords.txt"@
}

/// What a run must come to, as decided by the candidates ahead of it, in
/// order: the first candidate on which the strategy errs or matches settles
/// the run, and a run past all candidates is an exhaustion.
pub enum SearchModel {
    /// The strategy matches this candidate, and errs on no earlier one.
    Found(Seq<char>),
    /// The strategy fails to execute on some candidate before any match.
    Fatal,
    /// The strategy runs on every candidate and matches none.
    Exhausted,
}

/// The outcome a sequential run over `cands` comes to under `adaptor`:
/// candidates are judged one at a time, in order, and the first decisive one
/// wins.
pub open spec fn search_model<T: BaseAdaptor>(adaptor: T, cands: Seq<Seq<char>>) -> SearchModel
    decreases cands.len(),
{
    if cands.len() == 0 {
        SearchModel::Exhausted
    } else if adaptor.spec_errs(cands[0]) {
        SearchModel::Fatal
    } else if adaptor.spec_matches(cands[0]) {
        SearchModel::Found(cands[0])
    } else {
        search_model(adaptor, cands.drop_first())
    }
}

/// A run that found a password found the earliest matching candidate: the
/// strategy matches it, and on every candidate before it the strategy
/// neither matches nor errs.
pub proof fn lemma_found_is_first_match<T: BaseAdaptor>(
    adaptor: T,
    cands: Seq<Seq<char>>,
    pw: Seq<char>,
)
    requires
        search_model(adaptor, cands) == SearchModel::Found(pw),
    ensures
        exists|i: int|
            0 <= i < cands.len() && cands[i] == pw && adaptor.spec_matches(cands[i]) && (forall|
                j: int,
            |
                0 <= j < i ==> !adaptor.spec_matches(cands[j]) && !adaptor.spec_errs(cands[j])),
    decreases cands.len(),
{
    if adaptor.spec_matches(cands[0]) {
        assert(cands[0] == pw && adaptor.spec_matches(cands[0]) && (forall|j: int|
            0 <= j < 0 ==> !adaptor.spec_matches(cands[j]) && !adaptor.spec_errs(cands[j])));
    } else {
        lemma_found_is_first_match(adaptor, cands.drop_first(), pw);
        let i = choose|i: int|
            0 <= i < cands.drop_first().len() && cands.drop_first()[i] == pw
                && adaptor.spec_matches(cands.drop_first()[i]) && (forall|j: int|
                0 <= j < i ==> !adaptor.spec_matches(cands.drop_first()[j]) && !adaptor.spec_errs(
                    cands.drop_first()[j],
                ));
        assert(cands[i + 1] == cands.drop_first()[i]);
        assert forall|j: int| 0 <= j < i + 1 implies !adaptor.spec_matches(cands[j])
            && !adaptor.spec_errs(cands[j]) by {
            if j > 0 {
                assert(cands[j] == cands.drop_first()[j - 1]);
            }
        }
        assert(cands[i + 1] == pw && adaptor.spec_matches(cands[i + 1]) && (forall|j: int|
            0 <= j < i + 1 ==> !adaptor.spec_matches(cands[j]) && !adaptor.spec_errs(cands[j])));
    }
}

/// Determinism: the outcome a run comes to is a function of the candidate
/// sequence and the strategy alone, so two runs over the same candidates
/// with the same strategy that both find a password find the same password
/// (timing may differ).
pub proof fn lemma_search_deterministic<T: BaseAdaptor>(
    adaptor: T,
    cands: Seq<Seq<char>>,
    pw1: Seq<char>,
    pw2: Seq<char>,
)
    requires
        search_model(adaptor, cands) == SearchModel::Found(pw1),
        search_model(adaptor, cands) == SearchModel::Found(pw2),
    ensures
        pw1 == pw2,
{
}

/// The search driver. Built from validated options and the sources they
/// call for; single-use: one run consumes it, since the underlying candidate
/// sequence is forward-only and ends for good.
pub struct SafeCracker {
    password_reader: PasswordReader,
    brute_forcer: Option<BruteForcer>,
    options: Options,
}

impl SafeCracker {
    /// The driver's candidate sequence is in a fit state.
    pub closed spec fn wf(self) -> bool {
        self.password_reader.wf()
    }

    /// The candidates this driver will feed to the strategy, in order.
    pub closed spec fn candidates(self) -> Seq<Seq<char>> {
        self.password_reader.remaining()
    }

    /// The options this driver was built from.
    pub closed spec fn spec_options(self) -> Options {
        self.options
    }

    /// Resolve validated options into the ordered list of password-list
    /// locations a run draws from: the built-in common list first (with its
    /// configured cap), then the custom list (uncapped). Fails fast with a
    /// configuration error when an enabled feature misses its sub-options.
    pub fn resolve_sources(options: &Options) -> (r: Result<
        Vec<PwListConfiguration>,
        CrackError,
    >)
        ensures
            r is Ok <==> options.is_valid(),
            r matches Ok(plan) ==> {
                let n_common: int = if options.try_common_passwords {
                    1int
                } else {
                    0int
                };
                &&& plan@.len() == n_common + (if options.custom_pw_list_path is Some {
                    1int
                } else {
                    0int
                })
                &&& options.try_common_passwords ==> (options.common_password_options matches Some(
                    c,
                ) && plan@[0].path@ == common_pw_path() && plan@[0].amount == c.amount_to_use)
                &&& options.custom_pw_list_path matches Some(p) ==> (plan@[n_common].path@ == p@
                    && plan@[n_common].amount is None)
            },
            r matches Err(e) ==> e.is_configuration_error() && (if options.try_common_passwords
                && options.common_password_options is None {
                e is MissingCommonListOptions
            } else {
                e is MissingBruteForceOptions
            }),
    {
        let mut paths: Vec<PwListConfiguration> = Vec::new();

        if options.try_common_passwords {
            match &options.common_password_options {
                Some(opt) => {
                    paths.push(
                        PwListConfiguration::new(
                            "resources/common-passwords.txt",
                            opt.amount_to_use,
                        ),
                    );
                },
                None => {
                    return Err(CrackError::MissingCommonListOptions);
                },
            }
        }

        match &options.custom_pw_list_path {
            Some(custom_path) => {
                paths.push(PwListConfiguration::new(custom_path.as_str(), None));
            },
            None => {},
        }

        if options.try_brute_forcing && options.brute_forcing_options.is_none() {
            return Err(CrackError::MissingBruteForceOptions);
        }

        Ok(paths)
    }

    /// Build a driver from options and the sources resolved from them, in
    /// the same order, already read into memory. Construction validates the
    /// options and is all-or-nothing: a configuration error means no search
    /// work begins. The driver will feed exactly the sources' candidate
    /// sequence to the strategy.
    pub fn build(options: Options, sources: Vec<PwSource>) -> (r: Result<SafeCracker, CrackError>)
        ensures
            r is Ok <==> options.is_valid(),
            r matches Ok(sc) ==> sc.wf() && sc.candidates() == sources_model(sources@)
                && sc.spec_options() == options,
            r matches Err(e) ==> e.is_configuration_error() && (if options.try_common_passwords
                && options.common_password_options is None {
                e is MissingCommonListOptions
            } else {
                e is MissingBruteForceOptions
            }),
    {
        if options.try_common_passwords && options.common_password_options.is_none() {
            return Err(CrackError::MissingCommonListOptions);
        }

        let brute_forcer = if options.try_brute_forcing {
            match options.brute_forcing_options {
                Some(opt) => Some(BruteForcer::new(opt)),
                None => {
                    return Err(CrackError::MissingBruteForceOptions);
                },
            }
        } else {
            None
        };

        Ok(SafeCracker { password_reader: PasswordReader::build(sources), brute_forcer, options })
    }

    /// Start password cracking: pull candidates one at a time, in order,
    /// with no reordering or skipping, and call the adaptor's
    /// `try_password()` for each.
    ///
    /// The first match ends the run at once with `Success` carrying exactly
    /// the matching candidate; a strategy that fails to execute aborts the
    /// run with its error; and a sequence exhausted without a match ends the
    /// run with `Failure`. Each outcome carries the elapsed time of the run,
    /// of which nothing is promised.
    #[verifier::loop_isolation(false)]
    pub fn start<T: BaseAdaptor>(self, adaptor: T) -> (r: Result<PasswordCrackResult, CrackError>)
        requires
            self.wf(),
        ensures
            (match r {
                Ok(PasswordCrackResult::Success(pw, _)) => search_model(adaptor, self.candidates())
                    == SearchModel::Found(pw@),
                Ok(PasswordCrackResult::Failure(_)) => search_model(adaptor, self.candidates())
                    is Exhausted,
                Err(e) => search_model(adaptor, self.candidates()) is Fatal && e matches CrackError::Verification(
                    _,
                ),
            }),
    {
        let ghost cands0 = self.candidates();
        let start_time = instant_now();
        let mut reader = self.password_reader;

        loop
            invariant
                reader.wf(),
                search_model(adaptor, reader.remaining()) == search_model(adaptor, cands0),
            decreases reader.remaining().len(),
        {
            let ghost before = reader.remaining();
            match reader.next() {
                None => {
                    return Ok(PasswordCrackResult::Failure(elapsed_since(&start_time)));
                },
                Some(pw) => {
                    let result = adaptor.try_password(&pw);
                    match result {
                        Err(e) => {
                            return Err(e);
                        },
                        Ok(AttemptResult::Success) => {
                            return Ok(
                                PasswordCrackResult::Success(pw, elapsed_since(&start_time)),
                            );
                        },
                        Ok(AttemptResult::Failure) => {
                            proof {
                                assert(reader.remaining() == before.drop_first());
                            }
                        },
                    }
                },
            }
        }
    }
}

} // verus!
