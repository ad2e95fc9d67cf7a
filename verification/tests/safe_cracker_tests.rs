use std::cell::Cell;
use std::rc::Rc;
use std::time::Duration;

use ramensky::adaptor::attempt_result::AttemptResult;
use ramensky::adaptor::base::BaseAdaptor;
use ramensky::adaptor::custom::test_adaptor::TestAdaptor;
use ramensky::safe_cracker::common_pw_list_options::CommonPwListOptions;
use ramensky::safe_cracker::errors::CrackError;
use ramensky::safe_cracker::options::Options;
use ramensky::safe_cracker::password_crack_result::PasswordCrackResult;
use ramensky::safe_cracker::password_reader::PwSource;
use ramensky::safe_cracker::safe_cracker::SafeCracker;

fn source(lines: &[&str], amount: Option<usize>) -> PwSource {
    PwSource { lines: lines.iter().map(|s| s.to_string()).collect(), amount }
}

/// The first five entries of the common password list, `qwerty` fourth.
fn common_list_head() -> PwSource {
    source(
        &["123456", "password", "12345678", "qwerty", "abc123"],
        Some(1_000_000),
    )
}

/// An adaptor that counts its calls, accepting one fixed password.
struct CountingAdaptor {
    target: String,
    calls: Rc<Cell<usize>>,
}

impl BaseAdaptor for CountingAdaptor {
    fn try_password(&self, password: &String) -> Result<AttemptResult, CrackError> {
        self.calls.set(self.calls.get() + 1);
        if *password == self.target {
            Ok(AttemptResult::Success)
        } else {
            Ok(AttemptResult::Failure)
        }
    }
}

/// An adaptor whose underlying check blows up on one specific candidate.
struct FaultyAdaptor {
    poison: String,
}

impl BaseAdaptor for FaultyAdaptor {
    fn try_password(&self, password: &String) -> Result<AttemptResult, CrackError> {
        if *password == self.poison {
            Err(CrackError::Verification(String::from(
                "the check could not run",
            )))
        } else {
            Ok(AttemptResult::Failure)
        }
    }
}

#[test]
fn should_find_in_common_passwords() {
    let safe_cracker = SafeCracker::build(
        Options::new(true, true, Some(CommonPwListOptions::default()), false, None, None),
        vec![common_list_head()],
    )
    .unwrap();

    // "qwerty" is the 4th item in the common passwords list.
    let adaptor = TestAdaptor::without_delay("qwerty");

    let result = safe_cracker.start(adaptor).unwrap();

    match result {
        PasswordCrackResult::Success(pw, _) => {
            assert_eq!(pw, "qwerty");
            assert!(true);
        }
        PasswordCrackResult::Failure(_) => assert!(false),
    }
}

#[test]
fn safe_cracker_should_find_in_common_passwords() {
    let safe_cracker = SafeCracker::build(
        Options::new(true, true, Some(CommonPwListOptions::default()), false, None, None),
        vec![common_list_head()],
    )
    .unwrap();

    let adaptor = TestAdaptor::new("qwerty", Duration::from_millis(0));

    let result = safe_cracker.start(adaptor).unwrap();

    match result {
        PasswordCrackResult::Success(pw, _) => {
            assert_eq!(pw, "qwerty");
            assert!(true);
        }
        PasswordCrackResult::Failure(_) => assert!(false),
    }
}

#[test]
fn should_find_in_custom_list() {
    let custom_path = "tests/resources/pw-list.txt";
    let safe_cracker = SafeCracker::build(
        Options::new(true, false, None, false, None, Some(String::from(custom_path))),
        vec![source(&["test1", "test2", "test3"], None)],
    )
    .unwrap();

    // "test2" is contained in the custom password list.
    let adaptor = TestAdaptor::without_delay("test2");

    let result = safe_cracker.start(adaptor).unwrap();

    match result {
        PasswordCrackResult::Success(pw, _) => {
            assert_eq!(pw, "test2");
            assert!(true);
        }
        PasswordCrackResult::Failure(_) => assert!(false),
    }
}

#[test]
fn exhaustion_is_a_clean_failure() {
    let safe_cracker = SafeCracker::build(
        Options::new(true, false, None, false, None, None),
        vec![source(&["a", "b"], None)],
    )
    .unwrap();

    let adaptor = TestAdaptor::without_delay("nowhere");

    assert!(matches!(
        safe_cracker.start(adaptor).unwrap(),
        PasswordCrackResult::Failure(_)
    ));
}

#[test]
fn two_runs_find_the_same_password() {
    // Same configuration, same strategy: the found password is identical
    // run to run (timing aside).
    let options = || Options::new(true, false, None, false, None, None);
    let sources = || vec![source(&["alpha", "beta", "gamma"], None)];

    let first = SafeCracker::build(options(), sources())
        .unwrap()
        .start(TestAdaptor::without_delay("beta"))
        .unwrap();
    let second = SafeCracker::build(options(), sources())
        .unwrap()
        .start(TestAdaptor::without_delay("beta"))
        .unwrap();

    match (first, second) {
        (PasswordCrackResult::Success(pw1, _), PasswordCrackResult::Success(pw2, _)) => {
            assert_eq!(pw1, "beta");
            assert_eq!(pw1, pw2);
        }
        _ => assert!(false),
    }
}

#[test]
fn first_match_in_source_order_wins() {
    // "target" sits at position 2 of the first source and position 1 of the
    // second: the reported success comes from the first source, after
    // exactly two attempts, never from the second source's earlier slot.
    let safe_cracker = SafeCracker::build(
        Options::new(true, false, None, false, None, None),
        vec![source(&["x", "target"], None), source(&["target", "y"], None)],
    )
    .unwrap();

    let calls = Rc::new(Cell::new(0));
    let adaptor = CountingAdaptor { target: String::from("target"), calls: Rc::clone(&calls) };

    let result = safe_cracker.start(adaptor).unwrap();

    match result {
        PasswordCrackResult::Success(pw, _) => assert_eq!(pw, "target"),
        PasswordCrackResult::Failure(_) => assert!(false),
    }
    assert_eq!(calls.get(), 2);
}

#[test]
fn verification_error_propagates() {
    // A strategy that cannot run on some candidate aborts the whole run
    // with its error; it is never silently treated as a wrong password.
    let safe_cracker = SafeCracker::build(
        Options::new(true, false, None, false, None, None),
        vec![source(&["a", "boom", "c"], None)],
    )
    .unwrap();

    let adaptor = FaultyAdaptor { poison: String::from("boom") };

    assert!(matches!(
        safe_cracker.start(adaptor),
        Err(CrackError::Verification(_))
    ));
}

#[test]
fn end_to_end_common_list_scenario() {
    // Built-in common list on, capped at 100000, no brute force, no custom
    // list; the password sits at position 4: success after exactly 4
    // verification calls, with a positive elapsed time.
    let options = Options::new(
        true,
        true,
        Some(CommonPwListOptions::build(Some(100_000)).unwrap()),
        false,
        None,
        None,
    );
    let sources = vec![source(
        &["123456", "password", "12345678", "qwerty", "abc123"],
        Some(100_000),
    )];
    let safe_cracker = SafeCracker::build(options, sources).unwrap();

    let calls = Rc::new(Cell::new(0));
    let adaptor = CountingAdaptor { target: String::from("qwerty"), calls: Rc::clone(&calls) };

    let result = safe_cracker.start(adaptor).unwrap();

    match result {
        PasswordCrackResult::Success(pw, elapsed) => {
            assert_eq!(pw, "qwerty");
            assert!(elapsed.as_nanos() > 0);
        }
        PasswordCrackResult::Failure(_) => assert!(false),
    }
    assert_eq!(calls.get(), 4);
}
