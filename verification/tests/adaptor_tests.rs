use ramensky::adaptor::attempt_result::AttemptResult;
use ramensky::adaptor::base::BaseAdaptor;
use ramensky::adaptor::custom::test_adaptor::TestAdaptor;

#[test]
fn can_decrypt() {
    let adaptor = TestAdaptor::without_delay("abcde");

    matches!(
        adaptor.try_password(&String::from("abcde")).unwrap(),
        AttemptResult::Success
    );
}

#[test]
fn wrong_password_is_a_failure_not_an_error() {
    let adaptor = TestAdaptor::without_delay("abcde");

    assert!(matches!(
        adaptor.try_password(&String::from("edcba")).unwrap(),
        AttemptResult::Failure
    ));
}
