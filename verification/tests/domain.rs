use newsletter::domain::NewSubscriber;
use newsletter::domain::SubscribeForm;
use newsletter::domain::SubscriberEmail;
use newsletter::domain::SubscriberName;

#[test]
fn a_max_len_name_is_valid() {
    let name = "ё".repeat(256);
    assert!(SubscriberName::parse(name).is_ok());
}

#[test]
fn too_long_name_is_invalid() {
    let name = "a".repeat(257);
    assert!(SubscriberName::parse(name).is_err());
}

#[test]
fn whitespace_only_names_invalid() {
    let name = " ".to_string();
    assert!(SubscriberName::parse(name).is_err());
}

#[test]
fn empty_string_name_invalid() {
    let name = "".to_string();
    assert!(SubscriberName::parse(name).is_err());
}

#[test]
fn invalid_chars_name_invalid() {
    for name in &['/', '(', ')', '"', '<', '>', '\\', '{', '}'] {
        let name = name.to_string();
        assert!(SubscriberName::parse(name).is_err());
    }
}

#[test]
fn name_valid() {
    let name = "Test User".to_string();
    assert!(SubscriberName::parse(name).is_ok());
}

#[test]
fn name_round_trips_the_original_string() {
    let parsed = SubscriberName::parse("Test User".to_string()).unwrap();
    assert_eq!(parsed.as_ref(), "Test User");
}

#[test]
fn name_rejection_reports_the_input() {
    let err = SubscriberName::parse("{bad}".to_string()).unwrap_err();
    assert_eq!(err, "{bad} is not a valid subscriber name.");
}

#[test]
fn email_empty_string_invalid() {
    let email = "".to_string();
    assert!(SubscriberEmail::parse(email).is_err());
}

#[test]
fn email_missing_symbol_invalid() {
    let email = "testtest.com".to_string();
    assert!(SubscriberEmail::parse(email).is_err());
}

#[test]
fn email_missing_subject_invalid() {
    let email = "@test.com".to_string();
    assert!(SubscriberEmail::parse(email).is_err());
}

#[test]
fn well_formed_emails_valid() {
    for email in ["test@test.com", "ursula_le_guin@gmail.com", "a.b+c@mail.example.co.uk"] {
        let parsed = SubscriberEmail::parse(email.to_string());
        assert!(parsed.is_ok());
        assert_eq!(parsed.unwrap().as_ref(), email);
    }
}

#[test]
fn email_rejection_reports_the_input() {
    let err = SubscriberEmail::parse("not-a-email".to_string()).unwrap_err();
    assert_eq!(err, "not-a-email is not a valid email address");
}

#[test]
fn form_with_both_fields_valid_is_accepted() {
    let form = SubscribeForm { email: "test@test.com".to_string(), name: "test".to_string() };
    let subscriber = NewSubscriber::try_from(form).unwrap();
    assert_eq!(subscriber.name.as_ref(), "test");
    assert_eq!(subscriber.email.as_ref(), "test@test.com");
}

#[test]
fn form_reports_the_name_failure_first() {
    let form = SubscribeForm { email: "not-a-email".to_string(), name: "".to_string() };
    let err = NewSubscriber::try_from(form).unwrap_err();
    assert_eq!(err, " is not a valid subscriber name.");
}

#[test]
fn form_with_invalid_email_is_rejected() {
    let form = SubscribeForm { email: "not-a-email".to_string(), name: "Test".to_string() };
    let err = NewSubscriber::try_from(form).unwrap_err();
    assert_eq!(err, "not-a-email is not a valid email address");
}
