use zero2prod::domain::{NewSubscriber, SubscriberEmail};
use zero2prod::routes::subscriptions::SubscribeData;

#[test]
fn whitespace_only_email_is_rejected() {
    let email = "      ".to_string();

    assert!(SubscriberEmail::parse(email).is_err());
}

#[test]
fn empty_string_is_rejected() {
    let email = "".to_string();

    assert!(SubscriberEmail::parse(email).is_err());
}

#[test]
fn email_missing_at_symbol_is_rejected() {
    let email = "invalidEmail.com".to_string();

    assert!(SubscriberEmail::parse(email).is_err());
}

#[test]
fn email_missing_subject_is_rejected() {
    let email = "@invalidEmail.com".to_string();

    assert!(SubscriberEmail::parse(email).is_err());
}

#[test]
fn valid_emails_are_parsed_successfully() {
    for email in [
        "ursula_le_guin@gmail.com",
        "john.doe@example.org",
        "ada+news@example.net",
        "x@example.com",
    ] {
        let parsed = SubscriberEmail::parse(email.to_string()).unwrap();
        assert_eq!(parsed.as_str(), email);
        assert_eq!(parsed.as_ref(), email);
    }
}

#[test]
fn rejected_email_message_names_the_input() {
    let err = SubscriberEmail::parse("not-valid-email".to_string()).unwrap_err();
    assert_eq!(err, "not-valid-email is not valid email!");
}

#[test]
fn new_subscriber_needs_both_fields_valid() {
    let ok = NewSubscriber::parse("le guin".to_string(), "ursula_le_guin@gmail.com".to_string()).unwrap();
    assert_eq!(ok.name.as_str(), "le guin");
    assert_eq!(ok.email.as_str(), "ursula_le_guin@gmail.com");
    assert!(NewSubscriber::parse("".to_string(), "ursula_le_guin@gmail.com".to_string()).is_err());
    assert!(NewSubscriber::parse("Ursula".to_string(), "not-valid-email".to_string()).is_err());
}

#[test]
fn new_subscriber_from_form_data() {
    let data = SubscribeData::new("le guin".to_string(), "ursula_le_guin@gmail.com".to_string());
    let subscriber = NewSubscriber::try_from(data).unwrap();
    assert_eq!(subscriber.email.as_str(), "ursula_le_guin@gmail.com");
    let bad = SubscribeData::new("le guin".to_string(), "".to_string());
    assert!(NewSubscriber::try_from(bad).is_err());
}
