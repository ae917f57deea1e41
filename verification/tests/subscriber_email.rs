use zero2prod::domain::SubscriberEmail;

#[test]
fn a_valid_email_is_parsed_successfully() {
    let parsed = SubscriberEmail::parse("ursula_le_guin@gmail.com".to_string()).unwrap();
    assert_eq!(parsed.as_str(), "ursula_le_guin@gmail.com");
}

#[test]
fn an_empty_email_is_rejected() {
    assert!(SubscriberEmail::parse("".to_string()).is_err());
}

#[test]
fn email_missing_at_symbol_is_rejected() {
    assert!(SubscriberEmail::parse("definitely-not-an-email".to_string()).is_err());
}

#[test]
fn email_missing_subject_is_rejected() {
    assert!(SubscriberEmail::parse("@gmail.com".to_string()).is_err());
}

#[test]
fn email_missing_domain_is_rejected() {
    assert!(SubscriberEmail::parse("ursula@".to_string()).is_err());
}

#[test]
fn email_with_two_at_symbols_is_rejected() {
    assert!(SubscriberEmail::parse("ursula@le@guin.com".to_string()).is_err());
}

#[test]
fn email_with_whitespace_is_rejected() {
    assert!(SubscriberEmail::parse("ursula le guin@gmail.com".to_string()).is_err());
}

#[test]
fn email_with_dotless_domain_is_accepted() {
    assert!(SubscriberEmail::parse("ursula@localhost".to_string()).is_ok());
}

#[test]
fn the_local_part_may_have_64_characters_but_not_65() {
    let local_64 = format!("{}@example.com", "a".repeat(64));
    assert!(SubscriberEmail::parse(local_64).is_ok());
    let local_65 = format!("{}@example.com", "a".repeat(65));
    assert!(SubscriberEmail::parse(local_65).is_err());
}

#[test]
fn email_with_malformed_domain_is_rejected() {
    assert!(SubscriberEmail::parse("ursula@-gmail.com".to_string()).is_err());
    assert!(SubscriberEmail::parse("ursula@gmail..com".to_string()).is_err());
    assert!(SubscriberEmail::parse("ursula@gmail.com-".to_string()).is_err());
    assert!(SubscriberEmail::parse("ursula@.gmail.com".to_string()).is_err());
}
