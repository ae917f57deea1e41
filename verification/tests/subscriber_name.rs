use zero2prod::domain::SubscriberName;

#[test]
fn a_256_grapheme_long_name_is_valid() {
    let name = "e".repeat(256);
    assert!(SubscriberName::parse(name).is_ok());
}

#[test]
fn a_name_longer_than_256_graphmemes_is_rejected() {
    let name = "e".repeat(257);
    assert!(SubscriberName::parse(name).is_err());
}

#[test]
fn whitespace_only_names_are_rejected() {
    let name = " ".to_string();
    assert!(SubscriberName::parse(name).is_err());
}

#[test]
fn empty_string_is_rejected() {
    let name = "".to_string();
    assert!(SubscriberName::parse(name).is_err());
}

#[test]
fn a_valid_name_is_parsed_successfully() {
    let name = "Ursula Le Guin".to_string();
    assert!(SubscriberName::parse(name).is_ok());
}

#[test]
fn invalid_characters_are_rejected() {
    for name in &['/', '(', ')', '<', '>', '\\', '{', '}'] {
        assert!(SubscriberName::parse(name.to_string()).is_err());
    }
}

#[test]
fn a_name_with_inner_whitespace_and_letters_is_valid() {
    let parsed = SubscriberName::parse("le guin".to_string()).unwrap();
    assert_eq!(parsed.as_str(), "le guin");
}

#[test]
fn a_name_of_multibyte_graphemes_is_counted_by_grapheme() {
    // 256 copies of a two-character (combining) grapheme cluster: far more
    // than 256 chars, still exactly 256 graphemes.
    let name = "e\u{0301}".repeat(256);
    assert!(name.chars().count() > 256);
    assert!(SubscriberName::parse(name).is_ok());
    let too_long = "e\u{0301}".repeat(257);
    assert!(SubscriberName::parse(too_long).is_err());
}
