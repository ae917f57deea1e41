use zero2prod::config::Environment;

#[test]
fn environment_names_round_trip_through_parse() {
    assert_eq!(Environment::parse("local").unwrap().as_str(), "local");
    assert_eq!(Environment::parse("production").unwrap().as_str(), "production");
}

#[test]
fn environment_parsing_ignores_ascii_case() {
    assert_eq!(Environment::parse("LOCAL").unwrap(), Environment::Local);
    assert_eq!(Environment::parse("Production").unwrap(), Environment::Production);
}

#[test]
fn an_unsupported_environment_is_refused_with_the_raw_value() {
    assert_eq!(Environment::parse("staging").unwrap_err(), "staging");
    assert!(Environment::parse("").is_err());
}
