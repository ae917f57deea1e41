use zero2prod::utils::{error_chain_fmt, str_eq};

#[test]
fn an_error_chain_renders_its_causes_in_order() {
    let messages = vec![
        "failed to store the token".to_string(),
        "the transaction was aborted".to_string(),
        "connection reset by peer".to_string(),
    ];
    assert_eq!(
        error_chain_fmt(&messages),
        "failed to store the token\n\n\
         Caused by:\n\tthe transaction was aborted\n\
         Caused by:\n\tconnection reset by peer\n"
    );
}

#[test]
fn an_error_without_causes_renders_alone() {
    let messages = vec!["all by itself".to_string()];
    assert_eq!(error_chain_fmt(&messages), "all by itself\n\n");
    assert_eq!(error_chain_fmt(&Vec::new()), "");
}

#[test]
fn string_equality_is_character_for_character() {
    assert!(str_eq("grapheme", "grapheme"));
    assert!(!str_eq("grapheme", "graphem"));
    assert!(!str_eq("a", "b"));
    assert!(str_eq("", ""));
}
