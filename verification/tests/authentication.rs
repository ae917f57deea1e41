use argon2::{Argon2, PasswordHasher};
use base64::Engine;
use zero2prod::authentication::{basic_authentication, validate_credentials, AuthError, Credentials};
use zero2prod::store::{Store, User};

fn phc_hash_of(password: &str) -> String {
    Argon2::default()
        .hash_password(password.as_bytes())
        .unwrap()
        .to_string()
}

fn store_with_user(username: &str, password: &str) -> (Store, u128) {
    let mut store = Store::new();
    let user_id: u128 = 42;
    store
        .add_user(User {
            user_id,
            username: username.to_string(),
            password_hash: phc_hash_of(password),
        })
        .unwrap();
    (store, user_id)
}

#[test]
fn correct_credentials_yield_the_matching_user_id() {
    let (store, user_id) = store_with_user("admin", "everythinghastostartsomewhere");
    let credentials = Credentials {
        username: "admin".to_string(),
        password: "everythinghastostartsomewhere".to_string(),
    };
    assert_eq!(validate_credentials(&credentials, &store).unwrap(), user_id);
}

#[test]
fn wrong_password_and_unknown_username_answer_the_same_variant() {
    let (store, _) = store_with_user("admin", "everythinghastostartsomewhere");
    let wrong_password = Credentials {
        username: "admin".to_string(),
        password: "not-the-password".to_string(),
    };
    let unknown_username = Credentials {
        username: "intruder".to_string(),
        password: "everythinghastostartsomewhere".to_string(),
    };
    assert!(matches!(
        validate_credentials(&wrong_password, &store),
        Err(AuthError::InvalidCredentials(_))
    ));
    assert!(matches!(
        validate_credentials(&unknown_username, &store),
        Err(AuthError::InvalidCredentials(_))
    ));
}

#[test]
fn a_malformed_stored_hash_is_unexpected_not_invalid() {
    let mut store = Store::new();
    store
        .add_user(User {
            user_id: 7,
            username: "admin".to_string(),
            password_hash: "not-a-phc-string".to_string(),
        })
        .unwrap();
    let credentials = Credentials {
        username: "admin".to_string(),
        password: "whatever".to_string(),
    };
    assert!(matches!(
        validate_credentials(&credentials, &store),
        Err(AuthError::UnexpectedError(_))
    ));
}

#[test]
fn provisioning_refuses_a_duplicate_username() {
    let (mut store, _) = store_with_user("admin", "pw");
    let refused = store.add_user(User {
        user_id: 43,
        username: "admin".to_string(),
        password_hash: phc_hash_of("other"),
    });
    assert!(refused.is_err());
    assert_eq!(store.users.len(), 1);
}

#[test]
fn basic_authentication_decodes_username_and_password() {
    let encoded = base64::engine::general_purpose::STANDARD.encode("admin:open sesame");
    let header = format!("Basic {}", encoded);
    let credentials = basic_authentication(&header).unwrap();
    assert_eq!(credentials.username, "admin");
    assert_eq!(credentials.password, "open sesame");
}

#[test]
fn basic_authentication_splits_at_the_first_colon_only() {
    let encoded = base64::engine::general_purpose::STANDARD.encode("admin:pass:word");
    let header = format!("Basic {}", encoded);
    let credentials = basic_authentication(&header).unwrap();
    assert_eq!(credentials.username, "admin");
    assert_eq!(credentials.password, "pass:word");
}

#[test]
fn basic_authentication_refuses_other_schemes_and_bad_payloads() {
    assert!(basic_authentication("Bearer abcdef").is_err());
    assert!(basic_authentication("Basic !!!not-base64!!!").is_err());
    let no_colon = base64::engine::general_purpose::STANDARD.encode("admin");
    assert!(basic_authentication(&format!("Basic {}", no_colon)).is_err());
}
