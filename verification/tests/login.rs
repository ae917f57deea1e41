use argon2::{Argon2, PasswordHasher};
use zero2prod::authentication::Credentials;
use zero2prod::domain::HmacSecret;
use zero2prod::login::{error_html, login, login_redirect, LoginError, QueryParams};
use zero2prod::store::{Store, User};

fn secret() -> HmacSecret {
    HmacSecret("a-long-lived-server-secret".to_string())
}

fn store_with_admin() -> Store {
    let mut store = Store::new();
    store
        .add_user(User {
            user_id: 9,
            username: "admin".to_string(),
            password_hash: Argon2::default()
                .hash_password(b"everythinghastostartsomewhere")
                .unwrap()
                .to_string(),
        })
        .unwrap();
    store
}

#[test]
fn login_with_valid_credentials_yields_the_user_id() {
    let store = store_with_admin();
    let credentials = Credentials {
        username: "admin".to_string(),
        password: "everythinghastostartsomewhere".to_string(),
    };
    assert_eq!(login(&credentials, &store, &secret()).unwrap(), 9);
}

#[test]
fn failed_login_redirects_with_a_signed_error_message() {
    let store = store_with_admin();
    let credentials = Credentials {
        username: "admin".to_string(),
        password: "wrong".to_string(),
    };
    let (e, target) = login(&credentials, &store, &secret()).unwrap_err();
    assert!(matches!(e, LoginError::AuthError(_)));
    assert_eq!(e.message(), "Authentication failed");
    assert_eq!(e.status_code(), 303);
    assert!(target.starts_with("/login?error=Authentication%20failed&tag="));
    // The carried state verifies under the same secret.
    let tag = target.rsplit("&tag=").next().unwrap().to_string();
    let params = QueryParams {
        error: "Authentication failed".to_string(),
        tag,
    };
    assert_eq!(params.verify(&secret()).unwrap(), "Authentication failed");
}

#[test]
fn a_tampered_message_or_tag_is_refused() {
    let target = login_redirect("Authentication failed", &secret());
    let tag = target.rsplit("&tag=").next().unwrap().to_string();
    let tampered_message = QueryParams {
        error: "Authentication succeeded".to_string(),
        tag: tag.clone(),
    };
    assert!(tampered_message.verify(&secret()).is_err());
    let mut flipped = tag.clone();
    let last = flipped.pop().unwrap();
    flipped.push(if last == '0' { '1' } else { '0' });
    let tampered_tag = QueryParams {
        error: "Authentication failed".to_string(),
        tag: flipped,
    };
    assert!(tampered_tag.verify(&secret()).is_err());
    let not_hex = QueryParams {
        error: "Authentication failed".to_string(),
        tag: "zz".to_string(),
    };
    assert!(not_hex.verify(&secret()).is_err());
    let wrong_secret = QueryParams {
        error: "Authentication failed".to_string(),
        tag,
    };
    assert!(wrong_secret
        .verify(&HmacSecret("another-secret".to_string()))
        .is_err());
}

#[test]
fn every_login_failure_shows_the_same_generic_message() {
    // A wrong password and an unusable stored hash must be told apart
    // internally but never in what the user sees.
    let mut store = store_with_admin();
    store
        .add_user(User {
            user_id: 1,
            username: "broken".to_string(),
            password_hash: "not-a-phc-string".to_string(),
        })
        .unwrap();
    let wrong_password = Credentials {
        username: "admin".to_string(),
        password: "wrong".to_string(),
    };
    let unusable_hash = Credentials {
        username: "broken".to_string(),
        password: "whatever".to_string(),
    };
    let (e1, target1) = login(&wrong_password, &store, &secret()).unwrap_err();
    let (e2, target2) = login(&unusable_hash, &store, &secret()).unwrap_err();
    assert!(matches!(e1, LoginError::AuthError(_)));
    assert!(matches!(e2, LoginError::UnexpectedError(_)));
    assert_eq!(e1.message(), "Authentication failed");
    assert_eq!(e2.message(), "Authentication failed");
    assert_eq!(target1, target2);
}

#[test]
fn the_redirect_tag_is_64_lowercase_hex_digits() {
    let target = login_redirect("Authentication failed", &secret());
    let tag = target.rsplit("&tag=").next().unwrap();
    assert_eq!(tag.len(), 64);
    assert!(tag
        .chars()
        .all(|c| c.is_ascii_digit() || ('a'..='f').contains(&c)));
}

#[test]
fn the_error_fragment_escapes_html() {
    assert_eq!(
        error_html("<script>alert('x')</script> & \"quotes\""),
        "<p><i>&lt;script&gt;alert(&#x27;x&#x27;)&lt;/script&gt; &amp; &quot;quotes&quot;</i></p>"
    );
    assert_eq!(error_html("Authentication failed"), "<p><i>Authentication failed</i></p>");
}
