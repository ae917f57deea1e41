use zero2prod::domain::ApplicationBaseUrl;
use zero2prod::mail::TransportError;
use zero2prod::store::{Store, SubscriptionStatus};
use zero2prod::subscriptions::{
    complete_subscription, subscribe, SubscriberError, SubscriptionForm,
};

fn base_url() -> ApplicationBaseUrl {
    ApplicationBaseUrl("https://newsletter.example".to_string())
}

fn valid_form() -> SubscriptionForm {
    SubscriptionForm {
        name: "le guin".to_string(),
        email: "ursula_le_guin@gmail.com".to_string(),
    }
}

#[test]
fn subscribe_persists_the_new_subscriber_as_pending() {
    let mut store = Store::new();
    let outcome = subscribe(&mut store, valid_form(), &base_url());
    assert!(outcome.is_ok());
    assert_eq!(store.subscriptions.len(), 1);
    let row = &store.subscriptions[0];
    assert_eq!(row.email, "ursula_le_guin@gmail.com");
    assert_eq!(row.name, "le guin");
    assert_eq!(row.status, SubscriptionStatus::PendingConfirmation);
}

#[test]
fn subscribe_issues_a_25_char_alphanumeric_token_in_the_same_write() {
    let mut store = Store::new();
    let confirmation = subscribe(&mut store, valid_form(), &base_url()).unwrap();
    assert_eq!(store.tokens.len(), 1);
    let token_row = &store.tokens[0];
    assert_eq!(token_row.subscription_token, confirmation.token);
    assert_eq!(token_row.subscription_id, store.subscriptions[0].id);
    assert_eq!(confirmation.token.len(), 25);
    assert!(confirmation.token.chars().all(|c| c.is_ascii_alphanumeric()));
}

#[test]
fn subscribe_builds_the_confirmation_email_around_the_link() {
    let mut store = Store::new();
    let confirmation = subscribe(&mut store, valid_form(), &base_url()).unwrap();
    let link = format!(
        "https://newsletter.example/subscriptions/confirm?subscription_token={}",
        confirmation.token
    );
    assert_eq!(confirmation.recipient.as_str(), "ursula_le_guin@gmail.com");
    assert_eq!(confirmation.subject, "Welcome!");
    assert!(confirmation.html_body.contains(&link));
    assert!(confirmation.text_body.contains(&link));
    assert_eq!(
        confirmation.html_body,
        format!(
            "Welcome to our newsletter!<br />Click <a href=\"{}\">here</a> to confirm your subscription.",
            link
        )
    );
}

#[test]
fn subscribe_with_malformed_email_performs_zero_writes() {
    let mut store = Store::new();
    let form = SubscriptionForm {
        name: "Ursa".to_string(),
        email: "definitely-not-an-email".to_string(),
    };
    let outcome = subscribe(&mut store, form, &base_url());
    match outcome {
        Err(SubscriberError::ValidationError(_)) => {},
        _ => panic!("expected a validation error"),
    }
    assert_eq!(store.subscriptions.len(), 0);
    assert_eq!(store.tokens.len(), 0);
}

#[test]
fn subscribe_with_empty_name_performs_zero_writes() {
    let mut store = Store::new();
    let form = SubscriptionForm {
        name: "".to_string(),
        email: "ursa@gmail.com".to_string(),
    };
    let outcome = subscribe(&mut store, form, &base_url());
    assert!(matches!(outcome, Err(SubscriberError::ValidationError(_))));
    assert_eq!(store.subscriptions.len(), 0);
    assert_eq!(store.tokens.len(), 0);
}

#[test]
fn subscribe_twice_with_the_same_email_is_refused_without_partial_rows() {
    let mut store = Store::new();
    subscribe(&mut store, valid_form(), &base_url()).unwrap();
    let outcome = subscribe(&mut store, valid_form(), &base_url());
    assert!(matches!(outcome, Err(SubscriberError::UnexpectedError(_))));
    assert_eq!(store.subscriptions.len(), 1);
    assert_eq!(store.tokens.len(), 1);
}

#[test]
fn a_rejected_form_reports_the_offending_value_name_first() {
    let both_bad = zero2prod::subscriptions::parse_subscriber(SubscriptionForm {
        name: "/slash".to_string(),
        email: "not-an-email".to_string(),
    });
    assert_eq!(both_bad.unwrap_err(), "/slash");
    let bad_email = zero2prod::subscriptions::parse_subscriber(SubscriptionForm {
        name: "le guin".to_string(),
        email: "not-an-email".to_string(),
    });
    assert_eq!(bad_email.unwrap_err(), "not-an-email");
}

#[test]
fn a_token_for_an_unknown_subscription_is_refused() {
    let mut store = Store::new();
    let refused =
        zero2prod::subscriptions::insert_token(&mut store, 7, "ABCDE12345FGHIJ67890KLMNO".to_string());
    assert!(refused.is_err());
    assert_eq!(store.tokens.len(), 0);
}

#[test]
fn validation_errors_map_to_400_and_unexpected_to_500() {
    assert_eq!(
        SubscriberError::ValidationError("bad".to_string()).status_code(),
        400
    );
    assert_eq!(
        SubscriberError::UnexpectedError("boom".to_string()).status_code(),
        500
    );
}

#[test]
fn a_failed_confirmation_email_surfaces_as_unexpected_but_keeps_the_row() {
    let mut store = Store::new();
    subscribe(&mut store, valid_form(), &base_url()).unwrap();
    let sent = Err(TransportError("the gateway timed out".to_string()));
    let outcome = complete_subscription(sent);
    match outcome {
        Err(SubscriberError::UnexpectedError(m)) => assert_eq!(m, "the gateway timed out"),
        _ => panic!("expected an unexpected error"),
    }
    // The committed subscription stands even though the email never went out.
    assert_eq!(store.subscriptions.len(), 1);
    assert_eq!(
        store.subscriptions[0].status,
        SubscriptionStatus::PendingConfirmation
    );
    assert!(complete_subscription(Ok(())).is_ok());
}
