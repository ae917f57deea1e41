use zero2prod::domain::ApplicationBaseUrl;
use zero2prod::store::{Store, SubscriptionStatus};
use zero2prod::subscription_confirm::{
    confirm, get_subscriber_id_from_token, ConfirmError, Parameters,
};
use zero2prod::subscriptions::{subscribe, SubscriptionForm};

fn subscribed_store() -> (Store, String) {
    let mut store = Store::new();
    let confirmation = subscribe(
        &mut store,
        SubscriptionForm {
            name: "le guin".to_string(),
            email: "ursula_le_guin@gmail.com".to_string(),
        },
        &ApplicationBaseUrl("https://newsletter.example".to_string()),
    )
    .unwrap();
    (store, confirmation.token)
}

#[test]
fn the_issued_token_confirms_the_subscription() {
    let (mut store, token) = subscribed_store();
    let outcome = confirm(&mut store, &Parameters { subscription_token: token });
    assert!(outcome.is_ok());
    assert_eq!(store.subscriptions.len(), 1);
    assert_eq!(store.subscriptions[0].status, SubscriptionStatus::Confirmed);
}

#[test]
fn confirming_twice_with_the_same_token_still_succeeds() {
    let (mut store, token) = subscribed_store();
    confirm(
        &mut store,
        &Parameters { subscription_token: token.clone() },
    )
    .unwrap();
    let second = confirm(&mut store, &Parameters { subscription_token: token });
    assert!(second.is_ok());
    assert_eq!(store.subscriptions.len(), 1);
    assert_eq!(store.subscriptions[0].status, SubscriptionStatus::Confirmed);
}

#[test]
fn a_plausible_but_unissued_token_is_unauthorized() {
    let (mut store, _token) = subscribed_store();
    let unissued = "A".repeat(25);
    let outcome = confirm(
        &mut store,
        &Parameters { subscription_token: unissued },
    );
    match outcome {
        Err(ConfirmError::Unauthorized) => {},
        _ => panic!("expected Unauthorized, not a success or an unexpected error"),
    }
    assert_eq!(
        store.subscriptions[0].status,
        SubscriptionStatus::PendingConfirmation
    );
}

#[test]
fn unauthorized_maps_to_401_and_unexpected_to_500() {
    assert_eq!(ConfirmError::Unauthorized.status_code(), 401);
    assert_eq!(
        ConfirmError::UnexpectedError("boom".to_string()).status_code(),
        500
    );
}

#[test]
fn token_lookup_answers_the_linked_subscription_id() {
    let (store, token) = subscribed_store();
    assert_eq!(
        get_subscriber_id_from_token(&store, &token),
        Some(store.subscriptions[0].id)
    );
    assert_eq!(get_subscriber_id_from_token(&store, "unknown"), None);
}
