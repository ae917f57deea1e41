//! The Subscription Engine: creating a pending subscription together with its
//! confirmation token, all or nothing, and preparing the confirmation email.

use rand::distr::SampleString;
use vstd::prelude::*;

use crate::domain::{
    is_alnum_char, valid_email, valid_subscriber_name, ApplicationBaseUrl, NewSubscriber,
    SubscriberEmail, SubscriberName,
};
use crate::mail::TransportError;
use crate::store::{
    has_subscription_email, has_subscription_id, has_token, Store, Subscription,
    SubscriptionStatus, TokenRow, UniqueViolation,
};

verus! {

/// What the engine reports to the caller: bad input, or a failure of storage
/// or mail delivery after the input was accepted.
#[derive(Debug)]
pub enum SubscriberError {
    ValidationError(String),
    UnexpectedError(String),
}

impl SubscriberError {
    /// The HTTP status that each variant maps to at the boundary.
    pub fn status_code(&self) -> (code: u16)
        ensures
            self matches SubscriberError::ValidationError(_) ==> code == 400,
            self matches SubscriberError::UnexpectedError(_) ==> code == 500,
    {
        match self {
            SubscriberError::ValidationError(_) => 400,
            SubscriberError::UnexpectedError(_) => 500,
        }
    }
}

/// The raw subscription form, exactly as the HTTP layer hands it over.
#[derive(Debug)]
pub struct SubscriptionForm {
    pub name: String,
    pub email: String,
}

/// Validates a raw form into a `NewSubscriber`; the error carries the
/// offending raw value, the name checked first.
pub fn parse_subscriber(form: SubscriptionForm) -> (r: Result<NewSubscriber, String>)
    ensures
        r is Ok <==> valid_subscriber_name(form.name@) && valid_email(form.email@),
        r matches Ok(ns) ==> ns.name@ == form.name@ && ns.email@ == form.email@ && ns.wf(),
        r matches Err(m) ==> m@ == (if !valid_subscriber_name(form.name@) {
            form.name@
        } else {
            form.email@
        }),
{
    let name = match SubscriberName::parse(form.name) {
        Ok(name) => name,
        Err(e) => {
            return Err(e);
        },
    };
    let email = match SubscriberEmail::parse(form.email) {
        Ok(email) => email,
        Err(e) => {
            return Err(e);
        },
    };
    Ok(NewSubscriber { email, name })
}

/// A well-formed confirmation token: 25 ASCII letters or digits.
pub open spec fn valid_subscription_token(s: Seq<char>) -> bool {
    s.len() == 25 && forall|i: int| 0 <= i < s.len() ==> is_alnum_char(#[trigger] s[i])
}

/// Relies on rand: 25 characters drawn uniformly from `A-Z`, `a-z` and `0-9`
/// by the `Alphanumeric` distribution, using the thread-local CSPRNG.
#[verifier::external_body]
pub(crate) fn generate_subscription_token() -> (token: String)
    ensures
        valid_subscription_token(token@),
{
    rand::distr::Alphanumeric.sample_string(&mut rand::rng(), 25)
}

/// Relies on uuid::Uuid::new_v4, taken as its 128-bit value; the result is
/// random, so nothing is promised of it.
#[verifier::external_body]
pub(crate) fn new_subscription_id() -> (id: u128) {
    uuid::Uuid::new_v4().as_u128()
}

/// Relies on chrono::Utc::now, taken as a Unix timestamp in seconds; the
/// result depends on the clock, so nothing is promised of it.
#[verifier::external_body]
pub(crate) fn now_timestamp() -> (t: i64) {
    chrono::Utc::now().timestamp()
}

/// Adds the pending subscription row. Fails exactly when the id or the email
/// is already taken, as the schema's unique keys would have it; on failure
/// the store is untouched.
pub fn insert_subscriber(
    store: &mut Store,
    subscriber: &NewSubscriber,
    id: u128,
    now: i64,
) -> (r: Result<(), UniqueViolation>)
    requires
        old(store).wf(),
    ensures
        final(store).wf(),
        final(store).tokens@ == old(store).tokens@,
        final(store).users@ == old(store).users@,
        r is Ok <==> !has_subscription_id(old(store).subscriptions@, id)
            && !has_subscription_email(old(store).subscriptions@, subscriber.email@),
        r is Err ==> final(store).subscriptions@ == old(store).subscriptions@,
        r is Ok ==> final(store).subscriptions@ == old(store).subscriptions@.push(
            final(store).subscriptions@.last(),
        ) && {
            let sub = final(store).subscriptions@.last();
            &&& sub.id == id
            &&& sub.email@ == subscriber.email@
            &&& sub.name@ == subscriber.name@
            &&& sub.subscribed_at == now
            &&& sub.status == SubscriptionStatus::PendingConfirmation
        },
{
    let n = store.subscriptions.len();
    let mut i: usize = 0;
    while i < n
        invariant
            0 <= i <= n,
            n == store.subscriptions@.len(),
            *store == *old(store),
            store.wf(),
            forall|j: int|
                0 <= j < i ==> (#[trigger] store.subscriptions@[j]).id != id
                    && store.subscriptions@[j].email@ != subscriber.email@,
        decreases n - i,
    {
        if store.subscriptions[i].id == id || crate::utils::str_eq(
            store.subscriptions[i].email.as_str(),
            subscriber.email.as_str(),
        ) {
            return Err(UniqueViolation);
        }
        i += 1;
    }
    let row = Subscription {
        id,
        email: String::from_str(subscriber.email.as_str()),
        name: String::from_str(subscriber.name.as_str()),
        subscribed_at: now,
        status: SubscriptionStatus::PendingConfirmation,
    };
    store.subscriptions.push(row);
    proof {
        // Every token still points at a subscription: the old rows keep
        // their indexes under the push.
        assert forall|t: int|
            0 <= t < store.tokens@.len() implies has_subscription_id(
            store.subscriptions@,
            (#[trigger] store.tokens@[t]).subscription_id,
        ) by {
            let tid = store.tokens@[t].subscription_id;
            assert(has_subscription_id(old(store).subscriptions@, tid));
            let w = choose|j: int|
                0 <= j < old(store).subscriptions@.len() && (#[trigger] old(
                    store,
                ).subscriptions@[j]).id == tid;
            assert(store.subscriptions@[w].id == tid);
        }
    }
    Ok(())
}

/// Adds the token row for an existing subscription. Fails exactly when the
/// token is already taken or the subscription id is unknown; on failure the
/// store is untouched.
pub fn insert_token(
    store: &mut Store,
    subscriber_id: u128,
    subscriber_token: String,
) -> (r: Result<(), UniqueViolation>)
    requires
        old(store).wf(),
    ensures
        final(store).wf(),
        final(store).subscriptions@ == old(store).subscriptions@,
        final(store).users@ == old(store).users@,
        r is Ok <==> !has_token(old(store).tokens@, subscriber_token@) && has_subscription_id(
            old(store).subscriptions@,
            subscriber_id,
        ),
        r is Err ==> final(store).tokens@ == old(store).tokens@,
        r is Ok ==> final(store).tokens@ == old(store).tokens@.push(final(store).tokens@.last())
            && {
            let row = final(store).tokens@.last();
            &&& row.subscription_token@ == subscriber_token@
            &&& row.subscription_id == subscriber_id
        },
{
    let n = store.tokens.len();
    let mut i: usize = 0;
    while i < n
        invariant
            0 <= i <= n,
            n == store.tokens@.len(),
            *store == *old(store),
            store.wf(),
            forall|j: int|
                0 <= j < i ==> (#[trigger] store.tokens@[j]).subscription_token@
                    != subscriber_token@,
        decreases n - i,
    {
        if crate::utils::str_eq(
            store.tokens[i].subscription_token.as_str(),
            subscriber_token.as_str(),
        ) {
            return Err(UniqueViolation);
        }
        i += 1;
    }
    let mut k: usize = 0;
    let m = store.subscriptions.len();
    let mut found = false;
    while k < m
        invariant
            0 <= k <= m,
            m == store.subscriptions@.len(),
            *store == *old(store),
            store.wf(),
            found == exists|j: int|
                0 <= j < k && (#[trigger] store.subscriptions@[j]).id == subscriber_id,
        decreases m - k,
    {
        if store.subscriptions[k].id == subscriber_id {
            found = true;
        }
        k += 1;
    }
    if !found {
        return Err(UniqueViolation);
    }
    store.tokens.push(TokenRow { subscription_token: subscriber_token, subscription_id: subscriber_id });
    Ok(())
}

/// The confirmation link embedded in the email, formed against the public
/// base URL.
pub open spec fn confirmation_link(base_url: Seq<char>, token: Seq<char>) -> Seq<char> {
    base_url + "/subscriptions/confirm?subscription_token="@ + token
}

/// The HTML body of the confirmation email.
pub open spec fn confirmation_html(link: Seq<char>) -> Seq<char> {
    "Welcome to our newsletter!<br />Click <a href=\""@ + link
        + "\">here</a> to confirm your subscription."@
}

/// The plain-text body of the confirmation email.
pub open spec fn confirmation_text(link: Seq<char>) -> Seq<char> {
    "Welcome to our newsletter!\nVisit "@ + link + " to confirm your subscription."@
}

/// The confirmation email that `subscribe` asks the mail gateway to deliver.
#[derive(Debug)]
pub struct ConfirmationEmail {
    pub recipient: SubscriberEmail,
    pub subject: String,
    pub html_body: String,
    pub text_body: String,
    pub token: String,
}

/// Builds the confirmation email for a new subscriber: subject `Welcome!`,
/// and both bodies carrying the confirmation link for the given token.
pub fn confirmation_email(
    recipient: SubscriberEmail,
    base_url: &ApplicationBaseUrl,
    token: &String,
) -> (e: ConfirmationEmail)
    ensures
        e.recipient == recipient,
        e.token@ == token@,
        e.subject@ == "Welcome!"@,
        e.html_body@ == confirmation_html(confirmation_link(base_url.0@, token@)),
        e.text_body@ == confirmation_text(confirmation_link(base_url.0@, token@)),
{
    let mut link = String::from_str(base_url.0.as_str());
    link.append("/subscriptions/confirm?subscription_token=");
    link.append(token.as_str());

    let mut html_body = String::from_str("Welcome to our newsletter!<br />Click <a href=\"");
    html_body.append(link.as_str());
    html_body.append("\">here</a> to confirm your subscription.");

    let mut text_body = String::from_str("Welcome to our newsletter!\nVisit ");
    text_body.append(link.as_str());
    text_body.append(" to confirm your subscription.");

    ConfirmationEmail {
        recipient,
        subject: String::from_str("Welcome!"),
        html_body,
        text_body,
        token: String::from_str(token.as_str()),
    }
}

/// Creates a pending subscription: validates the form, then adds the
/// subscription row and its confirmation token as one all-or-nothing write,
/// and hands back the confirmation email for the gateway to send.
///
/// On any error the store is exactly as it was: a rejected form performs no
/// write, and a failed write of either row takes the other with it. A valid
/// form can only be refused when a unique key collides, which takes an
/// existing row — against an empty store, success is certain.
pub fn subscribe(
    store: &mut Store,
    form: SubscriptionForm,
    base_url: &ApplicationBaseUrl,
) -> (r: Result<ConfirmationEmail, SubscriberError>)
    requires
        old(store).wf(),
    ensures
        final(store).wf(),
        final(store).users@ == old(store).users@,
        r is Err ==> final(store).subscriptions@ == old(store).subscriptions@
            && final(store).tokens@ == old(store).tokens@,
        (r matches Err(SubscriberError::ValidationError(_))) <==> !(valid_subscriber_name(
            form.name@,
        ) && valid_email(form.email@)),
        valid_subscriber_name(form.name@) && valid_email(form.email@) && has_subscription_email(
            old(store).subscriptions@,
            form.email@,
        ) ==> (r matches Err(SubscriberError::UnexpectedError(_))),
        r matches Err(SubscriberError::UnexpectedError(_))
            ==> old(store).subscriptions@.len() > 0,
        valid_subscriber_name(form.name@) && valid_email(form.email@)
            && old(store).subscriptions@.len() == 0 ==> r is Ok,
        r matches Ok(c) ==> {
            let sub = final(store).subscriptions@.last();
            let row = final(store).tokens@.last();
            &&& !has_subscription_email(old(store).subscriptions@, form.email@)
            &&& final(store).subscriptions@ == old(store).subscriptions@.push(sub)
            &&& sub.email@ == form.email@
            &&& sub.name@ == form.name@
            &&& sub.status == SubscriptionStatus::PendingConfirmation
            &&& final(store).tokens@ == old(store).tokens@.push(row)
            &&& row.subscription_token@ == c.token@
            &&& row.subscription_id == sub.id
            &&& valid_subscription_token(c.token@)
            &&& c.recipient@ == form.email@
            &&& c.subject@ == "Welcome!"@
            &&& c.html_body@ == confirmation_html(confirmation_link(base_url.0@, c.token@))
            &&& c.text_body@ == confirmation_text(confirmation_link(base_url.0@, c.token@))
        },
{
    let new_subscriber = match parse_subscriber(form) {
        Ok(ns) => ns,
        Err(e) => {
            return Err(SubscriberError::ValidationError(e));
        },
    };
    let subscriber_id = new_subscription_id();
    let now = now_timestamp();
    let ghost subs0 = store.subscriptions@;
    if insert_subscriber(store, &new_subscriber, subscriber_id, now).is_err() {
        return Err(
            SubscriberError::UnexpectedError(
                String::from_str("failed to insert new subscriber into the store"),
            ),
        );
    }
    let subscription_token = generate_subscription_token();
    let token_copy = String::from_str(subscription_token.as_str());
    if insert_token(store, subscriber_id, token_copy).is_err() {
        proof {
            // The id was just inserted, so the refusal was a token collision;
            // by well-formedness the colliding row points at an existing
            // subscription, so the store held rows already.
            assert(store.subscriptions@.last().id == subscriber_id);
            assert(has_subscription_id(store.subscriptions@, subscriber_id));
            assert(has_token(old(store).tokens@, token_copy@));
            let t = choose|i: int|
                0 <= i < old(store).tokens@.len() && (#[trigger] old(
                    store,
                ).tokens@[i]).subscription_token@ == token_copy@;
            assert(has_subscription_id(
                old(store).subscriptions@,
                old(store).tokens@[t].subscription_id,
            ));
        }
        // The transaction aborts: the subscription row leaves with it.
        store.subscriptions.pop();
        proof {
            assert(store.subscriptions@ =~= subs0);
        }
        return Err(
            SubscriberError::UnexpectedError(
                String::from_str("failed to store the confirmation token for a new subscriber"),
            ),
        );
    }
    Ok(confirmation_email(new_subscriber.email, base_url, &subscription_token))
}

/// Interprets the mail gateway's answer for `subscribe`'s caller: a failed
/// confirmation email is unexpected, but the committed subscription stands.
pub fn complete_subscription(send_result: Result<(), TransportError>) -> (r: Result<
    (),
    SubscriberError,
>)
    ensures
        send_result is Ok <==> r is Ok,
        r matches Err(e) ==> e matches SubscriberError::UnexpectedError(m) && send_result matches
            Err(t) && m@ == t.0@,
{
    match send_result {
        Ok(()) => Ok(()),
        Err(TransportError(m)) => Err(SubscriberError::UnexpectedError(m)),
    }
}

} // verus!
