//! Redeeming a confirmation token: the one transition a subscription row can
//! make, from pending to confirmed.

use vstd::prelude::*;

use crate::store::{has_token, token_links, Store, Subscription, SubscriptionStatus};

verus! {

/// The query parameters of a confirmation request.
#[derive(Debug)]
pub struct Parameters {
    pub subscription_token: String,
}

/// What `confirm` reports: a token nobody issued (deliberately
/// indistinguishable between malformed and unknown), or a storage failure.
#[derive(Debug)]
pub enum ConfirmError {
    Unauthorized,
    UnexpectedError(String),
}

impl ConfirmError {
    /// The HTTP status that each variant maps to at the boundary.
    pub fn status_code(&self) -> (code: u16)
        ensures
            self matches ConfirmError::Unauthorized ==> code == 401,
            self matches ConfirmError::UnexpectedError(_) ==> code == 500,
    {
        match self {
            ConfirmError::Unauthorized => 401,
            ConfirmError::UnexpectedError(_) => 500,
        }
    }
}

/// The subscriptions as they stand once the row with id `id` is confirmed;
/// every other row keeps its state. Confirming is idempotent by shape: the
/// affected row's other fields are kept.
pub open spec fn confirm_subscription(subs: Seq<Subscription>, id: u128) -> Seq<Subscription> {
    Seq::new(
        subs.len(),
        |i: int|
            if subs[i].id == id {
                Subscription {
                    id: subs[i].id,
                    email: subs[i].email,
                    name: subs[i].name,
                    subscribed_at: subs[i].subscribed_at,
                    status: SubscriptionStatus::Confirmed,
                }
            } else {
                subs[i]
            },
    )
}

/// Confirming a second time changes nothing: the transition is idempotent.
pub proof fn lemma_confirm_subscription_idempotent(subs: Seq<Subscription>, id: u128)
    ensures
        confirm_subscription(confirm_subscription(subs, id), id) == confirm_subscription(subs, id),
{
    assert(confirm_subscription(confirm_subscription(subs, id), id) =~= confirm_subscription(
        subs,
        id,
    ));
}

/// Under unique tokens, a token links to at most one subscription id.
pub proof fn lemma_token_links_unique(store: Store, token: Seq<char>, id1: u128, id2: u128)
    requires
        store.wf(),
        token_links(store.tokens@, token, id1),
        token_links(store.tokens@, token, id2),
    ensures
        id1 == id2,
{
}

/// Redeeming the same token twice is idempotent: `confirm` keeps the token
/// rows, so a second call still finds the token — linked to the same id, by
/// uniqueness — and its update leaves every row exactly as the first left it.
pub proof fn lemma_confirm_idempotent(store: Store, token: Seq<char>, id1: u128, id2: u128)
    requires
        store.wf(),
        token_links(store.tokens@, token, id1),
        token_links(store.tokens@, token, id2),
    ensures
        confirm_subscription(confirm_subscription(store.subscriptions@, id1), id2)
            == confirm_subscription(store.subscriptions@, id1),
{
    lemma_token_links_unique(store, token, id1, id2);
    lemma_confirm_subscription_idempotent(store.subscriptions@, id1);
}

/// Looks the token up; `Some` carries the linked subscription id, and `None`
/// answers exactly when no row carries the token.
pub fn get_subscriber_id_from_token(store: &Store, subscriber_token: &str) -> (r: Option<u128>)
    ensures
        r matches Some(id) ==> token_links(store.tokens@, subscriber_token@, id),
        r is None <==> !has_token(store.tokens@, subscriber_token@),
{
    let n = store.tokens.len();
    let mut i: usize = 0;
    while i < n
        invariant
            0 <= i <= n,
            n == store.tokens@.len(),
            forall|j: int|
                0 <= j < i ==> (#[trigger] store.tokens@[j]).subscription_token@
                    != subscriber_token@,
        decreases n - i,
    {
        if crate::utils::str_eq(store.tokens[i].subscription_token.as_str(), subscriber_token) {
            return Some(store.tokens[i].subscription_id);
        }
        i += 1;
    }
    None
}

/// Marks the subscription with id `subscriber_id` confirmed; rows with other
/// ids are untouched, and a missing id leaves the store as it was.
pub fn confirm_subscriber(store: &mut Store, subscriber_id: u128)
    requires
        old(store).wf(),
    ensures
        final(store).wf(),
        final(store).tokens@ == old(store).tokens@,
        final(store).users@ == old(store).users@,
        final(store).subscriptions@ == confirm_subscription(
            old(store).subscriptions@,
            subscriber_id,
        ),
{
    let n = store.subscriptions.len();
    let mut i: usize = 0;
    while i < n
        invariant
            0 <= i <= n,
            n == store.subscriptions@.len(),
            *store == *old(store),
            store.wf(),
            forall|j: int| 0 <= j < i ==> (#[trigger] store.subscriptions@[j]).id != subscriber_id,
        decreases n - i,
    {
        if store.subscriptions[i].id == subscriber_id {
            let row = store.subscriptions.remove(i);
            let updated = Subscription {
                id: row.id,
                email: row.email,
                name: row.name,
                subscribed_at: row.subscribed_at,
                status: SubscriptionStatus::Confirmed,
            };
            store.subscriptions.insert(i, updated);
            proof {
                // The scanned prefix and, by uniqueness of ids, the suffix
                // carry other ids, so only row `i` is rewritten.
                assert(final(store).subscriptions@ =~= confirm_subscription(
                    old(store).subscriptions@,
                    subscriber_id,
                ));
                // Rewriting a status keeps every id and email in place ...
                assert forall|j: int| 0 <= j < store.subscriptions@.len() implies (
                #[trigger] store.subscriptions@[j]).id == old(store).subscriptions@[j].id
                    && store.subscriptions@[j].email@ == old(store).subscriptions@[j].email@ by {}
                // ... so every token still points at an existing subscription.
                assert forall|t: int|
                    0 <= t < store.tokens@.len() implies crate::store::has_subscription_id(
                    store.subscriptions@,
                    (#[trigger] store.tokens@[t]).subscription_id,
                ) by {
                    let tid = store.tokens@[t].subscription_id;
                    assert(crate::store::has_subscription_id(old(store).subscriptions@, tid));
                    let w = choose|j: int|
                        0 <= j < old(store).subscriptions@.len() && (#[trigger] old(
                            store,
                        ).subscriptions@[j]).id == tid;
                    assert(store.subscriptions@[w].id == tid);
                }
            }
            return ;
        }
        i += 1;
    }
    proof {
        assert(final(store).subscriptions@ =~= confirm_subscription(
            old(store).subscriptions@,
            subscriber_id,
        ));
    }
}

/// Redeems a confirmation token. An unissued token, malformed or unknown
/// alike, answers `Unauthorized` and writes nothing; a valid token confirms
/// the linked subscription, idempotently.
pub fn confirm(store: &mut Store, parameters: &Parameters) -> (r: Result<(), ConfirmError>)
    requires
        old(store).wf(),
    ensures
        final(store).wf(),
        final(store).tokens@ == old(store).tokens@,
        final(store).users@ == old(store).users@,
        r is Ok <==> has_token(old(store).tokens@, parameters.subscription_token@),
        r matches Err(e) ==> e matches ConfirmError::Unauthorized && final(store).subscriptions@
            == old(store).subscriptions@,
        r is Ok ==> exists|id: u128|
            token_links(old(store).tokens@, parameters.subscription_token@, id)
                && final(store).subscriptions@ == confirm_subscription(
                old(store).subscriptions@,
                id,
            ),
{
    match get_subscriber_id_from_token(store, parameters.subscription_token.as_str()) {
        None => Err(ConfirmError::Unauthorized),
        Some(subscriber_id) => {
            confirm_subscriber(store, subscriber_id);
            Ok(())
        },
    }
}

} // verus!
