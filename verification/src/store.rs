//! The persisted state that the service owns: subscription rows, their
//! confirmation tokens, and the provisioned users.
//!
//! The store is the single place writes go through; its well-formedness
//! predicate records what the schema's unique keys and foreign keys grant:
//! unique subscription ids and emails, unique tokens that always point at an
//! existing subscription, and unique user ids and usernames.

use vstd::prelude::*;

verus! {

/// Lifecycle state of a subscription row. A row is created pending and moves
/// to confirmed exactly once; it never reverts.
#[derive(Clone, Copy, Debug, PartialEq, Eq, Structural)]
pub enum SubscriptionStatus {
    PendingConfirmation,
    Confirmed,
}

/// One subscription row.
#[derive(Debug)]
pub struct Subscription {
    pub id: u128,
    pub email: String,
    pub name: String,
    pub subscribed_at: i64,
    pub status: SubscriptionStatus,
}

/// One confirmation-token row, linking a bearer token to its subscription.
#[derive(Debug)]
pub struct TokenRow {
    pub subscription_token: String,
    pub subscription_id: u128,
}

/// One provisioned user; rows are created out of band and read-only here.
#[derive(Debug)]
pub struct User {
    pub user_id: u128,
    pub username: String,
    pub password_hash: String,
}

/// A write was refused because it would duplicate a unique key; this is what
/// the storage layer's unique indexes report.
#[derive(Clone, Copy, Debug, PartialEq, Eq, Structural)]
pub struct UniqueViolation;

/// Whether some subscription in `subs` carries the id `id`.
pub open spec fn has_subscription_id(subs: Seq<Subscription>, id: u128) -> bool {
    exists|i: int| 0 <= i < subs.len() && (#[trigger] subs[i]).id == id
}

/// Whether some subscription in `subs` carries the email `email`.
pub open spec fn has_subscription_email(subs: Seq<Subscription>, email: Seq<char>) -> bool {
    exists|i: int| 0 <= i < subs.len() && (#[trigger] subs[i]).email@ == email
}

/// Whether some token row in `tokens` carries the token `token`.
pub open spec fn has_token(tokens: Seq<TokenRow>, token: Seq<char>) -> bool {
    exists|i: int| 0 <= i < tokens.len() && (#[trigger] tokens[i]).subscription_token@ == token
}

/// Whether some token row binds `token` to the subscription id `id`.
pub open spec fn token_links(tokens: Seq<TokenRow>, token: Seq<char>, id: u128) -> bool {
    exists|i: int|
        0 <= i < tokens.len() && (#[trigger] tokens[i]).subscription_token@ == token && tokens[
            i
        ].subscription_id == id
}

/// Whether some user in `users` carries the username `username`.
pub open spec fn has_username(users: Seq<User>, username: Seq<char>) -> bool {
    exists|i: int| 0 <= i < users.len() && (#[trigger] users[i]).username@ == username
}

/// The whole persisted state.
#[derive(Debug)]
pub struct Store {
    pub subscriptions: Vec<Subscription>,
    pub tokens: Vec<TokenRow>,
    pub users: Vec<User>,
}

impl Store {
    /// The schema's keys: ids, emails, tokens and usernames are unique, and
    /// every token row points at an existing subscription.
    pub open spec fn wf(&self) -> bool {
        &&& forall|i: int, j: int|
            0 <= i < j < self.subscriptions@.len() ==> (#[trigger] self.subscriptions@[i]).id != (
            #[trigger] self.subscriptions@[j]).id
        &&& forall|i: int, j: int|
            0 <= i < j < self.subscriptions@.len() ==> (#[trigger] self.subscriptions@[i]).email@
                != (#[trigger] self.subscriptions@[j]).email@
        &&& forall|i: int, j: int|
            0 <= i < j < self.tokens@.len() ==> (#[trigger] self.tokens@[i]).subscription_token@
                != (#[trigger] self.tokens@[j]).subscription_token@
        &&& forall|i: int|
            0 <= i < self.tokens@.len() ==> has_subscription_id(
                self.subscriptions@,
                (#[trigger] self.tokens@[i]).subscription_id,
            )
        &&& forall|i: int, j: int|
            0 <= i < j < self.users@.len() ==> (#[trigger] self.users@[i]).user_id != (
            #[trigger] self.users@[j]).user_id
        &&& forall|i: int, j: int|
            0 <= i < j < self.users@.len() ==> (#[trigger] self.users@[i]).username@ != (
            #[trigger] self.users@[j]).username@
    }

    /// An empty store, trivially well formed.
    pub fn new() -> (s: Store)
        ensures
            s.wf(),
            s.subscriptions@.len() == 0,
            s.tokens@.len() == 0,
            s.users@.len() == 0,
    {
        Store { subscriptions: Vec::new(), tokens: Vec::new(), users: Vec::new() }
    }

    /// Registers a user row; used by provisioning, which is out of band for
    /// the service itself. Refused when the id or the username is taken.
    pub fn add_user(&mut self, user: User) -> (r: Result<(), User>)
        requires
            old(self).wf(),
        ensures
            final(self).wf(),
            final(self).subscriptions@ == old(self).subscriptions@,
            final(self).tokens@ == old(self).tokens@,
            r matches Err(u) ==> final(self).users@ == old(self).users@ && u == user,
            r is Err <==> (has_username(old(self).users@, user.username@) || exists|i: int|
                0 <= i < old(self).users@.len() && (#[trigger] old(self).users@[i]).user_id
                    == user.user_id),
            r is Ok ==> final(self).users@ == old(self).users@.push(user),
    {
        let mut i: usize = 0;
        let n = self.users.len();
        while i < n
            invariant
                0 <= i <= n,
                n == self.users@.len(),
                *self == *old(self),
                self.wf(),
                forall|j: int|
                    0 <= j < i ==> (#[trigger] self.users@[j]).username@ != user.username@
                        && self.users@[j].user_id != user.user_id,
            decreases n - i,
        {
            if self.users[i].username.eq(&user.username) || self.users[i].user_id == user.user_id {
                return Err(user);
            }
            i += 1;
        }
        self.users.push(user);
        Ok(())
    }
}

} // verus!
