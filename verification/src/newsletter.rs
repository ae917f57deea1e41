//! The Newsletter Dispatcher: reads the confirmed subscribers and fans a
//! publish request out through the mail gateway.
//!
//! The fan-out policy is asymmetric on purpose: a stored email that no longer
//! parses is skipped and the loop goes on, while a failed send aborts the
//! whole publish call. `Delivery` carries that policy; the caller performs
//! the sends and feeds each outcome back.

use vstd::prelude::*;

use crate::authentication::AuthError;
use crate::domain::{valid_email, SubscriberEmail};
use crate::mail::TransportError;
use crate::store::{Store, Subscription, SubscriptionStatus};

verus! {

/// The two renderings of one newsletter issue.
#[derive(Debug)]
pub struct Content {
    pub html: String,
    pub text: String,
}

/// A newsletter issue as submitted for publication.
#[derive(Debug)]
pub struct BodyData {
    pub title: String,
    pub content: Content,
}

/// What publishing reports: the caller is not who they claim, or something
/// failed midway.
#[derive(Debug)]
pub enum PublishError {
    UnexpectedError(String),
    AuthError(String),
}

impl PublishError {
    /// The HTTP status that each variant maps to at the boundary.
    pub fn status_code(&self) -> (code: u16)
        ensures
            self matches PublishError::UnexpectedError(_) ==> code == 500,
            self matches PublishError::AuthError(_) ==> code == 401,
    {
        match self {
            PublishError::UnexpectedError(_) => 500,
            PublishError::AuthError(_) => 401,
        }
    }

    /// How a credential-store refusal surfaces to the publish caller.
    pub fn from_auth(e: AuthError) -> (r: PublishError)
        ensures
            e matches AuthError::InvalidCredentials(m) ==> r matches PublishError::AuthError(n)
                && n@ == m@,
            e matches AuthError::UnexpectedError(m) ==> r matches PublishError::UnexpectedError(n)
                && n@ == m@,
    {
        match e {
            AuthError::InvalidCredentials(m) => PublishError::AuthError(m),
            AuthError::UnexpectedError(m) => PublishError::UnexpectedError(m),
        }
    }
}

/// A subscriber the dispatcher may write to.
#[derive(Debug)]
pub struct ConfirmedSubscriber {
    pub email: SubscriberEmail,
}

/// The stored emails of the confirmed subscriptions, in row order.
pub open spec fn confirmed_emails(subs: Seq<Subscription>) -> Seq<Seq<char>>
    decreases subs.len(),
{
    if subs.len() == 0 {
        Seq::empty()
    } else {
        confirmed_emails(subs.drop_last()) + (if subs.last().status
            == SubscriptionStatus::Confirmed {
            seq![subs.last().email@]
        } else {
            Seq::<Seq<char>>::empty()
        })
    }
}

/// The emails of `es` that still satisfy the address grammar, in order.
pub open spec fn valid_only(es: Seq<Seq<char>>) -> Seq<Seq<char>>
    decreases es.len(),
{
    if es.len() == 0 {
        Seq::empty()
    } else {
        valid_only(es.drop_last()) + (if valid_email(es.last()) {
            seq![es.last()]
        } else {
            Seq::<Seq<char>>::empty()
        })
    }
}

/// The addresses one publish call writes to: the confirmed rows whose stored
/// email still parses, in row order.
pub open spec fn deliverable_emails(subs: Seq<Subscription>) -> Seq<Seq<char>> {
    valid_only(confirmed_emails(subs))
}

/// Fetches the confirmed subscribers, each stored email re-parsed: a row
/// whose email has drifted invalid comes back as `Err` carrying the raw
/// value, and must not keep the rest from being served.
pub fn get_confirmed_subscribers(store: &Store) -> (r: Vec<Result<ConfirmedSubscriber, String>>)
    ensures
        r@.len() == confirmed_emails(store.subscriptions@).len(),
        forall|k: int|
            0 <= k < r@.len() ==> {
                let e = confirmed_emails(store.subscriptions@)[k];
                &&& (valid_email(e) ==> ((#[trigger] r@[k]) matches Ok(c) && c.email@ == e))
                &&& (!valid_email(e) ==> (r@[k] matches Err(m) && m@ == e))
            },
{
    let ghost subs = store.subscriptions@;
    let mut r: Vec<Result<ConfirmedSubscriber, String>> = Vec::new();
    let n = store.subscriptions.len();
    let mut i: usize = 0;
    while i < n
        invariant
            0 <= i <= n,
            n == subs.len(),
            subs == store.subscriptions@,
            r@.len() == confirmed_emails(subs.subrange(0, i as int)).len(),
            forall|k: int|
                0 <= k < r@.len() ==> {
                    let e = confirmed_emails(subs.subrange(0, i as int))[k];
                    &&& (valid_email(e) ==> ((#[trigger] r@[k]) matches Ok(c) && c.email@ == e))
                    &&& (!valid_email(e) ==> (r@[k] matches Err(m) && m@ == e))
                },
        decreases n - i,
    {
        proof {
            assert(subs.subrange(0, i + 1).drop_last() =~= subs.subrange(0, i as int));
            assert(subs.subrange(0, i + 1).last() == subs[i as int]);
        }
        let ghost prev = r@;
        let row_email = String::from_str(store.subscriptions[i].email.as_str());
        if matches!(store.subscriptions[i].status, SubscriptionStatus::Confirmed) {
            match SubscriberEmail::parse(row_email) {
                Ok(email) => r.push(Ok(ConfirmedSubscriber { email })),
                Err(raw) => r.push(Err(raw)),
            }
            proof {
                assert(confirmed_emails(subs.subrange(0, i + 1)) =~= confirmed_emails(
                    subs.subrange(0, i as int),
                ).push(subs[i as int].email@));
            }
        } else {
            proof {
                assert(confirmed_emails(subs.subrange(0, i + 1)) =~= confirmed_emails(
                    subs.subrange(0, i as int),
                ));
            }
        }
        proof {
            let ghost ce1 = confirmed_emails(subs.subrange(0, i + 1));
            assert forall|k: int| 0 <= k < r@.len() implies {
                let e = ce1[k];
                &&& (valid_email(e) ==> ((#[trigger] r@[k]) matches Ok(c) && c.email@ == e))
                &&& (!valid_email(e) ==> (r@[k] matches Err(m) && m@ == e))
            } by {
                if k < prev.len() {
                    assert(r@[k] == prev[k]);
                    assert(ce1[k] == confirmed_emails(subs.subrange(0, i as int))[k]);
                } else {
                    assert(r@[k] == r@.last());
                }
            }
        }
        i += 1;
    }
    proof {
        assert(subs.subrange(0, n as int) =~= subs);
    }
    r
}

/// What the abort of a publish run says about the recipient it failed on.
pub open spec fn delivery_failure_message(email: Seq<char>, cause: Seq<char>) -> Seq<char> {
    "Failed to send newsletter issue to "@ + email + ": "@ + cause
}

/// One publish run over the deliverable subscribers. The caller asks for the
/// next recipient, performs the send, and feeds the outcome back; the run
/// succeeds only when every deliverable subscriber was sent to.
#[derive(Debug)]
pub struct Delivery {
    pub recipients: Vec<ConfirmedSubscriber>,
    pub sent: usize,
    pub failure: Option<String>,
}

impl Delivery {
    /// The addresses this run serves, in order.
    pub open spec fn recipients_view(&self) -> Seq<Seq<char>> {
        self.recipients@.map_values(|c: ConfirmedSubscriber| c.email@)
    }

    /// Progress never outruns the recipient list.
    pub open spec fn wf(&self) -> bool {
        self.sent <= self.recipients@.len()
    }

    /// Plans a publish run: the confirmed rows are fetched, rows whose stored
    /// email no longer parses are skipped, the rest become the recipients.
    pub fn start(store: &Store) -> (d: Delivery)
        ensures
            d.wf(),
            d.sent == 0,
            d.failure is None,
            d.recipients_view() == deliverable_emails(store.subscriptions@),
    {
        let ghost ce = confirmed_emails(store.subscriptions@);
        let subscribers = get_confirmed_subscribers(store);
        let mut recipients: Vec<ConfirmedSubscriber> = Vec::new();
        let n = subscribers.len();
        // Walk the fetched rows front to back, keeping the parsed ones.
        let mut k: usize = 0;
        while k < n
            invariant
                0 <= k <= n,
                n == subscribers@.len(),
                n == ce.len(),
                forall|j: int|
                    0 <= j < n ==> {
                        &&& (valid_email(ce[j]) ==> ((#[trigger] subscribers@[j]) matches Ok(c)
                            && c.email@ == ce[j]))
                        &&& (!valid_email(ce[j]) ==> (subscribers@[j] matches Err(m) && m@
                            == ce[j]))
                    },
                recipients@.map_values(|c: ConfirmedSubscriber| c.email@) == valid_only(
                    ce.subrange(0, k as int),
                ),
            decreases n - k,
        {
            proof {
                assert(ce.subrange(0, k + 1).drop_last() =~= ce.subrange(0, k as int));
                assert(ce.subrange(0, k + 1).last() == ce[k as int]);
            }
            match &subscribers[k] {
                Ok(c) => {
                    recipients.push(ConfirmedSubscriber { email: c.email.duplicate() });
                },
                Err(_) => {},
            }
            proof {
                assert(recipients@.map_values(|c: ConfirmedSubscriber| c.email@) =~= valid_only(
                    ce.subrange(0, k + 1),
                ));
            }
            k += 1;
        }
        proof {
            assert(ce.subrange(0, n as int) =~= ce);
        }
        Delivery { recipients, sent: 0, failure: None }
    }

    /// The next address to send to: `None` once the run has aborted or every
    /// recipient was served.
    pub fn next_recipient(&self) -> (r: Option<&SubscriberEmail>)
        requires
            self.wf(),
        ensures
            r is Some <==> self.failure is None && self.sent < self.recipients@.len(),
            r matches Some(e) ==> e@ == self.recipients_view()[self.sent as int],
    {
        if self.failure.is_none() && self.sent < self.recipients.len() {
            Some(&self.recipients[self.sent].email)
        } else {
            None
        }
    }

    /// Feeds one send outcome back. A success moves on to the next
    /// recipient; a failure aborts the run, naming the recipient it failed
    /// on, and surfaces at once as the publish call's error.
    pub fn record_outcome(&mut self, outcome: Result<(), TransportError>) -> (r: Result<
        (),
        PublishError,
    >)
        requires
            old(self).wf(),
            old(self).failure is None,
            old(self).sent < old(self).recipients@.len(),
        ensures
            final(self).wf(),
            final(self).recipients@ == old(self).recipients@,
            outcome is Ok ==> r is Ok && final(self).sent == old(self).sent + 1
                && final(self).failure is None,
            outcome matches Err(t) ==> (r matches Err(e)
                && e matches PublishError::UnexpectedError(m)
                && final(self).failure matches Some(f)
                && final(self).sent == old(self).sent && m@ == delivery_failure_message(
                old(self).recipients_view()[old(self).sent as int],
                t.0@,
            ) && f@ == m@),
    {
        match outcome {
            Ok(()) => {
                let bound = self.recipients.len();
                assert(self.sent < bound);
                self.sent += 1;
                Ok(())
            },
            Err(TransportError(cause)) => {
                let mut message = String::from_str("Failed to send newsletter issue to ");
                message.append(self.recipients[self.sent].email.as_str());
                message.append(": ");
                message.append(cause.as_str());
                self.failure = Some(String::from_str(message.as_str()));
                Err(PublishError::UnexpectedError(message))
            },
        }
    }

    /// The run's result: success exactly when no send failed, which — with a
    /// driver that stops only when `next_recipient` answers `None` — means
    /// every deliverable subscriber received the issue.
    pub fn outcome(&self) -> (r: Result<(), PublishError>)
        requires
            self.wf(),
            self.failure is Some || self.sent == self.recipients@.len(),
        ensures
            r is Ok <==> self.failure is None,
            r is Ok ==> self.sent == self.recipients@.len(),
            r matches Err(e) ==> e matches PublishError::UnexpectedError(m) && self.failure
                matches Some(f) && m@ == f@,
    {
        match &self.failure {
            None => Ok(()),
            Some(f) => Err(PublishError::UnexpectedError(String::from_str(f.as_str()))),
        }
    }
}

} // verus!
