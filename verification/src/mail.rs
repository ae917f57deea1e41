//! The interface of the outbound mail gateway, seen from the core.
//!
//! The gateway itself speaks HTTP to a provider and lives outside this
//! library; the core only decides what to send and interprets the outcome of
//! each send, which reaches it as a `Result<(), TransportError>`.

use vstd::prelude::*;

verus! {

/// A failed delivery attempt at the mail gateway, with the gateway's own
/// account of the failure.
#[derive(Debug)]
pub struct TransportError(pub String);

} // verus!
