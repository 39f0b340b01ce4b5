//! Client core for a cursor-paginated list service behind an OAuth2
//! client-credentials bearer token and a windowed rate limit.
//!
//! The crate verifies the three pure parts of the client: the token-exchange
//! request builder and response interpreter, the page codec, and the
//! cursor-stream state machine that drives pagination with rate-limit
//! backoff.  The HTTP transport itself is a collaborator supplied by the
//! caller, which feeds responses back into the state machine.
use vstd::prelude::*;

pub mod auth;
pub mod codec;
pub mod errors;
pub mod json;
pub mod numfmt;
pub mod stream;

verus! {

/// A user is identified by a numeric id on the wire.
pub type UserId = usize;

} // verus!
