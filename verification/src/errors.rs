//! The closed taxonomy of terminal failures a stream or the token exchange
//! can surface to the caller.
use vstd::prelude::*;

verus! {

/// One variant per failure cause.
///
/// - `Transport`: network, TLS or URI failure; never retried by the core.
/// - `Auth`: the token endpoint rejected the credentials; carries the
///   server's message.
/// - `Protocol`: a response violated the expected shape (wrong `token_type`,
///   an `errors` array whose length is not one, a missing rate-limit header).
/// - `Decode`: a page body was not a JSON object, or a cursor field was not
///   a string.
///
/// A rate-limit signal is deliberately not here: it is consumed inside the
/// stream as backoff-and-retry and never reaches the caller as an error.
#[derive(Clone, PartialEq, Eq, Debug)]
pub enum Error {
    Transport,
    Auth(String),
    Protocol,
    Decode,
}

} // verus!
