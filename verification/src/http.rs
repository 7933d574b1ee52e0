//! The transport contract: what the library asks a transport to send, and
//! what it expects back.
//!
//! The library never opens a connection itself.  It hands the caller a
//! [`Request`] — verb, URL and JSON body — and interprets the caller's
//! reply: `Some(doc)` for a reply that decoded as JSON, `None` for any
//! transport-level failure (connection error, non-JSON body, empty body).
//! The two are deliberately not told apart any further: every endpoint
//! collapses them into one failure signal.

use vstd::prelude::*;
use vstd::string::StringExecFns;

use crate::json::Json;

verus! {

/// The HTTP verb of a request.
#[derive(Debug, Clone, Copy, PartialEq, Eq, Structural)]
pub enum Verb {
    Get,
    Post,
    Put,
    Delete,
}

/// One outbound call, ready for a transport to send.
#[derive(Debug, PartialEq)]
pub struct Request {
    pub verb: Verb,
    pub url: String,
    /// The JSON payload; `Null` stands for the empty payload that a
    /// body-less call serializes to.
    pub body: Json,
}

/// The authorization header value for a given API token.
pub fn token_header(token: &str) -> (r: String)
    ensures
        r@ == "Token "@ + token@,
{
    let mut s: String = "Token ".to_owned();
    s.append(token);
    s
}

} // verus!
