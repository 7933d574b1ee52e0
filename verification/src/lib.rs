//! Client-side model of a wireless-controller cloud REST API.
//!
//! The crate builds the requests (URL, HTTP verb, JSON body) for every
//! endpoint and decides success or failure from the JSON document that a
//! transport hands back.  It performs no I/O itself: a caller sends each
//! [`http::Request`] however it likes and passes the decoded reply (or
//! `None`, for any transport-level failure) to the matching `*_result`
//! function.  The exact bytes a body puts on the wire are [`wire`]'s.

pub mod auth;
pub mod consts;
pub mod http;
pub mod inventory;
pub mod json;
pub mod org;
pub mod sitegroups;
pub mod sites;
pub mod wire;
