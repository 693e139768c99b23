//! A client for the WebDriver wire protocol: session negotiation, command routing, response
//! decoding, error classification, element and form operations, and a cookie bridge that builds
//! pre-authenticated raw requests.
//!
//! The library decides and the caller transports: every operation that talks to the server is a
//! step machine that hands out one `Command` at a time and is fed the decoded reply.
use vstd::prelude::*;

pub mod json;
pub mod text;
pub mod error;
pub mod command;
pub mod url;
pub mod client;
pub mod page;
pub mod flows;
pub mod session;
pub mod cookies;

verus! {

} // verus!
