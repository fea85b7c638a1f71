//! Client-side credential middleware for an authenticated RPC connection.
//!
//! The heart of the crate is a small state machine that decides, for every
//! outgoing call, whether the call can be forwarded as-is, which bearer
//! token to attach, and when the token issuer has to be consulted first
//! (initial authentication or a refresh of an expired token).

use vstd::prelude::*;

pub mod chain;
pub mod creds;
pub mod errors;
pub mod store;

verus! {

/// Milliseconds in the one-minute validity floor assumed for a freshly
/// issued token whose expiry could not be read from the wire.
pub const EXPIRY_FLOOR_MILLIS: i64 = 60000;

} // verus!
