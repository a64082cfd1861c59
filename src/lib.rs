//! A client's authenticated, persistent connection to a gateway, signed with
//! a self-issued Ed25519 device identity, and the input rules and token
//! handling of the orchestrator it works with.
//!
//! - `identity`: the key pair, its device id and its stored record;
//! - `handshake`: the canonical message and the signed connect request;
//! - `frame`: classification of inbound frames;
//! - `session`: the connection state machine;
//! - `queue`: the bounded outbound queue and its send pump;
//! - `validation`, `sanitize` and `auth`: the orchestrator's input rules,
//!   client-safe error messages, and administrator tokens.
use vstd::prelude::*;

pub mod auth;
pub mod bytes;
pub mod config;
pub mod crypto;
pub mod frame;
pub mod handshake;
pub mod identity;
pub mod queue;
pub mod sanitize;
pub mod session;
pub mod validation;

verus! {

} // verus!
