//! Connection-lifecycle and request-dispatch core of a client for a binary
//! database wire protocol.
//!
//! The crate owns one connection's journey from freshly opened transport to
//! ready-for-traffic session: capability discovery (OPTIONS), the startup
//! handshake with compression negotiation and an authentication sub-protocol
//! (STARTUP / READY / AUTHENTICATE / AUTH_RESPONSE), and the per-call assembly
//! and dispatch of the four request shapes the protocol supports (query,
//! prepare, execute-prepared, batch).
//!
//! The binary frame codec, the compression algorithms themselves, the CQL
//! value marshaling and the raw socket are collaborators outside this core:
//! the [`transport::Transport`] here exchanges already-decoded frames, so that
//! everything this core decides — which requests go out, with which flags and
//! compressor, and how replies drive the handshake state machine — is stated
//! in contracts and proved.

use vstd::prelude::*;

pub mod authenticators;
pub mod client;
pub mod compression;
pub mod error;
pub mod frame;
pub mod query;
pub mod transport;

verus! {

} // verus!
