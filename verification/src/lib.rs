//! The decision logic of a stdio-to-Streamable-HTTP MCP proxy.
//!
//! A client speaks JSON-RPC over stdio, a server speaks it over HTTP, and the
//! proxy sits between them: it relays messages, survives the server going away
//! and coming back, and answers for the server while it is gone. Everything
//! that decides what happens next stands in this crate, as a state machine
//! ([`state::AppState`]) that is handed what happened ([`step::Event`]) and
//! says what to do about it ([`step::Step`]). Reading, writing and waiting are
//! left to the program around it.

pub mod accounting;
pub mod calls;
pub mod clock;
pub mod http_client;
pub mod laws;
pub mod message;
pub mod outcomes;
pub mod proxy;
pub mod run;
pub mod session;
pub mod startup;
pub mod state;
pub mod step;
pub mod transport;

use vstd::prelude::*;

verus! {

/// JSON-RPC error code of a request that arrived while the server was away.
pub const DISCONNECTED_ERROR_CODE: i32 = -32010;

/// JSON-RPC error code of a request that could not be sent.
pub const TRANSPORT_SEND_ERROR_CODE: i32 = -32011;

} // verus!
