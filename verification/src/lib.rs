//! Decision logic of a minimal chat bot: it validates the gateway
//! credential at startup, watches inbound message events for one exact
//! trigger command, and on a match plans a fixed burst of outbound sends,
//! carried out one at a time whatever the outcome of each.
//!
//! The network itself (the gateway connection and the send calls) lives
//! outside this crate; everything here works on plain values and is
//! verified.

pub mod credential;
pub mod plan;
pub mod session;
