//! The core of an SPDM responder: a bounded codec, the responder's negotiated
//! and runtime state, the session table, and the dispatcher that routes every
//! request by connection and session state.
//!
//! The library performs no I/O. Each decision of the protocol engine is a
//! function from the current state and the bytes that arrived to the next
//! state and the bytes to transmit; transports, device I/O and cryptography
//! are run by the caller between those steps.

pub mod codec;
pub mod config;
pub mod error;
pub mod message;
pub mod protocol;
pub mod common;
pub mod responder;
pub mod requester;
pub mod crypto;
pub mod util;
