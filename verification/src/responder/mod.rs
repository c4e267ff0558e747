//! The responder: routing of requests, the answers the engine gives by
//! itself, and what a transmitted response does to the state.

pub mod context;
pub mod error_rsp;
pub mod version_rsp;
pub mod session_rsp;
pub mod encap_rsp;
pub mod answer;
pub mod cert_rsp;
