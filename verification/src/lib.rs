//! Transport core of a client for a JSON-over-HTTP inference service.
//!
//! The library prepares each authenticated request as plain data and
//! classifies what came back; the caller owns the socket.

pub mod apis;
pub mod json;
pub mod openai;
pub mod requests;
