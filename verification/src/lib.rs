//! A stand-in login daemon's protocol engine: the framed JSON codec for the
//! messages of the login protocol, and the per-connection session state machine
//! that answers them.

pub mod codec;
pub mod error;
pub mod frame;
pub mod handler;
pub mod json;
pub mod laws;
pub mod message;
pub mod schema;
pub mod session;
