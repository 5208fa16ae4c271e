//! The session protocol.

pub mod message;
