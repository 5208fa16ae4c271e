//! Errors of the network layer.

pub mod rpc;
