//! The service: the session state machine and its driver.

pub mod rpcservice;
pub mod state;
