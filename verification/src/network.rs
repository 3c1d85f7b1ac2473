//! Channels out of the gateway.
pub mod console;
