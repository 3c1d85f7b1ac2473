//! Configuration.
pub mod config;
