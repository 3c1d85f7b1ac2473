//! Where readings are kept.
pub mod memory;
