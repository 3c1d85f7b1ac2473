//! The devices that the gateway knows.
pub mod actuators;
pub mod sensors;
