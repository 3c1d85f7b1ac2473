//! Drivers for devices that come with a driver of their own.
pub mod dht;
pub mod simulated_sensor;
