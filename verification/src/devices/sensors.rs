//! Sensors.
pub mod dht;
pub mod dht11;
pub mod dht22;
pub mod ds18b20;
pub mod frame;
pub mod mhrd;
pub mod simulated_sensor;
