//! What a configuration file says, once it has been read.
use vstd::prelude::*;

verus! {

/// The whole configuration of a gateway.
#[derive(Debug, Clone, PartialEq, Eq)]
pub struct Config {
    pub device: DeviceConfig,
    pub sensor: SensorConfig,
    pub actuator: ActuatorConfig,
    pub storage: StorageConfig,
    pub communication: CommunicationConfig,
    pub runtime: RuntimeConfig,
}

/// Which node this is.
#[derive(Debug, Clone, PartialEq, Eq)]
pub struct DeviceConfig {
    /// The node's name, unlike any other node's.
    pub name: String,
    /// Where the node stands.
    pub location: String,
}

/// One sensor.
#[derive(Debug, Clone, PartialEq, Eq)]
pub struct SensorConfig {
    /// The kind of sensor, such as `DHT22`.
    pub type_: String,
    /// The line that the sensor is on.
    pub pin: u8,
    /// The unit of what it measures, such as `Celsius`.
    pub unit: String,
}

/// One actuator.
#[derive(Debug, Clone, PartialEq, Eq)]
pub struct ActuatorConfig {
    /// The kind of actuator, such as `Relay`.
    pub type_: String,
    /// The line that drives the actuator.
    pub pin: u8,
}

/// The channel out of the gateway.
#[derive(Debug, Clone, PartialEq, Eq)]
pub struct CommunicationConfig {
    /// The kind of channel, such as `MQTT` or `Console`.
    pub type_: String,
    /// The broker's address, for MQTT.
    pub broker_url: String,
    /// The topic that readings are published under.
    pub topic: String,
}

/// The store for readings.
#[derive(Debug, Clone, PartialEq, Eq)]
pub struct StorageConfig {
    /// The kind of store, such as `File`.
    pub type_: String,
    /// Where the store is.
    pub path: String,
}

/// How the main loop runs.
#[derive(Debug, Clone, Copy, PartialEq, Eq, Structural)]
pub struct RuntimeConfig {
    /// Milliseconds between two cycles.
    pub interval_ms: u64,
}

} // verus!
