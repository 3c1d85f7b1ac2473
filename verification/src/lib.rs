//! A small gateway framework for physical sensing nodes.
//!
//! The crate holds the decisions of the gateway: how a single-wire exchange
//! with a temperature and humidity sensor becomes a validated reading, how one
//! polling cycle treats its sensors, actuators and communicator, how a failed
//! read is retried, and how samples are kept. Touching a pin, sleeping,
//! printing and sending are left to the program around the crate, which
//! carries out the steps that the functions here hand back.
pub mod config;
pub mod devices;
pub mod drivers;
pub mod network;
pub mod nucleo;
pub mod simulated_sensor;
pub mod storage;
