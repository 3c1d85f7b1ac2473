//! What a device must be able to do to take part in a polling cycle.
pub mod actuator;
pub mod communicator;
pub mod runtime;
pub mod sensor;
pub mod storage;
