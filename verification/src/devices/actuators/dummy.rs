//! An actuator that does nothing.
use crate::nucleo::traits::actuator::{Actuator, ActuatorError};
use crate::nucleo::types::SensorOutput;
use vstd::prelude::*;

verus! {

/// An actuator that takes every command and acts on none.
#[derive(Debug, Clone, Copy, PartialEq, Eq, Structural)]
pub struct DummyActuator;

impl DummyActuator {
    /// A dummy actuator.
    pub fn new() -> (actuator: Self)
        ensures
            actuator == DummyActuator,
    {
        DummyActuator
    }
}

impl Actuator for DummyActuator {
    type Command = SensorOutput;

    /// Takes the command and does nothing. Never fails.
    fn execute(&mut self, command: SensorOutput) -> (outcome: Result<(), ActuatorError>)
        ensures
            outcome is Ok,
    {
        Ok(())
    }
}

} // verus!
