//! The capability of acting on a command.
use vstd::prelude::*;

verus! {

/// A device that does something physical when it is given a command.
pub trait Actuator {
    /// What the actuator takes as a command.
    type Command;

    /// Carries out one command.
    fn execute(&mut self, command: Self::Command) -> Result<(), ActuatorError>;
}

/// Why an actuator did not act.
#[derive(Debug, Clone, PartialEq, Eq)]
pub enum ActuatorError {
    /// The command could not be carried out; the text says why.
    ExecuteError(String),
}

} // verus!
