//! The capability of passing values on to some place outside the gateway.
use vstd::prelude::*;

verus! {

/// A channel out of the gateway, and back where the channel has a way back.
pub trait Communicator {
    /// What the channel sends.
    type Command;

    /// What the channel answers.
    type Response;

    /// Sends one value.
    fn send(&mut self, data: Self::Command) -> Result<Self::Response, CommunicatorError>;

    /// Takes one answer from the channel. A channel that only sends fails
    /// here every time; no caller may count on an answer.
    fn receive(&mut self) -> Result<Self::Response, CommunicatorError>;
}

/// Why a channel did not do what it was asked.
#[derive(Debug, Clone, Copy, PartialEq, Eq, Structural)]
pub enum CommunicatorError {
    /// The value could not be sent.
    SendError,
    /// No answer could be had.
    ReceiveError,
}

} // verus!
