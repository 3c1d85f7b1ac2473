//! The capability of being read.
use crate::nucleo::types::SensorError;
use vstd::prelude::*;

verus! {

/// A device that measures something and hands the value over when asked.
///
/// Nothing is said of how long a read takes, nor of what it touches.
pub trait Sensor {
    /// What a read hands over.
    type Output;

    /// Takes one reading.
    fn read(&mut self) -> Result<Self::Output, SensorError>;
}

} // verus!
