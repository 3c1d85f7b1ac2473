//! A sensor without hardware, for trying the gateway out.
use crate::nucleo::clock::unix_seconds;
use vstd::prelude::*;

verus! {

/// A stand-in for a sensor. It has no state; its measurements are drawn by
/// the program that uses it.
#[derive(Debug, Clone, Copy, PartialEq, Eq, Structural)]
pub struct SimulatedSensor;

impl SimulatedSensor {
    /// A simulated sensor.
    pub fn new() -> (sensor: Self)
        ensures
            sensor == SimulatedSensor,
    {
        SimulatedSensor
    }

    /// The moment of a reading: seconds since the first moment of 1970 by the
    /// system clock, or `None` where the clock stands before that moment. The
    /// value is the clock's, so nothing more is promised of it.
    pub fn read_timestamp(&self) -> Option<u64> {
        unix_seconds()
    }
}

} // verus!
