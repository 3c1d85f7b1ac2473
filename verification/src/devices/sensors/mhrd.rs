//! The MH-RD rain sensor: one digital line that tells wet from dry.
use crate::nucleo::types::{OutputView, SensorOutput};
use vstd::prelude::*;
use vstd::string::StringExecFns;

verus! {

/// A rain sensor on one digital line.
#[derive(Debug, Clone, Copy, PartialEq, Eq, Structural)]
pub struct MhRdSensor {
    /// The number of the line.
    pub pin_number: u8,
    /// Whether a low line means water. Most modules are built so.
    pub active_low: bool,
}

/// Whether a level of the line means water.
pub open spec fn is_wet(active_low: bool, raw_high: bool) -> bool {
    if active_low {
        !raw_high
    } else {
        raw_high
    }
}

/// The sensor's word for wet or dry.
pub open spec fn wetness_text(wet: bool) -> Seq<char> {
    if wet {
        "H\u{da}MEDO"@
    } else {
        "SECO"@
    }
}

impl MhRdSensor {
    /// A rain sensor on line `pin`.
    pub fn new(pin: u8, active_low: bool) -> (sensor: Self)
        ensures
            sensor == (MhRdSensor { pin_number: pin, active_low }),
    {
        MhRdSensor { pin_number: pin, active_low }
    }

    /// Puts a level of the line, `true` for high, into the sensor's words.
    pub fn read(&self, raw_high: bool) -> (out: SensorOutput)
        ensures
            out@ == OutputView::Text(wetness_text(is_wet(self.active_low, raw_high))),
    {
        let wet = if self.active_low {
            !raw_high
        } else {
            raw_high
        };
        if wet {
            SensorOutput::Text(String::from_str("H\u{da}MEDO"))
        } else {
            SensorOutput::Text(String::from_str("SECO"))
        }
    }
}

} // verus!
