//! The DS18B20 thermometer, as the kernel's one-wire driver shows it: a small
//! text file that says whether the transfer was sound and gives the
//! temperature in thousandths of a degree Celsius.
use crate::nucleo::bytes::{
    find, find_from, lemma_find_is_first, parse_i32, parsed_i32, trim, trim_end, trim_start,
};
use crate::nucleo::types::SensorError;
use vstd::prelude::*;
use vstd::string::{StringExecFns, StringSliceAdditionalSpecFns};

verus! {

/// The coldest that the sensor measures, in thousandths of a degree Celsius.
pub const TEMPERATURE_MIN_MILLI: i32 = -55_000;

/// The warmest that the sensor measures, in thousandths of a degree Celsius.
pub const TEMPERATURE_MAX_MILLI: i32 = 125_000;

/// What the sensor shows before its first conversion, in thousandths of a
/// degree Celsius.
pub const POWER_ON_MILLI: i32 = 85_000;

/// `YES`, which the driver writes where the transfer's check held.
pub open spec fn sound_mark() -> Seq<u8> {
    seq![89u8, 69u8, 83u8]
}

/// `t=`, which the driver writes before the temperature.
pub open spec fn value_mark() -> Seq<u8> {
    seq![116u8, 61u8]
}

/// One reading of the thermometer.
#[derive(Debug, Clone, Copy, PartialEq, Eq, Structural)]
pub struct Ds18b20Reading {
    /// The temperature in thousandths of a degree Celsius.
    pub millidegrees: i32,
    /// Whether the value is one that a sensor which is not connected, or has
    /// only just been powered, tends to show: exactly 0 or exactly 85 degrees.
    pub suspicious: bool,
}

/// What the driver's text says. The transfer must be marked as sound; the
/// temperature is the whole number that follows the first `t=` to the end of
/// the text, white space around it left out; and it must lie within what the
/// sensor measures.
pub open spec fn reading_of(text: Seq<u8>) -> Result<Ds18b20Reading, SensorError> {
    if find_from(text, sound_mark(), 0) is None {
        Err(SensorError::InvalidData)
    } else {
        match find_from(text, value_mark(), 0) {
            None => Err(SensorError::InvalidData),
            Some(at) => {
                let start = trim_start(text, at + 2, text.len() as int);
                let end = trim_end(text, start, text.len() as int);
                match parsed_i32(text.subrange(start, end)) {
                    None => Err(SensorError::InvalidData),
                    Some(raw) => if raw < TEMPERATURE_MIN_MILLI || raw > TEMPERATURE_MAX_MILLI {
                        Err(SensorError::InvalidData)
                    } else {
                        Ok(
                            Ds18b20Reading {
                                millidegrees: raw as i32,
                                suspicious: raw == 0 || raw == POWER_ON_MILLI,
                            },
                        )
                    },
                }
            },
        }
    }
}

/// The file in which the kernel shows the sensor with this identifier.
pub open spec fn path_of(device_id: Seq<char>) -> Seq<char> {
    "/sys/bus/w1/devices/"@ + device_id + "/w1_slave"@
}

/// A DS18B20 on the one-wire bus.
#[derive(Debug, PartialEq, Eq)]
pub struct Ds18b20Sensor {
    device_path: String,
}

impl Ds18b20Sensor {
    /// The file that the sensor is read from.
    pub closed spec fn path(&self) -> Seq<char> {
        self.device_path@
    }

    /// The file in which the kernel shows the sensor with this identifier.
    pub fn device_path_of(device_id: &str) -> (path: String)
        ensures
            path@ == path_of(device_id@),
    {
        let mut path = String::from_str("/sys/bus/w1/devices/");
        path.append(device_id);
        path.append("/w1_slave");
        path
    }

    /// The sensor with this identifier, given what a first read of its file
    /// gave: the text must hold a `t=`, or the file is not the sensor's.
    pub fn new(device_id: &str, probe: &str) -> (outcome: Result<Self, SensorError>)
        ensures
            match outcome {
                Ok(sensor) => find_from(probe.spec_bytes(), value_mark(), 0) is Some
                    && sensor.path() == path_of(device_id@),
                Err(e) => find_from(probe.spec_bytes(), value_mark(), 0) is None && e
                    == SensorError::InvalidData,
            },
    {
        let mark: [u8; 2] = [116, 61];
        assert(mark@ =~= value_mark());
        match find(probe.as_bytes(), mark.as_slice()) {
            None => Err(SensorError::InvalidData),
            Some(_) => Ok(Ds18b20Sensor { device_path: Self::device_path_of(device_id) }),
        }
    }

    /// The file that the sensor is read from.
    pub fn device_path(&self) -> (path: &str)
        ensures
            path@ == self.path(),
    {
        self.device_path.as_str()
    }

    /// Reads the text of the sensor's file.
    pub fn read(data: &str) -> (outcome: Result<Ds18b20Reading, SensorError>)
        ensures
            outcome == reading_of(data.spec_bytes()),
    {
        let text: &[u8] = data.as_bytes();
        let sound: [u8; 3] = [89, 69, 83];
        let mark: [u8; 2] = [116, 61];
        assert(sound@ =~= sound_mark());
        assert(mark@ =~= value_mark());
        if find(text, sound.as_slice()).is_none() {
            return Err(SensorError::InvalidData);
        }
        match find(text, mark.as_slice()) {
            None => Err(SensorError::InvalidData),
            Some(at) => {
                proof {
                    lemma_find_is_first(text@, value_mark(), 0);
                }
                let size: usize = text.len();
                let (start, end) = trim(text, at + 2, size);
                match parse_i32(text, start, end) {
                    None => Err(SensorError::InvalidData),
                    Some(raw) => {
                        if raw < TEMPERATURE_MIN_MILLI || raw > TEMPERATURE_MAX_MILLI {
                            Err(SensorError::InvalidData)
                        } else {
                            Ok(
                                Ds18b20Reading {
                                    millidegrees: raw,
                                    suspicious: raw == 0 || raw == POWER_ON_MILLI,
                                },
                            )
                        }
                    },
                }
            },
        }
    }
}

} // verus!
