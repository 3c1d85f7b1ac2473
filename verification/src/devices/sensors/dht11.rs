//! The DHT11: humidity and temperature as whole numbers.
use crate::devices::sensors::dht::{fresh_capture, DhtBase};
use crate::devices::sensors::frame::{decode, decoded, DhtReading, SensorFamily};
use crate::nucleo::text::{decimal, push_decimal, push_signed, signed_decimal};
use crate::nucleo::types::{OutputView, SensorError, SensorOutput};
use vstd::prelude::*;
use vstd::string::StringExecFns;

verus! {

/// A DHT11 on one data line.
pub struct Dht11Sensor {
    /// The decoder of the line's protocol.
    pub base: DhtBase,
}

/// A reading of the DHT11 in words.
pub open spec fn dht11_text(humidity: int, temperature: int) -> Seq<char> {
    "Temp: "@ + signed_decimal(temperature) + "\u{b0}C, Hum: "@ + decimal(humidity as nat) + "%"@
}

impl Dht11Sensor {
    /// A DHT11 on line `pin`, with no read begun.
    pub fn new(pin: u8) -> (sensor: Self)
        ensures
            sensor.base.pin() == pin,
            sensor.base@ == fresh_capture(),
    {
        Dht11Sensor { base: DhtBase::new(pin) }
    }

    /// Turns the five bytes of a capture into the sensor's output: the text
    /// of the reading, or the reason why the bytes are no reading.
    pub fn read(data: &[u8; 5]) -> (outcome: Result<SensorOutput, SensorError>)
        ensures
            outcome matches Ok(out) ==> decoded(data@, SensorFamily::Dht11) matches Ok(
                DhtReading::Whole { humidity, temperature },
            ) && out@ == OutputView::Text(dht11_text(humidity as int, temperature as int)),
            outcome matches Err(e) ==> decoded(data@, SensorFamily::Dht11) == Err::<
                DhtReading,
                SensorError,
            >(e),
    {
        match decode(data, SensorFamily::Dht11) {
            Ok(DhtReading::Whole { humidity, temperature }) => {
                let mut text = String::from_str("Temp: ");
                push_signed(&mut text, temperature as i32);
                text.append("\u{b0}C, Hum: ");
                push_decimal(&mut text, humidity as u32);
                text.append("%");
                Ok(SensorOutput::Text(text))
            },
            Ok(DhtReading::Tenths { .. }) => Err(SensorError::InvalidData),
            Err(e) => Err(e),
        }
    }
}

} // verus!
