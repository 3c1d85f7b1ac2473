//! The DHT22: humidity and temperature in tenths, the temperature signed.
use crate::devices::sensors::dht::{fresh_capture, DhtBase};
use crate::devices::sensors::frame::{decode, decoded, DhtReading, SensorFamily};
use crate::nucleo::text::{decimal, push_tenths, tenths};
use crate::nucleo::types::{OutputView, SensorError, SensorOutput};
use vstd::prelude::*;
use vstd::string::StringExecFns;

verus! {

/// A DHT22 on one data line.
pub struct Dht22Sensor {
    /// The decoder of the line's protocol.
    pub base: DhtBase,
}

/// A reading of the DHT22 in words, both values given in tenths.
pub open spec fn dht22_text(humidity: int, temperature: int) -> Seq<char> {
    "Temp: "@ + tenths(temperature) + "\u{b0}C, Hum: "@ + tenths(humidity) + "%"@
}

/// A reading below zero degrees is written with a minus sign before its
/// temperature, and no other reading is.
pub proof fn lemma_below_zero_reads_with_a_minus(humidity: int, temperature: int)
    ensures
        dht22_text(humidity, temperature).len() > 6,
        dht22_text(humidity, temperature)[6] == '-' <==> temperature < 0,
{
    reveal_strlit("Temp: ");
    let head = "Temp: "@;
    let number = tenths(temperature);
    let rest = "\u{b0}C, Hum: "@ + tenths(humidity) + "%"@;
    assert(dht22_text(humidity, temperature) =~= head + number + rest);
    lemma_decimal_begins_with_a_digit((if temperature < 0 {
        -temperature
    } else {
        temperature
    } / 10) as nat);
    assert((head + number + rest)[6] == number[0]);
}

proof fn lemma_decimal_begins_with_a_digit(n: nat)
    ensures
        decimal(n).len() > 0,
        decimal(n)[0] != '-',
    decreases n,
{
    if n >= 10 {
        lemma_decimal_begins_with_a_digit(n / 10);
    }
}

impl Dht22Sensor {
    /// A DHT22 on line `pin`, with no read begun.
    pub fn new(pin: u8) -> (sensor: Self)
        ensures
            sensor.base.pin() == pin,
            sensor.base@ == fresh_capture(),
    {
        Dht22Sensor { base: DhtBase::new(pin) }
    }

    /// Turns the five bytes of a capture into the sensor's output: the text
    /// of the reading, or the reason why the bytes are no reading.
    pub fn read(data: &[u8; 5]) -> (outcome: Result<SensorOutput, SensorError>)
        ensures
            outcome matches Ok(out) ==> decoded(data@, SensorFamily::Dht22) matches Ok(
                DhtReading::Tenths { humidity, temperature },
            ) && out@ == OutputView::Text(dht22_text(humidity as int, temperature as int)),
            outcome matches Err(e) ==> decoded(data@, SensorFamily::Dht22) == Err::<
                DhtReading,
                SensorError,
            >(e),
    {
        match decode(data, SensorFamily::Dht22) {
            Ok(DhtReading::Tenths { humidity, temperature }) => {
                let mut text = String::from_str("Temp: ");
                push_tenths(&mut text, temperature as i32);
                text.append("\u{b0}C, Hum: ");
                push_tenths(&mut text, humidity as i32);
                text.append("%");
                Ok(SensorOutput::Text(text))
            },
            Ok(DhtReading::Whole { .. }) => Err(SensorError::InvalidData),
            Err(e) => Err(e),
        }
    }
}

} // verus!
