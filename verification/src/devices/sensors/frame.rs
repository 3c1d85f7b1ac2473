//! The five bytes of a frame: their checksum, and what they say under each
//! family of sensors.
use crate::devices::sensors::dht::DhtBase;
use crate::nucleo::types::SensorError;
use vstd::prelude::*;

verus! {

/// Sum of the first four bytes of a frame, reduced modulo 256.
pub open spec fn frame_sum(data: Seq<u8>) -> int {
    (data[0] + data[1] + data[2] + data[3]) % 256
}

/// Whether the fifth byte of a frame is the checksum of the first four.
pub open spec fn checksum_ok(data: Seq<u8>) -> bool {
    data[4] as int == frame_sum(data)
}

/// How a family of sensors packs its reading into the first four bytes.
#[derive(Debug, Clone, Copy, PartialEq, Eq, Structural)]
pub enum SensorFamily {
    /// Humidity and temperature as one whole-number byte each.
    Dht11,
    /// Humidity and temperature as sixteen bits each, in tenths; the top bit
    /// of the temperature flags a negative value.
    Dht22,
}

/// A reading as the frame gives it, before it is put into words.
#[allow(inconsistent_fields)]
#[derive(Debug, Clone, Copy, PartialEq, Eq, Structural)]
pub enum DhtReading {
    /// Humidity in percent and temperature in degrees Celsius, whole numbers.
    Whole { humidity: u8, temperature: i8 },
    /// Humidity in tenths of a percent and temperature in tenths of a degree
    /// Celsius.
    Tenths { humidity: u16, temperature: i16 },
}

/// No relative humidity is above 100 percent.
pub const HUMIDITY_MAX: u8 = 100;

/// The same bound in tenths of a percent.
pub const HUMIDITY_MAX_TENTHS: u16 = 1000;

/// The coldest that a sensor of the sixteen-bit family measures, in tenths of
/// a degree Celsius.
pub const DHT22_TEMPERATURE_MIN_TENTHS: i16 = -400;

/// The warmest that a sensor of the sixteen-bit family measures, in tenths of
/// a degree Celsius.
pub const DHT22_TEMPERATURE_MAX_TENTHS: i16 = 800;

/// A byte read as a signed number in two's complement.
pub open spec fn signed_byte(b: u8) -> int {
    if b < 128 {
        b as int
    } else {
        b - 256
    }
}

/// Sixteen bits from a high and a low byte.
pub open spec fn word(high: u8, low: u8) -> int {
    high * 256 + low
}

/// The humidity of a frame of the sixteen-bit family, in tenths of a percent.
pub open spec fn dht22_humidity(data: Seq<u8>) -> int {
    word(data[0], data[1])
}

/// Whether a frame of the sixteen-bit family flags its temperature as
/// negative: the top bit of the third byte.
pub open spec fn dht22_negative(data: Seq<u8>) -> bool {
    data[2] >= 128
}

/// The size of the temperature of a frame of the sixteen-bit family, in
/// tenths of a degree: the fifteen bits below the flag.
pub open spec fn dht22_magnitude(data: Seq<u8>) -> int {
    word((data[2] % 128) as u8, data[3])
}

/// The temperature of a frame of the sixteen-bit family, in tenths of a
/// degree Celsius.
pub open spec fn dht22_temperature(data: Seq<u8>) -> int {
    if dht22_negative(data) {
        -dht22_magnitude(data)
    } else {
        dht22_magnitude(data)
    }
}

/// What a frame says under a family. A frame whose checksum fails says
/// nothing, and neither does one whose values no sensor of the family can
/// have measured.
pub open spec fn decoded(data: Seq<u8>, family: SensorFamily) -> Result<DhtReading, SensorError> {
    if !checksum_ok(data) {
        Err(SensorError::InvalidData)
    } else {
        match family {
            SensorFamily::Dht11 => if data[0] <= HUMIDITY_MAX {
                Ok(
                    DhtReading::Whole {
                        humidity: data[0],
                        temperature: signed_byte(data[2]) as i8,
                    },
                )
            } else {
                Err(SensorError::InvalidData)
            },
            SensorFamily::Dht22 => if dht22_humidity(data) <= HUMIDITY_MAX_TENTHS
                && DHT22_TEMPERATURE_MIN_TENTHS <= dht22_temperature(data)
                <= DHT22_TEMPERATURE_MAX_TENTHS {
                Ok(
                    DhtReading::Tenths {
                        humidity: dht22_humidity(data) as u16,
                        temperature: dht22_temperature(data) as i16,
                    },
                )
            } else {
                Err(SensorError::InvalidData)
            },
        }
    }
}

/// Reads a frame under a family: checks it, then rebuilds humidity and
/// temperature as the family packs them.
pub fn decode(data: &[u8; 5], family: SensorFamily) -> (outcome: Result<DhtReading, SensorError>)
    ensures
        outcome == decoded(data@, family),
{
    match DhtBase::validar_checksum(data) {
        Err(e) => {
            return Err(e);
        },
        Ok(()) => {},
    }
    match family {
        SensorFamily::Dht11 => {
            let humidity: u8 = data[0];
            if humidity > HUMIDITY_MAX {
                return Err(SensorError::InvalidData);
            }
            let temperature: i8 = if data[2] < 128 {
                data[2] as i8
            } else {
                (data[2] as i16 - 256) as i8
            };
            Ok(DhtReading::Whole { humidity, temperature })
        },
        SensorFamily::Dht22 => {
            let humidity: u16 = (data[0] as u16) * 256 + data[1] as u16;
            let magnitude: u16 = ((data[2] % 128) as u16) * 256 + data[3] as u16;
            let temperature: i16 = if data[2] >= 128 {
                -(magnitude as i16)
            } else {
                magnitude as i16
            };
            if humidity > HUMIDITY_MAX_TENTHS || temperature < DHT22_TEMPERATURE_MIN_TENTHS
                || temperature > DHT22_TEMPERATURE_MAX_TENTHS {
                return Err(SensorError::InvalidData);
            }
            Ok(DhtReading::Tenths { humidity, temperature })
        },
    }
}

/// Every frame whose checksum holds passes the check, and no other does; and
/// a frame that fails it is never read as a reading, under either family.
pub proof fn lemma_only_checked_frames_decode(data: Seq<u8>, family: SensorFamily)
    requires
        data.len() == 5,
    ensures
        checksum_ok(data) <==> data[4] == (data[0] + data[1] + data[2] + data[3]) % 256,
        decoded(data, family) is Ok ==> checksum_ok(data),
{
}

/// Under the sixteen-bit family a frame with the top bit of its third byte
/// set never decodes to a temperature above zero, and decodes to one below
/// zero wherever the fifteen bits under the flag are not all zero.
pub proof fn lemma_sign_bit_means_negative(data: Seq<u8>)
    requires
        data.len() == 5,
        data[2] & 0x80u8 != 0u8,
        decoded(data, SensorFamily::Dht22) is Ok,
    ensures
        decoded(data, SensorFamily::Dht22) matches Ok(DhtReading::Tenths { temperature, .. })
            && temperature <= 0 && (dht22_magnitude(data) != 0 ==> temperature < 0),
{
    let high: u8 = data[2];
    assert(high & 0x80u8 != 0u8 ==> high >= 128u8) by (bit_vector);
}

} // verus!
