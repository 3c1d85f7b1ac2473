use lince::devices::sensors::dht::DhtBase;
use lince::devices::sensors::frame::{decode, DhtReading, SensorFamily};
use lince::devices::sensors::dht11::Dht11Sensor;
use lince::devices::sensors::dht22::Dht22Sensor;
use lince::nucleo::types::{SensorError, SensorOutput};

fn with_checksum(a: u8, b: u8, c: u8, d: u8) -> [u8; 5] {
    [a, b, c, d, a.wrapping_add(b).wrapping_add(c).wrapping_add(d)]
}

#[test]
fn checksum_accepts_matching_sum() {
    assert_eq!(DhtBase::validar_checksum(&[60, 0, 25, 0, 85]), Ok(()));
}

#[test]
fn checksum_rejects_other_sum() {
    assert_eq!(DhtBase::validar_checksum(&[60, 0, 25, 0, 86]), Err(SensorError::InvalidData));
    assert_eq!(DhtBase::validar_checksum(&[60, 0, 25, 0, 84]), Err(SensorError::InvalidData));
}

#[test]
fn checksum_wraps_modulo_256() {
    assert_eq!(DhtBase::validar_checksum(&[200, 100, 50, 10, 104]), Ok(()));
    assert_eq!(DhtBase::validar_checksum(&[255, 255, 255, 255, 252]), Ok(()));
    assert_eq!(DhtBase::validar_checksum(&[0, 0, 0, 0, 0]), Ok(()));
}

#[test]
fn checksum_holds_exactly_when_fifth_byte_is_the_sum() {
    for a in [0u8, 1, 77, 128, 255] {
        for b in [0u8, 3, 200, 255] {
            for c in [0u8, 129, 254] {
                for d in [0u8, 10, 255] {
                    let sum = ((a as u32 + b as u32 + c as u32 + d as u32) % 256) as u8;
                    for e in [0u8, sum, sum.wrapping_add(1), sum.wrapping_sub(1), 255] {
                        let expected = if e == sum { Ok(()) } else { Err(SensorError::InvalidData) };
                        assert_eq!(DhtBase::validar_checksum(&[a, b, c, d, e]), expected);
                    }
                }
            }
        }
    }
}

#[test]
fn whole_number_family_decodes_sixty_percent_and_twenty_five_degrees() {
    let frame = [60, 0, 25, 0, 85];
    assert_eq!(DhtBase::validar_checksum(&frame), Ok(()));
    assert_eq!(
        decode(&frame, SensorFamily::Dht11),
        Ok(DhtReading::Whole { humidity: 60, temperature: 25 })
    );
}

#[test]
fn tenths_family_decodes_sixteen_bit_values() {
    let frame = [2, 88, 1, 10, 101];
    assert_eq!(
        decode(&frame, SensorFamily::Dht22),
        Ok(DhtReading::Tenths { humidity: 600, temperature: 266 })
    );
}

#[test]
fn sign_bit_makes_the_temperature_negative() {
    let frame = with_checksum(2, 88, 0x81, 10);
    assert_eq!(
        decode(&frame, SensorFamily::Dht22),
        Ok(DhtReading::Tenths { humidity: 600, temperature: -266 })
    );
    let coldest = with_checksum(0, 0, 0x81, 0x90);
    assert_eq!(
        decode(&coldest, SensorFamily::Dht22),
        Ok(DhtReading::Tenths { humidity: 0, temperature: -400 })
    );
}

#[test]
fn sign_bit_over_no_magnitude_is_zero() {
    let frame = with_checksum(1, 0, 0x80, 0);
    assert_eq!(
        decode(&frame, SensorFamily::Dht22),
        Ok(DhtReading::Tenths { humidity: 256, temperature: 0 })
    );
}

#[test]
fn every_negative_flagged_frame_in_range_is_below_zero() {
    for low in 1..=255u8 {
        let frame = with_checksum(0, 50, 0x80, low);
        match decode(&frame, SensorFamily::Dht22) {
            Ok(DhtReading::Tenths { temperature, .. }) => {
                assert_eq!(temperature, -(low as i16));
            }
            other => panic!("unexpected {:?}", other),
        }
    }
}

#[test]
fn decode_refuses_a_frame_with_a_wrong_checksum() {
    assert_eq!(decode(&[60, 0, 25, 0, 86], SensorFamily::Dht11), Err(SensorError::InvalidData));
    assert_eq!(decode(&[2, 88, 1, 10, 100], SensorFamily::Dht22), Err(SensorError::InvalidData));
}

#[test]
fn decode_refuses_values_outside_the_physical_range() {
    // 100.1 % and 100.0 %
    assert_eq!(
        decode(&with_checksum(3, 233, 0, 0), SensorFamily::Dht22),
        Err(SensorError::InvalidData)
    );
    assert_eq!(
        decode(&with_checksum(3, 232, 0, 0), SensorFamily::Dht22),
        Ok(DhtReading::Tenths { humidity: 1000, temperature: 0 })
    );
    // 80.0 and 80.1 degrees
    assert_eq!(
        decode(&with_checksum(0, 0, 3, 32), SensorFamily::Dht22),
        Ok(DhtReading::Tenths { humidity: 0, temperature: 800 })
    );
    assert_eq!(
        decode(&with_checksum(0, 0, 3, 33), SensorFamily::Dht22),
        Err(SensorError::InvalidData)
    );
    // -40.1 degrees
    assert_eq!(
        decode(&with_checksum(0, 0, 0x81, 0x91), SensorFamily::Dht22),
        Err(SensorError::InvalidData)
    );
    // 101 % on the whole-number family, and 100 %
    assert_eq!(
        decode(&with_checksum(101, 0, 20, 0), SensorFamily::Dht11),
        Err(SensorError::InvalidData)
    );
    assert_eq!(
        decode(&with_checksum(100, 0, 20, 0), SensorFamily::Dht11),
        Ok(DhtReading::Whole { humidity: 100, temperature: 20 })
    );
}

#[test]
fn whole_number_frame_is_no_frame_of_the_tenths_family() {
    // 60 % and 25 degrees of a DHT11 would be 1536.0 % read as a DHT22.
    assert_eq!(decode(&[60, 0, 25, 0, 85], SensorFamily::Dht22), Err(SensorError::InvalidData));
}

#[test]
fn whole_number_family_reads_the_temperature_byte_as_signed() {
    assert_eq!(
        decode(&with_checksum(40, 0, 0xfb, 0), SensorFamily::Dht11),
        Ok(DhtReading::Whole { humidity: 40, temperature: -5 })
    );
    assert_eq!(
        decode(&with_checksum(40, 0, 0x80, 0), SensorFamily::Dht11),
        Ok(DhtReading::Whole { humidity: 40, temperature: -128 })
    );
    assert_eq!(
        decode(&with_checksum(40, 0, 0x7f, 0), SensorFamily::Dht11),
        Ok(DhtReading::Whole { humidity: 40, temperature: 127 })
    );
}

#[test]
fn dht11_puts_the_reading_into_words() {
    assert_eq!(
        Dht11Sensor::read(&[60, 0, 25, 0, 85]),
        Ok(SensorOutput::Text("Temp: 25°C, Hum: 60%".to_string()))
    );
    assert_eq!(
        Dht11Sensor::read(&with_checksum(100, 0, 0xfb, 0)),
        Ok(SensorOutput::Text("Temp: -5°C, Hum: 100%".to_string()))
    );
    assert_eq!(
        Dht11Sensor::read(&with_checksum(0, 0, 0, 0)),
        Ok(SensorOutput::Text("Temp: 0°C, Hum: 0%".to_string()))
    );
    assert_eq!(
        Dht11Sensor::read(&with_checksum(7, 0, 0x80, 0)),
        Ok(SensorOutput::Text("Temp: -128°C, Hum: 7%".to_string()))
    );
}

#[test]
fn dht11_refuses_what_is_no_reading() {
    assert_eq!(Dht11Sensor::read(&[60, 0, 25, 0, 0]), Err(SensorError::InvalidData));
    assert_eq!(
        Dht11Sensor::read(&with_checksum(200, 0, 25, 0)),
        Err(SensorError::InvalidData)
    );
}

#[test]
fn dht22_puts_the_reading_into_words() {
    assert_eq!(
        Dht22Sensor::read(&[2, 88, 1, 10, 101]),
        Ok(SensorOutput::Text("Temp: 26.6°C, Hum: 60.0%".to_string()))
    );
    assert_eq!(
        Dht22Sensor::read(&with_checksum(2, 88, 0x81, 10)),
        Ok(SensorOutput::Text("Temp: -26.6°C, Hum: 60.0%".to_string()))
    );
    assert_eq!(
        Dht22Sensor::read(&with_checksum(0, 5, 0x80, 5)),
        Ok(SensorOutput::Text("Temp: -0.5°C, Hum: 0.5%".to_string()))
    );
    assert_eq!(
        Dht22Sensor::read(&with_checksum(3, 232, 0, 0)),
        Ok(SensorOutput::Text("Temp: 0.0°C, Hum: 100.0%".to_string()))
    );
}

#[test]
fn dht22_words_match_division_by_ten_of_the_sixteen_bits() {
    for raw in [0u16, 1, 9, 10, 99, 100, 101, 255, 256, 599, 800] {
        let frame = with_checksum(0, 0, (raw >> 8) as u8, (raw & 0xff) as u8);
        let expected = format!("Temp: {:.1}°C, Hum: {:.1}%", raw as f32 / 10.0, 0.0f32);
        assert_eq!(Dht22Sensor::read(&frame), Ok(SensorOutput::Text(expected)));
    }
    for raw in [0u16, 7, 10, 123, 999, 1000] {
        let frame = with_checksum((raw >> 8) as u8, (raw & 0xff) as u8, 0, 215);
        let expected = format!("Temp: {:.1}°C, Hum: {:.1}%", 21.5f32, raw as f32 / 10.0);
        assert_eq!(Dht22Sensor::read(&frame), Ok(SensorOutput::Text(expected)));
    }
}

#[test]
fn dht22_refuses_what_is_no_reading() {
    assert_eq!(Dht22Sensor::read(&[2, 88, 1, 10, 102]), Err(SensorError::InvalidData));
    assert_eq!(Dht22Sensor::read(&[60, 0, 25, 0, 85]), Err(SensorError::InvalidData));
}
