use lince::devices::sensors::ds18b20::{
    Ds18b20Reading, Ds18b20Sensor, POWER_ON_MILLI, TEMPERATURE_MAX_MILLI, TEMPERATURE_MIN_MILLI,
};
use lince::nucleo::bytes::{find, matches_at, parse_i32, trim};
use lince::nucleo::types::SensorError;

fn file(crc: &str, value: &str) -> String {
    format!("72 01 4b 46 7f ff 0e 10 57 : crc=57 {}\n72 01 4b 46 7f ff 0e 10 57 t={}\n", crc, value)
}

fn reading(millidegrees: i32) -> Result<Ds18b20Reading, SensorError> {
    Ok(Ds18b20Reading { millidegrees, suspicious: false })
}

#[test]
fn thermometer_limits_are_those_of_the_sensor() {
    assert_eq!(TEMPERATURE_MIN_MILLI, -55_000);
    assert_eq!(TEMPERATURE_MAX_MILLI, 125_000);
    assert_eq!(POWER_ON_MILLI, 85_000);
}

#[test]
fn thermometer_reads_the_number_after_the_mark() {
    assert_eq!(Ds18b20Sensor::read(&file("YES", "23125")), reading(23125));
    assert_eq!(Ds18b20Sensor::read(&file("YES", "-1250")), reading(-1250));
    assert_eq!(Ds18b20Sensor::read(&file("YES", "1")), reading(1));
    assert_eq!(Ds18b20Sensor::read("YES t=20000"), reading(20000));
    assert_eq!(Ds18b20Sensor::read("t=20000 YES"), Err(SensorError::InvalidData));
    assert_eq!(Ds18b20Sensor::read("YESt=+42"), reading(42));
    assert_eq!(Ds18b20Sensor::read("YESt=0042"), reading(42));
}

#[test]
fn thermometer_wants_the_transfer_marked_sound() {
    assert_eq!(Ds18b20Sensor::read(&file("NO", "23125")), Err(SensorError::InvalidData));
    assert_eq!(Ds18b20Sensor::read(&file("yes", "23125")), Err(SensorError::InvalidData));
    assert_eq!(Ds18b20Sensor::read("t=23125"), Err(SensorError::InvalidData));
    assert_eq!(Ds18b20Sensor::read(""), Err(SensorError::InvalidData));
}

#[test]
fn thermometer_wants_the_value_mark() {
    assert_eq!(Ds18b20Sensor::read("crc=57 YES\n23125\n"), Err(SensorError::InvalidData));
    assert_eq!(Ds18b20Sensor::read("crc=57 YES\nT=23125\n"), Err(SensorError::InvalidData));
    assert_eq!(Ds18b20Sensor::read("YES"), Err(SensorError::InvalidData));
}

#[test]
fn thermometer_wants_a_whole_number_and_nothing_else() {
    for value in ["", " ", "abc", "23.5", "23125 C", "2 3", "-", "+", "--5", "0x10", "12a", "٣"] {
        assert_eq!(
            Ds18b20Sensor::read(&file("YES", value)),
            Err(SensorError::InvalidData),
            "{:?}",
            value
        );
    }
    // The first mark counts: what follows it holds the second.
    assert_eq!(Ds18b20Sensor::read("YES t=1 t=2"), Err(SensorError::InvalidData));
}

#[test]
fn thermometer_refuses_what_the_sensor_cannot_measure() {
    assert_eq!(Ds18b20Sensor::read(&file("YES", "125000")), reading(125000));
    assert_eq!(Ds18b20Sensor::read(&file("YES", "125001")), Err(SensorError::InvalidData));
    assert_eq!(Ds18b20Sensor::read(&file("YES", "-55000")), reading(-55000));
    assert_eq!(Ds18b20Sensor::read(&file("YES", "-55001")), Err(SensorError::InvalidData));
    assert_eq!(Ds18b20Sensor::read(&file("YES", "2147483647")), Err(SensorError::InvalidData));
    assert_eq!(Ds18b20Sensor::read(&file("YES", "-2147483648")), Err(SensorError::InvalidData));
    assert_eq!(Ds18b20Sensor::read(&file("YES", "2147483648")), Err(SensorError::InvalidData));
    assert_eq!(
        Ds18b20Sensor::read(&file("YES", "99999999999999999999999")),
        Err(SensorError::InvalidData)
    );
}

#[test]
fn thermometer_flags_zero_and_the_power_on_value() {
    assert_eq!(
        Ds18b20Sensor::read(&file("YES", "0")),
        Ok(Ds18b20Reading { millidegrees: 0, suspicious: true })
    );
    assert_eq!(
        Ds18b20Sensor::read(&file("YES", "-0")),
        Ok(Ds18b20Reading { millidegrees: 0, suspicious: true })
    );
    assert_eq!(
        Ds18b20Sensor::read(&file("YES", "85000")),
        Ok(Ds18b20Reading { millidegrees: 85000, suspicious: true })
    );
    assert_eq!(Ds18b20Sensor::read(&file("YES", "85001")), reading(85001));
    assert_eq!(Ds18b20Sensor::read(&file("YES", "84999")), reading(84999));
}

#[test]
fn thermometer_leaves_out_white_space_like_the_standard_trim() {
    for space in [" ", "\t", "\n", "\r\n", "\u{b}", "\u{c}", "\u{85}", "\u{a0}", "\u{1680}", "\u{2000}",
        "\u{2005}", "\u{200a}", "\u{2028}", "\u{2029}", "\u{202f}", "\u{205f}", "\u{3000}", " \u{3000}\t"]
    {
        let text = format!("YES t={}23125{}", space, space);
        assert_eq!(text[6..].trim(), "23125");
        assert_eq!(Ds18b20Sensor::read(&text), reading(23125), "{:?}", space);
    }
    // Not white space: a zero-width space, and a narrow no-break space's neighbour.
    for other in ["\u{200b}", "\u{202e}", "\u{2060}", "\u{feff}", "\u{84}", "\u{a1}"] {
        let text = format!("YES t=23125{}", other);
        assert_ne!(text[6..].trim(), "23125");
        assert_eq!(Ds18b20Sensor::read(&text), Err(SensorError::InvalidData), "{:?}", other);
    }
}

#[test]
fn thermometer_agrees_with_the_standard_parse() {
    for value in ["0", "7", "-7", "+7", "007", "-000", "124999", "-54999", "55", " 55 ", "5 5", "", "-",
        "+", "+-5", "5-", "1e3", "１２", "125000", "125001", "-55000", "-55001"]
    {
        let text = format!("YES t={}", value);
        let expected = match value.trim().parse::<i32>() {
            Ok(raw) if (-55_000..=125_000).contains(&raw) => {
                Ok(Ds18b20Reading { millidegrees: raw, suspicious: raw == 0 || raw == 85_000 })
            }
            _ => Err(SensorError::InvalidData),
        };
        assert_eq!(Ds18b20Sensor::read(&text), expected, "{:?}", value);
    }
}

#[test]
fn thermometer_is_found_in_the_kernel_tree() {
    assert_eq!(
        Ds18b20Sensor::device_path_of("28-00000abcdef"),
        "/sys/bus/w1/devices/28-00000abcdef/w1_slave"
    );
    assert_eq!(Ds18b20Sensor::device_path_of(""), "/sys/bus/w1/devices//w1_slave");
}

#[test]
fn thermometer_is_set_up_from_a_first_read_with_a_value_mark() {
    let sensor = Ds18b20Sensor::new("28-00000abcdef", &file("YES", "23125")).unwrap();
    assert_eq!(sensor.device_path(), "/sys/bus/w1/devices/28-00000abcdef/w1_slave");
    // The first read need not be sound, only shaped like the sensor's file.
    assert!(Ds18b20Sensor::new("28-1", &file("NO", "x")).is_ok());
    assert_eq!(Ds18b20Sensor::new("28-1", "nothing here"), Err(SensorError::InvalidData));
    assert_eq!(Ds18b20Sensor::new("28-1", ""), Err(SensorError::InvalidData));
}

#[test]
fn find_returns_the_first_occurrence() {
    assert_eq!(find(b"abcabc", b"bc"), Some(1));
    assert_eq!(find(b"abcabc", b"abc"), Some(0));
    assert_eq!(find(b"abcabc", b"cab"), Some(2));
    assert_eq!(find(b"abcabc", b"abcabc"), Some(0));
    assert_eq!(find(b"abcabc", b"abcabcd"), None);
    assert_eq!(find(b"abcabc", b"x"), None);
    assert_eq!(find(b"aab", b"ab"), Some(1));
    assert_eq!(find(b"abc", b"c"), Some(2));
    assert_eq!(find(b"", b"a"), None);
    assert_eq!(find(b"abc", b""), Some(0));
    assert_eq!(find(b"", b""), Some(0));
    for (hay, needle) in [("t=t=", "t="), ("xxYESxx", "YES"), ("YE", "YES"), ("YYES", "YES")] {
        assert_eq!(find(hay.as_bytes(), needle.as_bytes()), hay.find(needle));
    }
}

#[test]
fn matches_at_compares_in_place() {
    assert!(matches_at(b"abcabc", b"bc", 1));
    assert!(matches_at(b"abcabc", b"bc", 4));
    assert!(!matches_at(b"abcabc", b"bc", 0));
    assert!(matches_at(b"abc", b"", 3));
}

#[test]
fn parse_reads_whole_numbers_within_thirty_two_bits() {
    let parse = |text: &str| parse_i32(text.as_bytes(), 0, text.len());
    assert_eq!(parse("0"), Some(0));
    assert_eq!(parse("2147483647"), Some(i32::MAX));
    assert_eq!(parse("-2147483648"), Some(i32::MIN));
    assert_eq!(parse("2147483648"), None);
    assert_eq!(parse("-2147483649"), None);
    assert_eq!(parse("+2147483647"), Some(i32::MAX));
    assert_eq!(parse("00000000000000000000012"), Some(12));
    assert_eq!(parse("-00000000000000000000012"), Some(-12));
    assert_eq!(parse("123456789012345678901234567890"), None);
    assert_eq!(parse(""), None);
    assert_eq!(parse("-"), None);
    assert_eq!(parse("+"), None);
    assert_eq!(parse("1 "), None);
    assert_eq!(parse(" 1"), None);
    assert_eq!(parse("1-"), None);
    assert_eq!(parse_i32(b"ab-17cd", 2, 5), Some(-17));
    assert_eq!(parse_i32(b"ab-17cd", 2, 2), None);
    for text in ["12", "-12", "+0", "-0", "4294967296", "99a", "a99", "2147483647", "-2147483648"] {
        assert_eq!(parse(text), text.parse::<i32>().ok(), "{:?}", text);
    }
}

#[test]
fn trim_leaves_out_white_space_at_both_ends() {
    assert_eq!(trim(b"  ab  ", 0, 6), (2, 4));
    assert_eq!(trim(b"ab", 0, 2), (0, 2));
    assert_eq!(trim(b"    ", 0, 4), (4, 4));
    assert_eq!(trim(b"", 0, 0), (0, 0));
    assert_eq!(trim(b" a b ", 0, 5), (1, 4));
    assert_eq!(trim(b"x  ab  y", 1, 7), (3, 5));
    let text = "\u{3000}\u{a0} 7 \u{2003}\n";
    assert_eq!(trim(text.as_bytes(), 0, text.len()), (6, 7));
}
