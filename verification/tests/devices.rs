use lince::config::config::{
    ActuatorConfig, CommunicationConfig, Config, DeviceConfig, RuntimeConfig, SensorConfig,
    StorageConfig,
};
use lince::devices::sensors::frame::SensorFamily;
use lince::devices::sensors::mhrd::MhRdSensor;
use lince::drivers::dht::{DhtMetric, DhtSensor, Measurement};
use lince::network::console::ConsoleCommunicator;
use lince::nucleo::clock::{seconds_since, unix_seconds};
use std::time::{Duration, UNIX_EPOCH};
use lince::nucleo::factory::{build_sensor, entry_fault, EntryFault, SensorEntry};
use lince::nucleo::text::{magnitude, push_decimal, push_digit, push_signed, push_tenths};
use lince::nucleo::types::{SensorError, SensorOutput};

#[test]
fn rain_sensor_reads_low_as_wet_when_active_low() {
    let sensor = MhRdSensor::new(27, true);
    assert_eq!(sensor.pin_number, 27);
    assert!(sensor.active_low);
    assert_eq!(sensor.read(false), SensorOutput::Text("HÚMEDO".to_string()));
    assert_eq!(sensor.read(true), SensorOutput::Text("SECO".to_string()));
}

#[test]
fn rain_sensor_reads_high_as_wet_when_active_high() {
    let sensor = MhRdSensor::new(27, false);
    assert_eq!(sensor.read(true), SensorOutput::Text("HÚMEDO".to_string()));
    assert_eq!(sensor.read(false), SensorOutput::Text("SECO".to_string()));
}

#[test]
fn console_line_carries_the_prefix() {
    let _console = ConsoleCommunicator::new();
    assert_eq!(ConsoleCommunicator::line(b"hola"), "[CONSOLE] hola");
    assert_eq!(ConsoleCommunicator::line(b""), "[CONSOLE] ");
    assert_eq!(ConsoleCommunicator::line("Temp: 25°C".as_bytes()), "[CONSOLE] Temp: 25°C");
    assert_eq!(ConsoleCommunicator::line_of("x y"), "[CONSOLE] x y");
}

#[test]
fn console_line_replaces_what_is_no_text() {
    assert_eq!(ConsoleCommunicator::line(&[b'a', 0xff, b'b']), "[CONSOLE] a\u{fffd}b");
    assert_eq!(ConsoleCommunicator::line(&[0xc3]), "[CONSOLE] \u{fffd}");
    for bytes in [&[0xe2u8, 0x82][..], &[0x80][..], &[b'o', b'k'][..], &[0xf0, 0x9f, 0x98, 0x80][..]] {
        assert_eq!(
            ConsoleCommunicator::line(bytes),
            format!("[CONSOLE] {}", String::from_utf8_lossy(bytes))
        );
    }
}

#[test]
fn clock_is_past_the_year_2020() {
    let now = unix_seconds().expect("the clock stands before 1970");
    assert!(now > 1_577_836_800);
}

#[test]
fn span_from_1970_gives_its_whole_seconds() {
    assert_eq!(seconds_since(Ok(Duration::new(7, 999_999_999))), Some(7));
    assert_eq!(seconds_since(Ok(Duration::from_secs(0))), Some(0));
    assert_eq!(seconds_since(Ok(Duration::from_secs(u64::MAX))), Some(u64::MAX));
    let later = UNIX_EPOCH + Duration::from_secs(1_700_000_000);
    assert_eq!(seconds_since(later.duration_since(UNIX_EPOCH)), Some(1_700_000_000));
}

#[test]
fn moment_before_1970_gives_no_seconds() {
    let earlier = UNIX_EPOCH - Duration::from_secs(5);
    assert_eq!(seconds_since(earlier.duration_since(UNIX_EPOCH)), None);
}

#[test]
fn simulated_sensors_stamp_with_the_clock() {
    let before = unix_seconds().unwrap();
    let a = lince::simulated_sensor::SimulatedSensor::new().read_timestamp().unwrap();
    let b = lince::drivers::simulated_sensor::SimulatedSensor::new().read_timestamp().unwrap();
    let c = lince::devices::sensors::simulated_sensor::SimulatedSensor::new().read_timestamp().unwrap();
    let after = unix_seconds().unwrap();
    assert!(before <= a && a <= b && b <= c && c <= after);
}

#[test]
fn dht_sensor_reports_the_measure_it_is_asked_for() {
    let sensor = DhtSensor::new("sala-t", 4, "DHT22", DhtMetric::Temperature, "Celsius");
    assert_eq!(sensor.id(), "sala-t");
    assert_eq!(sensor.kind(), "dht");
    assert_eq!(sensor.unit(), "Celsius");
    assert_eq!(sensor.pin(), 4);
    assert_eq!(sensor.model(), "DHT22");
    assert_eq!(sensor.metric(), DhtMetric::Temperature);
    let t = (21.5f32 as f64).to_bits();
    let h = (60.25f32 as f64).to_bits();
    assert_eq!(
        sensor.read(t, h, 1_700_000_000),
        Measurement {
            sensor_id: "sala-t".to_string(),
            kind: "temperature".to_string(),
            value: t,
            unit: "Celsius".to_string(),
            timestamp_secs: 1_700_000_000,
        }
    );
    let sensor = DhtSensor::new("sala-h", 4, "DHT22", DhtMetric::Humidity, "%");
    assert_eq!(
        sensor.read(t, h, 5),
        Measurement {
            sensor_id: "sala-h".to_string(),
            kind: "humidity".to_string(),
            value: h,
            unit: "%".to_string(),
            timestamp_secs: 5,
        }
    );
}

#[test]
fn dht_sensor_knows_two_models() {
    let of = |model: &str| DhtSensor::new("x", 4, model, DhtMetric::Humidity, "%").family();
    assert_eq!(of("DHT22"), Ok(SensorFamily::Dht22));
    assert_eq!(of("DHT11"), Ok(SensorFamily::Dht11));
    assert_eq!(of("dht22"), Err(SensorError::InitializationError));
    assert_eq!(of("DHT21"), Err(SensorError::InitializationError));
    assert_eq!(of(""), Err(SensorError::InitializationError));
}

fn entry(kind: &str, pin: Option<u8>, model: Option<&str>, metric: Option<&str>, unit: Option<&str>) -> SensorEntry {
    SensorEntry {
        id: "s1".to_string(),
        kind: kind.to_string(),
        pin,
        model: model.map(str::to_string),
        metric: metric.map(str::to_string),
        unit: unit.map(str::to_string),
    }
}

#[test]
fn factory_builds_a_dht_sensor() {
    let built = build_sensor(&entry("dht", Some(4), Some("DHT22"), Some("temperature"), Some("K")));
    assert_eq!(built, Ok(DhtSensor::new("s1", 4, "DHT22", DhtMetric::Temperature, "K")));
    let built = build_sensor(&entry("dht", Some(255), Some("DHT11"), Some("humidity"), Some("rh")));
    assert_eq!(built, Ok(DhtSensor::new("s1", 255, "DHT11", DhtMetric::Humidity, "rh")));
}

#[test]
fn factory_fills_in_the_unit_of_the_measure() {
    let built = build_sensor(&entry("dht", Some(4), Some("DHT22"), Some("temperature"), None));
    assert_eq!(built, Ok(DhtSensor::new("s1", 4, "DHT22", DhtMetric::Temperature, "Celsius")));
    let built = build_sensor(&entry("dht", Some(4), Some("DHT22"), Some("humidity"), None));
    assert_eq!(built, Ok(DhtSensor::new("s1", 4, "DHT22", DhtMetric::Humidity, "%")));
}

#[test]
fn factory_takes_any_model_name() {
    let built = build_sensor(&entry("dht", Some(4), Some("AM2302"), Some("humidity"), None)).unwrap();
    assert_eq!(built.family(), Err(SensorError::InitializationError));
}

#[test]
fn factory_refuses_an_entry_that_describes_no_sensor() {
    let refused = Err(SensorError::InitializationError);
    assert_eq!(build_sensor(&entry("simulated", Some(4), Some("DHT22"), Some("humidity"), None)), refused);
    assert_eq!(build_sensor(&entry("DHT", Some(4), Some("DHT22"), Some("humidity"), None)), refused);
    assert_eq!(build_sensor(&entry("", Some(4), Some("DHT22"), Some("humidity"), None)), refused);
    assert_eq!(build_sensor(&entry("dht", None, Some("DHT22"), Some("humidity"), None)), refused);
    assert_eq!(build_sensor(&entry("dht", Some(4), None, Some("humidity"), None)), refused);
    assert_eq!(build_sensor(&entry("dht", Some(4), Some("DHT22"), None, None)), refused);
    assert_eq!(build_sensor(&entry("dht", Some(4), Some("DHT22"), Some("pressure"), None)), refused);
    assert_eq!(build_sensor(&entry("dht", Some(4), Some("DHT22"), Some("Temperature"), None)), refused);
}

#[test]
fn factory_says_what_is_wrong_with_an_entry() {
    let fault = |kind, pin, model, metric| entry_fault(&entry(kind, pin, model, metric, None));
    assert_eq!(fault("dht", Some(4), Some("DHT22"), Some("humidity")), None);
    assert_eq!(fault("dht", Some(4), Some("DHT22"), Some("temperature")), None);
    assert_eq!(fault("dht", Some(4), Some("AM2302"), Some("temperature")), None);
    assert_eq!(fault("bmp", Some(4), Some("DHT22"), Some("humidity")), Some(EntryFault::UnsupportedKind));
    assert_eq!(fault("dht", None, Some("DHT22"), Some("humidity")), Some(EntryFault::MissingPin));
    assert_eq!(fault("dht", Some(4), None, Some("humidity")), Some(EntryFault::MissingModel));
    assert_eq!(fault("dht", Some(4), Some("DHT22"), None), Some(EntryFault::InvalidMetric));
    assert_eq!(fault("dht", Some(4), Some("DHT22"), Some("lux")), Some(EntryFault::InvalidMetric));
    // The first fault in the order kind, line, model, measure is the one named.
    assert_eq!(fault("bmp", None, None, None), Some(EntryFault::UnsupportedKind));
    assert_eq!(fault("dht", None, None, None), Some(EntryFault::MissingPin));
    assert_eq!(fault("dht", Some(1), None, None), Some(EntryFault::MissingModel));
    for (kind, pin, model, metric) in [
        ("dht", Some(4), Some("DHT22"), Some("humidity")),
        ("x", Some(4), Some("DHT22"), Some("humidity")),
        ("dht", None, Some("DHT22"), Some("humidity")),
        ("dht", Some(4), None, Some("humidity")),
        ("dht", Some(4), Some("DHT22"), Some("x")),
    ] {
        let e = entry(kind, pin, model, metric, None);
        assert_eq!(entry_fault(&e).is_some(), build_sensor(&e).is_err());
    }
}

#[test]
fn numbers_are_written_in_decimal() {
    let mut text = String::new();
    push_decimal(&mut text, 0);
    text.push(' ');
    push_decimal(&mut text, 9);
    text.push(' ');
    push_decimal(&mut text, 10);
    text.push(' ');
    push_decimal(&mut text, 4_294_967_295);
    text.push(' ');
    push_signed(&mut text, -2_147_483_648);
    text.push(' ');
    push_signed(&mut text, 2_147_483_647);
    text.push(' ');
    push_signed(&mut text, 0);
    text.push(' ');
    push_digit(&mut text, 7);
    assert_eq!(text, "0 9 10 4294967295 -2147483648 2147483647 0 7");
    for n in [0u32, 1, 19, 100, 1009, 65_535, 1_000_000] {
        let mut text = String::from("n=");
        push_decimal(&mut text, n);
        assert_eq!(text, format!("n={}", n));
    }
}

#[test]
fn tenths_are_written_with_one_decimal_place() {
    for (n, expected) in [
        (0, "0.0"),
        (5, "0.5"),
        (-5, "-0.5"),
        (10, "1.0"),
        (266, "26.6"),
        (-266, "-26.6"),
        (-400, "-40.0"),
        (1000, "100.0"),
        (2_147_483_647, "214748364.7"),
        (-2_147_483_648, "-214748364.8"),
    ] {
        let mut text = String::new();
        push_tenths(&mut text, n);
        assert_eq!(text, expected);
    }
    assert_eq!(magnitude(-2_147_483_648), 2_147_483_648);
    assert_eq!(magnitude(-1), 1);
    assert_eq!(magnitude(0), 0);
    assert_eq!(magnitude(17), 17);
}

#[test]
fn configuration_holds_what_the_file_says() {
    let config = Config {
        device: DeviceConfig { name: "nodo-1".to_string(), location: "sala".to_string() },
        sensor: SensorConfig { type_: "DHT22".to_string(), pin: 23, unit: "Celsius".to_string() },
        actuator: ActuatorConfig { type_: "Relay".to_string(), pin: 5 },
        storage: StorageConfig { type_: "File".to_string(), path: "/tmp/x".to_string() },
        communication: CommunicationConfig {
            type_: "MQTT".to_string(),
            broker_url: "localhost".to_string(),
            topic: "test/topic".to_string(),
        },
        runtime: RuntimeConfig { interval_ms: 2000 },
    };
    assert_eq!(config.clone(), config);
    assert_eq!(config.sensor.pin, 23);
    assert_eq!(config.runtime.interval_ms, 2000);
}
