//! A DHT sensor as one logical sensor for one measure: its temperature or
//! its humidity.
use crate::devices::sensors::frame::SensorFamily;
use crate::nucleo::types::SensorError;
use vstd::prelude::*;
use vstd::string::StringExecFns;

verus! {

/// Which of the two measures of a DHT sensor is meant.
#[derive(Debug, Clone, Copy, PartialEq, Eq, Structural)]
pub enum DhtMetric {
    Temperature,
    Humidity,
}

/// One measurement, ready to be passed on.
///
/// `value` carries an IEEE 754 double-precision number as its bit pattern.
#[derive(Debug, PartialEq, Eq)]
pub struct Measurement {
    /// The sensor that measured.
    pub sensor_id: String,
    /// What was measured: `temperature` or `humidity`.
    pub kind: String,
    /// The 64 bits of the value.
    pub value: u64,
    /// The unit of the value.
    pub unit: String,
    /// Seconds since the first moment of 1970 at which the value was taken.
    pub timestamp_secs: u64,
}

/// The mathematical value of a [`Measurement`].
pub struct MeasurementView {
    pub sensor_id: Seq<char>,
    pub kind: Seq<char>,
    pub value: u64,
    pub unit: Seq<char>,
    pub timestamp_secs: u64,
}

impl View for Measurement {
    type V = MeasurementView;

    open spec fn view(&self) -> MeasurementView {
        MeasurementView {
            sensor_id: self.sensor_id@,
            kind: self.kind@,
            value: self.value,
            unit: self.unit@,
            timestamp_secs: self.timestamp_secs,
        }
    }
}

/// A DHT11 or DHT22 on one line, asked for one of its two measures.
#[derive(Debug, PartialEq, Eq)]
pub struct DhtSensor {
    id: String,
    pin: u32,
    model: String,
    metric: DhtMetric,
    unit: String,
}

/// The mathematical value of a [`DhtSensor`].
pub struct DhtSensorView {
    pub id: Seq<char>,
    pub pin: u32,
    pub model: Seq<char>,
    pub metric: DhtMetric,
    pub unit: Seq<char>,
}

impl View for DhtSensor {
    type V = DhtSensorView;

    closed spec fn view(&self) -> DhtSensorView {
        DhtSensorView {
            id: self.id@,
            pin: self.pin,
            model: self.model@,
            metric: self.metric,
            unit: self.unit@,
        }
    }
}

/// The name of a measure.
pub open spec fn metric_name(metric: DhtMetric) -> Seq<char> {
    match metric {
        DhtMetric::Temperature => "temperature"@,
        DhtMetric::Humidity => "humidity"@,
    }
}

/// The family that a model name stands for: `DHT22` or `DHT11`, and no
/// other.
pub open spec fn family_of(model: Seq<char>) -> Option<SensorFamily> {
    if model == "DHT22"@ {
        Some(SensorFamily::Dht22)
    } else if model == "DHT11"@ {
        Some(SensorFamily::Dht11)
    } else {
        None
    }
}

impl DhtSensor {
    /// A logical sensor named `id` for the measure `metric`, given in `unit`,
    /// of the sensor of model `model` on line `pin`.
    pub fn new(id: &str, pin: u32, model: &str, metric: DhtMetric, unit: &str) -> (sensor: Self)
        ensures
            sensor@ == (DhtSensorView { id: id@, pin, model: model@, metric, unit: unit@ }),
    {
        DhtSensor {
            id: String::from_str(id),
            pin,
            model: String::from_str(model),
            metric,
            unit: String::from_str(unit),
        }
    }

    /// The sensor's name.
    pub fn id(&self) -> (id: &str)
        ensures
            id@ == self@.id,
    {
        self.id.as_str()
    }

    /// The kind of sensor: always `dht`.
    pub fn kind(&self) -> (kind: &str)
        ensures
            kind@ == "dht"@,
    {
        "dht"
    }

    /// The unit that the sensor's values are given in.
    pub fn unit(&self) -> (unit: &str)
        ensures
            unit@ == self@.unit,
    {
        self.unit.as_str()
    }

    /// The sensor's model, as it was named.
    pub fn model(&self) -> (model: &str)
        ensures
            model@ == self@.model,
    {
        self.model.as_str()
    }

    /// The line that the sensor is on.
    pub fn pin(&self) -> (pin: u32)
        ensures
            pin == self@.pin,
    {
        self.pin
    }

    /// The measure that the sensor is asked for.
    pub fn metric(&self) -> (metric: DhtMetric)
        ensures
            metric == self@.metric,
    {
        self.metric
    }

    /// The family of the sensor's model, which says how its frames are read.
    /// A model that is neither `DHT22` nor `DHT11` cannot be set up.
    pub fn family(&self) -> (outcome: Result<SensorFamily, SensorError>)
        ensures
            outcome == match family_of(self@.model) {
                Some(family) => Ok::<SensorFamily, SensorError>(family),
                None => Err(SensorError::InitializationError),
            },
    {
        if self.model == String::from_str("DHT22") {
            Ok(SensorFamily::Dht22)
        } else if self.model == String::from_str("DHT11") {
            Ok(SensorFamily::Dht11)
        } else {
            Err(SensorError::InitializationError)
        }
    }

    /// The measurement that the sensor reports when the device gave this
    /// temperature and this humidity at this moment: the one of the two that
    /// the sensor is asked for, under its name and in the sensor's unit.
    pub fn read(&self, temperature: u64, humidity: u64, timestamp_secs: u64) -> (measured:
        Measurement)
        ensures
            measured@ == (MeasurementView {
                sensor_id: self@.id,
                kind: metric_name(self@.metric),
                value: match self@.metric {
                    DhtMetric::Temperature => temperature,
                    DhtMetric::Humidity => humidity,
                },
                unit: self@.unit,
                timestamp_secs,
            }),
    {
        let (value, kind) = match self.metric {
            DhtMetric::Temperature => (temperature, String::from_str("temperature")),
            DhtMetric::Humidity => (humidity, String::from_str("humidity")),
        };
        Measurement {
            sensor_id: self.id.clone(),
            kind,
            value,
            unit: self.unit.clone(),
            timestamp_secs,
        }
    }
}

} // verus!
