//! Building a sensor from what a configuration says of it.
use crate::drivers::dht::{DhtMetric, DhtSensor, DhtSensorView};
use crate::nucleo::types::SensorError;
use vstd::prelude::*;
use vstd::string::StringExecFns;

verus! {

/// What a configuration says of one sensor. Only `id` and `kind` are always
/// there.
#[derive(Debug, PartialEq, Eq)]
pub struct SensorEntry {
    /// The sensor's name.
    pub id: String,
    /// The kind of sensor; `dht` is the one kind that is built.
    pub kind: String,
    /// The line that the sensor is on.
    pub pin: Option<u8>,
    /// The model, `DHT11` or `DHT22`.
    pub model: Option<String>,
    /// The measure wanted: `temperature` or `humidity`.
    pub metric: Option<String>,
    /// The unit of the measure; left out, it is `Celsius` for a temperature
    /// and `%` for a humidity.
    pub unit: Option<String>,
}

/// What keeps an entry from describing a sensor.
#[derive(Debug, Clone, Copy, PartialEq, Eq, Structural)]
pub enum EntryFault {
    /// The kind is not one that is built.
    UnsupportedKind,
    /// No line is named.
    MissingPin,
    /// No model is named.
    MissingModel,
    /// No measure is named, or one that is neither of the two.
    InvalidMetric,
}

/// The first thing that keeps an entry from describing a sensor, looked for
/// in this order: the kind, the line, the model, the measure.
pub open spec fn fault_of(entry: SensorEntry) -> Option<EntryFault> {
    if entry.kind@ != "dht"@ {
        Some(EntryFault::UnsupportedKind)
    } else if entry.pin is None {
        Some(EntryFault::MissingPin)
    } else if entry.model is None {
        Some(EntryFault::MissingModel)
    } else if metric_of(entry.metric) is None {
        Some(EntryFault::InvalidMetric)
    } else {
        None
    }
}

/// The measure that a configuration names.
pub open spec fn metric_of(name: Option<String>) -> Option<DhtMetric> {
    match name {
        Some(text) => if text@ == "temperature"@ {
            Some(DhtMetric::Temperature)
        } else if text@ == "humidity"@ {
            Some(DhtMetric::Humidity)
        } else {
            None
        },
        None => None,
    }
}

/// The unit of a measure where the configuration names none.
pub open spec fn default_unit(metric: DhtMetric) -> Seq<char> {
    match metric {
        DhtMetric::Temperature => "Celsius"@,
        DhtMetric::Humidity => "%"@,
    }
}

/// The sensor that an entry describes, where it describes one: the kind must
/// be `dht`, and the line, the model and a measure must be named.
pub open spec fn built(entry: SensorEntry) -> Option<DhtSensorView> {
    if entry.kind@ == "dht"@ && entry.pin is Some && entry.model is Some && metric_of(
        entry.metric,
    ) is Some {
        let metric = metric_of(entry.metric)->0;
        Some(
            DhtSensorView {
                id: entry.id@,
                pin: entry.pin->0 as u32,
                model: entry.model->0@,
                metric,
                unit: match entry.unit {
                    Some(unit) => unit@,
                    None => default_unit(metric),
                },
            },
        )
    } else {
        None
    }
}

/// Says what keeps an entry from describing a sensor, if anything does.
pub fn entry_fault(scfg: &SensorEntry) -> (fault: Option<EntryFault>)
    ensures
        fault == fault_of(*scfg),
        fault is None <==> built(*scfg) is Some,
{
    if !(scfg.kind == String::from_str("dht")) {
        return Some(EntryFault::UnsupportedKind);
    }
    if scfg.pin.is_none() {
        return Some(EntryFault::MissingPin);
    }
    if scfg.model.is_none() {
        return Some(EntryFault::MissingModel);
    }
    match &scfg.metric {
        Some(name) => {
            if *name == String::from_str("temperature") || *name == String::from_str("humidity") {
                None
            } else {
                Some(EntryFault::InvalidMetric)
            }
        },
        None => Some(EntryFault::InvalidMetric),
    }
}

/// Builds the sensor that an entry of the configuration describes. An entry
/// that describes none cannot be set up; [`entry_fault`] says why.
pub fn build_sensor(scfg: &SensorEntry) -> (outcome: Result<DhtSensor, SensorError>)
    ensures
        match built(*scfg) {
            Some(view) => outcome matches Ok(sensor) && sensor@ == view,
            None => outcome matches Err(e) && e == SensorError::InitializationError,
        },
        outcome is Err <==> fault_of(*scfg) is Some,
{
    if !(scfg.kind == String::from_str("dht")) {
        return Err(SensorError::InitializationError);
    }
    let pin: u8 = match scfg.pin {
        Some(pin) => pin,
        None => {
            return Err(SensorError::InitializationError);
        },
    };
    let model: &String = match &scfg.model {
        Some(model) => model,
        None => {
            return Err(SensorError::InitializationError);
        },
    };
    let metric: DhtMetric = match &scfg.metric {
        Some(name) => {
            if *name == String::from_str("temperature") {
                DhtMetric::Temperature
            } else if *name == String::from_str("humidity") {
                DhtMetric::Humidity
            } else {
                return Err(SensorError::InitializationError);
            }
        },
        None => {
            return Err(SensorError::InitializationError);
        },
    };
    let sensor = match &scfg.unit {
        Some(unit) => DhtSensor::new(
            scfg.id.as_str(),
            pin as u32,
            model.as_str(),
            metric,
            unit.as_str(),
        ),
        None => {
            match metric {
                DhtMetric::Temperature => DhtSensor::new(
                    scfg.id.as_str(),
                    pin as u32,
                    model.as_str(),
                    metric,
                    "Celsius",
                ),
                DhtMetric::Humidity => DhtSensor::new(
                    scfg.id.as_str(),
                    pin as u32,
                    model.as_str(),
                    metric,
                    "%",
                ),
            }
        },
    };
    Ok(sensor)
}

} // verus!
