//! Readings and the ways in which taking one can fail.
use vstd::prelude::*;

verus! {

/// What a sensor hands over when it is read.
///
/// `Float` carries an IEEE 754 single-precision number as its bit pattern, so
/// that a reading can pass through code that never computes on it.
#[derive(Debug, PartialEq, Eq)]
pub enum SensorOutput {
    /// A logical value, such as presence detected or not.
    Bool(bool),
    /// A whole number, such as a count.
    Int(i64),
    /// The 32 bits of a single-precision number.
    Float(u32),
    /// Free text.
    Text(String),
    /// Bytes as they came.
    Bytes(Vec<u8>),
}

/// The mathematical value of a [`SensorOutput`].
pub enum OutputView {
    Bool(bool),
    Int(int),
    Float(u32),
    Text(Seq<char>),
    Bytes(Seq<u8>),
}

impl View for SensorOutput {
    type V = OutputView;

    open spec fn view(&self) -> OutputView {
        match *self {
            SensorOutput::Bool(b) => OutputView::Bool(b),
            SensorOutput::Int(n) => OutputView::Int(n as int),
            SensorOutput::Float(bits) => OutputView::Float(bits),
            SensorOutput::Text(s) => OutputView::Text(s@),
            SensorOutput::Bytes(v) => OutputView::Bytes(v@),
        }
    }
}

impl Clone for SensorOutput {
    fn clone(&self) -> (copy: Self)
        ensures
            copy@ == self@,
    {
        match self {
            SensorOutput::Bool(b) => SensorOutput::Bool(*b),
            SensorOutput::Int(n) => SensorOutput::Int(*n),
            SensorOutput::Float(bits) => SensorOutput::Float(*bits),
            SensorOutput::Text(s) => SensorOutput::Text(s.clone()),
            SensorOutput::Bytes(v) => SensorOutput::Bytes(v.clone()),
        }
    }
}

/// Why a sensor could not be read.
#[derive(Debug, Clone, Copy, PartialEq, Eq, Structural)]
pub enum SensorError {
    /// The pin or the file under the sensor reported a failure.
    IoError,
    /// An expected answer did not come in time.
    Timeout,
    /// What was read is corrupt or cannot be interpreted.
    InvalidData,
    /// The sensor could not be set up.
    InitializationError,
}

} // verus!
