//! The system clock.
use std::time::{Duration, SystemTime, SystemTimeError, UNIX_EPOCH};
use vstd::prelude::*;

verus! {

/// A moment of the system clock. Nothing in this crate looks inside one.
#[verifier::external_type_specification]
#[verifier::external_body]
pub struct ExSystemTime(SystemTime);

/// What `SystemTime::duration_since` fails with: the moment lies before the
/// one it was measured from.
#[verifier::external_type_specification]
#[verifier::external_body]
pub struct ExSystemTimeError(SystemTimeError);

/// Reads the system clock, by `SystemTime::now`. What it returns depends on
/// the machine and the moment, so the contract is silent on it.
#[verifier::external_body]
pub(crate) fn now() -> SystemTime {
    SystemTime::now()
}

/// The time from the first moment of 1970 to `moment`, by
/// `SystemTime::duration_since` with `UNIX_EPOCH`; an error where `moment`
/// lies before that. The contract is silent on the result.
#[verifier::external_body]
pub(crate) fn since_epoch(moment: &SystemTime) -> Result<Duration, SystemTimeError> {
    moment.duration_since(UNIX_EPOCH)
}

/// The whole seconds that `Duration::as_secs` gives for a span of time: the
/// span's length in seconds, its fraction of a second left out.
pub uninterp spec fn seconds_of(span: Duration) -> u64;

/// The whole seconds of a span of time, by `Duration::as_secs`. The result
/// is a function of the span alone; the contract gives it its name and says
/// no more of it.
#[verifier::external_body]
pub(crate) fn whole_seconds(span: &Duration) -> (secs: u64)
    ensures
        secs == seconds_of(*span),
{
    span.as_secs()
}

/// Seconds since the first moment of 1970 by the system clock; `None` where
/// the clock stands before that moment. The clock decides both, so nothing
/// is promised here; [`seconds_since`] says what is made of its answer.
pub fn unix_seconds() -> Option<u64> {
    let moment = now();
    seconds_since(since_epoch(&moment))
}

/// What is made of a measurement from the first moment of 1970: the whole
/// seconds of the span where there is one, and nothing where the moment
/// measured lay before 1970.
pub fn seconds_since(measured: Result<Duration, SystemTimeError>) -> (seconds: Option<u64>)
    ensures
        seconds == match measured {
            Ok(span) => Some(seconds_of(span)),
            Err(_) => None::<u64>,
        },
{
    match measured {
        Ok(span) => Some(whole_seconds(&span)),
        Err(_) => None,
    }
}

} // verus!
