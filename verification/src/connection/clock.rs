//! Time in milliseconds: monotonic, measured from an origin taken when a
//! connection object is created, and wall-clock, since the Unix epoch.
use std::time::{Duration, Instant, SystemTime, UNIX_EPOCH};
use vstd::prelude::*;

verus! {

#[verifier::external_type_specification]
#[verifier::external_body]
pub struct ExInstant(Instant);

#[verifier::external_type_specification]
#[verifier::external_body]
pub struct ExSystemTime(SystemTime);

/// `SystemTime::now`: the current wall-clock time. Nothing is stated of it:
/// it depends on the time of the call and the machine's clock.
#[verifier::external_body]
pub(crate) fn system_now() -> SystemTime {
    SystemTime::now()
}

/// `SystemTime::duration_since` the Unix epoch; none for a time before it.
/// Nothing is stated of the result: a `SystemTime` is opaque here.
#[verifier::external_body]
pub(crate) fn since_epoch(t: &SystemTime) -> Option<Duration> {
    t.duration_since(UNIX_EPOCH).ok()
}

/// `Instant::now`: the current instant of the monotonic clock. Nothing is
/// stated of it: it depends on the time of the call.
#[verifier::external_body]
pub(crate) fn instant_now() -> Instant {
    Instant::now()
}

/// `Instant::elapsed`: the time passed since `origin`. Nothing is stated of
/// it: it depends on the time of the call.
#[verifier::external_body]
pub(crate) fn elapsed_since(origin: &Instant) -> Duration {
    origin.elapsed()
}

/// `Duration::as_millis`, as a 64-bit count. Nothing is stated of the
/// result: a `Duration` is opaque here.
#[verifier::external_body]
pub(crate) fn duration_millis(d: &Duration) -> u64 {
    d.as_millis() as u64
}

/// Milliseconds passed since `origin`, whatever the clock says.
pub fn millis_since(origin: &Instant) -> u64 {
    let d = elapsed_since(origin);
    duration_millis(&d)
}

/// Milliseconds since the Unix epoch by the wall clock; zero for a clock
/// set before the epoch.
pub fn unix_millis() -> u64 {
    let t = system_now();
    match since_epoch(&t) {
        Some(d) => duration_millis(&d),
        None => 0,
    }
}

} // verus!
