use vstd::prelude::*;
use crate::text::{decimal_string, decimal_text};

verus! {

#[verifier::external_type_specification]
#[verifier::external_body]
pub struct ExSystemTime(std::time::SystemTime);

#[verifier::external_type_specification]
#[verifier::external_body]
pub struct ExSystemTimeError(std::time::SystemTimeError);

/// Calls `std::time::SystemTime::now`. The instant depends on the machine's
/// clock, so nothing is claimed of it.
#[verifier::external_body]
fn system_clock_now() -> std::time::SystemTime {
    std::time::SystemTime::now()
}

/// Calls `SystemTime::duration_since` with `UNIX_EPOCH`: `Ok` with the time
/// elapsed since the epoch, or `Err` when the instant lies before it. Both
/// values are opaque here, so no clause is stated.
#[verifier::external_body]
fn since_unix_epoch(t: &std::time::SystemTime) -> Result<std::time::Duration, std::time::SystemTimeError> {
    t.duration_since(std::time::UNIX_EPOCH)
}

/// Calls `Duration::as_secs`, the whole seconds of a duration. A `Duration`
/// is opaque to the verifier, so the count is left unstated.
#[verifier::external_body]
fn whole_seconds(d: &std::time::Duration) -> u64 {
    d.as_secs()
}

/// Seconds since the Unix epoch by the system clock, or zero when the clock
/// reads an instant before the epoch.
pub fn now_epoch() -> u64 {
    let now = system_clock_now();
    match since_unix_epoch(&now) {
        Ok(elapsed) => whole_seconds(&elapsed),
        Err(_) => 0,
    }
}

/// The current time as decimal epoch seconds, the form in which a sweep
/// time is recorded.
pub fn chrono_now() -> (stamp: String)
    ensures
        exists|t: u64| stamp@ == decimal_text(t as nat),
{
    let epoch: u64 = now_epoch();
    decimal_string(epoch)
}

} // verus!
