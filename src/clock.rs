//! Wall-clock readings.
use vstd::prelude::*;

verus! {

/// Relies on `std::time::SystemTime::elapsed`, measured from `UNIX_EPOCH`:
/// nanoseconds since the Unix epoch, or zero when the clock reads earlier.
/// Nothing is promised of the value: it depends on the machine's clock.
#[verifier::external_body]
pub(crate) fn unix_time_nanos() -> (r: u128) {
    std::time::UNIX_EPOCH.elapsed().map(|d| d.as_nanos()).unwrap_or(0)
}

/// Whole seconds in `nanos` nanoseconds, capped at `u64::MAX`.
pub open spec fn seconds_of(nanos: u128) -> u64 {
    if nanos / 1_000_000_000 > u64::MAX as u128 {
        u64::MAX
    } else {
        (nanos / 1_000_000_000) as u64
    }
}

/// Whole seconds in `nanos` nanoseconds, capped at `u64::MAX`.
pub fn seconds_from_nanos(nanos: u128) -> (r: u64)
    ensures
        r == seconds_of(nanos),
{
    let secs = nanos / 1_000_000_000;
    if secs > u64::MAX as u128 {
        u64::MAX
    } else {
        secs as u64
    }
}

/// Seconds since the Unix epoch, as the clock reads now.
pub fn current_timestamp() -> (r: u64)
    ensures
        exists|n: u128| r == seconds_of(n),
{
    let n = unix_time_nanos();
    seconds_from_nanos(n)
}

} // verus!
