//! The wall clock, read through the trusted clock wrapper.
use vstd::prelude::*;
use crate::platform::system_clock_secs;

verus! {

/// The timestamp of a clock reading in whole seconds since the Unix epoch:
/// the seconds as an `i64` (wrapping, as an `as` conversion does), or zero for
/// a reading before the epoch.
pub fn timestamp_of(reading: Option<u64>) -> (r: i64)
    ensures
        r == match reading {
            Some(s) => s as i64,
            None => 0,
        },
{
    match reading {
        Some(s) => #[verifier::truncate] (s as i64),
        None => 0,
    }
}

/// The current Unix timestamp in seconds (zero if the clock reads before the
/// epoch): `timestamp_of` a reading of the system clock. The reading depends on
/// the time, so nothing is claimed of the result.
pub fn current_timestamp() -> i64 {
    timestamp_of(system_clock_secs())
}

} // verus!
