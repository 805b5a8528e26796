//! The wall clock, as the gateway reads it.

use vstd::prelude::*;

verus! {

/// An upper bound on every Unix timestamp that the clock can report.
pub const CLOCK_LIMIT: i64 = 0x800_0000_0000;

/// The longest time to live, in seconds, that can be added to a clock
/// reading without leaving the range of timestamps.
pub const MAX_TTL_SECS: u64 = 0x7fff_f7ff_ffff_ffff;

/// Whether `t` is a timestamp that the clock can report.
pub open spec fn is_clock_reading(t: i64) -> bool {
    0 <= t < CLOCK_LIMIT
}

/// `chrono::Utc::now().timestamp()`: the current Unix time in seconds.
///
/// Nothing is claimed of the reading but its range: `Utc::now` refuses a
/// system time before the epoch, and chrono's years fit in 19 bits, so a
/// timestamp stays below 2^43 seconds.
#[verifier::external_body]
pub(crate) fn unix_now() -> (t: i64)
    ensures
        is_clock_reading(t),
{
    chrono::Utc::now().timestamp()
}

/// `SystemTime::now().duration_since(UNIX_EPOCH)`, in whole seconds: the
/// time since the Unix epoch by the system clock, and zero where that
/// clock stands before the epoch. Nothing is claimed of the reading.
#[verifier::external_body]
pub(crate) fn system_secs() -> (t: u64) {
    std::time::SystemTime::now().duration_since(std::time::UNIX_EPOCH).unwrap_or_default().as_secs()
}

/// The current Unix time in seconds.
pub fn now() -> (t: i64)
    ensures
        is_clock_reading(t),
{
    unix_now()
}

} // verus!
