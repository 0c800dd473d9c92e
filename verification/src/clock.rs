//! The wall clock, in whole seconds.

use vstd::prelude::*;

verus! {

/// One more than the largest timestamp that the clock can give.
pub const CLOCK_LIMIT: i64 = 0x1_0000_0000_0000;

/// The current time in seconds since 1970-01-01 00:00:00 UTC.
///
/// Calls `chrono::Utc::now()` and `DateTime::timestamp()`. Nothing is claimed of
/// which moment comes back. The bounds are chrono's: `now` takes the seconds
/// since the epoch from an unsigned count, and builds the date from a day number
/// that fits in 32 bits, so the timestamp is below 2^31 days' worth of seconds.
#[verifier::external_body]
pub(crate) fn unix_now() -> (now: i64)
    ensures
        0 <= now < CLOCK_LIMIT,
{
    chrono::Utc::now().timestamp()
}

} // verus!
