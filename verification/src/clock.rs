//! The wall clock, in whole seconds since the Unix epoch.

use vstd::prelude::*;

verus! {

/// No reading of the clock reaches this count of seconds: its day number
/// would not fit 32 bits.
pub const CLOCK_LIMIT: i64 = 185_480_451_504_000;

/// Whether `now` is a reading that the clock can give.
pub open spec fn clock_reading(now: i64) -> bool {
    0 <= now < CLOCK_LIMIT
}

/// `chrono::Utc::now().timestamp()`. The reading differs from call to call,
/// so it has no name. `Utc::now` panics where the system clock stands before
/// 1970, and nothing here can exclude that. What it returns it has built
/// with `DateTime::from_timestamp` from a count of seconds since the epoch
/// that is not negative and whose day number, counted from year 1, fits 32
/// bits; `timestamp` gives that count back.
#[verifier::external_body]
pub(crate) fn unix_now() -> (r: i64)
    ensures
        clock_reading(r),
{
    chrono::Utc::now().timestamp()
}

} // verus!
