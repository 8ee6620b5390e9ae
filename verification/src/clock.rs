//! The wall clock, read in whole seconds.
use vstd::prelude::*;

verus! {

/// Seconds in one day.
pub const DAY_SECONDS: i64 = 86_400;

/// Calls `chrono::Utc::now()` and `DateTime::timestamp()` on what it gives:
/// the current time in whole seconds since the Unix epoch. Nothing is
/// claimed of the value, which differs from call to call. chrono panics
/// when the system clock is set before the epoch.
#[verifier::external_body]
pub(crate) fn utcNow() -> i64 {
    chrono::Utc::now().timestamp()
}

} // verus!
