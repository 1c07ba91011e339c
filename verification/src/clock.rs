//! The wall clock, as whole seconds since the Unix epoch.

use vstd::prelude::*;

verus! {

/// No reading of the clock is at or beyond this many seconds after the epoch.
pub const CLOCK_LIMIT: u64 = 185_542_587_187_200;

/// Reads the wall clock through `chrono::Utc::now().timestamp()`.
///
/// Trusted: `Utc::now` panics when the system time lies before the epoch, and
/// it builds its value with `DateTime::from_timestamp`, which refuses a day
/// count above `i32::MAX`; hence the seconds are never negative and stay
/// below `2^31` days. Nothing else is claimed: two readings may differ.
#[verifier::external_body]
fn utc_timestamp() -> (t: i64)
    ensures
        0 <= t < CLOCK_LIMIT,
{
    chrono::Utc::now().timestamp()
}

/// The current time in seconds since the epoch.
pub fn unix_now() -> (now: u64)
    ensures
        now < CLOCK_LIMIT,
{
    let t: i64 = utc_timestamp();
    t as u64
}

/// The current time as text, in the form in which `chrono` displays a UTC
/// instant; read through `chrono::Utc::now().to_string()`.
///
/// Trusted: nothing is claimed of the text, which differs from call to call.
#[verifier::external_body]
pub(crate) fn utc_now_text() -> (text: String) {
    chrono::Utc::now().to_string()
}

/// The current time as text, in the form of RFC 3339; read through
/// `chrono::Utc::now().to_rfc3339()`.
///
/// Trusted: nothing is claimed of the text, which differs from call to call.
#[verifier::external_body]
pub(crate) fn utc_now_rfc3339() -> (text: String) {
    chrono::Utc::now().to_rfc3339()
}

} // verus!
