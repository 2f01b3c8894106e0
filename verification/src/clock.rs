//! The wall clock, read in whole seconds.

use vstd::prelude::*;

verus! {

/// Seconds since the Unix epoch.
pub type Timestamp = i64;

/// The current time, from `chrono::Utc::now().timestamp()`.
///
/// Trusted: `Utc::now` takes the system time as a duration since the epoch,
/// and fails where the clock stands before it, so a reading is never
/// negative. Nothing else is known of the value: two readings may differ in
/// either direction.
#[verifier::external_body]
pub(crate) fn unix_now() -> (now: i64)
    ensures
        0 <= now,
{
    chrono::Utc::now().timestamp()
}

} // verus!
