//! The wall clock, in whole seconds since the Unix epoch.
use vstd::prelude::*;

verus! {

/// Relies on `chrono::Utc::now` and `DateTime::timestamp`: the current time
/// in whole seconds since the Unix epoch. `Utc::now` panics when the system
/// clock reads before the epoch, so a returned value is never negative.
#[verifier::external_body]
fn utc_timestamp() -> (r: i64)
    ensures
        r >= 0,
{
    chrono::Utc::now().timestamp()
}

/// The current time in seconds since the Unix epoch.
pub fn unix_now() -> (r: u64)
    ensures
        r <= i64::MAX as u64,
{
    let t = utc_timestamp();
    t as u64
}

} // verus!
