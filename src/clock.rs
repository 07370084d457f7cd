//! The wall clock.

use vstd::prelude::*;

verus! {

/// Relies on `std::time::SystemTime::now`, chrono's
/// `From<SystemTime> for DateTime<Utc>` and `DateTime::timestamp`: whole
/// seconds since the Unix epoch, negative for a clock set before it. The value
/// depends on the moment of the call, so nothing is promised of it.
#[verifier::external_body]
fn read_clock() -> (r: i64) {
    chrono::DateTime::<chrono::Utc>::from(std::time::SystemTime::now()).timestamp()
}

/// Seconds since the Unix epoch; a clock set before the epoch reads as the
/// epoch itself.
pub(crate) fn now_secs() -> (r: i64)
    ensures
        r >= 0,
{
    let t = read_clock();
    if t < 0 {
        0
    } else {
        t
    }
}

} // verus!
