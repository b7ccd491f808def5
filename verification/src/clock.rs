//! The wall clock, read through chrono.

use vstd::prelude::*;

verus! {

/// The last second that chrono's `DateTime<Utc>` represents
/// (262142-12-31T23:59:59Z), as a Unix timestamp.
pub open spec fn max_utc_timestamp() -> int {
    8_210_266_876_799
}

/// Calls chrono's `Utc::now().timestamp()`. Claimed, as chrono's source shows:
/// `Utc::now` panics on a system time before 1970 and on one that `DateTime`
/// cannot hold, so a value that comes back lies between 0 and
/// `max_utc_timestamp()`. Which value comes back depends on the time of the call.
#[verifier::external_body]
pub(crate) fn now_timestamp() -> (t: i64)
    ensures
        0 <= t <= max_utc_timestamp(),
{
    chrono::Utc::now().timestamp()
}

} // verus!
