//! The current time, as the entities keep it: nanoseconds since the Unix
//! epoch, UTC.

use vstd::prelude::*;
use crate::outside::{utc_now, LATEST_UTC_SECONDS};

verus! {

/// The latest nanosecond that the clock can report.
pub open spec fn latest_nanos() -> int {
    LATEST_UTC_SECONDS * 1_000_000_000 + 999_999_999
}

/// The current time in nanoseconds since the Unix epoch, UTC.
pub fn now_nanos() -> (t: i128)
    ensures
        0 <= t <= latest_nanos(),
{
    let (secs, nanos) = utc_now();
    secs as i128 * 1_000_000_000 + nanos as i128
}

} // verus!
