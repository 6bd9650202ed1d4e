//! Absolute days from wall-clock seconds.
//!
//! A moment is assigned to the day obtained by shifting its epoch seconds
//! by the observer's UTC offset and truncating to whole days in that local
//! civil time, so the same instant can land on different absolute days for
//! observers in different zones; that is intentional for a planner.

use vstd::prelude::*;

verus! {

/// Whole days in a span of seconds, truncated toward zero.
pub open spec fn spec_trunc_days(total_seconds: int) -> int {
    if total_seconds >= 0 {
        total_seconds / 86400
    } else {
        -((-total_seconds) / 86400)
    }
}

/// The absolute day of the instant `utc_epoch_seconds` for an observer
/// whose local time runs `local_offset_seconds` ahead of UTC.
pub fn unix_day_from_epoch_seconds(utc_epoch_seconds: i64, local_offset_seconds: i32) -> (r: i32)
    requires
        -8_000_000_000_000 <= utc_epoch_seconds <= 8_000_000_000_000,
    ensures
        r == spec_trunc_days(utc_epoch_seconds + local_offset_seconds),
{
    let total: i64 = utc_epoch_seconds + local_offset_seconds as i64;
    if total >= 0 {
        (total as u64 / 86400) as i32
    } else {
        let days = (-total) as u64 / 86400;
        -(days as i32)
    }
}

} // verus!
