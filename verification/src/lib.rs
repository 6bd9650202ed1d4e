//! Core of a personal weekly/yearly planner: fractional-indexing ordering
//! keys for user-reorderable lists, and a multi-calendar date engine that
//! turns an absolute day counter into localized dates and week windows.

use vstd::prelude::*;

pub mod calendar;
pub mod config;
pub mod error;
pub mod language;
pub mod models;
pub mod names;
pub mod ordering;
pub mod text;
pub mod time;
pub mod today;
pub mod week;
pub mod week_info;
pub mod weekdays;
pub mod year;

verus! {

/// Day of week for a given absolute day index, anchored at the epoch:
/// day 0 is a Thursday, so index 0 stands for Thursday, 1 for Friday,
/// and so on through 6 for Wednesday.
pub open spec fn weekday_index_of_day(day: int) -> int {
    ((day % 7) + 7) % 7
}

} // verus!
