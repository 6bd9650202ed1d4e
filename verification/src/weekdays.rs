//! Weekdays anchored to the epoch: day 0 of the absolute day counter was
//! a Thursday, so Thursday carries offset 0 and the offsets count forward
//! from there.

use vstd::prelude::*;
use crate::text::str_eq;

verus! {

pub const SEVEN_DAY_WEEK_SIZE: i32 = 7;

/// The seven weekdays, named by their offset from the epoch's Thursday.
#[derive(Debug, Clone, Copy, PartialEq, Eq, Structural)]
pub enum WeekDaysUnixOffset {
    Thu,
    Fri,
    Sat,
    Sun,
    Mon,
    Tue,
    Wed,
}

/// The day offset a weekday stands for.
pub open spec fn spec_weekday_offset(w: WeekDaysUnixOffset) -> int {
    match w {
        WeekDaysUnixOffset::Thu => 0,
        WeekDaysUnixOffset::Fri => 1,
        WeekDaysUnixOffset::Sat => 2,
        WeekDaysUnixOffset::Sun => 3,
        WeekDaysUnixOffset::Mon => 4,
        WeekDaysUnixOffset::Tue => 5,
        WeekDaysUnixOffset::Wed => 6,
    }
}

impl WeekDaysUnixOffset {
    /// The day offset this weekday stands for, 0 through 6 from Thursday.
    pub fn to_offset(&self) -> (r: i32)
        ensures
            r == spec_weekday_offset(*self),
            0 <= r < 7,
    {
        match self {
            WeekDaysUnixOffset::Thu => 0,
            WeekDaysUnixOffset::Fri => 1,
            WeekDaysUnixOffset::Sat => 2,
            WeekDaysUnixOffset::Sun => 3,
            WeekDaysUnixOffset::Mon => 4,
            WeekDaysUnixOffset::Tue => 5,
            WeekDaysUnixOffset::Wed => 6,
        }
    }

    /// The weekday standing at a day offset; Thursday for any value
    /// outside 0 through 6.
    pub fn from_offset(val: i32) -> (r: WeekDaysUnixOffset)
        ensures
            0 <= val < 7 ==> spec_weekday_offset(r) == val,
            !(0 <= val < 7) ==> r == WeekDaysUnixOffset::Thu,
    {
        if val == 1 {
            WeekDaysUnixOffset::Fri
        } else if val == 2 {
            WeekDaysUnixOffset::Sat
        } else if val == 3 {
            WeekDaysUnixOffset::Sun
        } else if val == 4 {
            WeekDaysUnixOffset::Mon
        } else if val == 5 {
            WeekDaysUnixOffset::Tue
        } else if val == 6 {
            WeekDaysUnixOffset::Wed
        } else {
            WeekDaysUnixOffset::Thu
        }
    }

    /// The weekday stored under an uppercase three-letter tag, if the tag
    /// names one.
    pub fn from_name(val: &str) -> (r: Option<WeekDaysUnixOffset>)
        ensures
            r == (if val@ == "THU"@ {
                Some(WeekDaysUnixOffset::Thu)
            } else if val@ == "FRI"@ {
                Some(WeekDaysUnixOffset::Fri)
            } else if val@ == "SAT"@ {
                Some(WeekDaysUnixOffset::Sat)
            } else if val@ == "SUN"@ {
                Some(WeekDaysUnixOffset::Sun)
            } else if val@ == "MON"@ {
                Some(WeekDaysUnixOffset::Mon)
            } else if val@ == "TUE"@ {
                Some(WeekDaysUnixOffset::Tue)
            } else if val@ == "WED"@ {
                Some(WeekDaysUnixOffset::Wed)
            } else {
                None::<WeekDaysUnixOffset>
            }),
    {
        if str_eq(val, "THU") {
            Some(WeekDaysUnixOffset::Thu)
        } else if str_eq(val, "FRI") {
            Some(WeekDaysUnixOffset::Fri)
        } else if str_eq(val, "SAT") {
            Some(WeekDaysUnixOffset::Sat)
        } else if str_eq(val, "SUN") {
            Some(WeekDaysUnixOffset::Sun)
        } else if str_eq(val, "MON") {
            Some(WeekDaysUnixOffset::Mon)
        } else if str_eq(val, "TUE") {
            Some(WeekDaysUnixOffset::Tue)
        } else if str_eq(val, "WED") {
            Some(WeekDaysUnixOffset::Wed)
        } else {
            None
        }
    }
}

} // verus!
