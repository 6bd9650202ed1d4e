//! Today's date, structured and rendered under the configured calendars.

use vstd::prelude::*;
use crate::calendar::CalendarLanguagePair;
use crate::calendar::date_matches;
use crate::calendar::date_view_matches;
use crate::calendar::day_supported;
use crate::week_info::Date;
use crate::week_info::DateView;

verus! {

/// Today under the configured calendars: the structured date of the main
/// calendar, and its rendering under the main and, when configured, the
/// secondary calendar-language pair.
#[derive(Debug, Clone)]
pub struct Today {
    pub main_date: Date,
    pub main_date_view: DateView,
    pub aux_date_view: Option<DateView>,
}

/// What a `Today` value holds for a given day and pair of configurations.
pub open spec fn today_matches(
    day: int,
    main_pair: CalendarLanguagePair,
    aux_pair: Option<CalendarLanguagePair>,
    t: Today,
) -> bool {
    &&& date_matches(main_pair.calendar, day, t.main_date)
    &&& date_view_matches(main_pair.calendar, day, main_pair.language, t.main_date_view)
    &&& (t.aux_date_view is Some <==> aux_pair is Some)
    &&& (t.aux_date_view matches Some(v) ==> (aux_pair matches Some(p) ==> date_view_matches(
        p.calendar,
        day,
        p.language,
        v,
    )))
}

impl Today {
    /// Today's dates, computed from the absolute day of today and the
    /// configured calendar-language pairs.
    pub fn from_unix_day(
        day: i32,
        main_pair: &CalendarLanguagePair,
        aux_pair: &Option<CalendarLanguagePair>,
    ) -> (r: Today)
        requires
            day_supported(main_pair.calendar, day as int),
            aux_pair matches Some(p) ==> day_supported(p.calendar, day as int),
        ensures
            today_matches(day as int, *main_pair, *aux_pair, r),
    {
        let main_date = main_pair.calendar.get_date(day);
        let main_date_view = main_pair.calendar.get_date_view(day, &main_pair.language);
        let aux_date_view = match aux_pair {
            Some(p) => Some(p.calendar.get_date_view(day, &p.language)),
            None => None,
        };
        Today { main_date, main_date_view, aux_date_view }
    }

    /// Recompute today's dates in place.
    pub fn update(
        &mut self,
        day: i32,
        main_pair: &CalendarLanguagePair,
        aux_pair: &Option<CalendarLanguagePair>,
    )
        requires
            day_supported(main_pair.calendar, day as int),
            aux_pair matches Some(p) ==> day_supported(p.calendar, day as int),
        ensures
            today_matches(day as int, *main_pair, *aux_pair, *final(self)),
    {
        *self = Today::from_unix_day(day, main_pair, aux_pair);
    }
}

} // verus!
