//! Structured and localized dates, and the localized summary of one week.

use vstd::prelude::*;
use crate::calendar::Calendar;
use crate::calendar::date_view_matches;
use crate::calendar::day_supported;
use crate::calendar::lemma_date_view_month_year;
use crate::calendar::spec_month_field;
use crate::calendar::spec_year_field;
use crate::error::Error;
use crate::language::Language;

verus! {

/// A structured date under one calendar: year, month and day of month in
/// that calendar's own reckoning, plus the calendar-independent weekday
/// index (0 stands for Thursday, the epoch day's weekday).
#[derive(Debug, Clone)]
pub struct Date {
    pub calendar: Calendar,
    pub weekday: u32,
    pub day: u32,
    pub month: u32,
    pub year: i32,
}

/// A date rendered for display: every field a localized string, plus the
/// originating absolute day for identity.
#[derive(Debug)]
pub struct DateView {
    pub unix_day: i32,
    pub day: String,
    pub month: String,
    pub weekday: String,
    pub year: String,
    pub full_format: String,
}

/// The month-and-year heading of a span of rendered dates: the month alone
/// when the span stays inside one month of the current year, the two
/// months when it crosses a month boundary inside the current year, and
/// both month-year pairs otherwise.
pub open spec fn spec_month_year_info(
    first_month: Seq<char>,
    first_year: Seq<char>,
    last_month: Seq<char>,
    last_year: Seq<char>,
    today_month: Seq<char>,
    today_year: Seq<char>,
) -> Seq<char> {
    if first_month == last_month && first_year == today_year {
        today_month
    } else if first_month != last_month && first_year == today_year && last_year == today_year {
        first_month + " - "@ + last_month
    } else {
        first_month + " "@ + first_year + " - "@ + last_month + " "@ + last_year
    }
}

/// The localized summary of one week under one calendar and language: its
/// rendered dates in day order and the heading for the span.
#[derive(Debug)]
pub struct WeekInfo {
    pub calendar: Calendar,
    pub language: Language,
    pub dates: Vec<DateView>,
    pub direction: String,
    pub month_year_info: String,
}

impl WeekInfo {
    /// The heading for a non-empty span of rendered dates, against the
    /// rendered date of today.
    pub fn calculate_month_year_info(dates: &Vec<DateView>, today: &DateView) -> (r: String)
        requires
            dates@.len() > 0,
        ensures
            r@ == spec_month_year_info(
                dates@[0].month@,
                dates@[0].year@,
                dates@[dates@.len() - 1].month@,
                dates@[dates@.len() - 1].year@,
                today.month@,
                today.year@,
            ),
    {
        let n = dates.len();
        let first_day_month = &dates[0].month;
        let first_day_year = &dates[0].year;
        let last_day_month = &dates[n - 1].month;
        let last_day_year = &dates[n - 1].year;

        if first_day_month.eq(last_day_month) && first_day_year.eq(&today.year) {
            return today.month.clone();
        }
        if !first_day_month.eq(last_day_month) && first_day_year.eq(&today.year)
            && last_day_year.eq(&today.year) {
            let mut s = first_day_month.clone();
            s.append(" - ");
            s.append(last_day_month.as_str());
            return s;
        }
        let mut s = first_day_month.clone();
        s.append(" ");
        s.append(first_day_year.as_str());
        s.append(" - ");
        s.append(last_day_month.as_str());
        s.append(" ");
        s.append(last_day_year.as_str());
        s
    }
}

/// What a week's localized summary holds for a window, a day standing for
/// today, and a calendar-language pair.
pub open spec fn week_info_matches(
    w: WeekInfo,
    start_day: int,
    end_day: int,
    today: int,
    calendar: Calendar,
    language: Language,
) -> bool {
    &&& w.calendar == calendar
    &&& w.language == language
    &&& w.direction@ == (match calendar {
        Calendar::Gregorian(_) => "ltr"@,
        Calendar::Persian(_) => "rtl"@,
        Calendar::Chinese(_) => "ltr"@,
        Calendar::Arabic(_) => "rtl"@,
    })
    &&& w.dates@.len() == end_day - start_day + 1
    &&& forall|i: int|
        0 <= i < w.dates@.len() ==> date_view_matches(
            calendar,
            start_day + i,
            language,
            #[trigger] w.dates@[i],
        )
    &&& w.month_year_info@ == spec_month_year_info(
        spec_month_field(calendar, start_day, language),
        spec_year_field(calendar, start_day, language),
        spec_month_field(calendar, end_day, language),
        spec_year_field(calendar, end_day, language),
        spec_month_field(calendar, today, language),
        spec_year_field(calendar, today, language),
    )
}

/// Two week summaries that hold the same rendered content.
pub open spec fn week_info_equiv(a: WeekInfo, b: WeekInfo) -> bool {
    &&& a.calendar == b.calendar
    &&& a.language == b.language
    &&& a.dates@ == b.dates@
    &&& a.direction == b.direction
    &&& a.month_year_info == b.month_year_info
}

impl Clone for DateView {
    fn clone(&self) -> (r: Self)
        ensures
            r == *self,
    {
        DateView {
            unix_day: self.unix_day,
            day: self.day.clone(),
            month: self.month.clone(),
            weekday: self.weekday.clone(),
            year: self.year.clone(),
            full_format: self.full_format.clone(),
        }
    }
}

impl Clone for WeekInfo {
    fn clone(&self) -> (r: Self)
        ensures
            r.calendar == self.calendar,
            r.language == self.language,
            r.dates@ == self.dates@,
            r.direction == self.direction,
            r.month_year_info == self.month_year_info,
    {
        let mut dates: Vec<DateView> = Vec::new();
        let n = self.dates.len();
        let mut i: usize = 0;
        while i < n
            invariant
                0 <= i <= n,
                n == self.dates@.len(),
                dates@.len() == i,
                forall|j: int| 0 <= j < i ==> dates@[j] == self.dates@[j],
            decreases n - i,
        {
            dates.push(self.dates[i].clone());
            i += 1;
        }
        proof {
            assert(dates@ =~= self.dates@);
        }
        WeekInfo {
            calendar: self.calendar,
            language: self.language,
            dates,
            direction: self.direction.clone(),
            month_year_info: self.month_year_info.clone(),
        }
    }
}

impl WeekInfo {
    /// The localized summary of the week running from `start_day` through
    /// `end_day`, rendered under one calendar and language, with the
    /// heading judged against today's date.  An inverted or over-long
    /// range is rejected.
    pub fn from_unix_start_end_days(
        start_day: i32,
        end_day: i32,
        today: i32,
        calendar: Calendar,
        language: Language,
    ) -> (r: Result<WeekInfo, Error>)
        requires
            day_supported(calendar, start_day as int),
            day_supported(calendar, end_day as int),
            day_supported(calendar, today as int),
        ensures
            r is Ok <==> start_day <= end_day && end_day - start_day <= 20,
            start_day > end_day <==> (r matches Err(e) && e is BadDaysRangeError),
            start_day <= end_day && end_day - start_day > 20 <==> (r matches Err(e)
                && e matches Error::LongDaysRangeError(n) && n == end_day - start_day),
            r matches Ok(w) ==> week_info_matches(
                w,
                start_day as int,
                end_day as int,
                today as int,
                calendar,
                language,
            ),
    {
        let direction = calendar.into_direction();
        let dates = match calendar.get_dates_view(start_day, end_day, &language) {
            Ok(d) => d,
            Err(e) => {
                return Err(e);
            },
        };
        let today_view = calendar.get_date_view(today, &language);
        let month_year_info = Self::calculate_month_year_info(&dates, &today_view);
        proof {
            lemma_date_view_month_year(calendar, start_day as int, language, dates@[0]);
            lemma_date_view_month_year(
                calendar,
                end_day as int,
                language,
                dates@[dates@.len() - 1],
            );
            lemma_date_view_month_year(calendar, today as int, language, today_view);
        }
        Ok(
            WeekInfo {
                calendar,
                dates,
                direction,
                language,
                month_year_info,
            },
        )
    }
}

} // verus!
