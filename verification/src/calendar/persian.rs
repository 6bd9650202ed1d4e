//! The Persian (Solar-Hijri) calendar: conversion delegated to ptime, with
//! rendering in Farsi and an English fallback.

use vstd::prelude::*;
use crate::calendar::CALENDAR_PERSIAN;
use crate::calendar::Calendar;
use crate::calendar::CalendarView;
use crate::calendar::calendar_view_matches;
use crate::calendar::date_matches;
use crate::calendar::date_view_matches;
use crate::calendar::full_format_string;
use crate::calendar::spec_full_format;
use crate::calendar::weekday_of_day;
use crate::language::Language;
use crate::language::localized_digits;
use crate::names::persian_month_name_en;
use crate::names::persian_month_name_fa;
use crate::names::persian_calendar_name_en;
use crate::names::persian_calendar_name_fa;
use crate::names::season_name_en;
use crate::names::season_name_fa;
use crate::names::spec_persian_month_name_en;
use crate::names::spec_persian_month_name_fa;
use crate::names::spec_persian_calendar_name_en;
use crate::names::spec_persian_calendar_name_fa;
use crate::names::spec_season_name_en;
use crate::names::spec_season_name_fa;
use crate::names::spec_weekday_name_full_en;
use crate::names::spec_weekday_name_full_fa;
use crate::names::spec_weekday_name_half_cap_en;
use crate::names::weekday_name_full_en;
use crate::names::weekday_name_full_fa;
use crate::names::weekday_name_half_cap_en;
use crate::text::i32_to_string;
use crate::text::spec_dec;
use crate::text::spec_udec;
use crate::text::u32_to_string;
use crate::week_info::Date;
use crate::week_info::DateView;
use crate::weekday_index_of_day;

verus! {

/// Tag of the Persian calendar variant.
#[derive(Debug, Clone, Copy, PartialEq, Eq, Structural)]
pub struct PersianCalendar;

/// First absolute day the Persian conversion is used for.  ptime's cycle
/// arithmetic goes wrong several hundred thousand days before the epoch
/// (its truncating divisions drift for dates that far back), so the
/// calendar stops safely short of that.
pub const PERSIAN_MIN_DAY: i32 = -300_000;

/// Last absolute day the Persian conversion is used for.
pub const PERSIAN_MAX_DAY: i32 = 1_000_000;

/// The Persian date of an absolute day: year, then month and day of month
/// counted from one.
pub uninterp spec fn persian_ymd_of(day: int) -> (i32, u32, u32);

/// Relies on ptime::at_utc: the Persian date, in UTC, of the instant lying
/// the given whole number of days after the epoch.  Within the supported
/// range ptime computes the month index in 0..=11 and the day of month in
/// 1..=31; the result depends on the day alone.
#[verifier::external_body]
fn persian_ymd(day: i32) -> (r: (i32, u32, u32))
    requires
        PERSIAN_MIN_DAY <= day <= PERSIAN_MAX_DAY,
    ensures
        r == persian_ymd_of(day as int),
        1 <= r.1 <= 12,
        1 <= r.2 <= 31,
{
    let ts = (day as i64) * 24 * 3600;
    let pdate = ptime::at_utc(time::Timespec::new(ts, 0));
    (pdate.tm_year, (pdate.tm_mon + 1) as u32, pdate.tm_mday as u32)
}

/// Persian month name: Farsi, with an English fallback for every other
/// language.
pub open spec fn spec_month_name(lang: Language, m0: int) -> Seq<char> {
    match lang {
        Language::Farsi => spec_persian_month_name_fa(m0),
        _ => spec_persian_month_name_en(m0),
    }
}

fn month_name(lang: &Language, m0: usize) -> (r: String)
    requires
        m0 < 12,
    ensures
        r@ == spec_month_name(*lang, m0 as int),
{
    match lang {
        Language::Farsi => persian_month_name_fa(m0),
        _ => persian_month_name_en(m0),
    }
}

/// Weekday name shown in the weekday field: the full Farsi name, or the
/// abbreviated uppercase English name for every other language.
pub open spec fn spec_weekday_field_name(lang: Language, w: int) -> Seq<char> {
    match lang {
        Language::Farsi => spec_weekday_name_full_fa(w),
        _ => spec_weekday_name_half_cap_en(w),
    }
}

/// Weekday name used inside the full date line: always a full name.
pub open spec fn spec_weekday_full_name(lang: Language, w: int) -> Seq<char> {
    match lang {
        Language::Farsi => spec_weekday_name_full_fa(w),
        _ => spec_weekday_name_full_en(w),
    }
}

/// Season names shown with the Persian calendar.
pub open spec fn spec_season_name(lang: Language, i: int) -> Seq<char> {
    match lang {
        Language::Farsi => spec_season_name_fa(i),
        _ => spec_season_name_en(i),
    }
}

/// The Persian calendar's title.
pub open spec fn spec_calendar_name(lang: Language) -> Seq<char> {
    match lang {
        Language::Farsi => spec_persian_calendar_name_fa(),
        _ => spec_persian_calendar_name_en(),
    }
}

/// The separator of a full Persian date line: an Arabic comma for Farsi, a
/// Western comma otherwise.
pub open spec fn spec_sep(lang: Language) -> Seq<char> {
    match lang {
        Language::Farsi => "\u{60c} "@,
        _ => ", "@,
    }
}

/// The rendered fields of a Persian date.
pub open spec fn date_view_fields_match(day: int, lang: Language, r: DateView) -> bool {
    &&& r.day@ == localized_digits(lang, spec_udec(persian_ymd_of(day).2 as nat))
    &&& r.month@ == spec_month_name(lang, persian_ymd_of(day).1 - 1)
    &&& r.year@ == localized_digits(lang, spec_dec(persian_ymd_of(day).0 as int))
    &&& r.weekday@ == spec_weekday_field_name(lang, weekday_index_of_day(day))
    &&& r.full_format@ == spec_full_format(
        spec_weekday_full_name(lang, weekday_index_of_day(day)),
        spec_sep(lang),
        r.day@,
        r.month@,
        r.year@,
    )
}

/// The name tables of the Persian calendar's static description.
pub open spec fn calendar_view_names_match(lang: Language, r: CalendarView) -> bool {
    &&& r.calendar == CALENDAR_PERSIAN
    &&& r.calendar_name@ == spec_calendar_name(lang)
    &&& forall|i: int| 0 <= i < 12 ==> (#[trigger] r.months_names@[i])@ == spec_month_name(lang, i)
    &&& forall|i: int| 0 <= i < 4 ==> (#[trigger] r.seasons_names@[i])@ == spec_season_name(lang, i)
}

impl PersianCalendar {
    /// The structured Persian date of an absolute day.
    pub fn new_date(day: i32) -> (r: Date)
        requires
            PERSIAN_MIN_DAY <= day <= PERSIAN_MAX_DAY,
        ensures
            date_matches(Calendar::Persian(PersianCalendar), day as int, r),
            1 <= r.month <= 12,
            1 <= r.day <= 31,
    {
        let (y, m, d) = persian_ymd(day);
        Date {
            calendar: Calendar::Persian(PersianCalendar),
            weekday: weekday_of_day(day),
            day: d,
            month: m,
            year: y,
        }
    }

    /// The rendered Persian date of an absolute day under a language.
    pub fn new_date_view(day: i32, lang: &Language) -> (r: DateView)
        requires
            PERSIAN_MIN_DAY <= day <= PERSIAN_MAX_DAY,
        ensures
            date_view_matches(Calendar::Persian(PersianCalendar), day as int, *lang, r),
    {
        let (y, m, d) = persian_ymd(day);
        let digits = u32_to_string(d);
        let day_str = lang.change_numbers_language(digits.as_str());
        let month_str = month_name(lang, (m - 1) as usize);
        let year_digits = i32_to_string(y);
        let year_str = lang.change_numbers_language(year_digits.as_str());
        let w = weekday_of_day(day);
        let full_weekday = match lang {
            Language::Farsi => weekday_name_full_fa(w as usize),
            _ => weekday_name_full_en(w as usize),
        };
        let sep = match lang {
            Language::Farsi => "\u{60c} ",
            _ => ", ",
        };
        let full = full_format_string(&full_weekday, sep, &day_str, &month_str, &year_str);
        let weekday_str = match lang {
            Language::Farsi => weekday_name_full_fa(w as usize),
            _ => weekday_name_half_cap_en(w as usize),
        };
        DateView {
            unix_day: day,
            day: day_str,
            month: month_str,
            weekday: weekday_str,
            year: year_str,
            full_format: full,
        }
    }

    /// The Persian calendar's static description under a language.
    pub fn get_calendar_view(lang: &Language) -> (r: CalendarView)
        ensures
            calendar_view_matches(Calendar::Persian(PersianCalendar), *lang, r),
    {
        let mut months_names: Vec<String> = Vec::new();
        let mut i: usize = 0;
        while i < 12
            invariant
                0 <= i <= 12,
                months_names@.len() == i,
                forall|j: int|
                    0 <= j < i ==> (#[trigger] months_names@[j])@ == spec_month_name(*lang, j),
            decreases 12 - i,
        {
            months_names.push(month_name(lang, i));
            i += 1;
        }
        let mut seasons_names: Vec<String> = Vec::new();
        let mut i: usize = 0;
        while i < 4
            invariant
                0 <= i <= 4,
                seasons_names@.len() == i,
                forall|j: int|
                    0 <= j < i ==> (#[trigger] seasons_names@[j])@ == spec_season_name(*lang, j),
            decreases 4 - i,
        {
            let s = match lang {
                Language::Farsi => season_name_fa(i),
                _ => season_name_en(i),
            };
            seasons_names.push(s);
            i += 1;
        }
        let calendar_name = match lang {
            Language::Farsi => persian_calendar_name_fa(),
            _ => persian_calendar_name_en(),
        };
        CalendarView {
            calendar: CALENDAR_PERSIAN,
            calendar_name,
            language: lang.to_tag(),
            direction: lang.default_direction(),
            months_names,
            seasons_names,
        }
    }
}

} // verus!
