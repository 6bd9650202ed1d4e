//! The Gregorian calendar: civil solar calendar arithmetic, delegated to
//! chrono, with localized rendering in all four languages.

use vstd::prelude::*;
use chrono::Datelike;
use crate::calendar::CALENDAR_GREGORIAN;
use crate::calendar::Calendar;
use crate::calendar::CalendarView;
use crate::calendar::calendar_view_matches;
use crate::calendar::date_matches;
use crate::calendar::date_view_matches;
use crate::calendar::full_format_string;
use crate::calendar::spec_full_format;
use crate::calendar::weekday_of_day;
use crate::language::Language;
use crate::language::localized_digits;
use crate::names::gregorian_month_name_ar;
use crate::names::gregorian_month_name_en;
use crate::names::gregorian_month_name_fa;
use crate::names::gregorian_month_name_zh;
use crate::names::gregorian_calendar_name_ar;
use crate::names::gregorian_calendar_name_en;
use crate::names::gregorian_calendar_name_fa;
use crate::names::gregorian_calendar_name_zh;
use crate::names::season_name_ar;
use crate::names::season_name_en;
use crate::names::season_name_fa;
use crate::names::season_name_zh;
use crate::names::spec_gregorian_month_name_ar;
use crate::names::spec_gregorian_month_name_en;
use crate::names::spec_gregorian_month_name_fa;
use crate::names::spec_gregorian_month_name_zh;
use crate::names::spec_gregorian_calendar_name_ar;
use crate::names::spec_gregorian_calendar_name_en;
use crate::names::spec_gregorian_calendar_name_fa;
use crate::names::spec_gregorian_calendar_name_zh;
use crate::names::spec_season_name_ar;
use crate::names::spec_season_name_en;
use crate::names::spec_season_name_fa;
use crate::names::spec_season_name_zh;
use crate::names::spec_weekday_name_full_ar;
use crate::names::spec_weekday_name_full_cn;
use crate::names::spec_weekday_name_full_en;
use crate::names::spec_weekday_name_full_fa;
use crate::names::weekday_name_full_ar;
use crate::names::weekday_name_full_cn;
use crate::names::weekday_name_full_en;
use crate::names::weekday_name_full_fa;
use crate::text::i32_to_string;
use crate::text::spec_dec;
use crate::text::spec_udec;
use crate::text::u32_to_string;
use crate::week_info::Date;
use crate::week_info::DateView;
use crate::weekday_index_of_day;

verus! {

/// Tag of the Gregorian calendar variant.
#[derive(Debug, Clone, Copy, PartialEq, Eq, Structural)]
pub struct GregorianCalendar;

/// The Gregorian civil date of an absolute day: year, then month and day
/// of month counted from one.
pub uninterp spec fn greg_ymd_of(day: int) -> (i32, u32, u32);

/// Relies on chrono (DateTime::from_timestamp and the Datelike accessors):
/// the Gregorian civil date, in UTC, of the instant lying the given whole
/// number of days after the epoch.  chrono documents the month in 1..=12
/// and the day of month in 1..=31; the result depends on the day alone.
#[verifier::external_body]
fn gregorian_ymd(day: i32) -> (r: (i32, u32, u32))
    requires
        -1_000_000 <= day <= 1_000_000,
    ensures
        r == greg_ymd_of(day as int),
        1 <= r.1 <= 12,
        1 <= r.2 <= 31,
{
    let sec: i64 = (day as i64) * 24 * 3600;
    let datetime = chrono::DateTime::from_timestamp(sec, 0).expect("day is in range");
    (datetime.year(), datetime.month(), datetime.day())
}

/// Gregorian month name under each language.
pub open spec fn spec_month_name(lang: Language, m0: int) -> Seq<char> {
    match lang {
        Language::English => spec_gregorian_month_name_en(m0),
        Language::Farsi => spec_gregorian_month_name_fa(m0),
        Language::Chinese => spec_gregorian_month_name_zh(m0),
        Language::Arabic => spec_gregorian_month_name_ar(m0),
    }
}

fn month_name(lang: &Language, m0: usize) -> (r: String)
    requires
        m0 < 12,
    ensures
        r@ == spec_month_name(*lang, m0 as int),
{
    match lang {
        Language::English => gregorian_month_name_en(m0),
        Language::Farsi => gregorian_month_name_fa(m0),
        Language::Chinese => gregorian_month_name_zh(m0),
        Language::Arabic => gregorian_month_name_ar(m0),
    }
}

/// Weekday name shown with Gregorian dates: the full name under every
/// language.
pub open spec fn spec_weekday_name(lang: Language, w: int) -> Seq<char> {
    match lang {
        Language::English => spec_weekday_name_full_en(w),
        Language::Farsi => spec_weekday_name_full_fa(w),
        Language::Chinese => spec_weekday_name_full_cn(w),
        Language::Arabic => spec_weekday_name_full_ar(w),
    }
}

fn weekday_name(lang: &Language, w: usize) -> (r: String)
    requires
        w < 7,
    ensures
        r@ == spec_weekday_name(*lang, w as int),
{
    match lang {
        Language::English => weekday_name_full_en(w),
        Language::Farsi => weekday_name_full_fa(w),
        Language::Chinese => weekday_name_full_cn(w),
        Language::Arabic => weekday_name_full_ar(w),
    }
}

/// Season names shown with the Gregorian calendar.
pub open spec fn spec_season_name(lang: Language, i: int) -> Seq<char> {
    match lang {
        Language::English => spec_season_name_en(i),
        Language::Farsi => spec_season_name_fa(i),
        Language::Chinese => spec_season_name_zh(i),
        Language::Arabic => spec_season_name_ar(i),
    }
}

fn season_name(lang: &Language, i: usize) -> (r: String)
    requires
        i < 4,
    ensures
        r@ == spec_season_name(*lang, i as int),
{
    match lang {
        Language::English => season_name_en(i),
        Language::Farsi => season_name_fa(i),
        Language::Chinese => season_name_zh(i),
        Language::Arabic => season_name_ar(i),
    }
}

/// The Gregorian calendar's title under each language.
pub open spec fn spec_calendar_name(lang: Language) -> Seq<char> {
    match lang {
        Language::English => spec_gregorian_calendar_name_en(),
        Language::Farsi => spec_gregorian_calendar_name_fa(),
        Language::Chinese => spec_gregorian_calendar_name_zh(),
        Language::Arabic => spec_gregorian_calendar_name_ar(),
    }
}

/// The separator of a full Gregorian date line: an Arabic comma for Farsi
/// and Arabic, a Western comma otherwise.
pub open spec fn spec_sep(lang: Language) -> Seq<char> {
    match lang {
        Language::Farsi => "\u{60c} "@,
        Language::Arabic => "\u{60c} "@,
        _ => ", "@,
    }
}

/// The rendered fields of a Gregorian date: localized digits for day and
/// year, the month and weekday names under the language.
pub open spec fn date_view_fields_match(day: int, lang: Language, r: DateView) -> bool {
    &&& r.day@ == localized_digits(lang, spec_udec(greg_ymd_of(day).2 as nat))
    &&& r.month@ == spec_month_name(lang, greg_ymd_of(day).1 - 1)
    &&& r.year@ == localized_digits(lang, spec_dec(greg_ymd_of(day).0 as int))
    &&& r.weekday@ == spec_weekday_name(lang, weekday_index_of_day(day))
    &&& r.full_format@ == spec_full_format(r.weekday@, spec_sep(lang), r.day@, r.month@, r.year@)
}

/// The name tables of the Gregorian calendar's static description.
pub open spec fn calendar_view_names_match(lang: Language, r: CalendarView) -> bool {
    &&& r.calendar == CALENDAR_GREGORIAN
    &&& r.calendar_name@ == spec_calendar_name(lang)
    &&& forall|i: int| 0 <= i < 12 ==> (#[trigger] r.months_names@[i])@ == spec_month_name(lang, i)
    &&& forall|i: int| 0 <= i < 4 ==> (#[trigger] r.seasons_names@[i])@ == spec_season_name(lang, i)
}

impl GregorianCalendar {
    /// The structured Gregorian date of an absolute day.
    pub fn new_date(day: i32) -> (r: Date)
        requires
            -1_000_000 <= day <= 1_000_000,
        ensures
            date_matches(Calendar::Gregorian(GregorianCalendar), day as int, r),
            1 <= r.month <= 12,
            1 <= r.day <= 31,
    {
        let (y, m, d) = gregorian_ymd(day);
        Date {
            calendar: Calendar::Gregorian(GregorianCalendar),
            weekday: weekday_of_day(day),
            day: d,
            month: m,
            year: y,
        }
    }

    /// The rendered Gregorian date of an absolute day under a language.
    pub fn new_date_view(day: i32, lang: &Language) -> (r: DateView)
        requires
            -1_000_000 <= day <= 1_000_000,
        ensures
            date_view_matches(Calendar::Gregorian(GregorianCalendar), day as int, *lang, r),
    {
        let (y, m, d) = gregorian_ymd(day);
        let digits = u32_to_string(d);
        let day_str = lang.change_numbers_language(digits.as_str());
        let month_str = month_name(lang, (m - 1) as usize);
        let year_digits = i32_to_string(y);
        let year_str = lang.change_numbers_language(year_digits.as_str());
        let w = weekday_of_day(day);
        let weekday_str = weekday_name(lang, w as usize);
        let sep = match lang {
            Language::Farsi => "\u{60c} ",
            Language::Arabic => "\u{60c} ",
            _ => ", ",
        };
        let full = full_format_string(&weekday_str, sep, &day_str, &month_str, &year_str);
        DateView {
            unix_day: day,
            day: day_str,
            month: month_str,
            weekday: weekday_str,
            year: year_str,
            full_format: full,
        }
    }

    /// The Gregorian calendar's static description under a language.
    pub fn get_calendar_view(lang: &Language) -> (r: CalendarView)
        ensures
            calendar_view_matches(Calendar::Gregorian(GregorianCalendar), *lang, r),
    {
        let mut months_names: Vec<String> = Vec::new();
        let mut i: usize = 0;
        while i < 12
            invariant
                0 <= i <= 12,
                months_names@.len() == i,
                forall|j: int|
                    0 <= j < i ==> (#[trigger] months_names@[j])@ == spec_month_name(*lang, j),
            decreases 12 - i,
        {
            months_names.push(month_name(lang, i));
            i += 1;
        }
        let mut seasons_names: Vec<String> = Vec::new();
        let mut i: usize = 0;
        while i < 4
            invariant
                0 <= i <= 4,
                seasons_names@.len() == i,
                forall|j: int|
                    0 <= j < i ==> (#[trigger] seasons_names@[j])@ == spec_season_name(*lang, j),
            decreases 4 - i,
        {
            seasons_names.push(season_name(lang, i));
            i += 1;
        }
        let calendar_name = match lang {
            Language::English => gregorian_calendar_name_en(),
            Language::Farsi => gregorian_calendar_name_fa(),
            Language::Chinese => gregorian_calendar_name_zh(),
            Language::Arabic => gregorian_calendar_name_ar(),
        };
        CalendarView {
            calendar: CALENDAR_GREGORIAN,
            calendar_name,
            language: lang.to_tag(),
            direction: lang.default_direction(),
            months_names,
            seasons_names,
        }
    }
}

} // verus!
