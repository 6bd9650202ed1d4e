//! The Arabic (Lunar-Hijri) calendar: tabular civil arithmetic delegated
//! to icu, with rendering in Arabic, Farsi and an English fallback.

use vstd::prelude::*;
use chrono::Datelike;
use crate::calendar::CALENDAR_ARABIC;
use crate::calendar::Calendar;
use crate::calendar::CalendarView;
use crate::calendar::calendar_view_matches;
use crate::calendar::date_matches;
use crate::calendar::date_view_matches;
use crate::calendar::full_format_string;
use crate::calendar::spec_full_format;
use crate::calendar::weekday_of_day;
use crate::language::Language;
use crate::language::localized_digits;
use crate::names::arabic_month_name_ar;
use crate::names::arabic_month_name_en;
use crate::names::arabic_month_name_fa;
use crate::names::arabic_calendar_name_ar;
use crate::names::arabic_calendar_name_en;
use crate::names::arabic_calendar_name_fa;
use crate::names::season_name_ar;
use crate::names::season_name_en;
use crate::names::season_name_fa;
use crate::names::spec_arabic_month_name_ar;
use crate::names::spec_arabic_month_name_en;
use crate::names::spec_arabic_month_name_fa;
use crate::names::spec_arabic_calendar_name_ar;
use crate::names::spec_arabic_calendar_name_en;
use crate::names::spec_arabic_calendar_name_fa;
use crate::names::spec_season_name_ar;
use crate::names::spec_season_name_en;
use crate::names::spec_season_name_fa;
use crate::names::spec_weekday_name_full_ar;
use crate::names::spec_weekday_name_full_en;
use crate::names::spec_weekday_name_full_fa;
use crate::names::spec_weekday_name_half_cap_en;
use crate::names::weekday_name_full_ar;
use crate::names::weekday_name_full_en;
use crate::names::weekday_name_full_fa;
use crate::names::weekday_name_half_cap_en;
use crate::text::i32_to_string;
use crate::text::spec_dec;
use crate::text::spec_udec;
use crate::text::u32_to_string;
use crate::week_info::Date;
use crate::week_info::DateView;
use crate::weekday_index_of_day;

verus! {

/// Tag of the Arabic calendar variant.
#[derive(Debug, Clone, Copy, PartialEq, Eq, Structural)]
pub struct ArabicCalendar;

/// The tabular Islamic civil date of an absolute day: year, then month and
/// day of month counted from one.
pub uninterp spec fn arabic_ymd_of(day: int) -> (i32, u32, u32);

/// Relies on chrono (for the civil date of the instant) and on icu's
/// Islamic civil calendar (Date::try_new_iso_date and to_calendar with
/// IslamicCivil): the tabular Hijri date of the given absolute day.  icu
/// yields the month ordinal in 1..=12 and the day of month in 1..=30; the
/// result depends on the day alone.
#[verifier::external_body]
fn arabic_ymd(day: i32) -> (r: (i32, u32, u32))
    requires
        -1_000_000 <= day <= 1_000_000,
    ensures
        r == arabic_ymd_of(day as int),
        1 <= r.1 <= 12,
        1 <= r.2 <= 30,
{
    let sec: i64 = (day as i64) * 24 * 3600;
    let datetime = chrono::DateTime::from_timestamp(sec, 0).expect("day is in range");
    let date_iso = icu::calendar::Date::try_new_iso_date(
        datetime.year(),
        datetime.month() as u8,
        datetime.day() as u8,
    ).expect("civil date is well-formed");
    let date = date_iso.to_calendar(icu::calendar::islamic::IslamicCivil);
    (date.year().number, date.month().ordinal, date.day_of_month().0)
}

/// Hijri month name: Arabic, Farsi, or the English transliteration.
pub open spec fn spec_month_name(lang: Language, m0: int) -> Seq<char> {
    match lang {
        Language::Arabic => spec_arabic_month_name_ar(m0),
        Language::Farsi => spec_arabic_month_name_fa(m0),
        _ => spec_arabic_month_name_en(m0),
    }
}

fn month_name(lang: &Language, m0: usize) -> (r: String)
    requires
        m0 < 12,
    ensures
        r@ == spec_month_name(*lang, m0 as int),
{
    match lang {
        Language::Arabic => arabic_month_name_ar(m0),
        Language::Farsi => arabic_month_name_fa(m0),
        _ => arabic_month_name_en(m0),
    }
}

/// Weekday name shown in the weekday field: the full Arabic or Farsi name,
/// or the abbreviated uppercase English name.
pub open spec fn spec_weekday_field_name(lang: Language, w: int) -> Seq<char> {
    match lang {
        Language::Arabic => spec_weekday_name_full_ar(w),
        Language::Farsi => spec_weekday_name_full_fa(w),
        _ => spec_weekday_name_half_cap_en(w),
    }
}

/// Weekday name used inside the full date line: always a full name.
pub open spec fn spec_weekday_full_name(lang: Language, w: int) -> Seq<char> {
    match lang {
        Language::Arabic => spec_weekday_name_full_ar(w),
        Language::Farsi => spec_weekday_name_full_fa(w),
        _ => spec_weekday_name_full_en(w),
    }
}

/// Season names shown with the Arabic calendar.
pub open spec fn spec_season_name(lang: Language, i: int) -> Seq<char> {
    match lang {
        Language::Arabic => spec_season_name_ar(i),
        Language::Farsi => spec_season_name_fa(i),
        _ => spec_season_name_en(i),
    }
}

/// The Arabic calendar's title.
pub open spec fn spec_calendar_name(lang: Language) -> Seq<char> {
    match lang {
        Language::Arabic => spec_arabic_calendar_name_ar(),
        Language::Farsi => spec_arabic_calendar_name_fa(),
        _ => spec_arabic_calendar_name_en(),
    }
}

/// The separator of a full Hijri date line: an Arabic comma for Arabic and
/// Farsi, a Western comma otherwise.
pub open spec fn spec_sep(lang: Language) -> Seq<char> {
    match lang {
        Language::Arabic => "\u{60c} "@,
        Language::Farsi => "\u{60c} "@,
        _ => ", "@,
    }
}

/// The rendered fields of a Hijri date.
pub open spec fn date_view_fields_match(day: int, lang: Language, r: DateView) -> bool {
    &&& r.day@ == localized_digits(lang, spec_udec(arabic_ymd_of(day).2 as nat))
    &&& r.month@ == spec_month_name(lang, arabic_ymd_of(day).1 - 1)
    &&& r.year@ == localized_digits(lang, spec_dec(arabic_ymd_of(day).0 as int))
    &&& r.weekday@ == spec_weekday_field_name(lang, weekday_index_of_day(day))
    &&& r.full_format@ == spec_full_format(
        spec_weekday_full_name(lang, weekday_index_of_day(day)),
        spec_sep(lang),
        r.day@,
        r.month@,
        r.year@,
    )
}

/// The name tables of the Arabic calendar's static description.
pub open spec fn calendar_view_names_match(lang: Language, r: CalendarView) -> bool {
    &&& r.calendar == CALENDAR_ARABIC
    &&& r.calendar_name@ == spec_calendar_name(lang)
    &&& forall|i: int| 0 <= i < 12 ==> (#[trigger] r.months_names@[i])@ == spec_month_name(lang, i)
    &&& forall|i: int| 0 <= i < 4 ==> (#[trigger] r.seasons_names@[i])@ == spec_season_name(lang, i)
}

impl ArabicCalendar {
    /// The structured Hijri date of an absolute day.
    pub fn new_date(day: i32) -> (r: Date)
        requires
            -1_000_000 <= day <= 1_000_000,
        ensures
            date_matches(Calendar::Arabic(ArabicCalendar), day as int, r),
            1 <= r.month <= 12,
            1 <= r.day <= 30,
    {
        let (y, m, d) = arabic_ymd(day);
        Date {
            calendar: Calendar::Arabic(ArabicCalendar),
            weekday: weekday_of_day(day),
            day: d,
            month: m,
            year: y,
        }
    }

    /// The rendered Hijri date of an absolute day under a language.
    pub fn new_date_view(day: i32, lang: &Language) -> (r: DateView)
        requires
            -1_000_000 <= day <= 1_000_000,
        ensures
            date_view_matches(Calendar::Arabic(ArabicCalendar), day as int, *lang, r),
    {
        let (y, m, d) = arabic_ymd(day);
        let digits = u32_to_string(d);
        let day_str = lang.change_numbers_language(digits.as_str());
        let month_str = month_name(lang, (m - 1) as usize);
        let year_digits = i32_to_string(y);
        let year_str = lang.change_numbers_language(year_digits.as_str());
        let w = weekday_of_day(day);
        let full_weekday = match lang {
            Language::Arabic => weekday_name_full_ar(w as usize),
            Language::Farsi => weekday_name_full_fa(w as usize),
            _ => weekday_name_full_en(w as usize),
        };
        let sep = match lang {
            Language::Arabic => "\u{60c} ",
            Language::Farsi => "\u{60c} ",
            _ => ", ",
        };
        let full = full_format_string(&full_weekday, sep, &day_str, &month_str, &year_str);
        let weekday_str = match lang {
            Language::Arabic => weekday_name_full_ar(w as usize),
            Language::Farsi => weekday_name_full_fa(w as usize),
            _ => weekday_name_half_cap_en(w as usize),
        };
        DateView {
            unix_day: day,
            day: day_str,
            month: month_str,
            weekday: weekday_str,
            year: year_str,
            full_format: full,
        }
    }

    /// The Arabic calendar's static description under a language.
    pub fn get_calendar_view(lang: &Language) -> (r: CalendarView)
        ensures
            calendar_view_matches(Calendar::Arabic(ArabicCalendar), *lang, r),
    {
        let mut months_names: Vec<String> = Vec::new();
        let mut i: usize = 0;
        while i < 12
            invariant
                0 <= i <= 12,
                months_names@.len() == i,
                forall|j: int|
                    0 <= j < i ==> (#[trigger] months_names@[j])@ == spec_month_name(*lang, j),
            decreases 12 - i,
        {
            months_names.push(month_name(lang, i));
            i += 1;
        }
        let mut seasons_names: Vec<String> = Vec::new();
        let mut i: usize = 0;
        while i < 4
            invariant
                0 <= i <= 4,
                seasons_names@.len() == i,
                forall|j: int|
                    0 <= j < i ==> (#[trigger] seasons_names@[j])@ == spec_season_name(*lang, j),
            decreases 4 - i,
        {
            let s = match lang {
                Language::Arabic => season_name_ar(i),
                Language::Farsi => season_name_fa(i),
                _ => season_name_en(i),
            };
            seasons_names.push(s);
            i += 1;
        }
        let calendar_name = match lang {
            Language::Arabic => arabic_calendar_name_ar(),
            Language::Farsi => arabic_calendar_name_fa(),
            _ => arabic_calendar_name_en(),
        };
        CalendarView {
            calendar: CALENDAR_ARABIC,
            calendar_name,
            language: lang.to_tag(),
            direction: lang.default_direction(),
            months_names,
            seasons_names,
        }
    }
}

} // verus!
