//! The Chinese lunisolar calendar: table lookup delegated to the
//! chinese-lunisolar-calendar crate, including leap-month detection, with
//! rendering in Chinese and an English fallback.

use vstd::prelude::*;
use chrono::Datelike;
use crate::calendar::CALENDAR_CHINESE;
use crate::calendar::Calendar;
use crate::calendar::CalendarView;
use crate::calendar::calendar_view_matches;
use crate::calendar::date_matches;
use crate::calendar::date_view_matches;
use crate::calendar::full_format_string;
use crate::calendar::spec_full_format;
use crate::calendar::weekday_of_day;
use crate::language::Language;
use crate::language::localized_digits;
use crate::names::chinese_month_name_en;
use crate::names::chinese_month_name_zh;
use crate::names::chinese_calendar_name_en;
use crate::names::chinese_calendar_name_zh;
use crate::names::chinese_leap_month_prefix_en;
use crate::names::chinese_leap_month_prefix_zh;
use crate::names::season_name_en;
use crate::names::season_name_zh;
use crate::names::spec_chinese_month_name_en;
use crate::names::spec_chinese_month_name_zh;
use crate::names::spec_chinese_calendar_name_en;
use crate::names::spec_chinese_calendar_name_zh;
use crate::names::spec_chinese_leap_month_prefix_en;
use crate::names::spec_chinese_leap_month_prefix_zh;
use crate::names::spec_season_name_en;
use crate::names::spec_season_name_zh;
use crate::names::spec_weekday_name_full_cn;
use crate::names::spec_weekday_name_full_en;
use crate::names::spec_weekday_name_half_cap_en;
use crate::names::weekday_name_full_cn;
use crate::names::weekday_name_full_en;
use crate::names::weekday_name_half_cap_en;
use crate::text::i32_to_string;
use crate::text::spec_dec;
use crate::text::spec_udec;
use crate::text::u32_to_string;
use crate::week_info::Date;
use crate::week_info::DateView;
use crate::weekday_index_of_day;

verus! {

/// Tag of the Chinese calendar variant.
#[derive(Debug, Clone, Copy, PartialEq, Eq, Structural)]
pub struct ChineseCalendar;

/// First absolute day the Chinese lunisolar tables can convert; the
/// tables cover the solar years 1901 through 2100, and this bound stays
/// safely inside them.
pub const CHINESE_MIN_DAY: i32 = -24_000;

/// Last absolute day the Chinese lunisolar tables can convert.
pub const CHINESE_MAX_DAY: i32 = 47_000;

/// The Chinese lunisolar date of an absolute day: lunisolar year, lunar
/// month number, lunar day, and whether the month is the year's leap
/// month.
pub uninterp spec fn chinese_ymd_of(day: int) -> (i32, u32, u32, bool);

/// Relies on chrono (for the civil date of the instant) and on the
/// chinese-lunisolar-calendar crate (SolarDate::from_ymd, then
/// LunisolarDate::from_solar_date with its month, day, year and leap-month
/// accessors).  The crate's tables yield the lunar month in 1..=12, the
/// lunar day in 1..=30 and the lunisolar year in 1901..=2100; the result
/// depends on the day alone.
#[verifier::external_body]
fn chinese_ymd(day: i32) -> (r: (i32, u32, u32, bool))
    requires
        CHINESE_MIN_DAY <= day <= CHINESE_MAX_DAY,
    ensures
        r == chinese_ymd_of(day as int),
        1 <= r.1 <= 12,
        1 <= r.2 <= 30,
        1901 <= r.0 <= 2100,
{
    let dt = chrono::DateTime::from_timestamp((day as i64) * 24 * 3600, 0).expect("in range");
    let sd = chinese_lunisolar_calendar::SolarDate::from_ymd(
        dt.year() as u16,
        dt.month() as u8,
        dt.day() as u8,
    ).expect("civil date is well-formed");
    let ld = chinese_lunisolar_calendar::LunisolarDate::from_solar_date(sd).expect("in range");
    let month = ld.to_lunar_month();
    let year = ld.to_lunisolar_year().to_u16() as i32;
    (year, month.to_u8() as u32, ld.to_lunar_day().to_u8() as u32, month.is_leap_month())
}

/// The traditional Chinese name of a lunar day number.
pub uninterp spec fn chinese_day_name_of(d: int) -> Seq<char>;

/// Relies on LunarDay::to_str of the chinese-lunisolar-calendar crate: the
/// traditional Chinese name of the lunar day number, a fixed table.
#[verifier::external_body]
fn chinese_day_name(d: u32) -> (r: String)
    requires
        1 <= d <= 30,
    ensures
        r@ == chinese_day_name_of(d as int),
{
    let lunar_day = chinese_lunisolar_calendar::LunarDay::from_u8(d as u8).expect(
        "lunar day is in 1..=30",
    );
    lunar_day.to_str().to_owned()
}

/// The year's leap lunar month, if it has one.
pub uninterp spec fn chinese_leap_month_of(year: int) -> Option<u8>;

/// Relies on LunisolarYear::get_leap_lunar_month of the
/// chinese-lunisolar-calendar crate: the leap month of a lunisolar year,
/// if any, as a month number in 1..=12, from the crate's fixed tables.
#[verifier::external_body]
fn chinese_leap_month(year: u16) -> (r: Option<u8>)
    requires
        1901 <= year <= 2100,
    ensures
        r == chinese_leap_month_of(year as int),
        r matches Some(m) ==> 1 <= m <= 12,
{
    let solar_year = chinese_lunisolar_calendar::SolarYear::from_u16(year);
    let lunisolar_year = chinese_lunisolar_calendar::LunisolarYear::from_solar_year(solar_year)
        .expect("year is in the table range");
    match lunisolar_year.get_leap_lunar_month() {
        Some(m) => Some(m.to_u8()),
        None => None,
    }
}

/// How many lunar months a lunisolar year has: thirteen in a year with a
/// leap month, twelve otherwise.
pub fn chinese_months_in_year(year: u16) -> (r: u32)
    requires
        1901 <= year <= 2100,
    ensures
        r == 13 <==> chinese_leap_month_of(year as int) is Some,
        r == 12 <==> chinese_leap_month_of(year as int) is None,
{
    match chinese_leap_month(year) {
        Some(_) => 13,
        None => 12,
    }
}

/// Chinese lunar month name, with the leap prefix attached when the month
/// is the year's leap month.
pub open spec fn spec_month_str(lang: Language, m0: int, leap: bool) -> Seq<char> {
    match lang {
        Language::Chinese => {
            if leap {
                spec_chinese_leap_month_prefix_zh() + spec_chinese_month_name_zh(m0)
            } else {
                spec_chinese_month_name_zh(m0)
            }
        },
        _ => {
            if leap {
                spec_chinese_leap_month_prefix_en() + spec_chinese_month_name_en(m0)
            } else {
                spec_chinese_month_name_en(m0)
            }
        },
    }
}

fn month_str(lang: &Language, m0: usize, leap: bool) -> (r: String)
    requires
        m0 < 12,
    ensures
        r@ == spec_month_str(*lang, m0 as int, leap),
{
    match lang {
        Language::Chinese => {
            if leap {
                let mut s = chinese_leap_month_prefix_zh();
                let name = chinese_month_name_zh(m0);
                s.append(name.as_str());
                s
            } else {
                chinese_month_name_zh(m0)
            }
        },
        _ => {
            if leap {
                let mut s = chinese_leap_month_prefix_en();
                let name = chinese_month_name_en(m0);
                s.append(name.as_str());
                s
            } else {
                chinese_month_name_en(m0)
            }
        },
    }
}

/// Chinese lunar month name without any leap prefix, as listed in the
/// calendar description.
pub open spec fn spec_month_name(lang: Language, m0: int) -> Seq<char> {
    match lang {
        Language::Chinese => spec_chinese_month_name_zh(m0),
        _ => spec_chinese_month_name_en(m0),
    }
}

/// The day field of a rendered Chinese date: the traditional day name in
/// Chinese, the day number in the language's own digits otherwise.
pub open spec fn spec_day_str(lang: Language, d: int) -> Seq<char> {
    match lang {
        Language::Chinese => chinese_day_name_of(d),
        _ => localized_digits(lang, spec_udec(d as nat)),
    }
}

/// The separator of a full Chinese date line: an Arabic comma for Farsi
/// and Arabic, a Western comma otherwise.
pub open spec fn spec_sep(lang: Language) -> Seq<char> {
    match lang {
        Language::Farsi => "\u{60c} "@,
        Language::Arabic => "\u{60c} "@,
        _ => ", "@,
    }
}

/// Weekday name shown in the weekday field: the full Chinese name, or the
/// abbreviated uppercase English name.
pub open spec fn spec_weekday_field_name(lang: Language, w: int) -> Seq<char> {
    match lang {
        Language::Chinese => spec_weekday_name_full_cn(w),
        _ => spec_weekday_name_half_cap_en(w),
    }
}

/// Weekday name used inside the full date line: always a full name.
pub open spec fn spec_weekday_full_name(lang: Language, w: int) -> Seq<char> {
    match lang {
        Language::Chinese => spec_weekday_name_full_cn(w),
        _ => spec_weekday_name_full_en(w),
    }
}

/// Season names shown with the Chinese calendar.
pub open spec fn spec_season_name(lang: Language, i: int) -> Seq<char> {
    match lang {
        Language::Chinese => spec_season_name_zh(i),
        _ => spec_season_name_en(i),
    }
}

/// The Chinese calendar's title.
pub open spec fn spec_calendar_name(lang: Language) -> Seq<char> {
    match lang {
        Language::Chinese => spec_chinese_calendar_name_zh(),
        _ => spec_chinese_calendar_name_en(),
    }
}

/// The rendered fields of a Chinese lunisolar date: the day and year pass
/// through the language's digit table, and the full line uses the
/// language's own punctuation.
pub open spec fn date_view_fields_match(day: int, lang: Language, r: DateView) -> bool {
    &&& r.day@ == spec_day_str(lang, chinese_ymd_of(day).2 as int)
    &&& r.month@ == spec_month_str(lang, chinese_ymd_of(day).1 - 1, chinese_ymd_of(day).3)
    &&& r.year@ == localized_digits(lang, spec_dec(chinese_ymd_of(day).0 as int))
    &&& r.weekday@ == spec_weekday_field_name(lang, weekday_index_of_day(day))
    &&& r.full_format@ == spec_full_format(
        spec_weekday_full_name(lang, weekday_index_of_day(day)),
        spec_sep(lang),
        r.day@,
        r.month@,
        r.year@,
    )
}

/// The name tables of the Chinese calendar's static description.
pub open spec fn calendar_view_names_match(lang: Language, r: CalendarView) -> bool {
    &&& r.calendar == CALENDAR_CHINESE
    &&& r.calendar_name@ == spec_calendar_name(lang)
    &&& forall|i: int| 0 <= i < 12 ==> (#[trigger] r.months_names@[i])@ == spec_month_name(lang, i)
    &&& forall|i: int| 0 <= i < 4 ==> (#[trigger] r.seasons_names@[i])@ == spec_season_name(lang, i)
}

impl ChineseCalendar {
    /// The structured Chinese lunisolar date of an absolute day.
    pub fn new_date(day: i32) -> (r: Date)
        requires
            CHINESE_MIN_DAY <= day <= CHINESE_MAX_DAY,
        ensures
            date_matches(Calendar::Chinese(ChineseCalendar), day as int, r),
            1 <= r.month <= 12,
            1 <= r.day <= 30,
            1901 <= r.year <= 2100,
    {
        let (y, m, d, _leap) = chinese_ymd(day);
        Date {
            calendar: Calendar::Chinese(ChineseCalendar),
            weekday: weekday_of_day(day),
            day: d,
            month: m,
            year: y,
        }
    }

    /// The rendered Chinese lunisolar date of an absolute day under a
    /// language.
    pub fn new_date_view(day: i32, lang: &Language) -> (r: DateView)
        requires
            CHINESE_MIN_DAY <= day <= CHINESE_MAX_DAY,
        ensures
            date_view_matches(Calendar::Chinese(ChineseCalendar), day as int, *lang, r),
    {
        let (y, m, d, leap) = chinese_ymd(day);
        let day_str = match lang {
            Language::Chinese => chinese_day_name(d),
            _ => {
                let digits = u32_to_string(d);
                lang.change_numbers_language(digits.as_str())
            },
        };
        let month_string = month_str(lang, (m - 1) as usize, leap);
        let year_digits = i32_to_string(y);
        let year_str = lang.change_numbers_language(year_digits.as_str());
        let w = weekday_of_day(day);
        let full_weekday = match lang {
            Language::Chinese => weekday_name_full_cn(w as usize),
            _ => weekday_name_full_en(w as usize),
        };
        let sep = match lang {
            Language::Farsi => "\u{60c} ",
            Language::Arabic => "\u{60c} ",
            _ => ", ",
        };
        let full = full_format_string(&full_weekday, sep, &day_str, &month_string, &year_str);
        let weekday_str = match lang {
            Language::Chinese => weekday_name_full_cn(w as usize),
            _ => weekday_name_half_cap_en(w as usize),
        };
        DateView {
            unix_day: day,
            day: day_str,
            month: month_string,
            weekday: weekday_str,
            year: year_str,
            full_format: full,
        }
    }

    /// The Chinese calendar's static description under a language.
    pub fn get_calendar_view(lang: &Language) -> (r: CalendarView)
        ensures
            calendar_view_matches(Calendar::Chinese(ChineseCalendar), *lang, r),
    {
        let mut months_names: Vec<String> = Vec::new();
        let mut i: usize = 0;
        while i < 12
            invariant
                0 <= i <= 12,
                months_names@.len() == i,
                forall|j: int|
                    0 <= j < i ==> (#[trigger] months_names@[j])@ == spec_month_name(*lang, j),
            decreases 12 - i,
        {
            let s = match lang {
                Language::Chinese => chinese_month_name_zh(i),
                _ => chinese_month_name_en(i),
            };
            months_names.push(s);
            i += 1;
        }
        let mut seasons_names: Vec<String> = Vec::new();
        let mut i: usize = 0;
        while i < 4
            invariant
                0 <= i <= 4,
                seasons_names@.len() == i,
                forall|j: int|
                    0 <= j < i ==> (#[trigger] seasons_names@[j])@ == spec_season_name(*lang, j),
            decreases 4 - i,
        {
            let s = match lang {
                Language::Chinese => season_name_zh(i),
                _ => season_name_en(i),
            };
            seasons_names.push(s);
            i += 1;
        }
        let calendar_name = match lang {
            Language::Chinese => chinese_calendar_name_zh(),
            _ => chinese_calendar_name_en(),
        };
        CalendarView {
            calendar: CALENDAR_CHINESE,
            calendar_name,
            language: lang.to_tag(),
            direction: lang.default_direction(),
            months_names,
            seasons_names,
        }
    }
}

} // verus!
