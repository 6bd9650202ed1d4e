//! The calendar engine: a closed set of calendar systems, each converting
//! an absolute day index into a structured date and a localized rendering.
//!
//! Whatever the calendar, the weekday of a day is derived from the day
//! index alone, modulo the week length against the epoch anchor, so all
//! calendars agree on the weekday of any given day.

use vstd::prelude::*;
use crate::language::Language;
use crate::language::spec_default_direction;
use crate::language::spec_lang_tag;
use crate::text::str_eq;
use crate::week_info::Date;
use crate::week_info::DateView;
use crate::error::Error;
use crate::models::ObjectiveTag;
use crate::models::OBJECTIVE_TYPE_MONTHLY;
use crate::models::OBJECTIVE_TYPE_SEASONAL;
use crate::models::OBJECTIVE_TYPE_YEARLY;
use crate::weekday_index_of_day;

pub mod arabic;
pub mod chinese;
pub mod gregorian;
pub mod persian;

use self::arabic::ArabicCalendar;
use self::chinese::ChineseCalendar;
use self::gregorian::GregorianCalendar;
use self::persian::PersianCalendar;

verus! {

pub const CALENDAR_GREGORIAN: i32 = 0;

pub const CALENDAR_PERSIAN: i32 = 1;

pub const CALENDAR_CHINESE: i32 = 2;

pub const CALENDAR_ARABIC: i32 = 3;

/// The supported calendar systems.
#[derive(Debug, Clone, Copy, PartialEq, Eq, Structural)]
pub enum Calendar {
    Gregorian(GregorianCalendar),
    Persian(PersianCalendar),
    Chinese(ChineseCalendar),
    Arabic(ArabicCalendar),
}

/// A full date line: weekday name, then a separator owned by the calendar
/// and language, then day, month and year divided by single spaces.
pub open spec fn spec_full_format(
    weekday: Seq<char>,
    sep: Seq<char>,
    day: Seq<char>,
    month: Seq<char>,
    year: Seq<char>,
) -> Seq<char> {
    weekday + sep + day + " "@ + month + " "@ + year
}

/// Compose a full date line from its rendered fields.
pub fn full_format_string(
    weekday: &String,
    sep: &str,
    day: &String,
    month: &String,
    year: &String,
) -> (r: String)
    ensures
        r@ == spec_full_format(weekday@, sep@, day@, month@, year@),
{
    let mut s = weekday.clone();
    s.append(sep);
    s.append(day.as_str());
    s.append(" ");
    s.append(month.as_str());
    s.append(" ");
    s.append(year.as_str());
    s
}

/// The absolute days a calendar can convert.  The Chinese lunisolar tables
/// cover the years 1901 through 2100; ptime's Persian arithmetic is sound
/// from a few hundred thousand days before the epoch onward; the other
/// calendars are safe over a span of a few thousand years around the
/// epoch.
pub open spec fn day_supported(cal: Calendar, day: int) -> bool {
    match cal {
        Calendar::Chinese(_) => chinese::CHINESE_MIN_DAY <= day <= chinese::CHINESE_MAX_DAY,
        Calendar::Persian(_) => persian::PERSIAN_MIN_DAY <= day <= persian::PERSIAN_MAX_DAY,
        _ => -1_000_000 <= day <= 1_000_000,
    }
}

/// Whether a calendar can convert a given absolute day, decided at run
/// time.
pub fn day_in_supported_range(cal: &Calendar, day: i32) -> (r: bool)
    ensures
        r == day_supported(*cal, day as int),
{
    match cal {
        Calendar::Chinese(_) => chinese::CHINESE_MIN_DAY <= day && day <= chinese::CHINESE_MAX_DAY,
        Calendar::Persian(_) => persian::PERSIAN_MIN_DAY <= day && day <= persian::PERSIAN_MAX_DAY,
        _ => -1_000_000 <= day && day <= 1_000_000,
    }
}

/// Calendar-independent weekday index of a day: 0 stands for Thursday, the
/// epoch day's weekday, through 6 for Wednesday.
pub fn weekday_of_day(day: i32) -> (r: u32)
    requires
        -1_000_000 <= day <= 1_000_000,
    ensures
        r == weekday_index_of_day(day as int),
        r < 7,
{
    let t = day as i64 + 7_000_000_000;
    let tu = t as u64;
    let w = tu % 7;
    proof {
        vstd::arithmetic::div_mod::lemma_mod_bound(t as int, 7);
        vstd::arithmetic::div_mod::lemma_mod_multiples_vanish(1_000_000_000int, day as int, 7);
        vstd::arithmetic::div_mod::lemma_mod_bound(day as int, 7);
        vstd::arithmetic::div_mod::lemma_small_mod((day as int % 7) as nat, 7nat);
    }
    w as u32
}

/// The numeric code a calendar is stored under.
pub open spec fn spec_calendar_code(cal: Calendar) -> i32 {
    match cal {
        Calendar::Gregorian(_) => CALENDAR_GREGORIAN,
        Calendar::Persian(_) => CALENDAR_PERSIAN,
        Calendar::Chinese(_) => CALENDAR_CHINESE,
        Calendar::Arabic(_) => CALENDAR_ARABIC,
    }
}

/// The calendar stored under a numeric code; Gregorian for any unknown
/// code.
pub open spec fn spec_calendar_from_code(code: int) -> Calendar {
    if code == CALENDAR_PERSIAN {
        Calendar::Persian(PersianCalendar)
    } else if code == CALENDAR_CHINESE {
        Calendar::Chinese(ChineseCalendar)
    } else if code == CALENDAR_ARABIC {
        Calendar::Arabic(ArabicCalendar)
    } else {
        Calendar::Gregorian(GregorianCalendar)
    }
}

/// What a structured date under a calendar holds for a given day: the
/// calendar's own year, month and day of month, and the shared weekday
/// index.
pub open spec fn date_matches(cal: Calendar, day: int, r: Date) -> bool {
    &&& r.calendar == cal
    &&& r.weekday == weekday_index_of_day(day)
    &&& r.weekday < 7
    &&& 1 <= r.month <= 12
    &&& 1 <= r.day <= 31
    &&& (match cal {
        Calendar::Chinese(_) => r.day <= 30,
        Calendar::Arabic(_) => r.day <= 30,
        _ => true,
    })
    &&& match cal {
        Calendar::Gregorian(_) => (r.year, r.month, r.day) == gregorian::greg_ymd_of(day),
        Calendar::Persian(_) => (r.year, r.month, r.day) == persian::persian_ymd_of(day),
        Calendar::Chinese(_) => {
            let (y, m, d, _leap) = chinese::chinese_ymd_of(day);
            (r.year, r.month, r.day) == (y, m, d) && 1901 <= r.year <= 2100
        },
        Calendar::Arabic(_) => (r.year, r.month, r.day) == arabic::arabic_ymd_of(day),
    }
}

/// What a rendered date under a calendar and language holds for a given
/// day: each field the localized rendering of the structured date, and the
/// full line their fixed composition.
pub open spec fn date_view_matches(cal: Calendar, day: int, lang: Language, r: DateView) -> bool {
    &&& r.unix_day == day
    &&& match cal {
        Calendar::Gregorian(_) => gregorian::date_view_fields_match(day, lang, r),
        Calendar::Persian(_) => persian::date_view_fields_match(day, lang, r),
        Calendar::Chinese(_) => chinese::date_view_fields_match(day, lang, r),
        Calendar::Arabic(_) => arabic::date_view_fields_match(day, lang, r),
    }
}

impl Calendar {
    /// The structured date of an absolute day under this calendar.
    pub fn get_date(&self, day: i32) -> (r: Date)
        requires
            day_supported(*self, day as int),
        ensures
            date_matches(*self, day as int, r),
    {
        match self {
            Calendar::Gregorian(_) => GregorianCalendar::new_date(day),
            Calendar::Persian(_) => PersianCalendar::new_date(day),
            Calendar::Chinese(_) => ChineseCalendar::new_date(day),
            Calendar::Arabic(_) => ArabicCalendar::new_date(day),
        }
    }

    /// The rendered date of an absolute day under this calendar and
    /// language.
    pub fn get_date_view(&self, day: i32, lang: &Language) -> (r: DateView)
        requires
            day_supported(*self, day as int),
        ensures
            date_view_matches(*self, day as int, *lang, r),
    {
        match self {
            Calendar::Gregorian(_) => GregorianCalendar::new_date_view(day, lang),
            Calendar::Persian(_) => PersianCalendar::new_date_view(day, lang),
            Calendar::Chinese(_) => ChineseCalendar::new_date_view(day, lang),
            Calendar::Arabic(_) => ArabicCalendar::new_date_view(day, lang),
        }
    }

    /// The static description of this calendar under a language: title,
    /// month and season names, and direction.
    pub fn get_calendar_view(&self, lang: &Language) -> (r: CalendarView)
        ensures
            calendar_view_matches(*self, *lang, r),
    {
        match self {
            Calendar::Gregorian(_) => GregorianCalendar::get_calendar_view(lang),
            Calendar::Persian(_) => PersianCalendar::get_calendar_view(lang),
            Calendar::Chinese(_) => ChineseCalendar::get_calendar_view(lang),
            Calendar::Arabic(_) => ArabicCalendar::get_calendar_view(lang),
        }
    }

    /// The rendered dates of a consecutive range of absolute days, first
    /// to last inclusive.  An inverted range is rejected, as is a range of
    /// more than twenty-one days, before any conversion work is done.
    pub fn get_dates_view(&self, start_day: i32, end_day: i32, lang: &Language) -> (r: Result<
        Vec<DateView>,
        Error,
    >)
        requires
            day_supported(*self, start_day as int),
            day_supported(*self, end_day as int),
        ensures
            r is Ok <==> start_day <= end_day && end_day - start_day <= 20,
            start_day > end_day <==> (r matches Err(e) && e is BadDaysRangeError),
            start_day <= end_day && end_day - start_day > 20 <==> (r matches Err(e)
                && e matches Error::LongDaysRangeError(n) && n == end_day - start_day),
            r matches Ok(v) ==> v@.len() == end_day - start_day + 1 && forall|i: int|
                0 <= i < v@.len() ==> date_view_matches(*self, start_day + i, *lang, #[trigger] v@[i]),
    {
        if start_day > end_day {
            return Err(Error::BadDaysRangeError);
        }
        if end_day - start_day > 20 {
            return Err(Error::LongDaysRangeError(end_day - start_day));
        }
        let mut dates: Vec<DateView> = Vec::new();
        let mut i: i32 = start_day;
        while i <= end_day
            invariant
                start_day <= i <= end_day + 1,
                end_day - start_day <= 20,
                day_supported(*self, start_day as int),
                day_supported(*self, end_day as int),
                dates@.len() == i - start_day,
                forall|j: int|
                    0 <= j < dates@.len() ==> date_view_matches(
                        *self,
                        start_day + j,
                        *lang,
                        #[trigger] dates@[j],
                    ),
            decreases end_day + 1 - i,
        {
            let date = self.get_date_view(i, lang);
            dates.push(date);
            i += 1;
        }
        Ok(dates)
    }

    /// The direction this calendar's dates are customarily written in.
    pub fn into_direction(&self) -> (r: String)
        ensures
            r@ == (match *self {
                Calendar::Gregorian(_) => "ltr"@,
                Calendar::Persian(_) => "rtl"@,
                Calendar::Chinese(_) => "ltr"@,
                Calendar::Arabic(_) => "rtl"@,
            }),
    {
        match self {
            Calendar::Gregorian(_) => String::from_str("ltr"),
            Calendar::Persian(_) => String::from_str("rtl"),
            Calendar::Chinese(_) => String::from_str("ltr"),
            Calendar::Arabic(_) => String::from_str("rtl"),
        }
    }

    /// The numeric code a calendar is stored under.
    pub fn to_code(&self) -> (r: i32)
        ensures
            r == spec_calendar_code(*self),
    {
        match self {
            Calendar::Gregorian(_) => CALENDAR_GREGORIAN,
            Calendar::Persian(_) => CALENDAR_PERSIAN,
            Calendar::Chinese(_) => CALENDAR_CHINESE,
            Calendar::Arabic(_) => CALENDAR_ARABIC,
        }
    }

    /// The calendar stored under a numeric code; Gregorian for any unknown
    /// code.
    pub fn from_code(code: i32) -> (r: Calendar)
        ensures
            r == spec_calendar_from_code(code as int),
    {
        if code == CALENDAR_PERSIAN {
            Calendar::Persian(PersianCalendar)
        } else if code == CALENDAR_CHINESE {
            Calendar::Chinese(ChineseCalendar)
        } else if code == CALENDAR_ARABIC {
            Calendar::Arabic(ArabicCalendar)
        } else {
            Calendar::Gregorian(GregorianCalendar)
        }
    }

    /// The name a calendar is stored under.
    pub fn name_string(&self) -> (r: String)
        ensures
            r@ == (match *self {
                Calendar::Gregorian(_) => "Gregorian"@,
                Calendar::Persian(_) => "Persian"@,
                Calendar::Chinese(_) => "Chinese"@,
                Calendar::Arabic(_) => "Arabic"@,
            }),
    {
        match self {
            Calendar::Gregorian(_) => String::from_str("Gregorian"),
            Calendar::Persian(_) => String::from_str("Persian"),
            Calendar::Chinese(_) => String::from_str("Chinese"),
            Calendar::Arabic(_) => String::from_str("Arabic"),
        }
    }

    /// The calendar stored under a name; Gregorian for any unknown name.
    pub fn from_name(name: &str) -> (r: Calendar)
        ensures
            r == (if name@ == "Persian"@ {
                Calendar::Persian(PersianCalendar)
            } else if name@ == "Chinese"@ {
                Calendar::Chinese(ChineseCalendar)
            } else if name@ == "Arabic"@ {
                Calendar::Arabic(ArabicCalendar)
            } else {
                Calendar::Gregorian(GregorianCalendar)
            }),
    {
        if str_eq(name, "Persian") {
            Calendar::Persian(PersianCalendar)
        } else if str_eq(name, "Chinese") {
            Calendar::Chinese(ChineseCalendar)
        } else if str_eq(name, "Arabic") {
            Calendar::Arabic(ArabicCalendar)
        } else {
            Calendar::Gregorian(GregorianCalendar)
        }
    }
}

impl Default for Calendar {
    /// The Gregorian calendar is the fallback throughout.
    fn default() -> (r: Calendar)
        ensures
            r == Calendar::Gregorian(GregorianCalendar),
    {
        Calendar::Gregorian(GregorianCalendar)
    }
}

/// The static description of one calendar under one language, for the
/// surrounding presentation: its title, its month and season names, and
/// the direction it is written in.
#[derive(Debug, Clone)]
pub struct CalendarView {
    pub calendar: i32,
    pub calendar_name: String,
    pub language: String,
    pub direction: String,
    pub months_names: Vec<String>,
    pub seasons_names: Vec<String>,
}

/// What a calendar's static description holds: the shared fields here, the
/// name tables as each calendar module states them.
pub open spec fn calendar_view_matches(cal: Calendar, lang: Language, r: CalendarView) -> bool {
    &&& r.language@ == spec_lang_tag(lang)
    &&& r.direction@ == spec_default_direction(lang)
    &&& r.months_names@.len() == 12
    &&& r.seasons_names@.len() == 4
    &&& match cal {
        Calendar::Gregorian(_) => gregorian::calendar_view_names_match(lang, r),
        Calendar::Persian(_) => persian::calendar_view_names_match(lang, r),
        Calendar::Chinese(_) => chinese::calendar_view_names_match(lang, r),
        Calendar::Arabic(_) => arabic::calendar_view_names_match(lang, r),
    }
}

/// One calendar shown in one language.
#[derive(Debug, Clone, Copy, PartialEq, Eq, Structural)]
pub struct CalendarLanguagePair {
    pub calendar: Calendar,
    pub language: Language,
}

/// The pair a calendar is shown under: the main pair for the main
/// calendar, the secondary pair for the secondary calendar, and the
/// default language for any other calendar.
pub open spec fn spec_pair_for(
    cal: Calendar,
    main_pair: CalendarLanguagePair,
    second_pair: Option<CalendarLanguagePair>,
) -> CalendarLanguagePair {
    if cal == main_pair.calendar {
        main_pair
    } else {
        match second_pair {
            Some(p) => if cal == p.calendar {
                p
            } else {
                CalendarLanguagePair { calendar: cal, language: Language::English }
            },
            None => CalendarLanguagePair { calendar: cal, language: Language::English },
        }
    }
}

impl CalendarLanguagePair {
    /// The pair a calendar is shown under: the main pair for the main
    /// calendar, the secondary pair for the secondary calendar, and the
    /// default language for any other calendar.
    pub fn for_calendar(
        cal: &Calendar,
        main_pair: &CalendarLanguagePair,
        second_pair: &Option<CalendarLanguagePair>,
    ) -> (r: CalendarLanguagePair)
        ensures
            r == spec_pair_for(*cal, *main_pair, *second_pair),
    {
        if *cal == main_pair.calendar {
            *main_pair
        } else {
            match second_pair {
                Some(p) => {
                    if *cal == p.calendar {
                        *p
                    } else {
                        CalendarLanguagePair { calendar: *cal, language: Language::English }
                    }
                },
                None => CalendarLanguagePair { calendar: *cal, language: Language::English },
            }
        }
    }
}

/// The month field of a rendered date under a calendar and language,
/// including the Chinese leap-month prefix when it applies.
pub open spec fn spec_month_field(cal: Calendar, day: int, lang: Language) -> Seq<char> {
    match cal {
        Calendar::Gregorian(_) => gregorian::spec_month_name(lang, gregorian::greg_ymd_of(day).1 - 1),
        Calendar::Persian(_) => persian::spec_month_name(lang, persian::persian_ymd_of(day).1 - 1),
        Calendar::Chinese(_) => chinese::spec_month_str(
            lang,
            chinese::chinese_ymd_of(day).1 - 1,
            chinese::chinese_ymd_of(day).3,
        ),
        Calendar::Arabic(_) => arabic::spec_month_name(lang, arabic::arabic_ymd_of(day).1 - 1),
    }
}

/// The year field of a rendered date under a calendar and language.
pub open spec fn spec_year_field(cal: Calendar, day: int, lang: Language) -> Seq<char> {
    match cal {
        Calendar::Gregorian(_) => crate::language::localized_digits(
            lang,
            crate::text::spec_dec(gregorian::greg_ymd_of(day).0 as int),
        ),
        Calendar::Persian(_) => crate::language::localized_digits(
            lang,
            crate::text::spec_dec(persian::persian_ymd_of(day).0 as int),
        ),
        Calendar::Chinese(_) => crate::language::localized_digits(
            lang,
            crate::text::spec_dec(chinese::chinese_ymd_of(day).0 as int),
        ),
        Calendar::Arabic(_) => crate::language::localized_digits(
            lang,
            crate::text::spec_dec(arabic::arabic_ymd_of(day).0 as int),
        ),
    }
}

/// The month-table name of a calendar under a language, without any leap
/// prefix.
pub open spec fn spec_month_table_name(cal: Calendar, lang: Language, m0: int) -> Seq<char> {
    match cal {
        Calendar::Gregorian(_) => gregorian::spec_month_name(lang, m0),
        Calendar::Persian(_) => persian::spec_month_name(lang, m0),
        Calendar::Chinese(_) => chinese::spec_month_name(lang, m0),
        Calendar::Arabic(_) => arabic::spec_month_name(lang, m0),
    }
}

/// The season-table name of a calendar under a language.
pub open spec fn spec_season_table_name(cal: Calendar, lang: Language, i: int) -> Seq<char> {
    match cal {
        Calendar::Gregorian(_) => gregorian::spec_season_name(lang, i),
        Calendar::Persian(_) => persian::spec_season_name(lang, i),
        Calendar::Chinese(_) => chinese::spec_season_name(lang, i),
        Calendar::Arabic(_) => arabic::spec_season_name(lang, i),
    }
}

/// The title of a calendar under a language.
pub open spec fn spec_calendar_title(cal: Calendar, lang: Language) -> Seq<char> {
    match cal {
        Calendar::Gregorian(_) => gregorian::spec_calendar_name(lang),
        Calendar::Persian(_) => persian::spec_calendar_name(lang),
        Calendar::Chinese(_) => chinese::spec_calendar_name(lang),
        Calendar::Arabic(_) => arabic::spec_calendar_name(lang),
    }
}

/// A rendered date's month and year fields are the calendar's month and
/// year fields for that day.
pub proof fn lemma_date_view_month_year(cal: Calendar, day: int, lang: Language, v: DateView)
    requires
        date_view_matches(cal, day, lang, v),
    ensures
        v.month@ == spec_month_field(cal, day, lang),
        v.year@ == spec_year_field(cal, day, lang),
{
    match cal {
        Calendar::Gregorian(_) => {},
        Calendar::Persian(_) => {},
        Calendar::Chinese(_) => {},
        Calendar::Arabic(_) => {},
    }
}

/// What the objective tag of a yearly, seasonal or monthly objective
/// holds under a calendar-language pair.
pub open spec fn objective_tag_matches(
    pair: CalendarLanguagePair,
    year: i32,
    season: Option<i32>,
    month: Option<i32>,
    t: ObjectiveTag,
) -> bool {
    let ys = crate::language::localized_digits(pair.language, crate::text::spec_dec(year as int));
    &&& t.calendar == spec_calendar_code(pair.calendar)
    &&& t.calendar_name@ == spec_calendar_title(pair.calendar, pair.language)
    &&& t.language@ == spec_lang_tag(pair.language)
    &&& t.year_string@ == ys
    &&& t.year == year
    &&& (match season {
        Some(s) => t.season == Some(s as usize),
        None => t.season is None,
    })
    &&& (match month {
        Some(m) => t.month == (if 1 <= m <= 12 {
            Some(m as usize)
        } else {
            None::<usize>
        }),
        None => t.month is None,
    })
    &&& (match season {
        Some(s) => t.objective_type == OBJECTIVE_TYPE_SEASONAL && t.text@
            == spec_season_table_name(pair.calendar, pair.language, s - 1) + " "@ + ys,
        None => match month {
            Some(m) => t.objective_type == OBJECTIVE_TYPE_MONTHLY && t.text@
                == spec_month_table_name(pair.calendar, pair.language, m - 1) + " "@ + ys,
            None => t.objective_type == OBJECTIVE_TYPE_YEARLY && t.text@ == ys,
        },
    })
}

impl CalendarLanguagePair {
    /// The tag shown on a yearly, seasonal or monthly objective: the
    /// season or month name with the localized year, or the year alone.
    /// An objective needs a year; a season or month outside its table
    /// yields no tag rather than a malformed one.
    pub fn get_objective_tag(&self, year: Option<i32>, season: Option<i32>, month: Option<i32>)
        -> (r: Option<ObjectiveTag>)
        ensures
            r is Some <==> year is Some && (match season {
                Some(s) => 1 <= s <= 4,
                None => match month {
                    Some(m) => 1 <= m <= 12,
                    None => true,
                },
            }),
            r matches Some(t) ==> (year matches Some(y) ==> objective_tag_matches(
                *self,
                y,
                season,
                month,
                t,
            )),
    {
        let year = match year {
            Some(y) => y,
            None => {
                return None;
            },
        };
        let calview = self.calendar.get_calendar_view(&self.language);
        let year_digits = crate::text::i32_to_string(year);
        let year_string = self.language.change_numbers_language(year_digits.as_str());
        let (text, objective_type): (String, i32) = if let Some(season) = season {
            if season < 1 || season > 4 {
                return None;
            }
            let name = &calview.seasons_names[(season - 1) as usize];
            let mut text = name.clone();
            text.append(" ");
            text.append(year_string.as_str());
            (text, OBJECTIVE_TYPE_SEASONAL)
        } else if let Some(month) = month {
            if month < 1 || month > 12 {
                return None;
            }
            let name = &calview.months_names[(month - 1) as usize];
            let mut text = name.clone();
            text.append(" ");
            text.append(year_string.as_str());
            (text, OBJECTIVE_TYPE_MONTHLY)
        } else {
            (year_string.clone(), OBJECTIVE_TYPE_YEARLY)
        };
        let season_index = match season {
            Some(s) => Some(s as usize),
            None => None,
        };
        let month_index = match month {
            Some(m) => if 1 <= m && m <= 12 {
                Some(m as usize)
            } else {
                None
            },
            None => None,
        };
        Some(
            ObjectiveTag {
                calendar: self.calendar.to_code(),
                text,
                objective_type,
                calendar_name: calview.calendar_name,
                language: calview.language,
                year_string,
                year,
                season: season_index,
                month: month_index,
            },
        )
    }
}

} // verus!
