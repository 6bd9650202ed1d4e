//! Configuration as a plain value, threaded into every call that needs
//! it.  Loading, saving and the process-wide cell live with the caller;
//! the core only edits fields and derives calendar-language pairs.

use vstd::prelude::*;
use crate::calendar::Calendar;
use crate::calendar::CalendarLanguagePair;
use crate::language::Language;

verus! {

/// The planner's settings: which database file to use, which calendars
/// and languages to show, which weekday a week starts on, and the display
/// directions.
#[derive(Debug)]
pub struct Config {
    pub database: String,
    pub main_calendar_type: String,
    pub main_calendar_language: String,
    pub main_calendar_start_weekday: String,
    pub secondary_calendar_type: Option<String>,
    pub secondary_calendar_language: Option<String>,
    pub weekdates_display_direction: String,
    pub items_display_direction: String,
}

impl Config {
    /// A field-for-field copy of the settings.
    pub fn get_copy(&self) -> (r: Config)
        ensures
            r == *self,
    {
        Config {
            database: self.database.clone(),
            main_calendar_type: self.main_calendar_type.clone(),
            main_calendar_language: self.main_calendar_language.clone(),
            main_calendar_start_weekday: self.main_calendar_start_weekday.clone(),
            secondary_calendar_type: match &self.secondary_calendar_type {
                Some(s) => Some(s.clone()),
                None => None,
            },
            secondary_calendar_language: match &self.secondary_calendar_language {
                Some(s) => Some(s.clone()),
                None => None,
            },
            weekdates_display_direction: self.weekdates_display_direction.clone(),
            items_display_direction: self.items_display_direction.clone(),
        }
    }
}

impl Clone for Config {
    fn clone(&self) -> (r: Self)
        ensures
            r == *self,
    {
        self.get_copy()
    }
}

/// Set the main calendar, its language, its week-start weekday and the
/// week dates' display direction; every other setting keeps its value.
pub fn set_main_cal_config(
    config: &mut Config,
    main_calendar_type: String,
    main_calendar_language: String,
    main_calendar_start_weekday: String,
    weekdates_display_direction: String,
)
    ensures
        final(config).main_calendar_type == main_calendar_type,
        final(config).main_calendar_language == main_calendar_language,
        final(config).main_calendar_start_weekday == main_calendar_start_weekday,
        final(config).weekdates_display_direction == weekdates_display_direction,
        final(config).database == old(config).database,
        final(config).secondary_calendar_type == old(config).secondary_calendar_type,
        final(config).secondary_calendar_language == old(config).secondary_calendar_language,
        final(config).items_display_direction == old(config).items_display_direction,
{
    config.main_calendar_type = main_calendar_type;
    config.main_calendar_language = main_calendar_language;
    config.main_calendar_start_weekday = main_calendar_start_weekday;
    config.weekdates_display_direction = weekdates_display_direction;
}

/// Set or clear the secondary calendar and its language; every other
/// setting keeps its value.
pub fn set_secondary_cal_config(
    config: &mut Config,
    secondary_calendar_type: Option<String>,
    secondary_calendar_language: Option<String>,
)
    ensures
        final(config).secondary_calendar_type == secondary_calendar_type,
        final(config).secondary_calendar_language == secondary_calendar_language,
        final(config).database == old(config).database,
        final(config).main_calendar_type == old(config).main_calendar_type,
        final(config).main_calendar_language == old(config).main_calendar_language,
        final(config).main_calendar_start_weekday == old(config).main_calendar_start_weekday,
        final(config).weekdates_display_direction == old(config).weekdates_display_direction,
        final(config).items_display_direction == old(config).items_display_direction,
{
    config.secondary_calendar_type = secondary_calendar_type;
    config.secondary_calendar_language = secondary_calendar_language;
}

/// Set the items' display direction; every other setting keeps its value.
pub fn set_items_display_direction_config(config: &mut Config, items_direction: String)
    ensures
        final(config).items_display_direction == items_direction,
        final(config).database == old(config).database,
        final(config).main_calendar_type == old(config).main_calendar_type,
        final(config).main_calendar_language == old(config).main_calendar_language,
        final(config).main_calendar_start_weekday == old(config).main_calendar_start_weekday,
        final(config).secondary_calendar_type == old(config).secondary_calendar_type,
        final(config).secondary_calendar_language == old(config).secondary_calendar_language,
        final(config).weekdates_display_direction == old(config).weekdates_display_direction,
{
    config.items_display_direction = items_direction;
}

/// The main calendar-language pair the settings select.
pub fn get_main_cal_lang_pair(config: &Config) -> (r: CalendarLanguagePair)
    ensures
        r.calendar == (if config.main_calendar_type@ == "Persian"@ {
            Calendar::Persian(crate::calendar::persian::PersianCalendar)
        } else if config.main_calendar_type@ == "Chinese"@ {
            Calendar::Chinese(crate::calendar::chinese::ChineseCalendar)
        } else if config.main_calendar_type@ == "Arabic"@ {
            Calendar::Arabic(crate::calendar::arabic::ArabicCalendar)
        } else {
            Calendar::Gregorian(crate::calendar::gregorian::GregorianCalendar)
        }),
        r.language == (if config.main_calendar_language@ == "fa"@ {
            Language::Farsi
        } else if config.main_calendar_language@ == "cn"@ {
            Language::Chinese
        } else if config.main_calendar_language@ == "ar"@ {
            Language::Arabic
        } else {
            Language::English
        }),
{
    let calendar = Calendar::from_name(config.main_calendar_type.as_str());
    let language = Language::from_tag(config.main_calendar_language.as_str());
    CalendarLanguagePair { calendar, language }
}

/// The secondary calendar-language pair the settings select, if a
/// secondary calendar is configured; a missing secondary language falls
/// back to the default language.
pub fn get_second_cal_lang_pair(config: &Config) -> (r: Option<CalendarLanguagePair>)
    ensures
        r is Some <==> config.secondary_calendar_type is Some,
        r matches Some(p) ==> (config.secondary_calendar_type matches Some(ct) ==> p.calendar == (
        if ct@ == "Persian"@ {
            Calendar::Persian(crate::calendar::persian::PersianCalendar)
        } else if ct@ == "Chinese"@ {
            Calendar::Chinese(crate::calendar::chinese::ChineseCalendar)
        } else if ct@ == "Arabic"@ {
            Calendar::Arabic(crate::calendar::arabic::ArabicCalendar)
        } else {
            Calendar::Gregorian(crate::calendar::gregorian::GregorianCalendar)
        })),
        r matches Some(p) ==> p.language == (match config.secondary_calendar_language {
            Some(cl) => if cl@ == "fa"@ {
                Language::Farsi
            } else if cl@ == "cn"@ {
                Language::Chinese
            } else if cl@ == "ar"@ {
                Language::Arabic
            } else {
                Language::English
            },
            None => Language::English,
        }),
{
    match &config.secondary_calendar_type {
        None => None,
        Some(cal_name) => {
            let calendar = Calendar::from_name(cal_name.as_str());
            let language = match &config.secondary_calendar_language {
                Some(tag) => Language::from_tag(tag.as_str()),
                None => Language::English,
            };
            Some(CalendarLanguagePair { calendar, language })
        },
    }
}

/// What to do with a request to switch to a new database file path.
#[derive(Debug, Clone, Copy, PartialEq, Eq, Structural)]
pub enum DatabaseFilePlan {
    /// Nothing usable anywhere: create a fresh database at the new path.
    CreateNew,
    /// The new path is free and the current database is good: move it
    /// there.
    MoveCurrent,
    /// The new path already holds a valid database: switch over to it.
    Switch,
    /// The new path holds something that is not a valid database.
    RejectInvalid,
}

/// The decision behind changing the database file: given whether the new
/// path exists, whether the current database is valid, and whether the
/// file at the new path is a valid database, pick the action the caller
/// must carry out.
pub fn plan_database_file_change(exists: bool, current_valid: bool, new_valid: bool) -> (r:
    DatabaseFilePlan)
    ensures
        r == (if !exists {
            if !current_valid {
                DatabaseFilePlan::CreateNew
            } else {
                DatabaseFilePlan::MoveCurrent
            }
        } else if new_valid {
            DatabaseFilePlan::Switch
        } else {
            DatabaseFilePlan::RejectInvalid
        }),
{
    if !exists {
        if !current_valid {
            DatabaseFilePlan::CreateNew
        } else {
            DatabaseFilePlan::MoveCurrent
        }
    } else if new_valid {
        DatabaseFilePlan::Switch
    } else {
        DatabaseFilePlan::RejectInvalid
    }
}

} // verus!
