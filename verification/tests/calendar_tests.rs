use weeks_core::calendar::arabic::ArabicCalendar;
use weeks_core::calendar::chinese::chinese_months_in_year;
use weeks_core::calendar::chinese::ChineseCalendar;
use weeks_core::calendar::gregorian::GregorianCalendar;
use weeks_core::calendar::persian::PersianCalendar;
use weeks_core::calendar::Calendar;
use weeks_core::calendar::CalendarLanguagePair;
use weeks_core::error::Error;
use weeks_core::language::Language;
use weeks_core::models::OBJECTIVE_TYPE_MONTHLY;
use weeks_core::models::OBJECTIVE_TYPE_SEASONAL;
use weeks_core::models::OBJECTIVE_TYPE_YEARLY;

fn epoch_day(y: i32, m: u32, d: u32) -> i32 {
    let date = chrono::NaiveDate::from_ymd_opt(y, m, d).unwrap();
    let epoch = chrono::NaiveDate::from_ymd_opt(1970, 1, 1).unwrap();
    date.signed_duration_since(epoch).num_days() as i32
}

fn all_calendars() -> Vec<Calendar> {
    vec![
        Calendar::Gregorian(GregorianCalendar),
        Calendar::Persian(PersianCalendar),
        Calendar::Chinese(ChineseCalendar),
        Calendar::Arabic(ArabicCalendar),
    ]
}

#[test]
fn weekday_agrees_across_calendars() {
    // every calendar derives the weekday from the day index alone
    for day in -700..700 {
        let expected = (((day % 7) + 7) % 7) as u32;
        for cal in all_calendars() {
            let date = cal.get_date(day);
            assert_eq!(date.weekday, expected);
        }
    }
}

#[test]
fn weekday_agreement_at_chinese_range_edges() {
    let cal = Calendar::Chinese(ChineseCalendar);
    for day in [-24_000, -23_993, 0, 46_993, 47_000] {
        let expected = (((day % 7) + 7) % 7) as u32;
        assert_eq!(cal.get_date(day).weekday, expected);
    }
}

#[test]
fn epoch_day_zero_is_thursday() {
    let cal = Calendar::Gregorian(GregorianCalendar);
    let date = cal.get_date(0);
    assert_eq!(date.weekday, 0);
    assert_eq!((date.year, date.month, date.day), (1970, 1, 1));
    let view = cal.get_date_view(0, &Language::English);
    assert_eq!(view.weekday, "Thursday");
    assert_eq!(view.full_format, "Thursday, 1 January 1970");
}

#[test]
fn gregorian_view_fields() {
    let cal = Calendar::Gregorian(GregorianCalendar);
    let day = epoch_day(2024, 7, 12);
    let view = cal.get_date_view(day, &Language::English);
    assert_eq!(view.day, "12");
    assert_eq!(view.month, "July");
    assert_eq!(view.year, "2024");
    assert_eq!(view.weekday, "Friday");
    assert_eq!(view.full_format, "Friday, 12 July 2024");
    assert_eq!(view.unix_day, day);
}

#[test]
fn farsi_and_arabic_digits() {
    assert_eq!(
        Language::Farsi.change_numbers_language("1403"),
        "\u{6f1}\u{6f4}\u{6f0}\u{6f3}"
    );
    assert_eq!(
        Language::Arabic.change_numbers_language("123"),
        "\u{661}\u{662}\u{663}"
    );
    assert_eq!(Language::English.change_numbers_language("123"), "123");
    assert_eq!(Language::Chinese.change_numbers_language("123"), "123");
}

#[test]
fn persian_nowruz() {
    // 1 Farvardin 1403 fell on 20 March 2024
    let day = epoch_day(2024, 3, 20);
    let date = PersianCalendar::new_date(day);
    assert_eq!((date.year, date.month, date.day), (1403, 1, 1));
    let view = PersianCalendar::new_date_view(day, &Language::English);
    assert_eq!(view.month, "Farvardin");
    // under Farsi the digits are localized
    let view = PersianCalendar::new_date_view(day, &Language::Farsi);
    assert_eq!(view.year, "\u{6f1}\u{6f4}\u{6f0}\u{6f3}");
}

#[test]
fn chinese_new_year_2024() {
    // 10 February 2024 was the first day of the Chinese year 2024
    let day = epoch_day(2024, 2, 10);
    let date = ChineseCalendar::new_date(day);
    assert_eq!((date.year, date.month, date.day), (2024, 1, 1));
    let view = ChineseCalendar::new_date_view(day, &Language::Chinese);
    assert_eq!(view.month, "\u{6b63}\u{6708}");
    // the first lunar day carries its traditional name in Chinese
    assert_eq!(view.day, "\u{521d}\u{4e00}");
    // and the plain number otherwise
    let view = ChineseCalendar::new_date_view(day, &Language::English);
    assert_eq!(view.day, "1");
}

#[test]
fn chinese_leap_month_renders_with_prefix() {
    // the Chinese year 2023 has a leap second month; 25 March 2023 fell
    // inside it
    let day = epoch_day(2023, 3, 25);
    let view = ChineseCalendar::new_date_view(day, &Language::English);
    assert_eq!(view.month, "Leap-2nd-Lunar-Month");
    let view = ChineseCalendar::new_date_view(day, &Language::Chinese);
    assert_eq!(view.month, "\u{95f0}\u{4e8c}\u{6708}");
    // and that year counts thirteen months, while 2024 counts twelve
    assert_eq!(chinese_months_in_year(2023), 13);
    assert_eq!(chinese_months_in_year(2024), 12);
}

#[test]
fn chinese_rendering_follows_the_language() {
    // digits and punctuation follow the display language even for the
    // Chinese calendar; only the name tables fall back to English
    let day = epoch_day(2024, 2, 10);
    let view = ChineseCalendar::new_date_view(day, &Language::Farsi);
    assert_eq!(view.day, "\u{6f1}");
    assert_eq!(view.year, "\u{6f2}\u{6f0}\u{6f2}\u{6f4}");
    assert_eq!(view.month, "1st-Lunar-Month");
    assert!(view.full_format.contains('\u{60c}'));
    // English and Chinese keep Western digits and a Western comma
    let view = ChineseCalendar::new_date_view(day, &Language::English);
    assert_eq!(view.year, "2024");
    assert!(view.full_format.contains(", "));
    let view = ChineseCalendar::new_date_view(day, &Language::Chinese);
    assert_eq!(view.year, "2024");
    assert!(view.full_format.contains(", "));
}

#[test]
fn arabic_calendar_is_lunar() {
    // the tabular Hijri year at the epoch
    let date = ArabicCalendar::new_date(0);
    assert_eq!(date.year, 1389);
    assert_eq!(date.month, 10);
    assert!(1 <= date.day && date.day <= 30);
    // a Hijri year is about 354 days long
    let later = ArabicCalendar::new_date(354);
    assert_eq!(later.year, 1390);
    let view = ArabicCalendar::new_date_view(0, &Language::English);
    assert_eq!(view.month, "Shawwal");
}

#[test]
fn dates_view_range_checks() {
    let cal = Calendar::Gregorian(GregorianCalendar);
    match cal.get_dates_view(10, 5, &Language::English) {
        Err(Error::BadDaysRangeError) => {}
        other => panic!("expected a bad range rejection, got {:?}", other.is_ok()),
    }
    match cal.get_dates_view(0, 21, &Language::English) {
        Err(Error::LongDaysRangeError(n)) => assert_eq!(n, 21),
        other => panic!("expected a long range rejection, got {:?}", other.is_ok()),
    }
    let dates = cal.get_dates_view(0, 6, &Language::English).unwrap();
    assert_eq!(dates.len(), 7);
    assert_eq!(dates[0].unix_day, 0);
    assert_eq!(dates[6].unix_day, 6);
}

#[test]
fn unknown_language_falls_back_to_english() {
    // the Persian calendar knows no Chinese table and falls back
    let view = PersianCalendar::new_date_view(0, &Language::Chinese);
    assert_eq!(view.month, "Dey");
    let calview = PersianCalendar::get_calendar_view(&Language::Chinese);
    assert_eq!(calview.months_names[0], "Farvardin");
    assert_eq!(calview.calendar_name, "Persian Calendar");
}

#[test]
fn calendar_views_carry_their_tables() {
    let calview = GregorianCalendar::get_calendar_view(&Language::English);
    assert_eq!(calview.months_names.len(), 12);
    assert_eq!(calview.seasons_names.len(), 4);
    assert_eq!(calview.months_names[0], "January");
    assert_eq!(calview.seasons_names[0], "Spring");
    assert_eq!(calview.direction, "ltr");
    assert_eq!(calview.language, "en");
    let calview = ArabicCalendar::get_calendar_view(&Language::Arabic);
    assert_eq!(calview.direction, "rtl");
    assert_eq!(calview.calendar_name, "التقويم الهجري");
}

#[test]
fn calendar_codes_and_names_round_trip() {
    for cal in all_calendars() {
        assert_eq!(Calendar::from_code(cal.to_code()), cal);
        assert_eq!(Calendar::from_name(cal.name_string().as_str()), cal);
    }
    assert_eq!(
        Calendar::from_name("Nonsense"),
        Calendar::Gregorian(GregorianCalendar)
    );
    assert_eq!(Calendar::from_code(77), Calendar::Gregorian(GregorianCalendar));
    assert_eq!(
        Calendar::Persian(PersianCalendar).into_direction(),
        "rtl"
    );
}

#[test]
fn objective_tags() {
    let pair = CalendarLanguagePair {
        calendar: Calendar::Gregorian(GregorianCalendar),
        language: Language::English,
    };
    let tag = pair.get_objective_tag(Some(2025), Some(2), None).unwrap();
    assert_eq!(tag.text, "Summer 2025");
    assert_eq!(tag.objective_type, OBJECTIVE_TYPE_SEASONAL);
    assert_eq!(tag.year_string, "2025");
    let tag = pair.get_objective_tag(Some(2025), None, Some(3)).unwrap();
    assert_eq!(tag.text, "March 2025");
    assert_eq!(tag.objective_type, OBJECTIVE_TYPE_MONTHLY);
    let tag = pair.get_objective_tag(Some(2025), None, None).unwrap();
    assert_eq!(tag.text, "2025");
    assert_eq!(tag.objective_type, OBJECTIVE_TYPE_YEARLY);
    assert!(pair.get_objective_tag(None, Some(2), None).is_none());
    // season and month numbers outside their tables are rejected
    assert!(pair.get_objective_tag(Some(2025), Some(5), None).is_none());
    assert!(pair.get_objective_tag(Some(2025), None, Some(13)).is_none());
}

#[test]
fn error_messages() {
    assert_eq!(
        Error::BadDaysRangeError.message(),
        "provided days range is not correct"
    );
    assert_eq!(
        Error::LongDaysRangeError(25).message(),
        "provided days range is very long: 25 days"
    );
    assert_eq!(
        Error::DatabaseSelectError("oops".to_string()).message(),
        "database error: oops"
    );
}
