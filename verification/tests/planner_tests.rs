use weeks_core::calendar::gregorian::GregorianCalendar;
use weeks_core::calendar::persian::PersianCalendar;
use weeks_core::calendar::Calendar;
use weeks_core::calendar::CalendarLanguagePair;
use weeks_core::config::get_main_cal_lang_pair;
use weeks_core::config::get_second_cal_lang_pair;
use weeks_core::config::plan_database_file_change;
use weeks_core::config::set_items_display_direction_config;
use weeks_core::config::set_main_cal_config;
use weeks_core::config::set_secondary_cal_config;
use weeks_core::config::Config;
use weeks_core::config::DatabaseFilePlan;
use weeks_core::language::Language;
use weeks_core::models::AsItemsList;
use weeks_core::models::Item;
use weeks_core::models::NewItem;
use weeks_core::models::ItemView;
use weeks_core::models::ITEM_KIND_GOAL;
use weeks_core::models::ITEM_KIND_NOTE;
use weeks_core::models::STATUS_DONE;
use weeks_core::time::unix_day_from_epoch_seconds;
use weeks_core::today::Today;
use weeks_core::week::calculate_week_start_middle_end_unix_day;
use weeks_core::week::Week;
use weeks_core::weekdays::WeekDaysUnixOffset;
use weeks_core::year::Year;

fn item(id: i32, day: i32, week_key: Option<&str>) -> Item {
    Item {
        id,
        calendar: 0,
        year: None,
        season: None,
        month: None,
        day,
        kind: ITEM_KIND_GOAL,
        fixed_date: false,
        all_day: false,
        title: Some(format!("goal {}", id)),
        note: None,
        datetime: None,
        duration: None,
        status: Some(0),
        order_in_week: week_key.map(|s| s.to_string()),
        order_in_resolution: None,
        sync: None,
        uuid: None,
    }
}

fn main_pair() -> CalendarLanguagePair {
    CalendarLanguagePair {
        calendar: Calendar::Gregorian(GregorianCalendar),
        language: Language::English,
    }
}

#[test]
fn week_bounds_partition_adjacent_days() {
    // every pair of adjacent days either shares a window or splits at the
    // boundary
    for d in -40..40 {
        let (s1, _, e1) = calculate_week_start_middle_end_unix_day(d, 2, 7);
        let (s2, _, e2) = calculate_week_start_middle_end_unix_day(d + 1, 2, 7);
        if d == e1 {
            assert_eq!(s2, d + 1);
        } else {
            assert_eq!(s1, s2);
            assert_eq!(e1, e2);
        }
    }
}

#[test]
fn week_bounds_are_idempotent() {
    let (s, m, e) = calculate_week_start_middle_end_unix_day(0, 2, 7);
    for d in s..=e {
        assert_eq!(calculate_week_start_middle_end_unix_day(d, 2, 7), (s, m, e));
    }
}

#[test]
fn week_bounds_at_epoch_with_saturday_start() {
    // day 0 is a Thursday; the enclosing Saturday-start week runs from
    // the Saturday five days before, day -5, through Friday, day 1
    let (s, m, e) = calculate_week_start_middle_end_unix_day(0, 2, 7);
    assert_eq!(s, -5);
    assert_eq!(m, -2);
    assert_eq!(e, 1);
    assert_eq!(((s % 7) + 7) % 7, 2);
    assert!(s <= 0 && 0 <= e);
}

#[test]
fn test_find_week_period_with_ptime() {
    let expect_middle = |dates: Vec<ptime::Tm>, expected_middle_day: i32| {
        for pt in dates {
            let pt_day = (pt.to_timespec().sec / 3600 / 24) as i32;
            let (_s, m, _e) = calculate_week_start_middle_end_unix_day(
                pt_day,
                WeekDaysUnixOffset::Sat.to_offset(),
                7,
            );
            if expected_middle_day != m {
                return false;
            }
        }
        true
    };

    let mut pt_vec: Vec<ptime::Tm> = Vec::new();
    pt_vec.push(ptime::from_persian_components(1403, 04 - 1, 22, 23, 22, 11, 0).unwrap());
    pt_vec.push(ptime::from_persian_components(1403, 04 - 1, 22, 23, 59, 36, 0).unwrap());
    pt_vec.push(ptime::from_persian_components(1403, 04 - 1, 22, 23, 59, 59, 0).unwrap());
    assert!(expect_middle(pt_vec, 19913));

    let mut pt_vec: Vec<ptime::Tm> = Vec::new();
    pt_vec.push(ptime::from_persian_components(1403, 04 - 1, 23, 0, 0, 0, 0).unwrap());
    pt_vec.push(ptime::from_persian_components(1403, 04 - 1, 23, 0, 0, 0, 888888).unwrap());
    pt_vec.push(ptime::from_persian_components(1403, 04 - 1, 23, 0, 0, 1, 0).unwrap());
    pt_vec.push(ptime::from_persian_components(1403, 04 - 1, 23, 0, 0, 11, 0).unwrap());
    pt_vec.push(ptime::from_persian_components(1403, 04 - 1, 23, 0, 1, 1, 1).unwrap());
    pt_vec.push(ptime::from_persian_components(1403, 04 - 1, 24, 12, 0, 0, 0).unwrap());
    pt_vec.push(ptime::from_persian_components(1403, 04 - 1, 25, 0, 0, 0, 0).unwrap());
    pt_vec.push(ptime::from_persian_components(1403, 04 - 1, 26, 23, 23, 23, 23).unwrap());
    pt_vec.push(ptime::from_persian_components(1403, 04 - 1, 27, 23, 23, 23, 23).unwrap());
    pt_vec.push(ptime::from_persian_components(1403, 04 - 1, 28, 23, 59, 23, 23).unwrap());
    pt_vec.push(ptime::from_persian_components(1403, 04 - 1, 29, 0, 0, 0, 0).unwrap());
    pt_vec.push(ptime::from_persian_components(1403, 04 - 1, 29, 23, 59, 23, 23).unwrap());
    pt_vec.push(ptime::from_persian_components(1403, 04 - 1, 29, 23, 59, 59, 19993294).unwrap());
    assert!(expect_middle(pt_vec, 19920));

    let mut pt_vec: Vec<ptime::Tm> = Vec::new();
    pt_vec.push(ptime::from_persian_components(1403, 04 - 1, 30, 0, 0, 0, 0).unwrap());
    pt_vec.push(ptime::from_persian_components(1403, 04 - 1, 30, 0, 0, 0, 1).unwrap());
    pt_vec.push(ptime::from_persian_components(1403, 04 - 1, 30, 0, 0, 1, 1).unwrap());
    pt_vec.push(ptime::from_persian_components(1403, 04 - 1, 30, 0, 1, 1, 1).unwrap());
    pt_vec.push(ptime::from_persian_components(1403, 04 - 1, 30, 1, 1, 1, 1).unwrap());
    pt_vec.push(ptime::from_persian_components(1403, 04 - 1, 31, 6, 6, 6, 6).unwrap());
    assert!(expect_middle(pt_vec, 19927));
}

#[test]
fn unix_day_truncates_toward_zero() {
    assert_eq!(unix_day_from_epoch_seconds(0, 0), 0);
    assert_eq!(unix_day_from_epoch_seconds(86399, 0), 0);
    assert_eq!(unix_day_from_epoch_seconds(86400, 0), 1);
    assert_eq!(unix_day_from_epoch_seconds(-1, 0), 0);
    assert_eq!(unix_day_from_epoch_seconds(-86401, 0), -1);
    // a positive offset can push an instant into the next local day
    assert_eq!(unix_day_from_epoch_seconds(86000, 3600), 1);
    // a negative offset can pull it back
    assert_eq!(unix_day_from_epoch_seconds(100, -3600), 0);
}

#[test]
fn week_update_builds_views_and_fixes_ordering() {
    let mut week = Week::new(0);
    week.compute_bounds(WeekDaysUnixOffset::Sat.to_offset());
    assert_eq!((week.start_day, week.middle_day, week.end_day), (-5, -2, 1));
    let items = vec![item(1, -5, Some("m")), item(2, -4, None), item(3, 0, Some("t"))];
    let aux = Some(CalendarLanguagePair {
        calendar: Calendar::Persian(PersianCalendar),
        language: Language::Farsi,
    });
    let changed = week.update(items, 0, &main_pair(), &aux).unwrap();
    // a missing key forces a repair that keeps the display order
    assert!(changed);
    assert_eq!(week.items.len(), 3);
    assert_eq!(
        week.items.iter().map(|i| i.id).collect::<Vec<_>>(),
        vec![1, 2, 3]
    );
    let mut last = String::new();
    for it in &week.items {
        let k = it.order_in_week.clone().unwrap();
        assert!(last < k);
        last = k;
    }
    let view = week.get_view();
    assert_eq!(view.items.len(), 3);
    assert_eq!(view.week_info_main.dates.len(), 7);
    assert!(view.week_info_aux.is_some());
    // the window crosses from December 1969 into January 1970
    assert_eq!(
        view.week_info_main.month_year_info,
        "December 1969 - January 1970"
    );
    // navigation moves in whole weeks
    week.next();
    assert_eq!(week.reference_day, 7);
    week.previous();
    week.previous();
    assert_eq!(week.reference_day, -7);
    week.current(3);
    assert_eq!(week.reference_day, 3);
}

#[test]
fn renormalization_with_all_keys_missing_keeps_order() {
    let mut week = Week::new(0);
    week.compute_bounds(WeekDaysUnixOffset::Sat.to_offset());
    // members arrive in display order with no keys at all
    let items = vec![item(9, -5, None), item(4, -4, None), item(7, -3, None)];
    let changed = week.update(items, 0, &main_pair(), &None).unwrap();
    assert!(changed);
    // the sequence order is kept exactly, never resorted by content
    assert_eq!(
        week.items.iter().map(|i| i.id).collect::<Vec<_>>(),
        vec![9, 4, 7]
    );
    let mut last = String::new();
    for it in &week.items {
        let k = it.order_in_week.clone().unwrap();
        assert!(last < k);
        last = k;
    }
    // a second pass finds nothing to repair
    let again = week.check_and_fix_ordering();
    assert!(!again);
}

#[test]
fn week_update_rejects_bad_window() {
    let mut week = Week::new(0);
    week.start_day = 10;
    week.end_day = 5;
    assert!(week.update(Vec::new(), 0, &main_pair(), &None).is_err());
}

#[test]
fn week_add_and_move_items() {
    let mut week = Week::new(0);
    week.compute_bounds(WeekDaysUnixOffset::Sat.to_offset());
    let items = vec![item(1, -5, Some("m")), item(2, -4, Some("t"))];
    week.update(items, 0, &main_pair(), &None).unwrap();
    let cal = Calendar::Gregorian(GregorianCalendar);
    let new_item = week.add_new_item(ITEM_KIND_GOAL, "read".to_string(), &cal);
    assert_eq!(new_item.day, week.middle_day);
    assert_eq!(new_item.title.as_deref(), Some("read"));
    assert!(new_item.note.is_none());
    let key = new_item.order_in_week.clone().unwrap();
    assert!("t".to_string() < key);
    assert_eq!(new_item.uuid.unwrap().len(), 24);
    // moving an item one week later shifts its day and clears its key
    let moved = week.move_item_to_other_time_period_offset(1, 1).unwrap();
    assert_eq!(moved.day, -5 + 7);
    assert!(moved.order_in_week.is_none());
    assert!(week.move_item_to_other_time_period_offset(9, 1).is_err());
}

#[test]
fn year_update_builds_title_and_views() {
    let mut year = Year::new(2025);
    let mut obj = item(5, 0, None);
    obj.year = Some(2025);
    obj.order_in_resolution = None;
    let changed = year.update(vec![obj], &main_pair(), &None);
    assert!(changed);
    assert!(year.items[0].order_in_resolution.is_some());
    let view = year.get_view();
    assert_eq!(view.year, "2025");
    assert_eq!(view.title, "Year 2025");
    assert_eq!(view.items.len(), 1);
    let tag = view.items[0].objective_tag.as_ref().unwrap();
    assert_eq!(tag.text, "2025");
    // navigation
    year.next();
    assert_eq!(year.reference_year, 2026);
    year.previous();
    year.previous();
    assert_eq!(year.reference_year, 2024);
    year.current(2030);
    assert_eq!(year.reference_year, 2030);
}

#[test]
fn year_title_in_farsi() {
    let mut year = Year::new(1403);
    let pair = CalendarLanguagePair {
        calendar: Calendar::Persian(PersianCalendar),
        language: Language::Farsi,
    };
    year.update(Vec::new(), &pair, &None);
    assert_eq!(year.get_view().year, "\u{6f1}\u{6f4}\u{6f0}\u{6f3}");
    assert_eq!(
        year.get_view().title,
        "\u{633}\u{627}\u{644} \u{6f1}\u{6f4}\u{6f0}\u{6f3}"
    );
}

#[test]
fn year_switch_calendar() {
    let mut year = Year::new(2025);
    let main_cal = Calendar::Gregorian(GregorianCalendar);
    let aux_cal = Some(Calendar::Persian(PersianCalendar));
    year.switch_calendar(&main_cal, &aux_cal);
    assert_eq!(year.reference_calendar, weeks_core::year::SECONDARY_CALENDAR);
    assert_eq!(*year.get_calendar(), Calendar::Persian(PersianCalendar));
    year.switch_calendar(&main_cal, &aux_cal);
    assert_eq!(year.reference_calendar, weeks_core::year::MAIN_CALENDAR);
    assert_eq!(*year.get_calendar(), main_cal);
    year.switch_calendar(&main_cal, &None);
    assert_eq!(year.reference_calendar, weeks_core::year::MAIN_CALENDAR);
}

#[test]
fn year_move_item_between_years() {
    let mut year = Year::new(2025);
    let mut obj = item(5, 0, None);
    obj.year = Some(2025);
    year.update(vec![obj], &main_pair(), &None);
    let moved = year.move_item_to_other_time_period_offset(5, -1).unwrap();
    assert_eq!(moved.year, Some(2024));
    assert!(moved.order_in_resolution.is_none());
    assert!(year.move_item_to_other_time_period_offset(6, 1).is_err());
}

#[test]
fn today_renders_both_calendars() {
    let aux = Some(CalendarLanguagePair {
        calendar: Calendar::Persian(PersianCalendar),
        language: Language::Farsi,
    });
    let today = Today::from_unix_day(0, &main_pair(), &aux);
    assert_eq!(today.main_date.year, 1970);
    assert_eq!(today.main_date_view.full_format, "Thursday, 1 January 1970");
    assert!(today.aux_date_view.is_some());
    let mut today2 = today.clone();
    today2.update(1, &main_pair(), &None);
    assert_eq!(today2.main_date_view.day, "2");
    assert!(today2.aux_date_view.is_none());
}

#[test]
fn config_setters_and_pairs() {
    let mut config = Config {
        database: "db".to_string(),
        main_calendar_type: "Gregorian".to_string(),
        main_calendar_language: "en".to_string(),
        main_calendar_start_weekday: "MON".to_string(),
        secondary_calendar_type: None,
        secondary_calendar_language: None,
        weekdates_display_direction: "ltr".to_string(),
        items_display_direction: "auto".to_string(),
    };
    let copy = config.get_copy();
    assert_eq!(copy.database, "db");
    set_main_cal_config(
        &mut config,
        "Persian".to_string(),
        "fa".to_string(),
        "SAT".to_string(),
        "rtl".to_string(),
    );
    assert_eq!(config.main_calendar_type, "Persian");
    assert_eq!(config.database, "db");
    let pair = get_main_cal_lang_pair(&config);
    assert_eq!(pair.calendar, Calendar::Persian(PersianCalendar));
    assert_eq!(pair.language, Language::Farsi);
    assert!(get_second_cal_lang_pair(&config).is_none());
    set_secondary_cal_config(&mut config, Some("Arabic".to_string()), None);
    let second = get_second_cal_lang_pair(&config).unwrap();
    assert_eq!(second.language, Language::English);
    set_items_display_direction_config(&mut config, "rtl".to_string());
    assert_eq!(config.items_display_direction, "rtl");
}

#[test]
fn database_file_plans() {
    assert_eq!(plan_database_file_change(false, false, false), DatabaseFilePlan::CreateNew);
    assert_eq!(plan_database_file_change(false, true, false), DatabaseFilePlan::MoveCurrent);
    assert_eq!(plan_database_file_change(true, true, true), DatabaseFilePlan::Switch);
    assert_eq!(plan_database_file_change(true, true, false), DatabaseFilePlan::RejectInvalid);
}

#[test]
fn weekday_offsets_and_names() {
    assert_eq!(WeekDaysUnixOffset::Thu.to_offset(), 0);
    assert_eq!(WeekDaysUnixOffset::Sat.to_offset(), 2);
    assert_eq!(WeekDaysUnixOffset::from_offset(4), WeekDaysUnixOffset::Mon);
    assert_eq!(WeekDaysUnixOffset::from_offset(99), WeekDaysUnixOffset::Thu);
    assert_eq!(
        WeekDaysUnixOffset::from_name("MON"),
        Some(WeekDaysUnixOffset::Mon)
    );
    assert_eq!(WeekDaysUnixOffset::from_name("XYZ"), None);
}

#[test]
fn move_by_id_and_item_edits() {
    let mut week = Week::new(0);
    week.compute_bounds(WeekDaysUnixOffset::Sat.to_offset());
    let items = vec![item(1, -5, Some("d")), item(2, -4, Some("h")), item(3, 0, Some("m"))];
    week.update(items, 0, &main_pair(), &None).unwrap();
    // moving the middle item up lands it above the first
    let k = week.generate_key_for_move_up_with_id(2).unwrap();
    assert!(k < "d".to_string());
    // moving it down lands it below the last
    let k = week.generate_key_for_move_down_with_id(2).unwrap();
    assert!("m".to_string() < k);
    assert!(week.generate_key_for_move_up_with_id(9).is_err());
    // a fresh append key goes after the last member
    let k = week.get_new_ordering_key(None);
    assert!("m".to_string() < k);
    let k = week.get_new_ordering_key(Some(1));
    assert!("d".to_string() < k && k < "h".to_string());

    let mut it = item(4, 0, None);
    weeks_core::models::toggle_item_status(&mut it);
    assert_eq!(it.status, Some(STATUS_DONE));
    weeks_core::models::toggle_item_status(&mut it);
    assert_eq!(it.status, Some(0));
    weeks_core::models::edit_item_text(&mut it, "new text".to_string());
    assert_eq!(it.title.as_deref(), Some("new text"));
}

#[test]
fn near_items_and_new_items() {
    let items = vec![item(1, 0, None), item(2, 0, None), item(3, 0, None)];
    assert_eq!(items.get_near_items_id(2), (Some(1), Some(3)));
    assert_eq!(items.get_near_items_id(1), (None, Some(2)));
    assert_eq!(items.get_near_items_id(3), (Some(2), None));
    assert_eq!(items.get_near_items_id(-1), (Some(3), Some(1)));
    assert_eq!(items.get_near_items_id(9), (None, None));
    let single = vec![item(1, 0, None)];
    assert_eq!(single.get_near_items_id(-1), (None, Some(1)));

    let n = NewItem::new(
        0,
        Some(2025),
        None,
        None,
        0,
        ITEM_KIND_NOTE,
        "remember".to_string(),
        "m".to_string(),
    );
    assert_eq!(n.note.as_deref(), Some("remember"));
    assert!(n.title.is_none());
    assert_eq!(n.order_in_resolution.as_deref(), Some("m"));
    assert!(n.order_in_week.is_none());
    assert_eq!(n.uuid.unwrap().len(), 24);

    let mut done = item(7, 0, None);
    done.status = Some(STATUS_DONE);
    let view = ItemView::from(&done, &main_pair());
    assert!(view.status);
    assert_eq!(view.text, "goal 7");
    let copy = NewItem::from(&done);
    assert_eq!(copy.status, Some(STATUS_DONE));
    assert!(copy.sync.is_none());
}
