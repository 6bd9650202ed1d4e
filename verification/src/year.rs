//! One calendar year of the planner: its objectives in display order and
//! the localized view assembled from them.

use vstd::prelude::*;
use crate::calendar::Calendar;
use crate::calendar::CalendarLanguagePair;
use crate::calendar::spec_calendar_from_code;
use crate::calendar::spec_pair_for;
use crate::language::Language;
use crate::language::localized_digits;
use crate::models::Item;
use crate::models::ItemView;
use crate::models::is_first_id_match;
use crate::models::item_view_matches;
use crate::models::no_id_match;
use crate::models::position_of_id;
use crate::ordering::after_key_result;
use crate::ordering::append_key_result;
use crate::ordering::is_first_match;
use crate::ordering::key_view_at;
use crate::ordering::lex_lt;
use crate::ordering::move_down_post;
use crate::ordering::move_up_post;
use crate::ordering::no_key_match;
use crate::ordering::nth_renormalized_key;
use crate::ordering::valid_key;
use crate::text::i32_to_string;
use crate::text::spec_dec;

verus! {

/// The year list is being shown under the main calendar.
pub const MAIN_CALENDAR: u32 = 0;

/// The year list is being shown under the secondary calendar.
pub const SECONDARY_CALENDAR: u32 = 1;

/// The year-list ordering keys of a sequence of items, in item order.
pub open spec fn spec_year_keys(items: Seq<Item>) -> Seq<Option<String>> {
    items.map_values(|it: Item| it.order_in_resolution)
}

/// Two items that agree on everything but possibly the year ordering key.
pub open spec fn same_but_year_key(a: Item, b: Item) -> bool {
    b == Item { order_in_resolution: b.order_in_resolution, ..a }
}

/// The year-list keys of `items` are all present and strictly increasing.
pub open spec fn year_keys_sorted(items: Seq<Item>) -> bool {
    &&& forall|i: int| 0 <= i < items.len() ==> (#[trigger] items[i]).order_in_resolution is Some
    &&& forall|i: int, j: int|
        0 <= i < j < items.len() ==> lex_lt(
            key_view_at(spec_year_keys(items), i),
            key_view_at(spec_year_keys(items), j),
        )
}

/// What the key for inserting after the item with the given id is, read
/// over a plain string result with the empty string standing for a
/// rejection.
pub open spec fn after_id_year_key_result(items: Seq<Item>, id: i32, r: Seq<char>) -> bool {
    &&& (no_id_match(items, id) ==> r.len() == 0)
    &&& forall|p: int|
        is_first_id_match(items, id, p) ==> (match items[p].order_in_resolution {
            None => r.len() == 0,
            Some(k) => (no_key_match(spec_year_keys(items), k@) ==> r.len() == 0) && forall|q: int|
                is_first_match(spec_year_keys(items), k@, q) ==> after_key_result(
                    spec_year_keys(items),
                    k@,
                    q,
                    r,
                ),
        })
}

/// What moving the member with the given id one slot up returns, over the
/// year list's keys.
pub open spec fn move_up_id_post(items: Seq<Item>, id: i32, r: Result<String, String>) -> bool {
    &&& (no_id_match(items, id) ==> r is Err)
    &&& forall|p: int|
        is_first_id_match(items, id, p) ==> (match items[p].order_in_resolution {
            None => r is Err,
            Some(k) => (no_key_match(spec_year_keys(items), k@) ==> r is Err) && forall|q: int|
                is_first_match(spec_year_keys(items), k@, q) ==> move_up_post(
                    spec_year_keys(items),
                    k@,
                    q,
                    r,
                ),
        })
}

/// What moving the member with the given id one slot down returns, over
/// the year list's keys.
pub open spec fn move_down_id_post(items: Seq<Item>, id: i32, r: Result<String, String>) -> bool {
    &&& (no_id_match(items, id) ==> r is Err)
    &&& forall|p: int|
        is_first_id_match(items, id, p) ==> (match items[p].order_in_resolution {
            None => r is Err,
            Some(k) => (no_key_match(spec_year_keys(items), k@) ==> r is Err) && forall|q: int|
                is_first_match(spec_year_keys(items), k@, q) ==> move_down_post(
                    spec_year_keys(items),
                    k@,
                    q,
                    r,
                ),
        })
}

/// The calendar and language a year list is shown under: the secondary
/// pair when it is selected and configured, the main pair otherwise.
pub open spec fn spec_selected_pair(
    reference_calendar: u32,
    main_pair: CalendarLanguagePair,
    second_pair: Option<CalendarLanguagePair>,
) -> CalendarLanguagePair {
    match second_pair {
        Some(p) => if reference_calendar == SECONDARY_CALENDAR {
            p
        } else {
            main_pair
        },
        None => main_pair,
    }
}

/// One year of the planner: the year number under its calendar, the
/// objectives filed against it in display order, and the localized view.
#[derive(Debug)]
pub struct Year {
    pub reference_year: i32,
    pub reference_calendar: u32,
    pub calendar: Calendar,
    pub language: Language,
    pub items: Vec<Item>,
    pub year_view: YearView,
}

/// The presentation of one year: its localized number and title, and its
/// members rendered in order.
#[derive(Debug)]
pub struct YearView {
    pub year: String,
    pub title: String,
    pub info: String,
    pub items: Vec<ItemView>,
}

/// Two year views that hold the same rendered content.
pub open spec fn year_view_equiv(a: YearView, b: YearView) -> bool {
    &&& a.year == b.year
    &&& a.title == b.title
    &&& a.info == b.info
    &&& a.items@ == b.items@
}

impl Clone for YearView {
    fn clone(&self) -> (r: Self)
        ensures
            year_view_equiv(r, *self),
    {
        let mut items: Vec<ItemView> = Vec::new();
        let n = self.items.len();
        let mut i: usize = 0;
        while i < n
            invariant
                0 <= i <= n,
                n == self.items@.len(),
                items@.len() == i,
                forall|j: int| 0 <= j < i ==> items@[j] == self.items@[j],
            decreases n - i,
        {
            items.push(self.items[i].clone());
            i += 1;
        }
        proof {
            assert(items@ =~= self.items@);
        }
        YearView {
            year: self.year.clone(),
            title: self.title.clone(),
            info: self.info.clone(),
            items,
        }
    }
}

/// The localized title of a year: the year number alone is localized, and
/// the wording is Farsi for Farsi, English otherwise.
pub open spec fn spec_year_title(lang: Language, year_string: Seq<char>) -> Seq<char> {
    match lang {
        Language::Farsi => "\u{633}\u{627}\u{644} "@ + year_string,
        _ => "Year "@ + year_string,
    }
}

impl Year {
    /// A year shown under the main calendar, before any items or views
    /// are loaded.
    pub fn new(reference_year: i32) -> (r: Year)
        ensures
            r.reference_year == reference_year,
            r.reference_calendar == MAIN_CALENDAR,
            r.items@.len() == 0,
    {
        Year {
            reference_year,
            reference_calendar: MAIN_CALENDAR,
            calendar: Calendar::default(),
            language: Language::English,
            items: Vec::new(),
            year_view: YearView {
                year: String::new(),
                title: String::new(),
                info: String::new(),
                items: Vec::new(),
            },
        }
    }

    /// Store this year's freshly loaded members, repair their ordering if
    /// any key is missing, and rebuild the localized view under the
    /// selected calendar-language pair.  Returns whether an ordering
    /// repair took place, so the caller can persist the new keys.
    pub fn update(
        &mut self,
        items: Vec<Item>,
        main_pair: &CalendarLanguagePair,
        second_pair: &Option<CalendarLanguagePair>,
    ) -> (changed: bool)
        ensures
            ({
                let pair = spec_selected_pair(
                    old(self).reference_calendar,
                    *main_pair,
                    *second_pair,
                );
                &&& final(self).calendar == pair.calendar
                &&& final(self).language == pair.language
                &&& final(self).reference_year == old(self).reference_year
                &&& final(self).reference_calendar == old(self).reference_calendar
                &&& final(self).items@.len() == items@.len()
                &&& forall|i: int|
                    0 <= i < items@.len() ==> same_but_year_key(
                        items@[i],
                        #[trigger] final(self).items@[i],
                    )
                &&& changed == (exists|i: int|
                    0 <= i < items@.len() && (#[trigger] items@[i]).order_in_resolution is None)
                &&& (!changed ==> final(self).items@ == items@)
                &&& (changed ==> year_keys_sorted(final(self).items@))
                &&& final(self).year_view.year@ == localized_digits(
                    pair.language,
                    spec_dec(old(self).reference_year as int),
                )
                &&& final(self).year_view.title@ == spec_year_title(
                    pair.language,
                    final(self).year_view.year@,
                )
                &&& final(self).year_view.info@.len() == 0
                &&& final(self).year_view.items@.len() == final(self).items@.len()
                &&& forall|i: int|
                    0 <= i < final(self).items@.len() ==> item_view_matches(
                        final(self).items@[i],
                        spec_pair_for(
                            spec_calendar_from_code(final(self).items@[i].calendar as int),
                            *main_pair,
                            *second_pair,
                        ),
                        #[trigger] final(self).year_view.items@[i],
                    )
            }),
    {
        let pair = match second_pair {
            Some(p) => {
                if self.reference_calendar == SECONDARY_CALENDAR {
                    *p
                } else {
                    *main_pair
                }
            },
            None => *main_pair,
        };
        self.calendar = pair.calendar;
        self.language = pair.language;

        self.items = items;
        let changed = self.check_and_fix_ordering();

        // yearly title
        let year_digits = i32_to_string(self.reference_year);
        let year_string = self.language.change_numbers_language(year_digits.as_str());
        let mut title = match self.language {
            Language::Farsi => String::from_str("\u{633}\u{627}\u{644} "),
            _ => String::from_str("Year "),
        };
        title.append(year_string.as_str());
        self.year_view.year = year_string;
        self.year_view.title = title;
        self.year_view.info = String::new();

        // member views
        let n = self.items.len();
        let mut views: Vec<ItemView> = Vec::new();
        let mut i: usize = 0;
        while i < n
            invariant
                0 <= i <= n,
                n == self.items@.len(),
                views@.len() == i,
                forall|j: int|
                    0 <= j < i ==> item_view_matches(
                        self.items@[j],
                        spec_pair_for(
                            spec_calendar_from_code(self.items@[j].calendar as int),
                            *main_pair,
                            *second_pair,
                        ),
                        #[trigger] views@[j],
                    ),
            decreases n - i,
        {
            let cal = Calendar::from_code(self.items[i].calendar);
            let item_pair = CalendarLanguagePair::for_calendar(&cal, main_pair, second_pair);
            let view = ItemView::from(&self.items[i], &item_pair);
            views.push(view);
            i += 1;
        }
        self.year_view.items = views;
        changed
    }

    /// The assembled presentation of this year.
    pub fn get_view(&self) -> (r: YearView)
        ensures
            year_view_equiv(r, self.year_view),
    {
        self.year_view.clone()
    }

    /// The calendar this year is reckoned under.
    pub fn get_calendar(&self) -> (r: &Calendar)
        ensures
            r == self.calendar,
    {
        &self.calendar
    }

    /// Step to the following year.
    pub fn next(&mut self)
        requires
            old(self).reference_year + 1 <= i32::MAX,
        ensures
            final(self).reference_year == old(self).reference_year + 1,
            final(self).reference_calendar == old(self).reference_calendar,
            final(self).items == old(self).items,
            final(self).year_view == old(self).year_view,
    {
        self.reference_year = self.reference_year + 1;
    }

    /// Step to the preceding year.
    pub fn previous(&mut self)
        requires
            i32::MIN <= old(self).reference_year - 1,
        ensures
            final(self).reference_year == old(self).reference_year - 1,
            final(self).reference_calendar == old(self).reference_calendar,
            final(self).items == old(self).items,
            final(self).year_view == old(self).year_view,
    {
        self.reference_year = self.reference_year - 1;
    }

    /// Bring the reference year back to the year containing today.
    pub fn current(&mut self, today_year: i32)
        ensures
            final(self).reference_year == today_year,
            final(self).reference_calendar == old(self).reference_calendar,
            final(self).items == old(self).items,
            final(self).year_view == old(self).year_view,
    {
        self.reference_year = today_year;
    }

    /// Switch the year list between the main and the secondary calendar:
    /// to the secondary one when it is configured and the main one is
    /// showing, back to the main one otherwise.
    pub fn switch_calendar(&mut self, main_cal: &Calendar, aux_cal: &Option<Calendar>)
        ensures
            old(self).reference_calendar == MAIN_CALENDAR && aux_cal is Some
                ==> final(self).reference_calendar == SECONDARY_CALENDAR
                && (aux_cal matches Some(c) ==> final(self).calendar == c),
            !(old(self).reference_calendar == MAIN_CALENDAR && aux_cal is Some)
                ==> final(self).reference_calendar == MAIN_CALENDAR
                && final(self).calendar == main_cal,
            final(self).reference_year == old(self).reference_year,
            final(self).items == old(self).items,
            final(self).year_view == old(self).year_view,
    {
        match aux_cal {
            Some(c) => {
                if self.reference_calendar == MAIN_CALENDAR {
                    self.reference_calendar = SECONDARY_CALENDAR;
                    self.calendar = *c;
                } else {
                    self.reference_calendar = MAIN_CALENDAR;
                    self.calendar = *main_cal;
                }
            },
            None => {
                self.reference_calendar = MAIN_CALENDAR;
                self.calendar = *main_cal;
            },
        }
    }

    /// The member with the given id moved to another year, the given
    /// number of years away: its year shifts and its year-list key is
    /// cleared so the target year renormalizes it.  An item without a
    /// year starts from this list's reference year.  An unknown id, or a
    /// shift leaving the representable range, is rejected.  The caller
    /// persists the returned item.
    pub fn move_item_to_other_time_period_offset(&self, id: i32, offset: i32) -> (r: Result<
        Item,
        String,
    >)
        ensures
            no_id_match(self.items@, id) ==> r is Err,
            forall|p: int|
                is_first_id_match(self.items@, id, p) ==> {
                    let base = match self.items@[p].year {
                        Some(y) => y as int,
                        None => self.reference_year as int,
                    };
                    let ny = base + offset;
                    if i32::MIN <= ny <= i32::MAX {
                        r matches Ok(it) && it == Item {
                            year: Some(ny as i32),
                            order_in_resolution: None,
                            ..self.items@[p]
                        }
                    } else {
                        r is Err
                    }
                },
    {
        match position_of_id(&self.items, id) {
            None => Err(String::from_str("id not in list!")),
            Some(pos) => {
                let base: i64 = match self.items[pos].year {
                    Some(y) => y as i64,
                    None => self.reference_year as i64,
                };
                let ny: i64 = base + offset as i64;
                if ny < i32::MIN as i64 || ny > i32::MAX as i64 {
                    return Err(String::from_str("year out of range"));
                }
                let mut item = self.items[pos].clone();
                item.year = Some(ny as i32);
                item.order_in_resolution = None;
                Ok(item)
            },
        }
    }

    /// The year-list ordering keys of the members, in display order.
    pub fn get_keys(&self) -> (r: Vec<Option<String>>)
        ensures
            r@ == spec_year_keys(self.items@),
    {
        let n = self.items.len();
        let mut keys: Vec<Option<String>> = Vec::new();
        let mut i: usize = 0;
        while i < n
            invariant
                0 <= i <= n,
                n == self.items@.len(),
                keys@.len() == i,
                forall|j: int| 0 <= j < i ==> keys@[j] == self.items@[j].order_in_resolution,
            decreases n - i,
        {
            let k = match &self.items[i].order_in_resolution {
                Some(s) => Some(s.clone()),
                None => None,
            };
            keys.push(k);
            i += 1;
        }
        proof {
            assert(keys@ =~= spec_year_keys(self.items@));
        }
        keys
    }

    /// Assign the year-list key at one position; positions outside the
    /// list are rejected.
    pub fn set_ordering_key_of_posision(&mut self, i: usize, key: Option<String>) -> (r: Result<
        (),
        String,
    >)
        ensures
            r is Ok <==> i < old(self).items@.len(),
            final(self).items@.len() == old(self).items@.len(),
            r is Ok ==> final(self).items@ == old(self).items@.update(
                i as int,
                Item { order_in_resolution: key, ..old(self).items@[i as int] },
            ),
            r is Err ==> final(self).items@ == old(self).items@,
            final(self).reference_year == old(self).reference_year,
            final(self).reference_calendar == old(self).reference_calendar,
            final(self).year_view == old(self).year_view,
    {
        if i >= self.items.len() {
            return Err(String::from_str("invalid pos"));
        }
        let mut item = self.items[i].clone();
        item.order_in_resolution = key;
        self.items.set(i, item);
        Ok(())
    }

    /// The year-list key of the member with the given id; an unknown id
    /// is rejected.
    pub fn get_ordering_key_of_id(&self, id: i32) -> (r: Result<Option<String>, String>)
        ensures
            r is Err <==> no_id_match(self.items@, id),
            forall|p: int|
                is_first_id_match(self.items@, id, p) ==> (r matches Ok(k) && k
                    == self.items@[p].order_in_resolution),
    {
        match position_of_id(&self.items, id) {
            None => Err(String::from_str("invalid ordering key")),
            Some(p) => Ok(
                match &self.items[p].order_in_resolution {
                    Some(s) => Some(s.clone()),
                    None => None,
                },
            ),
        }
    }

    /// Repair the year-list ordering if any member is missing its key;
    /// the display order is preserved exactly.  Returns whether a repair
    /// took place, so the caller can persist the new keys.
    pub fn check_and_fix_ordering(&mut self) -> (changed: bool)
        ensures
            changed == (exists|i: int|
                0 <= i < old(self).items@.len() && (
                #[trigger] old(self).items@[i]).order_in_resolution is None),
            !changed ==> final(self).items@ == old(self).items@,
            final(self).items@.len() == old(self).items@.len(),
            forall|i: int|
                0 <= i < final(self).items@.len() ==> same_but_year_key(
                    #[trigger] old(self).items@[i],
                    final(self).items@[i],
                ),
            changed ==> year_keys_sorted(final(self).items@),
            changed ==> forall|i: int|
                0 <= i < final(self).items@.len() ==> key_view_at(
                    spec_year_keys(final(self).items@),
                    i,
                ) == nth_renormalized_key(i),
            final(self).reference_year == old(self).reference_year,
            final(self).reference_calendar == old(self).reference_calendar,
            final(self).calendar == old(self).calendar,
            final(self).language == old(self).language,
            final(self).year_view == old(self).year_view,
    {
        let mut keys = self.get_keys();
        let fix = crate::ordering::needs_reordering(&keys);
        proof {
            let ghost ks = spec_year_keys(self.items@);
            assert(fix == (exists|i: int|
                0 <= i < self.items@.len() && (#[trigger] self.items@[i]).order_in_resolution
                    is None)) by {
                if fix {
                    let i = choose|i: int| 0 <= i < ks.len() && ks[i] is None;
                    assert(self.items@[i].order_in_resolution is None);
                } else {
                    if exists|i: int|
                        0 <= i < self.items@.len() && (
                        #[trigger] self.items@[i]).order_in_resolution is None {
                        let i = choose|i: int|
                            0 <= i < self.items@.len() && (
                            #[trigger] self.items@[i]).order_in_resolution is None;
                        assert(ks[i] is None);
                    }
                }
            }
        }
        if !fix {
            return false;
        }
        crate::ordering::new_ordering(&mut keys);
        let n = self.items.len();
        let ghost orig = self.items@;
        let mut i: usize = 0;
        while i < n
            invariant
                0 <= i <= n,
                n == self.items@.len(),
                n == orig.len(),
                n == keys@.len(),
                forall|j: int| 0 <= j < keys@.len() ==> keys@[j] is Some,
                forall|j: int| 0 <= j < keys@.len() ==> valid_key(key_view_at(keys@, j)),
                forall|j: int|
                    0 <= j < keys@.len() ==> key_view_at(keys@, j) == nth_renormalized_key(j),
                forall|j1: int, j2: int|
                    0 <= j1 < j2 < keys@.len() ==> lex_lt(
                        key_view_at(keys@, j1),
                        key_view_at(keys@, j2),
                    ),
                forall|j: int| i <= j < n ==> self.items@[j] == orig[j],
                forall|j: int|
                    0 <= j < i ==> self.items@[j] == (Item {
                        order_in_resolution: keys@[j],
                        ..orig[j]
                    }),
                self.reference_year == old(self).reference_year,
                self.reference_calendar == old(self).reference_calendar,
                self.calendar == old(self).calendar,
                self.language == old(self).language,
                self.year_view == old(self).year_view,
            decreases n - i,
        {
            let k = match &keys[i] {
                Some(s) => Some(s.clone()),
                None => None,
            };
            let mut item = self.items[i].clone();
            item.order_in_resolution = k;
            self.items.set(i, item);
            i += 1;
        }
        proof {
            assert forall|j: int|
                0 <= j < self.items@.len() implies same_but_year_key(
                orig[j],
                #[trigger] self.items@[j],
            ) by {
                assert(self.items@[j] == Item { order_in_resolution: keys@[j], ..orig[j] });
            }
            assert forall|j: int|
                0 <= j < self.items@.len() implies (#[trigger] self.items@[j]).order_in_resolution
                is Some by {
                assert(self.items@[j].order_in_resolution == keys@[j]);
            }
            assert forall|j1: int, j2: int|
                0 <= j1 < j2 < self.items@.len() implies lex_lt(
                key_view_at(spec_year_keys(self.items@), j1),
                key_view_at(spec_year_keys(self.items@), j2),
            ) by {
                assert(self.items@[j1] == Item { order_in_resolution: keys@[j1], ..orig[j1] });
                assert(self.items@[j2] == Item { order_in_resolution: keys@[j2], ..orig[j2] });
                assert(spec_year_keys(self.items@)[j1] == self.items@[j1].order_in_resolution);
                assert(spec_year_keys(self.items@)[j2] == self.items@[j2].order_in_resolution);
                assert(key_view_at(spec_year_keys(self.items@), j1) == key_view_at(keys@, j1));
                assert(key_view_at(spec_year_keys(self.items@), j2) == key_view_at(keys@, j2));
                assert(lex_lt(key_view_at(keys@, j1), key_view_at(keys@, j2)));
            }
            assert forall|j: int|
                0 <= j < self.items@.len() implies key_view_at(
                spec_year_keys(self.items@),
                j,
            ) == nth_renormalized_key(j) by {
                assert(self.items@[j] == Item { order_in_resolution: keys@[j], ..orig[j] });
                assert(spec_year_keys(self.items@)[j] == self.items@[j].order_in_resolution);
                assert(key_view_at(spec_year_keys(self.items@), j) == key_view_at(keys@, j));
            }
        }
        true
    }

    /// New key for moving the member with the given id up one slot.
    pub fn generate_key_for_move_up_with_id(&self, id: i32) -> (r: Result<String, String>)
        ensures
            move_up_id_post(self.items@, id, r),
    {
        match position_of_id(&self.items, id) {
            None => Err(String::from_str("invalid id")),
            Some(p) => {
                match &self.items[p].order_in_resolution {
                    None => Err(String::from_str("invalid key")),
                    Some(k) => {
                        let key = k.clone();
                        let keys = self.get_keys();
                        crate::ordering::generate_key_for_move_up_with_key(&keys, &key)
                    },
                }
            },
        }
    }

    /// New key for moving the member with the given id down one slot.
    pub fn generate_key_for_move_down_with_id(&self, id: i32) -> (r: Result<String, String>)
        ensures
            move_down_id_post(self.items@, id, r),
    {
        match position_of_id(&self.items, id) {
            None => Err(String::from_str("invalid id")),
            Some(p) => {
                match &self.items[p].order_in_resolution {
                    None => Err(String::from_str("invalid key")),
                    Some(k) => {
                        let key = k.clone();
                        let keys = self.get_keys();
                        crate::ordering::generate_key_for_move_down_with_key(&keys, &key)
                    },
                }
            },
        }
    }

    /// A fresh ordering key: after the member with the given id, or after
    /// the whole list when no id is given.  The empty string stands for a
    /// rejected request.
    pub fn get_new_ordering_key(&self, after_id: Option<i32>) -> (r: String)
        ensures
            after_id is None ==> append_key_result(spec_year_keys(self.items@), r@),
            after_id matches Some(id) ==> after_id_year_key_result(self.items@, id, r@),
    {
        let keys = self.get_keys();
        match after_id {
            None => {
                match crate::ordering::generate_append_key(&keys) {
                    Ok(k) => k,
                    Err(_) => String::new(),
                }
            },
            Some(id) => {
                match position_of_id(&self.items, id) {
                    None => String::new(),
                    Some(p) => {
                        match &self.items[p].order_in_resolution {
                            None => String::new(),
                            Some(k) => {
                                let key = k.clone();
                                match crate::ordering::generate_key_for_after_key(&keys, &key) {
                                    Ok(s) => s,
                                    Err(_) => String::new(),
                                }
                            },
                        }
                    },
                }
            },
        }
    }
}

} // verus!
