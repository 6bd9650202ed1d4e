//! Week windows over the absolute day counter.
//!
//! Days are counted from the epoch; day 0 is a Thursday.  A week window of
//! a given length and start-weekday offset is the set of consecutive days
//! whose first day lands on the configured weekday; windows tile the whole
//! day line with no gaps or overlaps.

use vstd::prelude::*;
use crate::calendar::CalendarLanguagePair;
use crate::calendar::Calendar;
use crate::calendar::day_supported;
use crate::calendar::spec_pair_for;
use crate::error::Error;
use crate::language::Language;
use crate::models::Item;
use crate::models::ItemView;
use crate::models::NewItem;
use crate::models::is_first_id_match;
use crate::models::item_view_matches;
use crate::models::no_id_match;
use crate::models::position_of_id;
use crate::ordering::after_key_result;
use crate::ordering::append_key_result;
use crate::ordering::is_first_match;
use crate::ordering::key_view_at;
use crate::ordering::key_chars;
use crate::ordering::lex_lt;
use crate::ordering::move_down_post;
use crate::ordering::move_up_post;
use crate::ordering::no_key_match;
use crate::ordering::nth_renormalized_key;
use crate::ordering::valid_key;
use crate::calendar::spec_calendar_code;
use crate::calendar::spec_calendar_from_code;
use crate::week_info::WeekInfo;
use crate::week_info::week_info_equiv;
use crate::week_info::week_info_matches;
use crate::weekdays::SEVEN_DAY_WEEK_SIZE;
use vstd::arithmetic::div_mod::{
    lemma_add_mod_noop, lemma_fundamental_div_mod, lemma_mod_bound, lemma_mod_multiples_basic,
    lemma_mod_self_0, lemma_small_mod,
};

verus! {

/// Largest absolute day handled by week arithmetic; about 270 000 years
/// away from the epoch, far beyond any calendar's range, while keeping all
/// intermediate arithmetic inside `i64`.
pub const MAX_WEEK_DAY_RANGE: i32 = 100_000_000;

/// First day of the week window containing `day`, for a week of `len` days
/// whose windows start `offset` days after a Thursday: `day` is floored to
/// the previous day lying `offset` days past a multiple of `len`.
pub open spec fn spec_week_start(day: int, offset: int, len: int) -> int {
    day - ((day - offset) % len)
}

/// Week windows tile the day line: the window start is never above the day,
/// the day lies strictly before the next window, and the start sits a
/// whole number of weeks past the offset.
pub proof fn lemma_week_window_contains(day: int, offset: int, len: int)
    requires
        len > 0,
    ensures
        spec_week_start(day, offset, len) <= day,
        day < spec_week_start(day, offset, len) + len,
        (spec_week_start(day, offset, len) - offset) % len == 0,
{
    lemma_mod_bound(day - offset, len);
    lemma_fundamental_div_mod(day - offset, len);
    let q = (day - offset) / len;
    assert(spec_week_start(day, offset, len) - offset == q * len);
    lemma_mod_multiples_basic(q, len);
}

/// Start, middle and end day of the week window containing `unix_day`.
///
/// The start is found by flooring `unix_day - day_offset` to a multiple of
/// `week_size` and re-adding the offset; flooring (not truncation toward
/// zero) keeps this correct for days before the epoch.  The middle is the
/// start plus half the week length, biased toward the later half for even
/// lengths; the end is the last day of the window.
pub fn calculate_week_start_middle_end_unix_day(
    unix_day: i32,
    day_offset: i32,
    week_size: i32,
) -> (r: (i32, i32, i32))
    requires
        -MAX_WEEK_DAY_RANGE <= unix_day <= MAX_WEEK_DAY_RANGE,
        0 <= day_offset < week_size,
        0 < week_size <= 1000,
    ensures
        r.0 == spec_week_start(unix_day as int, day_offset as int, week_size as int),
        r.1 == r.0 + week_size / 2,
        r.2 == r.0 + week_size - 1,
        r.0 <= unix_day && unix_day <= r.2,
{
    let d = unix_day as i64;
    let o = day_offset as i64;
    let len = week_size as i64;
    // shift the numerator by a whole number of weeks so that the remainder
    // can be taken on a nonnegative value
    let t = d - o + len * 200_000_000;
    let tu = t as u64;
    let mu = tu % (len as u64);
    let m = mu as i64;
    proof {
        lemma_mod_bound(t as int, len as int);
        vstd::arithmetic::div_mod::lemma_mod_multiples_vanish(
            200_000_000int,
            d - o,
            len as int,
        );
        assert(m == (d - o) % (len as int));
    }
    let start = d - m;
    let middle = start + len / 2;
    let end = start + len - 1;
    (start as i32, middle as i32, end as i32)
}

/// Law: two adjacent days either share a week window, or the first is the
/// last day of its window and the second starts the next window.
pub proof fn lemma_week_windows_partition(day: int, offset: int, len: int)
    requires
        len > 0,
    ensures
        ({
            let s1 = spec_week_start(day, offset, len);
            let s2 = spec_week_start(day + 1, offset, len);
            (s2 == s1 && day < s1 + len - 1) || (day == s1 + len - 1 && s2 == day + 1)
        }),
{
    let m = (day - offset) % len;
    lemma_mod_bound(day - offset, len);
    lemma_add_mod_noop(day - offset, 1, len);
    if len == 1 {
        lemma_mod_bound(day + 1 - offset, 1);
    } else {
        lemma_small_mod(1nat, len as nat);
        if m + 1 < len {
            lemma_small_mod((m + 1) as nat, len as nat);
        } else {
            lemma_mod_self_0(len);
        }
    }
}

/// Law: every day of a week window yields that same window again; the
/// bounds are a fixed point over their own window.
pub proof fn lemma_week_bounds_idempotent(day: int, x: int, offset: int, len: int)
    requires
        len > 0,
        spec_week_start(day, offset, len) <= x,
        x <= spec_week_start(day, offset, len) + len - 1,
    ensures
        spec_week_start(x, offset, len) == spec_week_start(day, offset, len),
{
    let s = spec_week_start(day, offset, len);
    let k = x - s;
    lemma_mod_bound(day - offset, len);
    lemma_fundamental_div_mod(day - offset, len);
    let q = (day - offset) / len;
    assert(s - offset == q * len);
    assert(x - offset == q * len + k);
    lemma_mod_multiples_basic(q, len);
    lemma_add_mod_noop(q * len, k, len);
    lemma_small_mod(k as nat, len as nat);
    assert((x - offset) % len == k);
}

/// The week-list ordering keys of a sequence of items, in item order.
pub open spec fn spec_week_keys(items: Seq<Item>) -> Seq<Option<String>> {
    items.map_values(|it: Item| it.order_in_week)
}

/// Two items that agree on everything but possibly the week ordering key.
pub open spec fn same_but_week_key(a: Item, b: Item) -> bool {
    b == Item { order_in_week: b.order_in_week, ..a }
}

/// The week-list keys of `items` are all present and strictly increasing.
pub open spec fn week_keys_sorted(items: Seq<Item>) -> bool {
    &&& forall|i: int| 0 <= i < items.len() ==> (#[trigger] items[i]).order_in_week is Some
    &&& forall|i: int, j: int|
        0 <= i < j < items.len() ==> lex_lt(
            key_view_at(spec_week_keys(items), i),
            key_view_at(spec_week_keys(items), j),
        )
}

/// What the key for inserting after the item with the given id is, read
/// over a plain string result: the empty string stands for a rejection,
/// which happens when the id is unknown, its item has no key, or the
/// neighbouring keys are unusable.
pub open spec fn after_id_key_result(items: Seq<Item>, id: i32, r: Seq<char>) -> bool {
    &&& (no_id_match(items, id) ==> r.len() == 0)
    &&& forall|p: int|
        is_first_id_match(items, id, p) ==> (match items[p].order_in_week {
            None => r.len() == 0,
            Some(k) => (no_key_match(spec_week_keys(items), k@) ==> r.len() == 0) && forall|q: int|
                is_first_match(spec_week_keys(items), k@, q) ==> after_key_result(
                    spec_week_keys(items),
                    k@,
                    q,
                    r,
                ),
        })
}

/// What moving the member with the given id one slot up returns: the
/// move-up outcome for its key, or a rejection when the id is unknown or
/// its member has no key.
pub open spec fn move_up_id_post(items: Seq<Item>, id: i32, r: Result<String, String>) -> bool {
    &&& (no_id_match(items, id) ==> r is Err)
    &&& forall|p: int|
        is_first_id_match(items, id, p) ==> (match items[p].order_in_week {
            None => r is Err,
            Some(k) => (no_key_match(spec_week_keys(items), k@) ==> r is Err) && forall|q: int|
                is_first_match(spec_week_keys(items), k@, q) ==> move_up_post(
                    spec_week_keys(items),
                    k@,
                    q,
                    r,
                ),
        })
}

/// What moving the member with the given id one slot down returns.
pub open spec fn move_down_id_post(items: Seq<Item>, id: i32, r: Result<String, String>) -> bool {
    &&& (no_id_match(items, id) ==> r is Err)
    &&& forall|p: int|
        is_first_id_match(items, id, p) ==> (match items[p].order_in_week {
            None => r is Err,
            Some(k) => (no_key_match(spec_week_keys(items), k@) ==> r is Err) && forall|q: int|
                is_first_match(spec_week_keys(items), k@, q) ==> move_down_post(
                    spec_week_keys(items),
                    k@,
                    q,
                    r,
                ),
        })
}

/// One week of the planner: its window over the day line, its member
/// items in display order, and the localized view assembled from them.
#[derive(Debug)]
pub struct Week {
    pub reference_day: i32,
    pub start_day: i32,
    pub middle_day: i32,
    pub end_day: i32,
    pub items: Vec<Item>,
    pub week_view: WeekView,
}

/// The presentation of one week: its summary under the main and, when
/// configured, the secondary calendar, and its members rendered in order.
#[derive(Debug)]
pub struct WeekView {
    pub week_info_main: WeekInfo,
    pub week_info_aux: Option<WeekInfo>,
    pub items: Vec<ItemView>,
}

impl Week {
    /// A week around the given reference day, before any items or views
    /// are loaded.
    pub fn new(reference_day: i32) -> (r: Week)
        ensures
            r.reference_day == reference_day,
            r.items@.len() == 0,
    {
        Week {
            reference_day,
            start_day: 0,
            middle_day: 0,
            end_day: 0,
            items: Vec::new(),
            week_view: WeekView {
                week_info_main: WeekInfo {
                    calendar: Calendar::default(),
                    language: Language::English,
                    dates: Vec::new(),
                    direction: String::new(),
                    month_year_info: String::new(),
                },
                week_info_aux: None,
                items: Vec::new(),
            },
        }
    }

    /// Recompute the window of the week containing the reference day, for
    /// a seven-day week starting on the weekday at the given offset.
    pub fn compute_bounds(&mut self, start_weekday_offset: i32)
        requires
            -MAX_WEEK_DAY_RANGE <= old(self).reference_day <= MAX_WEEK_DAY_RANGE,
            0 <= start_weekday_offset < 7,
        ensures
            final(self).start_day == spec_week_start(
                old(self).reference_day as int,
                start_weekday_offset as int,
                7,
            ),
            final(self).middle_day == final(self).start_day + 3,
            final(self).end_day == final(self).start_day + 6,
            final(self).start_day <= final(self).reference_day <= final(self).end_day,
            final(self).reference_day == old(self).reference_day,
            final(self).items == old(self).items,
            final(self).week_view == old(self).week_view,
    {
        let (start_day, middle_day, end_day) = calculate_week_start_middle_end_unix_day(
            self.reference_day,
            start_weekday_offset,
            SEVEN_DAY_WEEK_SIZE,
        );
        self.start_day = start_day;
        self.middle_day = middle_day;
        self.end_day = end_day;
    }

    /// Step the reference day one week forward.
    pub fn next(&mut self)
        requires
            old(self).reference_day + 7 <= i32::MAX,
        ensures
            final(self).reference_day == old(self).reference_day + 7,
            final(self).start_day == old(self).start_day,
            final(self).middle_day == old(self).middle_day,
            final(self).end_day == old(self).end_day,
            final(self).items == old(self).items,
            final(self).week_view == old(self).week_view,
    {
        self.reference_day = self.reference_day + 7;
    }

    /// Step the reference day one week back.
    pub fn previous(&mut self)
        requires
            i32::MIN <= old(self).reference_day - 7,
        ensures
            final(self).reference_day == old(self).reference_day - 7,
            final(self).start_day == old(self).start_day,
            final(self).middle_day == old(self).middle_day,
            final(self).end_day == old(self).end_day,
            final(self).items == old(self).items,
            final(self).week_view == old(self).week_view,
    {
        self.reference_day = self.reference_day - 7;
    }

    /// Bring the reference day back to today.
    pub fn current(&mut self, today: i32)
        ensures
            final(self).reference_day == today,
            final(self).start_day == old(self).start_day,
            final(self).middle_day == old(self).middle_day,
            final(self).end_day == old(self).end_day,
            final(self).items == old(self).items,
            final(self).week_view == old(self).week_view,
    {
        self.reference_day = today;
    }

    /// The week-list ordering keys of the members, in display order.
    pub fn get_keys(&self) -> (r: Vec<Option<String>>)
        ensures
            r@ == spec_week_keys(self.items@),
    {
        let n = self.items.len();
        let mut keys: Vec<Option<String>> = Vec::new();
        let mut i: usize = 0;
        while i < n
            invariant
                0 <= i <= n,
                n == self.items@.len(),
                keys@.len() == i,
                forall|j: int| 0 <= j < i ==> keys@[j] == self.items@[j].order_in_week,
            decreases n - i,
        {
            let k = match &self.items[i].order_in_week {
                Some(s) => Some(s.clone()),
                None => None,
            };
            keys.push(k);
            i += 1;
        }
        proof {
            assert(keys@ =~= spec_week_keys(self.items@));
        }
        keys
    }

    /// Assign the week-list key at one position; positions outside the
    /// list are rejected.
    pub fn set_ordering_key_of_posision(&mut self, i: usize, key: Option<String>) -> (r: Result<
        (),
        String,
    >)
        ensures
            r is Ok <==> i < old(self).items@.len(),
            final(self).items@.len() == old(self).items@.len(),
            r is Ok ==> final(self).items@ == old(self).items@.update(
                i as int,
                Item { order_in_week: key, ..old(self).items@[i as int] },
            ),
            r is Err ==> final(self).items@ == old(self).items@,
            final(self).reference_day == old(self).reference_day,
            final(self).start_day == old(self).start_day,
            final(self).middle_day == old(self).middle_day,
            final(self).end_day == old(self).end_day,
            final(self).week_view == old(self).week_view,
    {
        if i >= self.items.len() {
            return Err(String::from_str("invalid pos"));
        }
        let mut item = self.items[i].clone();
        item.order_in_week = key;
        self.items.set(i, item);
        Ok(())
    }

    /// The week-list key of the member with the given id; an unknown id is
    /// rejected.
    pub fn get_ordering_key_of_id(&self, id: i32) -> (r: Result<Option<String>, String>)
        ensures
            r is Err <==> no_id_match(self.items@, id),
            forall|p: int|
                is_first_id_match(self.items@, id, p) ==> (r matches Ok(k) && k
                    == self.items@[p].order_in_week),
    {
        match position_of_id(&self.items, id) {
            None => Err(String::from_str("invalid ordering key")),
            Some(p) => Ok(
                match &self.items[p].order_in_week {
                    Some(s) => Some(s.clone()),
                    None => None,
                },
            ),
        }
    }

    /// Repair the week-list ordering if any member is missing its key:
    /// every member then receives a fresh key, in the order the members
    /// already stand, so the display order is preserved exactly.  Returns
    /// whether a repair took place, so the caller can persist the new
    /// keys.
    pub fn check_and_fix_ordering(&mut self) -> (changed: bool)
        ensures
            changed == (exists|i: int|
                0 <= i < old(self).items@.len() && (#[trigger] old(self).items@[i]).order_in_week
                    is None),
            !changed ==> final(self).items@ == old(self).items@,
            final(self).items@.len() == old(self).items@.len(),
            forall|i: int|
                0 <= i < final(self).items@.len() ==> same_but_week_key(
                    #[trigger] old(self).items@[i],
                    final(self).items@[i],
                ),
            changed ==> week_keys_sorted(final(self).items@),
            changed ==> forall|i: int|
                0 <= i < final(self).items@.len() ==> key_view_at(
                    spec_week_keys(final(self).items@),
                    i,
                ) == nth_renormalized_key(i),
            final(self).reference_day == old(self).reference_day,
            final(self).start_day == old(self).start_day,
            final(self).middle_day == old(self).middle_day,
            final(self).end_day == old(self).end_day,
            final(self).week_view == old(self).week_view,
    {
        let mut keys = self.get_keys();
        let fix = crate::ordering::needs_reordering(&keys);
        proof {
            let ghost ks = spec_week_keys(self.items@);
            assert(fix == (exists|i: int|
                0 <= i < self.items@.len() && (#[trigger] self.items@[i]).order_in_week
                    is None)) by {
                if fix {
                    let i = choose|i: int| 0 <= i < ks.len() && ks[i] is None;
                    assert(self.items@[i].order_in_week is None);
                } else {
                    if exists|i: int|
                        0 <= i < self.items@.len() && (#[trigger] self.items@[i]).order_in_week
                            is None {
                        let i = choose|i: int|
                            0 <= i < self.items@.len() && (
                            #[trigger] self.items@[i]).order_in_week is None;
                        assert(ks[i] is None);
                    }
                }
            }
        }
        if !fix {
            return false;
        }
        crate::ordering::new_ordering(&mut keys);
        let n = self.items.len();
        let ghost orig = self.items@;
        let mut i: usize = 0;
        while i < n
            invariant
                0 <= i <= n,
                n == self.items@.len(),
                n == orig.len(),
                n == keys@.len(),
                forall|j: int| 0 <= j < keys@.len() ==> keys@[j] is Some,
                forall|j: int| 0 <= j < keys@.len() ==> valid_key(key_view_at(keys@, j)),
                forall|j: int|
                    0 <= j < keys@.len() ==> key_view_at(keys@, j) == nth_renormalized_key(j),
                forall|j1: int, j2: int|
                    0 <= j1 < j2 < keys@.len() ==> lex_lt(
                        key_view_at(keys@, j1),
                        key_view_at(keys@, j2),
                    ),
                forall|j: int| i <= j < n ==> self.items@[j] == orig[j],
                forall|j: int|
                    0 <= j < i ==> self.items@[j] == (Item {
                        order_in_week: keys@[j],
                        ..orig[j]
                    }),
                self.reference_day == old(self).reference_day,
                self.start_day == old(self).start_day,
                self.middle_day == old(self).middle_day,
                self.end_day == old(self).end_day,
                self.week_view == old(self).week_view,
            decreases n - i,
        {
            let k = match &keys[i] {
                Some(s) => Some(s.clone()),
                None => None,
            };
            let mut item = self.items[i].clone();
            item.order_in_week = k;
            self.items.set(i, item);
            i += 1;
        }
        proof {
            assert forall|j: int|
                0 <= j < self.items@.len() implies same_but_week_key(
                orig[j],
                #[trigger] self.items@[j],
            ) by {
                assert(self.items@[j] == Item { order_in_week: keys@[j], ..orig[j] });
            }
            assert forall|j: int|
                0 <= j < self.items@.len() implies (#[trigger] self.items@[j]).order_in_week
                is Some by {
                assert(self.items@[j].order_in_week == keys@[j]);
            }
            assert forall|j1: int, j2: int|
                0 <= j1 < j2 < self.items@.len() implies lex_lt(
                key_view_at(spec_week_keys(self.items@), j1),
                key_view_at(spec_week_keys(self.items@), j2),
            ) by {
                assert(self.items@[j1] == Item { order_in_week: keys@[j1], ..orig[j1] });
                assert(self.items@[j2] == Item { order_in_week: keys@[j2], ..orig[j2] });
                assert(spec_week_keys(self.items@)[j1] == self.items@[j1].order_in_week);
                assert(spec_week_keys(self.items@)[j2] == self.items@[j2].order_in_week);
                assert(key_view_at(spec_week_keys(self.items@), j1) == key_view_at(keys@, j1));
                assert(key_view_at(spec_week_keys(self.items@), j2) == key_view_at(keys@, j2));
                assert(lex_lt(key_view_at(keys@, j1), key_view_at(keys@, j2)));
            }
            assert forall|j: int|
                0 <= j < self.items@.len() implies key_view_at(
                spec_week_keys(self.items@),
                j,
            ) == nth_renormalized_key(j) by {
                assert(self.items@[j] == Item { order_in_week: keys@[j], ..orig[j] });
                assert(spec_week_keys(self.items@)[j] == self.items@[j].order_in_week);
                assert(key_view_at(spec_week_keys(self.items@), j) == key_view_at(keys@, j));
            }
        }
        true
    }

    /// A fresh ordering key: after the member with the given id, or after
    /// the whole list when no id is given.  The empty string stands for a
    /// rejected request.
    pub fn get_new_ordering_key(&self, after_id: Option<i32>) -> (r: String)
        ensures
            after_id is None ==> append_key_result(spec_week_keys(self.items@), r@),
            after_id matches Some(id) ==> after_id_key_result(self.items@, id, r@),
    {
        let keys = self.get_keys();
        match after_id {
            None => {
                match crate::ordering::generate_append_key(&keys) {
                    Ok(k) => k,
                    Err(_) => String::new(),
                }
            },
            Some(id) => {
                match position_of_id(&self.items, id) {
                    None => String::new(),
                    Some(p) => {
                        match &self.items[p].order_in_week {
                            None => String::new(),
                            Some(k) => {
                                let key = k.clone();
                                match crate::ordering::generate_key_for_after_key(&keys, &key) {
                                    Ok(s) => s,
                                    Err(_) => String::new(),
                                }
                            },
                        }
                    },
                }
            },
        }
    }
}

/// What the rendered member list of a week view holds: one rendering per
/// member, each under the pair that owns the member's calendar.
pub open spec fn item_views_match(
    items: Seq<Item>,
    views: Seq<ItemView>,
    main_pair: CalendarLanguagePair,
    aux_pair: Option<CalendarLanguagePair>,
) -> bool {
    &&& views.len() == items.len()
    &&& forall|i: int|
        0 <= i < items.len() ==> item_view_matches(
            items[i],
            spec_pair_for(spec_calendar_from_code(items[i].calendar as int), main_pair, aux_pair),
            #[trigger] views[i],
        )
}

/// Two week views that hold the same rendered content.
pub open spec fn week_view_equiv(a: WeekView, b: WeekView) -> bool {
    &&& week_info_equiv(a.week_info_main, b.week_info_main)
    &&& (a.week_info_aux is Some <==> b.week_info_aux is Some)
    &&& (a.week_info_aux matches Some(x) ==> (b.week_info_aux matches Some(y) ==> week_info_equiv(
        x,
        y,
    )))
    &&& a.items@ == b.items@
}

impl Clone for WeekView {
    fn clone(&self) -> (r: Self)
        ensures
            week_view_equiv(r, *self),
    {
        let mut items: Vec<ItemView> = Vec::new();
        let n = self.items.len();
        let mut i: usize = 0;
        while i < n
            invariant
                0 <= i <= n,
                n == self.items@.len(),
                items@.len() == i,
                forall|j: int| 0 <= j < i ==> items@[j] == self.items@[j],
            decreases n - i,
        {
            items.push(self.items[i].clone());
            i += 1;
        }
        proof {
            assert(items@ =~= self.items@);
        }
        WeekView {
            week_info_main: self.week_info_main.clone(),
            week_info_aux: match &self.week_info_aux {
                Some(w) => Some(w.clone()),
                None => None,
            },
            items,
        }
    }
}

impl Week {
    /// Store this week's freshly loaded members, repair their ordering if
    /// any key is missing, and rebuild the localized view: the week's
    /// summary under the main and, when configured, the secondary
    /// calendar, and each member rendered under the pair that owns it.
    /// Returns whether an ordering repair took place, so the caller can
    /// persist the new keys; an inverted or over-long window is rejected
    /// and leaves the view untouched.
    pub fn update(
        &mut self,
        items: Vec<Item>,
        today: i32,
        main_pair: &CalendarLanguagePair,
        aux_pair: &Option<CalendarLanguagePair>,
    ) -> (r: Result<bool, Error>)
        requires
            day_supported(main_pair.calendar, old(self).start_day as int),
            day_supported(main_pair.calendar, old(self).end_day as int),
            day_supported(main_pair.calendar, today as int),
            aux_pair matches Some(p) ==> day_supported(p.calendar, old(self).start_day as int)
                && day_supported(p.calendar, old(self).end_day as int) && day_supported(
                p.calendar,
                today as int,
            ),
        ensures
            r is Ok <==> old(self).start_day <= old(self).end_day && old(self).end_day - old(
                self,
            ).start_day <= 20,
            old(self).start_day > old(self).end_day <==> (r matches Err(e)
                && e is BadDaysRangeError),
            old(self).start_day <= old(self).end_day && old(self).end_day - old(self).start_day
                > 20 <==> (r matches Err(e) && e matches Error::LongDaysRangeError(n) && n == old(
                self,
            ).end_day - old(self).start_day),
            final(self).reference_day == old(self).reference_day,
            final(self).start_day == old(self).start_day,
            final(self).middle_day == old(self).middle_day,
            final(self).end_day == old(self).end_day,
            final(self).items@.len() == items@.len(),
            forall|i: int|
                0 <= i < items@.len() ==> same_but_week_key(
                    items@[i],
                    #[trigger] final(self).items@[i],
                ),
            r matches Ok(changed) ==> changed == (exists|i: int|
                0 <= i < items@.len() && (#[trigger] items@[i]).order_in_week is None),
            r matches Ok(changed) ==> (!changed ==> final(self).items@ == items@) && (changed
                ==> week_keys_sorted(final(self).items@)),
            r is Ok ==> week_info_matches(
                final(self).week_view.week_info_main,
                old(self).start_day as int,
                old(self).end_day as int,
                today as int,
                main_pair.calendar,
                main_pair.language,
            ),
            r is Ok ==> (final(self).week_view.week_info_aux is Some <==> aux_pair is Some),
            r is Ok ==> (final(self).week_view.week_info_aux matches Some(w) ==> (
            aux_pair matches Some(p) ==> week_info_matches(
                w,
                old(self).start_day as int,
                old(self).end_day as int,
                today as int,
                p.calendar,
                p.language,
            ))),
            r is Ok ==> item_views_match(
                final(self).items@,
                final(self).week_view.items@,
                *main_pair,
                *aux_pair,
            ),
            r is Err ==> week_view_equiv(final(self).week_view, old(self).week_view),
    {
        self.items = items;
        let changed = self.check_and_fix_ordering();
        let main_info = match WeekInfo::from_unix_start_end_days(
            self.start_day,
            self.end_day,
            today,
            main_pair.calendar,
            main_pair.language,
        ) {
            Ok(w) => w,
            Err(e) => {
                proof {
                    let wv = self.week_view;
                    assert(week_info_equiv(wv.week_info_main, wv.week_info_main));
                    if wv.week_info_aux is Some {
                        let x = wv.week_info_aux->Some_0;
                        assert(week_info_equiv(x, x));
                    }
                }
                return Err(e);
            },
        };
        self.week_view.week_info_main = main_info;
        self.week_view.week_info_aux = match aux_pair {
            Some(p) => {
                match WeekInfo::from_unix_start_end_days(
                    self.start_day,
                    self.end_day,
                    today,
                    p.calendar,
                    p.language,
                ) {
                    Ok(w) => Some(w),
                    Err(_) => vstd::pervasive::unreached(),
                }
            },
            None => None,
        };
        let n = self.items.len();
        let mut views: Vec<ItemView> = Vec::new();
        let mut i: usize = 0;
        while i < n
            invariant
                0 <= i <= n,
                n == self.items@.len(),
                views@.len() == i,
                forall|j: int|
                    0 <= j < i ==> item_view_matches(
                        self.items@[j],
                        spec_pair_for(
                            spec_calendar_from_code(self.items@[j].calendar as int),
                            *main_pair,
                            *aux_pair,
                        ),
                        #[trigger] views@[j],
                    ),
            decreases n - i,
        {
            let cal = Calendar::from_code(self.items[i].calendar);
            let pair = CalendarLanguagePair::for_calendar(&cal, main_pair, aux_pair);
            let view = ItemView::from(&self.items[i], &pair);
            views.push(view);
            i += 1;
        }
        self.week_view.items = views;
        Ok(changed)
    }

    /// A new goal or note for this week: it lands on the week's middle
    /// day under the main calendar, with a fresh ordering key after the
    /// current last member.
    pub fn add_new_item(&self, kind: i32, text: String, main_calendar: &Calendar) -> (r: NewItem)
        ensures
            r.calendar == spec_calendar_code(*main_calendar),
            r.year is None,
            r.season is None,
            r.month is None,
            r.day == self.middle_day,
            r.kind == kind,
            r.order_in_resolution is None,
            r.order_in_week matches Some(k) && append_key_result(spec_week_keys(self.items@), k@),
            kind == crate::models::ITEM_KIND_GOAL ==> (r.title matches Some(t) && t@ == text@),
            kind == crate::models::ITEM_KIND_NOTE ==> (r.note matches Some(t) && t@ == text@),
            r.status == Some(crate::models::STATUS_UNDONE),
    {
        let calendar: i32 = main_calendar.to_code();
        let ordering_key: String = self.get_new_ordering_key(None);
        NewItem::new(calendar, None, None, None, self.middle_day, kind, text, ordering_key)
    }

    /// The member with the given id moved to another week, the given
    /// number of weeks away: its day shifts by whole weeks and its
    /// week-list key is cleared so the target week renormalizes it.  An
    /// unknown id, or a shift leaving the representable day range, is
    /// rejected.  The caller persists the returned item.
    pub fn move_item_to_other_time_period_offset(&self, id: i32, offset: i32) -> (r: Result<
        Item,
        String,
    >)
        ensures
            no_id_match(self.items@, id) ==> r is Err,
            forall|p: int|
                is_first_id_match(self.items@, id, p) ==> {
                    let nd = self.items@[p].day + 7 * (offset as int);
                    if i32::MIN <= nd <= i32::MAX {
                        r matches Ok(it) && it == Item {
                            day: nd as i32,
                            order_in_week: None,
                            ..self.items@[p]
                        }
                    } else {
                        r is Err
                    }
                },
    {
        match position_of_id(&self.items, id) {
            None => Err(String::from_str("id not in list!")),
            Some(pos) => {
                let nd: i64 = self.items[pos].day as i64 + 7 * (offset as i64);
                if nd < i32::MIN as i64 || nd > i32::MAX as i64 {
                    return Err(String::from_str("day out of range"));
                }
                let mut item = self.items[pos].clone();
                item.day = nd as i32;
                item.order_in_week = None;
                Ok(item)
            },
        }
    }

    /// New key for moving the member with the given id up one slot.
    pub fn generate_key_for_move_up_with_id(&self, id: i32) -> (r: Result<String, String>)
        ensures
            move_up_id_post(self.items@, id, r),
    {
        match position_of_id(&self.items, id) {
            None => Err(String::from_str("invalid id")),
            Some(p) => {
                match &self.items[p].order_in_week {
                    None => Err(String::from_str("invalid key")),
                    Some(k) => {
                        let key = k.clone();
                        let keys = self.get_keys();
                        crate::ordering::generate_key_for_move_up_with_key(&keys, &key)
                    },
                }
            },
        }
    }

    /// New key for moving the member with the given id down one slot.
    pub fn generate_key_for_move_down_with_id(&self, id: i32) -> (r: Result<String, String>)
        ensures
            move_down_id_post(self.items@, id, r),
    {
        match position_of_id(&self.items, id) {
            None => Err(String::from_str("invalid id")),
            Some(p) => {
                match &self.items[p].order_in_week {
                    None => Err(String::from_str("invalid key")),
                    Some(k) => {
                        let key = k.clone();
                        let keys = self.get_keys();
                        crate::ordering::generate_key_for_move_down_with_key(&keys, &key)
                    },
                }
            },
        }
    }

    /// The assembled presentation of this week.
    pub fn get_view(&self) -> (r: WeekView)
        ensures
            week_view_equiv(r, self.week_view),
    {
        self.week_view.clone()
    }
}

} // verus!
