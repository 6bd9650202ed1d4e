//! Stored list members ("items"): goals, notes and events kept against a
//! calendar period, each carrying at most one ordering key.

use vstd::prelude::*;
use crate::calendar::CalendarLanguagePair;
use crate::calendar::objective_tag_matches;

verus! {

pub const ITEM_KIND_GOAL: i32 = 1;

pub const ITEM_KIND_NOTE: i32 = 2;

pub const ITEM_KIND_EVENT: i32 = 3;

pub const STATUS_UNDONE: i32 = 0;

pub const STATUS_DONE: i32 = 1;

pub const LIST_TYPE_WEEKS: i32 = 1;

pub const LIST_TYPE_OBJECTIVES: i32 = 2;

/// A stored item.  The store owns creation and deletion; the core only ever
/// computes new values for the two ordering-key fields.
#[derive(Debug)]
pub struct Item {
    pub id: i32,
    pub calendar: i32,
    pub year: Option<i32>,
    pub season: Option<i32>,
    pub month: Option<i32>,
    pub day: i32,
    pub kind: i32,
    pub fixed_date: bool,
    pub all_day: bool,
    pub title: Option<String>,
    pub note: Option<String>,
    pub datetime: Option<String>,
    pub duration: Option<i32>,
    pub status: Option<i32>,
    pub order_in_week: Option<String>,
    pub order_in_resolution: Option<String>,
    pub sync: Option<i32>,
    pub uuid: Option<String>,
}

impl Clone for Item {
    fn clone(&self) -> (r: Self)
        ensures
            r == *self,
    {
        Item {
            id: self.id,
            calendar: self.calendar,
            year: self.year,
            season: self.season,
            month: self.month,
            day: self.day,
            kind: self.kind,
            fixed_date: self.fixed_date,
            all_day: self.all_day,
            title: match &self.title {
                Some(s) => Some(s.clone()),
                None => None,
            },
            note: match &self.note {
                Some(s) => Some(s.clone()),
                None => None,
            },
            datetime: match &self.datetime {
                Some(s) => Some(s.clone()),
                None => None,
            },
            duration: self.duration,
            status: self.status,
            order_in_week: match &self.order_in_week {
                Some(s) => Some(s.clone()),
                None => None,
            },
            order_in_resolution: match &self.order_in_resolution {
                Some(s) => Some(s.clone()),
                None => None,
            },
            sync: self.sync,
            uuid: match &self.uuid {
                Some(s) => Some(s.clone()),
                None => None,
            },
        }
    }
}

/// A new item as handed to the store, before it has an id.
#[derive(Debug, Clone)]
pub struct NewItem {
    pub calendar: i32,
    pub year: Option<i32>,
    pub season: Option<i32>,
    pub month: Option<i32>,
    pub day: i32,
    pub kind: i32,
    pub fixed_date: bool,
    pub all_day: bool,
    pub title: Option<String>,
    pub note: Option<String>,
    pub datetime: Option<String>,
    pub duration: Option<i32>,
    pub status: Option<i32>,
    pub order_in_week: Option<String>,
    pub order_in_resolution: Option<String>,
    pub sync: Option<i32>,
    pub uuid: Option<String>,
}

/// Relies on cuid2::create_id: a fresh 24-character collision-resistant id.
/// The value is random, so nothing more is assumed of it.
#[verifier::external_body]
fn new_uuid() -> (r: String)
    ensures
        r@.len() == 24,
{
    cuid2::create_id()
}

impl NewItem {
    /// Build a new item.  An item with a year is an objective and carries
    /// its ordering key in the year list; any other item carries it in the
    /// week list.  The text lands in the title for goals and in the note
    /// for notes.
    pub fn new(
        calendar: i32,
        year: Option<i32>,
        season: Option<i32>,
        month: Option<i32>,
        day: i32,
        kind: i32,
        text: String,
        ordering_key: String,
    ) -> (r: NewItem)
        ensures
            r.calendar == calendar,
            r.year == year,
            r.season == season,
            r.month == month,
            r.day == day,
            r.kind == kind,
            !r.fixed_date,
            !r.all_day,
            kind == ITEM_KIND_GOAL ==> (r.title matches Some(t) && t@ == text@),
            kind != ITEM_KIND_GOAL ==> r.title is None,
            kind == ITEM_KIND_NOTE ==> (r.note matches Some(t) && t@ == text@),
            kind != ITEM_KIND_NOTE ==> r.note is None,
            r.datetime is None,
            r.duration is None,
            r.status == Some(STATUS_UNDONE),
            year is Some ==> r.order_in_week is None && (r.order_in_resolution matches Some(k)
                && k@ == ordering_key@),
            year is None ==> r.order_in_resolution is None && (r.order_in_week matches Some(k)
                && k@ == ordering_key@),
            r.sync is None,
            r.uuid matches Some(u) && u@.len() == 24,
    {
        let is_objective: bool = year.is_some();
        NewItem {
            calendar,
            year,
            season,
            month,
            day,
            kind,
            fixed_date: false,
            all_day: false,
            title: if kind == ITEM_KIND_GOAL {
                Some(text.clone())
            } else {
                None
            },
            note: if kind == ITEM_KIND_NOTE {
                Some(text.clone())
            } else {
                None
            },
            datetime: None,
            duration: None,
            status: Some(STATUS_UNDONE),
            order_in_week: if is_objective {
                None
            } else {
                Some(ordering_key.clone())
            },
            order_in_resolution: if is_objective {
                Some(ordering_key.clone())
            } else {
                None
            },
            sync: None,
            uuid: Some(new_uuid()),
        }
    }

    /// Copy of a stored item as a new item, with a fresh id and no sync
    /// marker.
    pub fn from(item: &Item) -> (r: NewItem)
        ensures
            r.calendar == item.calendar,
            r.year == item.year,
            r.season == item.season,
            r.month == item.month,
            r.day == item.day,
            r.kind == item.kind,
            r.fixed_date == item.fixed_date,
            r.all_day == item.all_day,
            r.datetime == item.datetime,
            r.duration == item.duration,
            r.status == item.status,
            r.title == item.title,
            r.note == item.note,
            r.order_in_week == item.order_in_week,
            r.order_in_resolution == item.order_in_resolution,
            r.sync is None,
            r.uuid matches Some(u) && u@.len() == 24,
    {
        NewItem {
            calendar: item.calendar,
            year: item.year,
            season: item.season,
            month: item.month,
            day: item.day,
            kind: item.kind,
            fixed_date: item.fixed_date,
            all_day: item.all_day,
            title: item.title.clone(),
            note: item.note.clone(),
            datetime: item.datetime.clone(),
            duration: item.duration,
            status: item.status,
            order_in_week: item.order_in_week.clone(),
            order_in_resolution: item.order_in_resolution.clone(),
            sync: None,
            uuid: Some(new_uuid()),
        }
    }
}

/// Flip an item's done flag: a done item becomes undone, any other item
/// becomes done.
pub fn toggle_item_status(item: &mut Item)
    ensures
        old(item).status == Some(STATUS_DONE) ==> final(item).status == Some(STATUS_UNDONE),
        old(item).status != Some(STATUS_DONE) ==> final(item).status == Some(STATUS_DONE),
        *final(item) == (Item { status: final(item).status, ..*old(item) }),
{
    let done = match item.status {
        Some(s) => s == STATUS_DONE,
        None => false,
    };
    if done {
        item.status = Some(STATUS_UNDONE);
    } else {
        item.status = Some(STATUS_DONE);
    }
}

/// Replace an item's display text: the title of a goal, the note of a
/// note; items of any other kind keep their text.
pub fn edit_item_text(item: &mut Item, text: String)
    ensures
        old(item).kind == ITEM_KIND_GOAL ==> (final(item).title matches Some(t) && t@ == text@)
            && final(item).note == old(item).note,
        old(item).kind == ITEM_KIND_NOTE ==> (final(item).note matches Some(t) && t@ == text@)
            && final(item).title == old(item).title,
        old(item).kind != ITEM_KIND_GOAL && old(item).kind != ITEM_KIND_NOTE ==> final(item).title
            == old(item).title && final(item).note == old(item).note,
        *final(item) == (Item { title: final(item).title, note: final(item).note, ..*old(item) }),
{
    if item.kind == ITEM_KIND_GOAL {
        item.title = Some(text);
    } else if item.kind == ITEM_KIND_NOTE {
        item.note = Some(text);
    }
}

/// `p` is the first position of `items` holding the id `id`.
pub open spec fn is_first_id_match(items: Seq<Item>, id: i32, p: int) -> bool {
    &&& 0 <= p < items.len()
    &&& items[p].id == id
    &&& forall|j: int| 0 <= j < p ==> items[j].id != id
}

/// No position of `items` holds the id `id`.
pub open spec fn no_id_match(items: Seq<Item>, id: i32) -> bool {
    forall|j: int| 0 <= j < items.len() ==> items[j].id != id
}

/// First position of the item with the given id, if any.
pub fn position_of_id(items: &Vec<Item>, id: i32) -> (r: Option<usize>)
    ensures
        r matches Some(i) ==> is_first_id_match(items@, id, i as int),
        r is None ==> no_id_match(items@, id),
{
    let n = items.len();
    let mut i: usize = 0;
    while i < n
        invariant
            0 <= i <= n,
            n == items@.len(),
            forall|j: int| 0 <= j < i ==> items@[j].id != id,
        decreases n - i,
    {
        if items[i].id == id {
            return Some(i);
        }
        i += 1;
    }
    None
}

/// Lists of items that can name the members adjacent to a given one.
pub trait AsItemsList {
    /// Ids of the members just before and just after the member with the
    /// given id.  A negative id means "nothing selected": the first and the
    /// last member are then offered as next and previous, in that order,
    /// the previous only when a second member exists.
    fn get_near_items_id(&self, id: i32) -> (r: (Option<i32>, Option<i32>));
}

impl AsItemsList for Vec<Item> {
    fn get_near_items_id(&self, id: i32) -> (r: (Option<i32>, Option<i32>))
        ensures
            id < 0 && self@.len() == 0 ==> r == (None::<i32>, None::<i32>),
            id < 0 && self@.len() == 1 ==> r == (None::<i32>, Some(self@[0].id)),
            id < 0 && self@.len() >= 2 ==> r == (
                Some(self@[self@.len() - 1].id),
                Some(self@[0].id),
            ),
            id >= 0 && no_id_match(self@, id) ==> r == (None::<i32>, None::<i32>),
            id >= 0 ==> forall|p: int| is_first_id_match(self@, id, p) ==> r == (
                if p > 0 {
                    Some(self@[p - 1].id)
                } else {
                    None::<i32>
                },
                if p < self@.len() - 1 {
                    Some(self@[p + 1].id)
                } else {
                    None::<i32>
                },
            ),
    {
        let n = self.len();
        if id < 0 {
            // nothing selected: offer the first and last members
            let next = if n > 0 {
                Some(self[0].id)
            } else {
                None
            };
            let previous = if n >= 2 {
                Some(self[n - 1].id)
            } else {
                None
            };
            (previous, next)
        } else {
            match position_of_id(self, id) {
                Some(pos) => {
                    let previous = if pos > 0 {
                        Some(self[pos - 1].id)
                    } else {
                        None
                    };
                    let next = if pos < n - 1 {
                        Some(self[pos + 1].id)
                    } else {
                        None
                    };
                    (previous, next)
                },
                None => (None, None),
            }
        }
    }
}

pub const OBJECTIVE_TYPE_NONE: i32 = 0;

pub const OBJECTIVE_TYPE_MONTHLY: i32 = 1;

pub const OBJECTIVE_TYPE_SEASONAL: i32 = 2;

pub const OBJECTIVE_TYPE_YEARLY: i32 = 3;

/// The tag shown on an objective: which calendar and period it belongs
/// to, rendered for display.
#[derive(Debug)]
pub struct ObjectiveTag {
    pub calendar: i32,
    pub text: String,
    pub objective_type: i32,
    pub calendar_name: String,
    pub language: String,
    pub year_string: String,
    pub year: i32,
    pub season: Option<usize>,
    pub month: Option<usize>,
}

impl Clone for ObjectiveTag {
    fn clone(&self) -> (r: Self)
        ensures
            r == *self,
    {
        ObjectiveTag {
            calendar: self.calendar,
            text: self.text.clone(),
            objective_type: self.objective_type,
            calendar_name: self.calendar_name.clone(),
            language: self.language.clone(),
            year_string: self.year_string.clone(),
            year: self.year,
            season: self.season,
            month: self.month,
        }
    }
}

/// A stored item rendered for display.
#[derive(Debug)]
pub struct ItemView {
    pub id: i32,
    pub calendar: i32,
    pub kind: i32,
    pub text: String,
    pub status: bool,
    pub fixed_day_tag: Option<String>,
    pub objective_tag: Option<ObjectiveTag>,
    pub uuid: Option<String>,
}

impl Clone for ItemView {
    fn clone(&self) -> (r: Self)
        ensures
            r == *self,
    {
        ItemView {
            id: self.id,
            calendar: self.calendar,
            kind: self.kind,
            text: self.text.clone(),
            status: self.status,
            fixed_day_tag: match &self.fixed_day_tag {
                Some(s) => Some(s.clone()),
                None => None,
            },
            objective_tag: match &self.objective_tag {
                Some(t) => Some(t.clone()),
                None => None,
            },
            uuid: match &self.uuid {
                Some(s) => Some(s.clone()),
                None => None,
            },
        }
    }
}

/// What an item's rendering holds: the text comes from the title for
/// goals and from the note for notes, the done flag from a nonzero
/// status, the fixed-day tag only on fixed-date items with a day, and the
/// objective tag from the item's period under the given calendar pair.
pub open spec fn item_view_matches(
    item: Item,
    pair: CalendarLanguagePair,
    r: ItemView,
) -> bool {
    &&& r.id == item.id
    &&& r.calendar == item.calendar
    &&& r.kind == item.kind
    &&& r.text@ == (if item.kind == ITEM_KIND_GOAL {
        match item.title {
            Some(t) => t@,
            None => Seq::<char>::empty(),
        }
    } else if item.kind == ITEM_KIND_NOTE {
        match item.note {
            Some(t) => t@,
            None => Seq::<char>::empty(),
        }
    } else {
        Seq::<char>::empty()
    })
    &&& r.status == (match item.status {
        Some(s) => s != 0,
        None => false,
    })
    &&& (r.fixed_day_tag is Some <==> item.day != 0 && item.fixed_date)
    &&& (r.objective_tag is Some <==> item.year is Some && (match item.season {
        Some(s) => 1 <= s <= 4,
        None => match item.month {
            Some(m) => 1 <= m <= 12,
            None => true,
        },
    }))
    &&& (r.objective_tag matches Some(t) ==> (item.year matches Some(y)
        ==> objective_tag_matches(pair, y, item.season, item.month, t)))
    &&& r.uuid == item.uuid
}

impl ItemView {
    /// Render a stored item under the calendar-language pair that owns it.
    pub fn from(item: &Item, pair: &CalendarLanguagePair) -> (r: ItemView)
        ensures
            item_view_matches(*item, *pair, r),
    {
        let text: String = if item.kind == ITEM_KIND_GOAL {
            match &item.title {
                Some(t) => t.clone(),
                None => String::new(),
            }
        } else if item.kind == ITEM_KIND_NOTE {
            match &item.note {
                Some(t) => t.clone(),
                None => String::new(),
            }
        } else {
            String::new()
        };
        let status = match item.status {
            Some(s) => s != 0,
            None => false,
        };
        let fixed_day_tag = if item.day != 0 && item.fixed_date {
            Some(String::from_str("todo: fixed date!"))
        } else {
            None
        };
        let objective_tag = pair.get_objective_tag(item.year, item.season, item.month);
        ItemView {
            id: item.id,
            calendar: item.calendar,
            kind: item.kind,
            text,
            status,
            fixed_day_tag,
            objective_tag,
            uuid: match &item.uuid {
                Some(u) => Some(u.clone()),
                None => None,
            },
        }
    }
}

} // verus!
