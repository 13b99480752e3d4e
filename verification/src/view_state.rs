//! The state of the event viewer: which event types are shown, which row is selected, and
//! which events the list holds.
use vstd::prelude::*;

use crate::entry::EventEntry;
use crate::event_type::{all_types, parse_type, EventType};
use crate::storage::{newest_first, same_entry, EventStorage};

verus! {

/// The position of a kind in the filter list.
pub open spec fn kind_index(t: EventType) -> int {
    match t {
        EventType::Cache => 0,
        EventType::Http => 1,
        EventType::Log => 2,
        EventType::Query => 3,
        EventType::Exception => 4,
        EventType::ApplicationLog => 5,
        EventType::Table => 6,
    }
}

fn index_of(t: EventType) -> (i: usize)
    ensures
        i == kind_index(t),
        i < 7,
{
    match t {
        EventType::Cache => 0,
        EventType::Http => 1,
        EventType::Log => 2,
        EventType::Query => 3,
        EventType::Exception => 4,
        EventType::ApplicationLog => 5,
        EventType::Table => 6,
    }
}

/// Whether an entry passes the filters: its type names a kind that is enabled.
pub open spec fn shown(filters: Set<EventType>, e: EventEntry) -> bool {
    match parse_type(e.event_type@) {
        Some(t) => filters.contains(t),
        None => false,
    }
}

/// The entries of `events` that pass the filters, in order.
pub open spec fn filtered(filters: Set<EventType>, events: Seq<EventEntry>) -> Seq<EventEntry>
    decreases events.len(),
{
    if events.len() == 0 {
        Seq::empty()
    } else {
        let rest = filtered(filters, events.drop_last());
        if shown(filters, events.last()) {
            rest.push(events.last())
        } else {
            rest
        }
    }
}

/// Whether `out` holds copies of `wanted`, in order.
pub open spec fn copies_of(out: Seq<EventEntry>, wanted: Seq<EventEntry>) -> bool {
    &&& out.len() == wanted.len()
    &&& forall|i: int| 0 <= i < out.len() ==> same_entry(#[trigger] out[i], wanted[i])
}


/// The event list's state.
pub struct ViewState {
    selected_row: Option<usize>,
    total_rows: usize,
    /// Which kinds are shown, by filter position.
    enabled: Vec<bool>,
}

impl ViewState {
    /// The selected row, when one is.
    pub closed spec fn selected(&self) -> Option<usize> {
        self.selected_row
    }

    /// How many rows the list showed last.
    pub closed spec fn rows(&self) -> usize {
        self.total_rows
    }

    /// The selected row, when one is.
    pub fn selected_row(&self) -> (r: Option<usize>)
        ensures
            r == self.selected(),
    {
        self.selected_row
    }

    /// How many rows the list showed last.
    pub fn total_rows(&self) -> (n: usize)
        ensures
            n == self.rows(),
    {
        self.total_rows
    }

    /// The kinds that are shown.
    pub closed spec fn filters(&self) -> Set<EventType> {
        Set::new(|t: EventType| self.enabled@[kind_index(t)])
    }

    /// The state's own consistency: a switch for each kind.
    pub closed spec fn wf(&self) -> bool {
        self.enabled@.len() == 7
    }

    /// All kinds shown, first row selected, nothing listed yet.
    pub fn new() -> (s: ViewState)
        ensures
            s.wf(),
            s.filters() == Set::new(|t: EventType| all_types().contains(t)),
            s.filters() =~= Set::<EventType>::full(),
            s.selected() == Some(0usize),
            s.rows() == 0,
    {
        let s = ViewState {
            selected_row: Some(0),
            total_rows: 0,
            enabled: vec![true, true, true, true, true, true, true],
        };
        proof {
            assert forall|t: EventType| s.filters().contains(t) by {
                let _ = kind_index(t);
            }
            assert forall|t: EventType| all_types().contains(t) by {
                crate::event_type::lemma_all_types_complete(t);
            }
            assert(s.filters() =~= Set::new(|t: EventType| all_types().contains(t)));
        }
        s
    }

    /// Whether a kind is shown.
    pub fn is_enabled(&self, t: EventType) -> (b: bool)
        requires
            self.wf(),
        ensures
            b == self.filters().contains(t),
    {
        self.enabled[index_of(t)]
    }

    /// Shows a kind that was hidden, hides one that was shown, and selects the first row.
    pub fn toggle_event_type_filter(&mut self, t: EventType)
        requires
            old(self).wf(),
        ensures
            final(self).wf(),
            final(self).filters().contains(t) == !old(self).filters().contains(t),
            forall|u: EventType| u != t ==> final(self).filters().contains(u) == old(self).filters().contains(u),
            final(self).selected() == Some(0usize),
            final(self).rows() == old(self).rows(),
    {
        let i = index_of(t);
        let now = !self.enabled[i];
        self.enabled.set(i, now);
        self.selected_row = Some(0);
        proof {
            assert forall|u: EventType| u != t implies kind_index(u) != kind_index(t) by {}
        }
    }

    /// Selects a row that the list holds; other indices are ignored.
    pub fn select_row(&mut self, index: usize)
        ensures
            final(self).selected() == if index < old(self).rows() {
                Some(index)
            } else {
                old(self).selected()
            },
            final(self).rows() == old(self).rows(),
            final(self).filters() == old(self).filters(),
            final(self).wf() == old(self).wf(),
    {
        if index < self.total_rows {
            self.selected_row = Some(index);
        }
    }

    /// Whether a row is the selected one.
    pub fn is_row_selected(&self, index: usize) -> (b: bool)
        ensures
            b == (self.selected() == Some(index)),
    {
        match self.selected_row {
            Some(i) => i == index,
            None => false,
        }
    }

    /// Empties the store and selects the first row.
    pub fn clear_events(&mut self, storage: &mut EventStorage)
        requires
            old(storage).generation_count() < u64::MAX,
        ensures
            final(storage).events() == Seq::<EventEntry>::empty(),
            final(storage).generation_count() == old(storage).generation_count() + 1,
            final(storage).info() == old(storage).info(),
            final(self).selected() == Some(0usize),
            final(self).rows() == old(self).rows(),
            final(self).filters() == old(self).filters(),
            final(self).wf() == old(self).wf(),
    {
        storage.clear_events();
        self.selected_row = Some(0);
    }

    /// Whether an entry passes the filters.
    pub fn passes(&self, e: &EventEntry) -> (b: bool)
        requires
            self.wf(),
        ensures
            b == shown(self.filters(), *e),
    {
        match EventType::parse(e.event_type.as_str()) {
            Ok(t) => self.is_enabled(t),
            Err(_) => false,
        }
    }

    /// Copies of the stored events that pass the filters, newest first.
    pub fn get_filtered_events(&self, storage: &EventStorage) -> (v: Vec<EventEntry>)
        requires
            self.wf(),
        ensures
            exists|listed: Seq<EventEntry>|
                newest_first(storage.events(), listed) && #[trigger] copies_of(
                    v@,
                    filtered(self.filters(), listed),
                ),
    {
        let all = storage.get_events_optimized();
        let mut v: Vec<EventEntry> = Vec::new();
        let mut i: usize = 0;
        while i < all.len()
            invariant
                self.wf(),
                i <= all.len(),
                copies_of(v@, filtered(self.filters(), all@.take(i as int))),
            decreases all.len() - i,
        {
            proof {
                assert(all@.take(i + 1).drop_last() =~= all@.take(i as int));
                assert(all@.take(i + 1).last() == all@[i as int]);
            }
            if self.passes(&all[i]) {
                v.push(all[i].copy());
            }
            i += 1;
        }
        proof {
            assert(all@.take(i as int) =~= all@);
        }
        v
    }

    /// Records how many rows the list holds and settles the selection: a selection past
    /// the end moves to the first row (or to none when the list is empty). Returns the row
    /// whose details are shown.
    pub fn settle_selection(&mut self, rows: usize) -> (shown_row: Option<usize>)
        ensures
            final(self).rows() == rows,
            final(self).filters() == old(self).filters(),
            final(self).wf() == old(self).wf(),
            match old(self).selected() {
                Some(i) => if i < rows {
                    shown_row == Some(i) && final(self).selected() == Some(i)
                } else if rows == 0 {
                    shown_row is None && final(self).selected() is None
                } else {
                    shown_row == Some(0usize) && final(self).selected() == Some(0usize)
                },
                None => shown_row is None && final(self).selected() is None,
            },
    {
        self.total_rows = rows;
        match self.selected_row {
            Some(i) => if i < rows {
                Some(i)
            } else if rows == 0 {
                self.selected_row = None;
                None
            } else {
                self.selected_row = Some(0);
                Some(0)
            },
            None => None,
        }
    }
}

/// What the list watcher remembers between its looks at the store: the event count it saw
/// last.
pub struct Watcher {
    last_count: usize,
}

impl Watcher {
    /// The count the watcher saw last.
    pub closed spec fn last(&self) -> usize {
        self.last_count
    }

    /// A watcher that has seen `count` events.
    pub fn new(count: usize) -> (w: Watcher)
        ensures
            w.last() == count,
    {
        Watcher { last_count: count }
    }

    /// Looks at the current event count: says whether it changed since the last look (the
    /// list is then redrawn), and remembers it.
    pub fn observe(&mut self, count: usize) -> (changed: bool)
        ensures
            changed == (count != old(self).last()),
            final(self).last() == count,
    {
        let changed = count != self.last_count;
        self.last_count = count;
        changed
    }
}

/// Toggling a kind twice leaves the filters as they were.
pub proof fn law_toggle_twice(before: Set<EventType>, mid: Set<EventType>, after: Set<EventType>, t: EventType)
    requires
        mid.contains(t) == !before.contains(t),
        forall|u: EventType| u != t ==> mid.contains(u) == before.contains(u),
        after.contains(t) == !mid.contains(t),
        forall|u: EventType| u != t ==> after.contains(u) == mid.contains(u),
    ensures
        after == before,
{
    assert(after =~= before);
}

/// With every kind shown, the list keeps every entry whose type names a kind, and only those.
pub proof fn law_all_filters_show_known_kinds(events: Seq<EventEntry>)
    ensures
        forall|e: EventEntry| #[trigger] shown(Set::<EventType>::full(), e) <==> parse_type(e.event_type@) is Some,
{
}

/// The filtered list holds only entries that pass the filters, and every entry that passes.
pub proof fn law_filtered_is_exact(filters: Set<EventType>, events: Seq<EventEntry>)
    ensures
        forall|i: int| 0 <= i < filtered(filters, events).len() ==> shown(filters, #[trigger] filtered(filters, events)[i]),
        forall|i: int| 0 <= i < events.len() && shown(filters, #[trigger] events[i]) ==> filtered(filters, events).contains(events[i]),
    decreases events.len(),
{
    if events.len() > 0 {
        let rest = events.drop_last();
        law_filtered_is_exact(filters, rest);
        assert forall|i: int| 0 <= i < events.len() && shown(filters, #[trigger] events[i]) implies filtered(filters, events).contains(events[i]) by {
            if i < events.len() - 1 {
                assert(rest[i] == events[i]);
                let k = choose|k: int| 0 <= k < filtered(filters, rest).len() && filtered(filters, rest)[k] == rest[i];
                if shown(filters, events.last()) {
                    assert(filtered(filters, events)[k] == events[i]);
                } else {
                    assert(filtered(filters, events)[k] == events[i]);
                }
            } else {
                let f = filtered(filters, events);
                assert(f[f.len() - 1] == events[i]);
            }
        }
    }
}

/// The filtered list never holds more entries than the full one.
pub proof fn law_filtered_is_shorter(filters: Set<EventType>, events: Seq<EventEntry>)
    ensures
        filtered(filters, events).len() <= events.len(),
    decreases events.len(),
{
    if events.len() > 0 {
        law_filtered_is_shorter(filters, events.drop_last());
    }
}

} // verus!
