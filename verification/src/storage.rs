//! The store of processed events that the event list shows.
use vstd::prelude::*;

use crate::entry::{EventEntry, EventError};
use crate::events::{processable, processed};
use crate::json::{get_str, json_view, Json};
use crate::text::{push_str, to_string};

verus! {

/// Whether two entries hold the same texts and the same payload.
pub open spec fn same_entry(a: EventEntry, b: EventEntry) -> bool {
    &&& a.timestamp@ == b.timestamp@
    &&& same_but_timestamp(a, b)
}

/// Whether two entries agree on everything but the timestamp.
pub open spec fn same_but_timestamp(a: EventEntry, b: EventEntry) -> bool {
    &&& a.label@ == b.label@
    &&& a.description@ == b.description@
    &&& a.content@ == b.content@
    &&& a.content_type@ == b.content_type@
    &&& a.event_type@ == b.event_type@
    &&& json_view(a.raw_payload) == json_view(b.raw_payload)
}

/// Whether `listed` holds copies of `events`, newest (last added) first.
pub open spec fn newest_first(events: Seq<EventEntry>, listed: Seq<EventEntry>) -> bool {
    &&& listed.len() == events.len()
    &&& forall|i: int|
        0 <= i < listed.len() ==> same_entry(#[trigger] listed[i], events[events.len() - 1 - i])
}

/// The type an incoming event names (`type`), `unknown` when it names none.
pub open spec fn incoming_type(event: Json) -> Seq<char> {
    match get_str(event, "type"@) {
        Some(t) => t,
        None => "unknown"@,
    }
}

/// The entry stored for a processed event: its own timestamp, or `now` when it has none.
pub open spec fn stored_entry(processed_entry: EventEntry, now: Seq<char>, stored: EventEntry) -> bool {
    &&& same_but_timestamp(stored, processed_entry)
    &&& stored.timestamp@ == if processed_entry.timestamp@.len() == 0 {
        now
    } else {
        processed_entry.timestamp@
    }
}

impl EventEntry {
    /// A copy of this entry.
    pub fn copy(&self) -> (r: EventEntry)
        ensures
            same_entry(r, *self),
    {
        EventEntry {
            timestamp: self.timestamp.clone(),
            label: self.label.clone(),
            description: self.description.clone(),
            content: self.content.clone(),
            content_type: self.content_type.clone(),
            event_type: self.event_type.clone(),
            raw_payload: self.raw_payload.deep_clone(),
        }
    }
}

/// Processed events, in arrival order, with a counter of changes and the server's address.
pub struct EventStorage {
    events: Vec<EventEntry>,
    server_info: String,
    generation: u64,
}

impl EventStorage {
    /// The stored events, oldest first.
    pub closed spec fn events(&self) -> Seq<EventEntry> {
        self.events@
    }

    /// The number of changes made to the stored events.
    pub closed spec fn generation_count(&self) -> u64 {
        self.generation
    }

    /// The server description last set.
    pub closed spec fn info(&self) -> Seq<char> {
        self.server_info@
    }

    /// An empty store.
    pub fn new() -> (s: EventStorage)
        ensures
            s.events() == Seq::<EventEntry>::empty(),
            s.generation_count() == 0,
            s.info() == Seq::<char>::empty(),
    {
        EventStorage { events: Vec::new(), server_info: String::new(), generation: 0 }
    }

    /// Records where the server listens.
    pub fn set_server_info(&mut self, info: String)
        ensures
            final(self).info() == info@,
            final(self).events() == old(self).events(),
            final(self).generation_count() == old(self).generation_count(),
    {
        self.server_info = info;
    }

    /// The server description last set.
    pub fn server_info(&self) -> (s: &str)
        ensures
            s@ == self.info(),
    {
        self.server_info.as_str()
    }

    /// Processes an incoming event by the type it names and stores the entry, stamped with
    /// `now` when the payload has no timestamp. A failure leaves the store unchanged.
    pub fn add_event(&mut self, event: &Json, now: &str) -> (r: Result<(), EventError>)
        requires
            processable(incoming_type(*event), *event),
            old(self).generation_count() < u64::MAX,
        ensures
            match r {
                Ok(()) => {
                    &&& final(self).events().len() == old(self).events().len() + 1
                    &&& final(self).events().drop_last() == old(self).events()
                    &&& exists|e: EventEntry|
                        #[trigger] processed(incoming_type(*event), *event, Ok(e)) && stored_entry(
                            e,
                            now@,
                            final(self).events().last(),
                        )
                    &&& final(self).generation_count() == old(self).generation_count() + 1
                },
                Err(err) => {
                    &&& processed(incoming_type(*event), *event, Err(err))
                    &&& final(self).events() == old(self).events()
                    &&& final(self).generation_count() == old(self).generation_count()
                },
            },
            final(self).info() == old(self).info(),
    {
        let event_type: String = match event.get("type") {
            Some(t) => match t.as_str() {
                Some(s) => to_string(s),
                None => to_string("unknown"),
            },
            None => to_string("unknown"),
        };
        assert(event_type@ == incoming_type(*event));
        let r = crate::events::process_event(event_type.as_str(), event);
        match r {
            Ok(mut entry) => {
                let ghost processed_entry = entry;
                assert(processed(incoming_type(*event), *event, Ok(processed_entry)));
                if entry.timestamp.as_str().is_empty() {
                    entry.timestamp = to_string(now);
                }
                let ghost before = self.events@;
                self.events.push(entry);
                self.generation = self.generation + 1;
                proof {
                    assert(self.events@.drop_last() =~= before);
                    assert(stored_entry(processed_entry, now@, self.events@.last()));
                }
                Ok(())
            },
            Err(e) => Err(e),
        }
    }

    /// Copies of the stored events, newest first.
    pub fn get_events_optimized(&self) -> (v: Vec<EventEntry>)
        ensures
            newest_first(self.events(), v@),
    {
        let n = self.events.len();
        let mut v: Vec<EventEntry> = Vec::new();
        let mut k: usize = 0;
        while k < n
            invariant
                n == self.events@.len(),
                k <= n,
                v.len() == k,
                forall|i: int|
                    0 <= i < k ==> same_entry(#[trigger] v@[i], self.events@[n - 1 - i]),
            decreases n - k,
        {
            v.push(self.events[n - 1 - k].copy());
            k += 1;
        }
        v
    }

    /// The number of changes made to the stored events.
    pub fn get_generation(&self) -> (g: u64)
        ensures
            g == self.generation_count(),
    {
        self.generation
    }

    /// Removes all events.
    pub fn clear_events(&mut self)
        requires
            old(self).generation_count() < u64::MAX,
        ensures
            final(self).events() == Seq::<EventEntry>::empty(),
            final(self).generation_count() == old(self).generation_count() + 1,
            final(self).info() == old(self).info(),
    {
        self.events.clear();
        self.generation = self.generation + 1;
    }

    /// The number of stored events.
    pub fn event_count(&self) -> (n: usize)
        ensures
            n == self.events().len(),
    {
        self.events.len()
    }
}

/// Takes an incoming event into the store (see `EventStorage::add_event`).
pub fn process_event(event: &Json, storage: &mut EventStorage, now: &str) -> (r: Result<(), EventError>)
    requires
        processable(incoming_type(*event), *event),
        old(storage).generation_count() < u64::MAX,
    ensures
        match r {
            Ok(()) => {
                &&& final(storage).events().len() == old(storage).events().len() + 1
                &&& final(storage).events().drop_last() == old(storage).events()
                &&& exists|e: EventEntry|
                    #[trigger] processed(incoming_type(*event), *event, Ok(e)) && stored_entry(
                        e,
                        now@,
                        final(storage).events().last(),
                    )
                &&& final(storage).generation_count() == old(storage).generation_count() + 1
            },
            Err(err) => {
                &&& processed(incoming_type(*event), *event, Err(err))
                &&& final(storage).events() == old(storage).events()
                &&& final(storage).generation_count() == old(storage).generation_count()
            },
        },
        final(storage).info() == old(storage).info(),
{
    storage.add_event(event, now)
}

/// How important a log message is.
#[derive(Clone, Copy, Debug, PartialEq, Eq, Structural)]
pub enum LogLevel {
    Info,
    Error,
}

/// The name a level is printed with.
pub open spec fn level_name(level: LogLevel) -> Seq<char> {
    match level {
        LogLevel::Info => "INFO"@,
        LogLevel::Error => "ERROR"@,
    }
}

/// The console line of a log message: `[<timestamp>] [<LEVEL> <source>] <message>`.
pub open spec fn log_text(level: LogLevel, timestamp: Seq<char>, source: Seq<char>, message: Seq<char>) -> Seq<char> {
    "["@ + timestamp + "] ["@ + level_name(level) + " "@ + source + "] "@ + message
}

impl LogLevel {
    /// Whether messages of this level go to standard error (the others go to standard
    /// output).
    pub fn to_stderr(&self) -> (b: bool)
        ensures
            b == (*self == LogLevel::Error),
    {
        match self {
            LogLevel::Error => true,
            LogLevel::Info => false,
        }
    }
}

/// The console line of a log message logged at local time `timestamp`.
pub fn log_line(level: LogLevel, timestamp: &str, source: &str, message: &str) -> (s: String)
    ensures
        s@ == log_text(level, timestamp@, source@, message@),
{
    let mut s = to_string("[");
    push_str(&mut s, timestamp);
    push_str(&mut s, "] [");
    push_str(&mut s, match level {
        LogLevel::Info => "INFO",
        LogLevel::Error => "ERROR",
    });
    push_str(&mut s, " ");
    push_str(&mut s, source);
    push_str(&mut s, "] ");
    push_str(&mut s, message);
    proof {
        assert(s@ =~= log_text(level, timestamp@, source@, message@));
    }
    s
}

/// Adding an event that is processed, then listing, shows that event first, and the
/// events stored before after it in reverse arrival order.
pub proof fn law_newest_first_after_add(
    before: Seq<EventEntry>,
    after: Seq<EventEntry>,
    listed: Seq<EventEntry>,
)
    requires
        after.len() == before.len() + 1,
        after.drop_last() == before,
        newest_first(after, listed),
    ensures
        same_entry(listed[0], after.last()),
        forall|i: int|
            0 <= i < before.len() ==> same_entry(#[trigger] listed[i + 1], before[before.len() - 1 - i]),
{
    assert(same_entry(listed[0], after[after.len() - 1]));
    assert forall|i: int| 0 <= i < before.len() implies same_entry(
        #[trigger] listed[i + 1],
        before[before.len() - 1 - i],
    ) by {
        assert(same_entry(listed[i + 1], after[after.len() - 1 - (i + 1)]));
        assert(after.drop_last()[before.len() - 1 - i] == after[before.len() - 1 - i]);
    }
}

} // verus!
