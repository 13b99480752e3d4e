//! Processed events, ready for the event list and the detail view.
use vstd::prelude::*;

use crate::json::{get, get_str, get_u64, json_view, Json};
use crate::text::{decimal, push_str, to_string, u64_to_string};

verus! {

/// A processed event.
#[derive(Debug)]
pub struct EventEntry {
    /// The payload's `timestamp`, when it has one as text; otherwise empty.
    pub timestamp: String,
    /// Short title for the event list.
    pub label: String,
    /// One-line summary for the event list.
    pub description: String,
    /// Body of the detail view.
    pub content: String,
    /// How `content` is to be shown (`markdown`, or `custom_ui` when a renderer of its own
    /// draws the event from its payload).
    pub content_type: String,
    /// The event type the entry was processed as.
    pub event_type: String,
    /// The payload the entry was made from.
    pub raw_payload: Json,
}

/// Why an event payload could not be processed.
#[derive(Debug)]
pub enum EventError {
    /// The payload has no `content` field.
    MissingContent { event: String },
    /// The payload's `content` has no `values` field.
    MissingValues { event: String },
    /// A table event whose `content` has neither a known label nor `values`.
    UnknownTableFormat,
    /// A table event that did not come out as a cache, HTTP or table event.
    UnexpectedTableEvent,
}

/// The message of an error.
pub open spec fn error_message(e: EventError) -> Seq<char> {
    match e {
        EventError::MissingContent { event } => "Missing content in "@ + event@ + " event"@,
        EventError::MissingValues { event } => "Missing values in "@ + event@ + " event"@,
        EventError::UnknownTableFormat => "Unknown table event format"@,
        EventError::UnexpectedTableEvent => "Unexpected event type from table processor"@,
    }
}

impl EventError {
    /// The error's message.
    pub fn message(&self) -> (s: String)
        ensures
            s@ == error_message(*self),
    {
        match self {
            EventError::MissingContent { event } => {
                let mut s = to_string("Missing content in ");
                push_str(&mut s, event.as_str());
                push_str(&mut s, " event");
                s
            },
            EventError::MissingValues { event } => {
                let mut s = to_string("Missing values in ");
                push_str(&mut s, event.as_str());
                push_str(&mut s, " event");
                s
            },
            EventError::UnknownTableFormat => to_string("Unknown table event format"),
            EventError::UnexpectedTableEvent => to_string("Unexpected event type from table processor"),
        }
    }
}

/// A payload's `timestamp`, or empty text when it has none.
pub open spec fn timestamp_of(payload: Json) -> Seq<char> {
    match get_str(payload, "timestamp"@) {
        Some(t) => t,
        None => Seq::empty(),
    }
}

/// The source location that a payload reports in `origin`: `file:line`, when `origin.file`
/// is non-empty text (`line` is `origin.line_number`, 0 when absent).
pub open spec fn origin_of(payload: Json) -> Option<Seq<char>> {
    match get(payload, "origin"@) {
        Some(origin) => match get_str(origin, "file"@) {
            Some(file) => if file.len() > 0 {
                let line: u64 = match get_u64(origin, "line_number"@) {
                    Some(l) => l,
                    None => 0,
                };
                Some(file + ":"@ + decimal(line as nat))
            } else {
                None
            },
            None => None,
        },
        None => None,
    }
}

/// The payload's `timestamp`, or empty text.
pub fn extract_timestamp(payload: &Json) -> (s: String)
    ensures
        s@ == timestamp_of(*payload),
{
    match payload.get("timestamp") {
        Some(t) => match t.as_str() {
            Some(s) => to_string(s),
            None => String::new(),
        },
        None => String::new(),
    }
}

/// The payload's source location, `file:line`.
pub fn extract_origin_info(payload: &Json) -> (r: Option<String>)
    ensures
        match r {
            Some(s) => origin_of(*payload) == Some(s@),
            None => origin_of(*payload) is None,
        },
{
    let origin = match payload.get("origin") {
        Some(o) => o,
        None => return None,
    };
    let file = match origin.get("file") {
        Some(f) => match f.as_str() {
            Some(s) => s,
            None => return None,
        },
        None => return None,
    };
    if file.is_empty() {
        return None;
    }
    let line: u64 = match origin.get("line_number") {
        Some(l) => match l.as_u64() {
            Some(n) => n,
            None => 0,
        },
        None => 0,
    };
    let mut s = to_string(file);
    push_str(&mut s, ":");
    let digits = u64_to_string(line);
    push_str(&mut s, digits.as_str());
    Some(s)
}

/// An entry shown through a renderer of its own: no markdown body.
pub open spec fn plain_entry(
    event_type: Seq<char>,
    label: Seq<char>,
    description: Seq<char>,
    payload: Json,
    e: EventEntry,
) -> bool {
    &&& e.timestamp@ == timestamp_of(payload)
    &&& e.label@ == label
    &&& e.description@ == description
    &&& e.content@ == Seq::<char>::empty()
    &&& e.content_type@ == "custom_ui"@
    &&& e.event_type@ == event_type
    &&& json_view(e.raw_payload) == json_view(payload)
}

impl EventEntry {
    /// An entry for `payload` with the given type, label and description.
    pub fn new(event_type: &str, label: String, description: String, payload: &Json) -> (e:
        EventEntry)
        ensures
            plain_entry(event_type@, label@, description@, *payload, e),
    {
        EventEntry {
            timestamp: extract_timestamp(payload),
            label,
            description,
            content: String::new(),
            content_type: to_string("custom_ui"),
            event_type: to_string(event_type),
            raw_payload: payload.deep_clone(),
        }
    }
}

} // verus!
