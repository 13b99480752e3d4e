//! The entry that the plugin processors produce, and the entry they all start from.
use vstd::prelude::*;

use crate::text::to_string;

verus! {

/// A processed event as the plugin processors describe it.
pub struct EventEntry {
    pub timestamp: String,
    pub label: String,
    pub description: String,
    pub content: String,
    /// `json` until a processor writes a markdown body, then `markdown`.
    pub content_type: String,
}

/// The entry every plugin starts from: the event type as label, empty texts, JSON content.
pub open spec fn common_entry(p_type: Seq<char>, timestamp: Seq<char>, e: EventEntry) -> bool {
    &&& e.timestamp@ == timestamp
    &&& e.label@ == p_type
    &&& e.description@ == Seq::<char>::empty()
    &&& e.content@ == Seq::<char>::empty()
    &&& e.content_type@ == "json"@
}

/// A fresh entry of type `p_type`, stamped `timestamp` (the local time it is processed at).
pub fn process_common_event(p_type: &str, timestamp: String) -> (e: EventEntry)
    ensures
        common_entry(p_type@, timestamp@, e),
{
    proof {
        reveal_strlit("");
    }
    EventEntry {
        timestamp,
        label: to_string(p_type),
        description: String::new(),
        content: String::new(),
        content_type: to_string("json"),
    }
}

} // verus!
