//! Payload records by payload type, and the registry that picks the processor for a type.
use vstd::prelude::*;

use crate::json::{compact, compact_text, get, json_view, Json};
use crate::payload::{
    parse_html, pre_text, table_html_source, table_html_source_of, values_field, values_text,
    PayloadEntry,
};
use crate::processors::{len_bytes, str_field, str_or_empty};
use crate::text::{byte_len, str_eq, to_string};

verus! {

/// The record of a table payload: its HTML read from the request data or response body.
pub open spec fn table_payload_record(payload: Json, timestamp: Seq<char>, r: PayloadEntry) -> bool {
    &&& r.timestamp@ == timestamp
    &&& r.data@ == compact_text(json_view(payload))
    &&& r.p_type@ == "table"@
    &&& r.html@ == match table_html_source(payload) {
        Some(h) => pre_text(h),
        None => Seq::empty(),
    }
    &&& r.url@ == values_text(payload, "URL"@)
    &&& r.method@ == values_text(payload, "Method"@)
    &&& r.label@ == values_text(payload, "label"@)
}

/// The logged text of a payload: `content.value`, or empty text.
pub open spec fn content_value(payload: Json) -> Seq<char> {
    match get(payload, "content"@) {
        Some(c) => str_or_empty(c, "value"@),
        None => Seq::empty(),
    }
}

/// The record of a log payload of type `p_type`: its logged text as HTML.
pub open spec fn text_payload_record(
    payload: Json,
    p_type: Seq<char>,
    timestamp: Seq<char>,
    r: PayloadEntry,
) -> bool {
    &&& r.timestamp@ == timestamp
    &&& r.data@ == compact_text(json_view(payload))
    &&& r.p_type@ == p_type
    &&& r.html@ == content_value(payload)
    &&& r.url@ == Seq::<char>::empty()
    &&& r.method@ == Seq::<char>::empty()
    &&& r.label@ == Seq::<char>::empty()
}

/// Table payloads whose HTML the parser can read (at most `u32::MAX` bytes).
pub open spec fn table_payload_readable(payload: Json) -> bool {
    match table_html_source(payload) {
        Some(h) => len_bytes(h) <= u32::MAX,
        None => true,
    }
}

/// The logged text of a payload.
fn content_value_of(payload: &Json) -> (s: String)
    ensures
        s@ == content_value(*payload),
{
    match payload.get("content") {
        Some(c) => str_field(c, "value"),
        None => String::new(),
    }
}

/// The record for a payload of type `p_type` whose logged text is shown as it is.
fn text_record(payload: &Json, p_type: &str, timestamp: String) -> (r: PayloadEntry)
    ensures
        text_payload_record(*payload, p_type@, timestamp@, r),
{
    PayloadEntry {
        timestamp,
        data: compact(payload),
        p_type: to_string(p_type),
        html: content_value_of(payload),
        url: String::new(),
        method: String::new(),
        label: String::new(),
    }
}

/// Table payloads: HTTP traffic whose HTML is read out of the request data or response body.
pub struct TablePayload;

impl TablePayload {
    /// Whether `process` can read the payload's HTML.
    pub fn can_process(&self, payload: &Json) -> (r: bool)
        ensures
            r == table_payload_readable(*payload),
    {
        match table_html_source_of(payload) {
            Some(h) => byte_len(h) as u64 <= u32::MAX as u64,
            None => true,
        }
    }

    /// The record of a table payload that arrived at `timestamp`.
    pub fn process(&self, payload: &Json, timestamp: String) -> (r: PayloadEntry)
        requires
            table_payload_readable(*payload),
        ensures
            table_payload_record(*payload, timestamp@, r),
    {
        let html = match table_html_source_of(payload) {
            Some(h) => parse_html(h),
            None => String::new(),
        };
        PayloadEntry {
            timestamp,
            data: compact(payload),
            p_type: to_string("table"),
            html,
            url: values_field(payload, "URL"),
            method: values_field(payload, "Method"),
            label: values_field(payload, "label"),
        }
    }
}

/// Log payloads: the logged text is shown as it is.
pub struct LogPayload;

impl LogPayload {
    /// The record of a log payload that arrived at `timestamp`.
    pub fn process(&self, payload: &Json, timestamp: String) -> (r: PayloadEntry)
        ensures
            text_payload_record(*payload, "log"@, timestamp@, r),
    {
        text_record(payload, "log", timestamp)
    }
}

/// Application log payloads: the logged text is shown as it is.
pub struct ApplicationLogPayload;

impl ApplicationLogPayload {
    /// The record of an application log payload that arrived at `timestamp`.
    pub fn process(&self, payload: &Json, timestamp: String) -> (r: PayloadEntry)
        ensures
            text_payload_record(*payload, "application_log"@, timestamp@, r),
    {
        text_record(payload, "application_log", timestamp)
    }
}

/// The processors that the registry holds.
#[derive(Clone, Copy, PartialEq, Eq, Structural, Debug)]
pub enum PayloadKind {
    Table,
    Log,
    ApplicationLog,
}

/// The processor registered under a payload type.
pub open spec fn registered(name: Seq<char>) -> Option<PayloadKind> {
    if name == "table"@ {
        Some(PayloadKind::Table)
    } else if name == "log"@ {
        Some(PayloadKind::Log)
    } else if name == "application_log"@ {
        Some(PayloadKind::ApplicationLog)
    } else {
        None
    }
}

/// The processors by payload type.
pub struct PayloadTypeFactory {
    types: Vec<(String, PayloadKind)>,
}

impl PayloadTypeFactory {
    /// Whether the registry holds exactly the processors of `registered`.
    pub closed spec fn wf(&self) -> bool {
        &&& forall|i: int|
            0 <= i < self.types@.len() ==> registered(#[trigger] self.types@[i].0@) == Some(
                self.types@[i].1,
            )
        &&& forall|name: Seq<char>|
            registered(name) is Some ==> exists|i: int|
                0 <= i < self.types@.len() && #[trigger] self.types@[i].0@ == name
    }

    /// A registry of the table, log and application log processors.
    pub fn new() -> (f: PayloadTypeFactory)
        ensures
            f.wf(),
    {
        let mut types: Vec<(String, PayloadKind)> = Vec::new();
        types.push((to_string("table"), PayloadKind::Table));
        types.push((to_string("log"), PayloadKind::Log));
        types.push((to_string("application_log"), PayloadKind::ApplicationLog));
        let f = PayloadTypeFactory { types };
        proof {
            reveal_strlit("table");
            reveal_strlit("log");
            reveal_strlit("application_log");
            assert(f.types@[0].0@ == "table"@);
            assert(f.types@[1].0@ == "log"@);
            assert(f.types@[2].0@ == "application_log"@);
            assert forall|name: Seq<char>| registered(name) is Some implies exists|i: int|
                0 <= i < f.types@.len() && #[trigger] f.types@[i].0@ == name by {
                if name == "table"@ {
                    assert(f.types@[0].0@ == name);
                } else if name == "log"@ {
                    assert(f.types@[1].0@ == name);
                } else {
                    assert(f.types@[2].0@ == name);
                }
            }
        }
        f
    }

    /// The processor registered under `payload_type`.
    pub fn get_type(&self, payload_type: &str) -> (r: Option<PayloadKind>)
        requires
            self.wf(),
        ensures
            r == registered(payload_type@),
    {
        let mut i: usize = 0;
        while i < self.types.len()
            invariant
                self.wf(),
                i <= self.types@.len(),
                forall|j: int| 0 <= j < i ==> #[trigger] self.types@[j].0@ != payload_type@,
            decreases self.types.len() - i,
        {
            if str_eq(self.types[i].0.as_str(), payload_type) {
                assert(registered(self.types@[i as int].0@) == Some(self.types@[i as int].1));
                return Some(self.types[i].1);
            }
            i += 1;
        }
        None
    }
}

impl PayloadKind {
    /// The record that this processor makes of a payload that arrived at `timestamp`.
    pub fn process(&self, payload: &Json, timestamp: String) -> (r: PayloadEntry)
        requires
            *self == PayloadKind::Table ==> table_payload_readable(*payload),
        ensures
            match *self {
                PayloadKind::Table => table_payload_record(*payload, timestamp@, r),
                PayloadKind::Log => text_payload_record(*payload, "log"@, timestamp@, r),
                PayloadKind::ApplicationLog => text_payload_record(
                    *payload,
                    "application_log"@,
                    timestamp@,
                    r,
                ),
            },
    {
        match self {
            PayloadKind::Table => TablePayload.process(payload, timestamp),
            PayloadKind::Log => LogPayload.process(payload, timestamp),
            PayloadKind::ApplicationLog => ApplicationLogPayload.process(payload, timestamp),
        }
    }
}

} // verus!
