//! Payload summaries by payload type (label, description and pretty JSON content), and the
//! registry that picks the processor for a type.
use vstd::prelude::*;

use crate::json::{get, json_view, pretty, pretty_text, Json};
use crate::payload::{payload_values, str_of_field};
use crate::processors::{str_field, str_or_empty};
use crate::text::{str_eq, to_string};

verus! {

/// A payload summary.
pub struct PayloadEntry {
    pub timestamp: String,
    pub label: String,
    pub description: String,
    pub content: String,
}

/// The summary every payload starts from: its type as label, empty texts.
pub open spec fn common_payload(p_type: Seq<char>, timestamp: Seq<char>, e: PayloadEntry) -> bool {
    &&& e.timestamp@ == timestamp
    &&& e.label@ == p_type
    &&& e.description@ == Seq::<char>::empty()
    &&& e.content@ == Seq::<char>::empty()
}

/// A fresh summary of type `p_type`, stamped `timestamp` (the local time it is processed at).
pub fn process_common_payload(p_type: &str, timestamp: String) -> (e: PayloadEntry)
    ensures
        common_payload(p_type@, timestamp@, e),
{
    PayloadEntry {
        timestamp,
        label: to_string(p_type),
        description: String::new(),
        content: String::new(),
    }
}

/// Whether a table payload is a request: its method is `GET` or `POST`.
pub open spec fn is_request(values: Json) -> bool {
    let m = str_of_field(values, "Method"@);
    m == Some("GET"@) || m == Some("POST"@)
}

/// Pretty JSON of a value that may be absent (empty text then).
pub open spec fn pretty_or_empty(o: Option<Json>) -> Seq<char> {
    match o {
        Some(v) => pretty_text(json_view(v)),
        None => Seq::empty(),
    }
}

/// The summary of a table payload: `Request` or `Response`, its URL, and the request data
/// or response body as pretty JSON.
pub open spec fn table_summary(payload: Json, timestamp: Seq<char>, e: PayloadEntry) -> bool {
    match payload_values(payload) {
        None => common_payload("table"@, timestamp, e),
        Some(v) => {
            &&& e.timestamp@ == timestamp
            &&& e.label@ == (if is_request(v) {
                "Request"@
            } else {
                "Response"@
            })
            &&& e.description@ == str_or_empty(v, "URL"@)
            &&& e.content@ == pretty_or_empty(get(v, if is_request(v) { "Data"@ } else { "Body"@ }))
        },
    }
}

/// The summary of a payload whose content is `shown`, pretty printed.
pub open spec fn content_summary(
    p_type: Seq<char>,
    shown: Option<Json>,
    timestamp: Seq<char>,
    e: PayloadEntry,
) -> bool {
    &&& e.timestamp@ == timestamp
    &&& e.label@ == p_type
    &&& e.description@ == Seq::<char>::empty()
    &&& e.content@ == pretty_or_empty(shown)
}

/// The `sql` of a query payload's `content`.
pub open spec fn query_sql(payload: Json) -> Option<Json> {
    match get(payload, "content"@) {
        Some(c) => get(c, "sql"@),
        None => None,
    }
}

/// Pretty JSON of a value that may be absent.
fn pretty_opt(o: Option<&Json>) -> (s: String)
    ensures
        s@ == pretty_or_empty(match o {
            Some(v) => Some(*v),
            None => None,
        }),
{
    match o {
        Some(v) => pretty(v),
        None => String::new(),
    }
}

/// Table payloads: HTTP traffic.
pub struct TablePayload;

impl TablePayload {
    /// The summary of a table payload processed at `timestamp`.
    pub fn process(&self, payload: &Json, timestamp: String) -> (e: PayloadEntry)
        ensures
            table_summary(*payload, timestamp@, e),
    {
        let mut entry = process_common_payload("table", timestamp);
        let values = match payload.get("content") {
            Some(c) => c.get("values"),
            None => None,
        };
        if let Some(v) = values {
            let request = match v.get("Method") {
                Some(m) => match m.as_str() {
                    Some(m) => str_eq(m, "GET") || str_eq(m, "POST"),
                    None => false,
                },
                None => false,
            };
            let field = if request {
                "Data"
            } else {
                "Body"
            };
            entry.content = pretty_opt(v.get(field));
            entry.description = str_field(v, "URL");
            entry.label = if request {
                to_string("Request")
            } else {
                to_string("Response")
            };
        }
        entry
    }
}

/// Log payloads: their `content` as pretty JSON.
pub struct LogPayload;

impl LogPayload {
    /// The summary of a log payload processed at `timestamp`.
    pub fn process(&self, payload: &Json, timestamp: String) -> (e: PayloadEntry)
        ensures
            content_summary("log"@, get(*payload, "content"@), timestamp@, e),
    {
        let mut entry = process_common_payload("log", timestamp);
        entry.content = pretty_opt(payload.get("content"));
        entry
    }
}

/// Exception payloads: their `content` as pretty JSON.
pub struct ExceptionPayload;

impl ExceptionPayload {
    /// The summary of an exception payload processed at `timestamp`.
    pub fn process(&self, payload: &Json, timestamp: String) -> (e: PayloadEntry)
        ensures
            content_summary("exception"@, get(*payload, "content"@), timestamp@, e),
    {
        let mut entry = process_common_payload("exception", timestamp);
        entry.content = pretty_opt(payload.get("content"));
        entry
    }
}

/// Query payloads: their SQL as pretty JSON.
pub struct QueryPayload;

impl QueryPayload {
    /// The summary of a query payload processed at `timestamp`.
    pub fn process(&self, payload: &Json, timestamp: String) -> (e: PayloadEntry)
        ensures
            content_summary("query"@, query_sql(*payload), timestamp@, e),
    {
        let mut entry = process_common_payload("query", timestamp);
        let sql = match payload.get("content") {
            Some(c) => c.get("sql"),
            None => None,
        };
        entry.content = pretty_opt(sql);
        entry
    }
}

/// Application log payloads: the whole payload as pretty JSON.
pub struct ApplicationLogPayload;

impl ApplicationLogPayload {
    /// The summary of an application log payload processed at `timestamp`.
    pub fn process(&self, payload: &Json, timestamp: String) -> (e: PayloadEntry)
        ensures
            content_summary("application_log"@, Some(*payload), timestamp@, e),
    {
        let mut entry = process_common_payload("application_log", timestamp);
        entry.content = pretty(payload);
        entry
    }
}

/// The processors that the registry holds.
#[derive(Clone, Copy, PartialEq, Eq, Structural, Debug)]
pub enum PayloadKind {
    Table,
    Log,
    ApplicationLog,
    Query,
    Exception,
}

/// The processor registered under a payload type.
pub open spec fn registered(name: Seq<char>) -> Option<PayloadKind> {
    if name == "table"@ {
        Some(PayloadKind::Table)
    } else if name == "log"@ {
        Some(PayloadKind::Log)
    } else if name == "application_log"@ {
        Some(PayloadKind::ApplicationLog)
    } else if name == "executed_query"@ {
        Some(PayloadKind::Query)
    } else if name == "exception"@ {
        Some(PayloadKind::Exception)
    } else {
        None
    }
}

/// What a processor makes of a payload.
pub open spec fn summary_by(kind: PayloadKind, payload: Json, timestamp: Seq<char>, e: PayloadEntry) -> bool {
    match kind {
        PayloadKind::Table => table_summary(payload, timestamp, e),
        PayloadKind::Log => content_summary("log"@, get(payload, "content"@), timestamp, e),
        PayloadKind::ApplicationLog => content_summary(
            "application_log"@,
            Some(payload),
            timestamp,
            e,
        ),
        PayloadKind::Query => content_summary("query"@, query_sql(payload), timestamp, e),
        PayloadKind::Exception => content_summary(
            "exception"@,
            get(payload, "content"@),
            timestamp,
            e,
        ),
    }
}

impl PayloadKind {
    /// The summary that this processor makes of a payload processed at `timestamp`.
    pub fn process(&self, payload: &Json, timestamp: String) -> (e: PayloadEntry)
        ensures
            summary_by(*self, *payload, timestamp@, e),
    {
        match self {
            PayloadKind::Table => TablePayload.process(payload, timestamp),
            PayloadKind::Log => LogPayload.process(payload, timestamp),
            PayloadKind::ApplicationLog => ApplicationLogPayload.process(payload, timestamp),
            PayloadKind::Query => QueryPayload.process(payload, timestamp),
            PayloadKind::Exception => ExceptionPayload.process(payload, timestamp),
        }
    }
}

/// The processors by payload type.
pub struct PayloadTypeFactory {
    types: Vec<(String, PayloadKind)>,
}

impl PayloadTypeFactory {
    /// Whether the registry holds exactly the processors of `registered`.
    pub closed spec fn wf(&self) -> bool {
        &&& forall|i: int|
            0 <= i < self.types@.len() ==> registered(#[trigger] self.types@[i].0@) == Some(
                self.types@[i].1,
            )
        &&& forall|name: Seq<char>|
            registered(name) is Some ==> exists|i: int|
                0 <= i < self.types@.len() && #[trigger] self.types@[i].0@ == name
    }

    /// A registry of the table, log, application log, query and exception processors.
    pub fn new() -> (f: PayloadTypeFactory)
        ensures
            f.wf(),
    {
        let mut types: Vec<(String, PayloadKind)> = Vec::new();
        types.push((to_string("table"), PayloadKind::Table));
        types.push((to_string("log"), PayloadKind::Log));
        types.push((to_string("application_log"), PayloadKind::ApplicationLog));
        types.push((to_string("executed_query"), PayloadKind::Query));
        types.push((to_string("exception"), PayloadKind::Exception));
        let f = PayloadTypeFactory { types };
        proof {
            reveal_strlit("table");
            reveal_strlit("log");
            reveal_strlit("application_log");
            reveal_strlit("executed_query");
            reveal_strlit("exception");
            assert(f.types@[0].0@ == "table"@);
            assert(f.types@[1].0@ == "log"@);
            assert(f.types@[2].0@ == "application_log"@);
            assert(f.types@[3].0@ == "executed_query"@);
            assert(f.types@[4].0@ == "exception"@);
            assert forall|name: Seq<char>| registered(name) is Some implies exists|i: int|
                0 <= i < f.types@.len() && #[trigger] f.types@[i].0@ == name by {
                if name == "table"@ {
                    assert(f.types@[0].0@ == name);
                } else if name == "log"@ {
                    assert(f.types@[1].0@ == name);
                } else if name == "application_log"@ {
                    assert(f.types@[2].0@ == name);
                } else if name == "executed_query"@ {
                    assert(f.types@[3].0@ == name);
                } else {
                    assert(f.types@[4].0@ == name);
                }
            }
        }
        f
    }

    /// The processor registered under `payload_type`.
    pub fn get_type(&self, payload_type: &str) -> (r: Option<PayloadKind>)
        requires
            self.wf(),
        ensures
            r == registered(payload_type@),
    {
        let mut i: usize = 0;
        while i < self.types.len()
            invariant
                self.wf(),
                i <= self.types@.len(),
                forall|j: int| 0 <= j < i ==> #[trigger] self.types@[j].0@ != payload_type@,
            decreases self.types.len() - i,
        {
            if str_eq(self.types[i].0.as_str(), payload_type) {
                assert(registered(self.types@[i as int].0@) == Some(self.types@[i as int].1));
                return Some(self.types[i].1);
            }
            i += 1;
        }
        None
    }
}

} // verus!
