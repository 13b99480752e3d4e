//! Event dispatch: which processor an incoming payload goes to, and the processors for
//! events that are drawn by renderers of their own (cache, HTTP, unknown types).
use vstd::prelude::*;

use crate::entry::{plain_entry, EventEntry, EventError};
use crate::json::{get, get_str, get_u64, json_view, pretty, pretty_text, str_of, Json};
use crate::processors::{
    app_log_entry, app_log_processable, exception_entry, exception_processable, log_entry,
    log_processable, query_entry, query_processable, str_field, str_field_or, str_or,
    str_or_empty, ApplicationLogProcessor, ExceptionProcessor, LogProcessor, QueryProcessor,
    can_clip, clip, clip_str, cuts_at_byte, clip_trimmed, clip_trimmed_str, query_summary, query_time,
};
use crate::renderers::{one_line, one_line_str};
use crate::text::{
    byte_len, decimal, first_word, first_word_of, lowercase_of, prefix_bytes, push_str,
    replace_all, replace_str, str_eq, to_lowercase, to_string, to_uppercase, trim_str,
    u64_to_string, uppercase_of,
};

verus! {

// ---------------------------------------------------------------- cache events

/// The operation of a cache event (`values.Event`, `Unknown` when absent), without the
/// `<code>` tags it may be wrapped in.
pub open spec fn cache_operation(values: Json) -> Seq<char> {
    replace_all(
        replace_all(str_or(values, "Event"@, "Unknown"@), "<code>"@, Seq::empty()),
        "</code>"@,
        Seq::empty(),
    )
}

/// The key of a cache event (`values.Key`, `Unknown` when absent).
pub open spec fn cache_key(values: Json) -> Seq<char> {
    str_or(values, "Key"@, "Unknown"@)
}

/// Summary of a cache event, worded by operation.
pub open spec fn cache_description(operation: Seq<char>, key: Seq<char>) -> Seq<char> {
    if operation == "Hit"@ {
        "Cache hit for: "@ + key
    } else if operation == "Missed"@ {
        "Cache miss for: "@ + key
    } else if operation == "Key written"@ {
        "Cache write: "@ + key
    } else if operation == "Forgotten"@ {
        "Cache key forgotten: "@ + key
    } else {
        operation + " ("@ + key + ")"@
    }
}

/// The summary of a cache operation on `key`, worded by operation.
pub fn cache_summary(operation: &str, key: &str) -> (s: String)
    ensures
        s@ == cache_description(operation@, key@),
{
    let (head, bracket) = if str_eq(operation, "Hit") {
        ("Cache hit for: ", false)
    } else if str_eq(operation, "Missed") {
        ("Cache miss for: ", false)
    } else if str_eq(operation, "Key written") {
        ("Cache write: ", false)
    } else if str_eq(operation, "Forgotten") {
        ("Cache key forgotten: ", false)
    } else {
        ("", true)
    };
    if bracket {
        let mut d = to_string(operation);
        push_str(&mut d, " (");
        push_str(&mut d, key);
        push_str(&mut d, ")");
        d
    } else {
        let mut d = to_string(head);
        push_str(&mut d, key);
        d
    }
}

/// A cache payload is listed as `Cache: <operation>`, summarised by what happened to its
/// key: `Cache hit for: <key>`, `Cache miss for: <key>`, `Cache write: <key>` or
/// `Cache key forgotten: <key>` for the four known operations, and `<operation> (<key>)` for
/// any other.
pub proof fn law_cache_summaries(payload: Json, r: Result<EventEntry, EventError>)
    requires
        cache_result(payload, r),
    ensures
        get(payload, "content"@) matches Some(c) ==> (get(c, "values"@) matches Some(v) ==> {
            let op = cache_operation(v);
            let key = cache_key(v);
            &&& r matches Ok(e) && e.label@ == "Cache: "@ + op && e.event_type@ == "cache"@
            &&& op == "Hit"@ ==> r->Ok_0.description@ == "Cache hit for: "@ + key
            &&& op == "Missed"@ ==> r->Ok_0.description@ == "Cache miss for: "@ + key
            &&& op == "Key written"@ ==> r->Ok_0.description@ == "Cache write: "@ + key
            &&& op == "Forgotten"@ ==> r->Ok_0.description@ == "Cache key forgotten: "@ + key
            &&& !(op == "Hit"@ || op == "Missed"@ || op == "Key written"@ || op == "Forgotten"@)
                ==> r->Ok_0.description@ == op + " ("@ + key + ")"@
        }),
{
    reveal_strlit("Hit");
    reveal_strlit("Missed");
    reveal_strlit("Key written");
    reveal_strlit("Forgotten");
    assert("Hit"@.len() != "Missed"@.len());
    assert("Hit"@.len() != "Key written"@.len());
    assert("Hit"@.len() != "Forgotten"@.len());
    assert("Missed"@.len() != "Key written"@.len());
    assert("Missed"@.len() != "Forgotten"@.len());
    assert("Key written"@.len() != "Forgotten"@.len());
}

/// What processing a cache payload gives.
pub open spec fn cache_result(payload: Json, r: Result<EventEntry, EventError>) -> bool {
    match get(payload, "content"@) {
        None => r matches Err(EventError::MissingContent { event }) && event@ == "cache"@,
        Some(c) => match get(c, "values"@) {
            None => r matches Err(EventError::MissingValues { event }) && event@ == "cache"@,
            Some(v) => r matches Ok(e) && plain_entry(
                "cache"@,
                "Cache: "@ + cache_operation(v),
                cache_description(cache_operation(v), cache_key(v)),
                payload,
                e,
            ),
        },
    }
}

/// Processes cache events; they are drawn by a renderer of their own.
pub struct CacheEvent;

impl CacheEvent {
    /// The entry for a cache payload: `Cache: <operation>` as label and a summary worded by
    /// operation. Fails when `content` or `content.values` is missing.
    pub fn process(payload: &Json) -> (r: Result<EventEntry, EventError>)
        ensures
            cache_result(*payload, r),
    {
        let c = match payload.get("content") {
            Some(c) => c,
            None => return Err(EventError::MissingContent { event: to_string("cache") }),
        };
        let values = match c.get("values") {
            Some(v) => v,
            None => return Err(EventError::MissingValues { event: to_string("cache") }),
        };
        let raw = str_field_or(values, "Event", "Unknown");
        proof {
            reveal_strlit("<code>");
            reveal_strlit("</code>");
            reveal_strlit("");
            assert(""@ =~= Seq::<char>::empty());
        }
        let op1 = replace_str(raw.as_str(), "<code>", "");
        let operation = replace_str(op1.as_str(), "</code>", "");
        let key = str_field_or(values, "Key", "Unknown");
        let mut label = to_string("Cache: ");
        push_str(&mut label, operation.as_str());
        let description = cache_summary(operation.as_str(), key.as_str());
        Ok(EventEntry::new("cache", label, description, payload))
    }
}

// ---------------------------------------------------------------- log, exception, query and application log events

/// The message of a log event: the first of its values when that is text (`Empty log`
/// otherwise), its text, or its pretty JSON.
pub open spec fn log_message(values: Json) -> Seq<char> {
    match values {
        Json::Array(items) => if items@.len() > 0 {
            match str_of(items@[0]) {
                Some(s) => s,
                None => "Empty log"@,
            }
        } else {
            "Empty log"@
        },
        Json::Str(s) => s@,
        _ => pretty_text(json_view(values)),
    }
}

/// The message of a log event.
fn log_message_of(values: &Json) -> (s: String)
    ensures
        s@ == log_message(*values),
{
    match values {
        Json::Array(items) => {
            if items.len() > 0 {
                match items[0].as_str() {
                    Some(s) => to_string(s),
                    None => to_string("Empty log"),
                }
            } else {
                to_string("Empty log")
            }
        },
        Json::Str(s) => to_string(s.as_str()),
        _ => pretty(values),
    }
}

/// Log payloads that `LogEvent::process` handles without panicking.
pub open spec fn log_event_processable(payload: Json) -> bool {
    match get(payload, "content"@) {
        Some(c) => match get(c, "values"@) {
            Some(v) => can_clip(log_message(v), 100, 97),
            None => true,
        },
        None => true,
    }
}

/// What processing a log payload gives.
pub open spec fn log_event_result(payload: Json, r: Result<EventEntry, EventError>) -> bool {
    match get(payload, "content"@) {
        None => r matches Err(EventError::MissingContent { event }) && event@ == "log"@,
        Some(c) => match get(c, "values"@) {
            None => r matches Err(EventError::MissingValues { event }) && event@ == "log"@,
            Some(v) => r matches Ok(e) && plain_entry(
                "log"@,
                "Log"@,
                one_line(clip(log_message(v), 100, 97)),
                payload,
                e,
            ),
        },
    }
}

/// Processes log events; they are drawn by a renderer of their own.
pub struct LogEvent;

impl LogEvent {
    /// The entry for a log payload: `Log` as label and its message, clipped to 100 bytes and
    /// put on one line, as description. Fails when `content` or `content.values` is missing.
    pub fn process(payload: &Json) -> (r: Result<EventEntry, EventError>)
        requires
            log_event_processable(*payload),
        ensures
            log_event_result(*payload, r),
    {
        let c = match payload.get("content") {
            Some(c) => c,
            None => return Err(EventError::MissingContent { event: to_string("log") }),
        };
        let values = match c.get("values") {
            Some(v) => v,
            None => return Err(EventError::MissingValues { event: to_string("log") }),
        };
        let message = log_message_of(values);
        let clipped = clip_str(message.as_str(), 100, 97);
        let description = one_line_str(clipped.as_str());
        Ok(EventEntry::new("log", to_string("Log"), description, payload))
    }
}

/// `class: message` of an exception event (`Exception` when the class is absent).
pub open spec fn exception_event_headline(c: Json) -> Seq<char> {
    let class = str_or(c, "class"@, "Exception"@);
    let message = str_or_empty(c, "message"@);
    if message.len() > 0 {
        class + ": "@ + message
    } else {
        class
    }
}

/// `class: message` of an exception event.
fn exception_headline_of(c: &Json) -> (s: String)
    ensures
        s@ == exception_event_headline(*c),
{
    let class = str_field_or(c, "class", "Exception");
    let message = str_field(c, "message");
    if !message.as_str().is_empty() {
        let mut d = class;
        push_str(&mut d, ": ");
        push_str(&mut d, message.as_str());
        d
    } else {
        class
    }
}

/// Exception payloads that `ExceptionEvent::process` handles without panicking.
pub open spec fn exception_event_processable(payload: Json) -> bool {
    match get(payload, "content"@) {
        Some(c) => can_clip(exception_event_headline(c), 100, 97),
        None => true,
    }
}

/// What processing an exception payload gives.
pub open spec fn exception_event_result(payload: Json, r: Result<EventEntry, EventError>) -> bool {
    match get(payload, "content"@) {
        None => r matches Err(EventError::MissingContent { event }) && event@ == "exception"@,
        Some(c) => r matches Ok(e) && plain_entry(
            "exception"@,
            "Exception"@,
            clip(exception_event_headline(c), 100, 97),
            payload,
            e,
        ),
    }
}

/// Processes exception events; they are drawn by a renderer of their own.
pub struct ExceptionEvent;

impl ExceptionEvent {
    /// The entry for an exception payload: `Exception` as label and `class: message`,
    /// clipped to 100 bytes, as description. Fails when `content` is missing.
    pub fn process(payload: &Json) -> (r: Result<EventEntry, EventError>)
        requires
            exception_event_processable(*payload),
        ensures
            exception_event_result(*payload, r),
    {
        let c = match payload.get("content") {
            Some(c) => c,
            None => return Err(EventError::MissingContent { event: to_string("exception") }),
        };
        let headline = exception_headline_of(c);
        let description = clip_str(headline.as_str(), 100, 97);
        Ok(EventEntry::new("exception", to_string("Exception"), description, payload))
    }
}

/// The operation of a query event: its first word in upper case, `SQL` when there is none.
pub open spec fn query_event_operation(sql: Seq<char>) -> Seq<char> {
    match first_word(sql) {
        Some(w) => uppercase_of(w),
        None => "SQL"@,
    }
}

/// Query payloads that `QueryEvent::process` handles without panicking.
pub open spec fn query_event_processable(payload: Json) -> bool {
    match get(payload, "content"@) {
        Some(c) => can_clip(str_or_empty(c, "sql"@), 50, 50),
        None => true,
    }
}

/// What processing a query payload gives.
pub open spec fn query_event_result(payload: Json, r: Result<EventEntry, EventError>) -> bool {
    match get(payload, "content"@) {
        None => r matches Err(EventError::MissingContent { event }) && event@ == "query"@,
        Some(c) => {
            let sql = str_or_empty(c, "sql"@);
            r matches Ok(e) && plain_entry(
                "query"@,
                "Query: "@ + query_event_operation(sql),
                query_summary(sql) + match query_time(c) {
                    Some(t) => " ("@ + t.shortest@ + "ms)"@,
                    None => Seq::empty(),
                },
                payload,
                e,
            )
        },
    }
}

/// Processes query events; they are drawn by a renderer of their own.
pub struct QueryEvent;

impl QueryEvent {
    /// The entry for a query payload: `Query: <OPERATION>` as label and the clipped query,
    /// with its time when known, as description. Fails when `content` is missing.
    pub fn process(payload: &Json) -> (r: Result<EventEntry, EventError>)
        requires
            query_event_processable(*payload),
        ensures
            query_event_result(*payload, r),
    {
        let c = match payload.get("content") {
            Some(c) => c,
            None => return Err(EventError::MissingContent { event: to_string("query") }),
        };
        let sql = str_field(c, "sql");
        let operation = match first_word_of(sql.as_str()) {
            Some(w) => to_uppercase(w.as_str()),
            None => to_string("SQL"),
        };
        let mut label = to_string("Query: ");
        push_str(&mut label, operation.as_str());
        let mut description = if byte_len(sql.as_str()) > 50 {
            let p = prefix_bytes(sql.as_str(), 50);
            let mut t = trim_str(p.as_str());
            push_str(&mut t, "...");
            t
        } else {
            trim_str(sql.as_str())
        };
        let ghost head = description@;
        assert(head == query_summary(sql@));
        match c.get("time") {
            Some(t) => match t.as_double() {
                Some(d) => {
                    push_str(&mut description, " (");
                    push_str(&mut description, d.shortest.as_str());
                    push_str(&mut description, "ms)");
                    assert(query_time(*c) == Some(*d));
                },
                None => {
                    assert(query_time(*c) is None);
                },
            },
            None => {
                assert(query_time(*c) is None);
            },
        }
        proof {
            let tail = match query_time(*c) {
                Some(t) => " ("@ + t.shortest@ + "ms)"@,
                None => Seq::<char>::empty(),
            };
            assert(description@ =~= head + tail);
        }
        Ok(EventEntry::new("query", label, description, payload))
    }
}

/// Application log payloads that `ApplicationLogEvent::process` handles without panicking.
pub open spec fn app_log_event_processable(payload: Json) -> bool {
    match get(payload, "content"@) {
        Some(c) => can_clip(str_or_empty(c, "value"@), 50, 50),
        None => true,
    }
}

/// What processing an application log payload gives.
pub open spec fn app_log_event_result(payload: Json, r: Result<EventEntry, EventError>) -> bool {
    match get(payload, "content"@) {
        None => r matches Err(EventError::MissingContent { event }) && event@
            == "application log"@,
        Some(c) => {
            let value = str_or_empty(c, "value"@);
            r matches Ok(e) && plain_entry(
                "application_log"@,
                "Application Log"@,
                if value.len() > 0 {
                    clip_trimmed(value, 50)
                } else {
                    "Empty log"@
                },
                payload,
                e,
            )
        },
    }
}

/// Processes application log events; they are drawn by a renderer of their own.
pub struct ApplicationLogEvent;

impl ApplicationLogEvent {
    /// The entry for an application log payload: `Application Log` as label and the logged
    /// value, clipped to 50 bytes, as description (`Empty log` when there is none). Fails
    /// when `content` is missing.
    pub fn process(payload: &Json) -> (r: Result<EventEntry, EventError>)
        requires
            app_log_event_processable(*payload),
        ensures
            app_log_event_result(*payload, r),
    {
        let c = match payload.get("content") {
            Some(c) => c,
            None => return Err(EventError::MissingContent { event: to_string("application log") }),
        };
        let value = str_field(c, "value");
        let description = if !value.as_str().is_empty() {
            clip_trimmed_str(value.as_str(), 50)
        } else {
            to_string("Empty log")
        };
        Ok(EventEntry::new("application_log", to_string("Application Log"), description, payload))
    }
}

// ---------------------------------------------------------------- HTTP events

/// Whether an HTTP event is a response: it has a `Status` and no `Method`.
pub open spec fn http_is_response(values: Json) -> bool {
    get_str(values, "Method"@) is None && get_u64(values, "Status"@) is Some
}

/// Summary of an HTTP event: method (`GET` when absent) or status, then the URL.
pub open spec fn http_description(values: Json) -> Seq<char> {
    (if http_is_response(values) {
        decimal(get_u64(values, "Status"@)->0 as nat)
    } else {
        str_or(values, "Method"@, "GET"@)
    }) + " "@ + str_or_empty(values, "URL"@)
}

/// What processing an HTTP payload gives.
pub open spec fn http_result(payload: Json, r: Result<EventEntry, EventError>) -> bool {
    match get(payload, "content"@) {
        None => r matches Err(EventError::MissingContent { event }) && event@ == "HTTP"@,
        Some(c) => match get(c, "values"@) {
            None => r matches Err(EventError::MissingValues { event }) && event@ == "HTTP"@,
            Some(v) => r matches Ok(e) && plain_entry(
                "request"@,
                if http_is_response(v) {
                    "HTTP Response"@
                } else {
                    "HTTP Request"@
                },
                http_description(v),
                payload,
                e,
            ),
        },
    }
}

/// Processes HTTP request and response events; they are drawn by a renderer of their own.
pub struct HttpEvent;

impl HttpEvent {
    /// The entry for an HTTP payload: `HTTP Request` or `HTTP Response` as label, and
    /// method or status with the URL as description. Fails when `content` or
    /// `content.values` is missing.
    pub fn process(payload: &Json) -> (r: Result<EventEntry, EventError>)
        ensures
            http_result(*payload, r),
    {
        let c = match payload.get("content") {
            Some(c) => c,
            None => return Err(EventError::MissingContent { event: to_string("HTTP") }),
        };
        let values = match c.get("values") {
            Some(v) => v,
            None => return Err(EventError::MissingValues { event: to_string("HTTP") }),
        };
        let method: Option<&str> = match values.get("Method") {
            Some(m) => m.as_str(),
            None => None,
        };
        let status: Option<u64> = match values.get("Status") {
            Some(s) => s.as_u64(),
            None => None,
        };
        let url = str_field(values, "URL");
        let is_response = method.is_none() && status.is_some();
        let label = if is_response {
            to_string("HTTP Response")
        } else {
            to_string("HTTP Request")
        };
        let mut description = if is_response {
            u64_to_string(status.unwrap())
        } else {
            match method {
                Some(m) => to_string(m),
                None => to_string("GET"),
            }
        };
        push_str(&mut description, " ");
        push_str(&mut description, url.as_str());
        Ok(EventEntry::new("request", label, description, payload))
    }
}

// ---------------------------------------------------------------- dispatch

/// The event type that a table payload stands for, read from `content.label` (ignoring
/// The processors of events that are drawn by renderers of their own.
#[derive(Clone, Copy, PartialEq, Eq, Structural, Debug)]
pub enum EventProcessor {
    Log,
    Exception,
    Query,
    ApplicationLog,
    Cache,
    Http,
}

/// Payloads that a processor handles without panicking.
pub open spec fn accepts(p: EventProcessor, payload: Json) -> bool {
    match p {
        EventProcessor::Log => log_event_processable(payload),
        EventProcessor::Exception => exception_event_processable(payload),
        EventProcessor::Query => query_event_processable(payload),
        EventProcessor::ApplicationLog => app_log_event_processable(payload),
        _ => true,
    }
}

/// What a processor makes of a payload.
pub open spec fn result_of(p: EventProcessor, payload: Json, r: Result<EventEntry, EventError>) -> bool {
    match p {
        EventProcessor::Log => log_event_result(payload, r),
        EventProcessor::Exception => exception_event_result(payload, r),
        EventProcessor::Query => query_event_result(payload, r),
        EventProcessor::ApplicationLog => app_log_event_result(payload, r),
        EventProcessor::Cache => cache_result(payload, r),
        EventProcessor::Http => http_result(payload, r),
    }
}

impl EventProcessor {
    /// Whether `process` can handle `payload`.
    pub fn accepts(&self, payload: &Json) -> (r: bool)
        ensures
            r == accepts(*self, *payload),
    {
        match self {
            EventProcessor::Log => {
                match payload.get("content") {
                    Some(c) => match c.get("values") {
                        Some(v) => {
                            let m = log_message_of(v);
                            byte_len(m.as_str()) <= 100 || cuts_at_byte(m.as_str(), 97)
                        },
                        None => true,
                    },
                    None => true,
                }
            },
            EventProcessor::Exception => {
                match payload.get("content") {
                    Some(c) => {
                        let h = exception_headline_of(c);
                        byte_len(h.as_str()) <= 100 || cuts_at_byte(h.as_str(), 97)
                    },
                    None => true,
                }
            },
            EventProcessor::Query => {
                match payload.get("content") {
                    Some(c) => {
                        let sql = str_field(c, "sql");
                        byte_len(sql.as_str()) <= 50 || cuts_at_byte(sql.as_str(), 50)
                    },
                    None => true,
                }
            },
            EventProcessor::ApplicationLog => {
                match payload.get("content") {
                    Some(c) => {
                        let v = str_field(c, "value");
                        byte_len(v.as_str()) <= 50 || cuts_at_byte(v.as_str(), 50)
                    },
                    None => true,
                }
            },
            _ => true,
        }
    }

    /// Processes a payload with this processor.
    pub fn process(&self, payload: &Json) -> (r: Result<EventEntry, EventError>)
        requires
            accepts(*self, *payload),
        ensures
            result_of(*self, *payload, r),
    {
        match self {
            EventProcessor::Log => LogEvent::process(payload),
            EventProcessor::Exception => ExceptionEvent::process(payload),
            EventProcessor::Query => QueryEvent::process(payload),
            EventProcessor::ApplicationLog => ApplicationLogEvent::process(payload),
            EventProcessor::Cache => CacheEvent::process(payload),
            EventProcessor::Http => HttpEvent::process(payload),
        }
    }
}

/// case); `request` when there is no label or it is not known.
pub open spec fn table_kind(payload: Json) -> Seq<char> {
    match get(payload, "content"@) {
        Some(c) => match get_str(c, "label"@) {
            Some(l) => {
                let low = lowercase_of(l);
                if low == "http"@ || low == "request"@ {
                    "request"@
                } else if low == "cache"@ {
                    "cache"@
                } else if low == "query"@ || low == "database"@ {
                    "query"@
                } else if low == "log"@ {
                    "log"@
                } else if low == "exception"@ || low == "error"@ {
                    "exception"@
                } else {
                    "request"@
                }
            },
            None => "request"@,
        },
        None => "request"@,
    }
}

/// The event type a payload is processed as: a `table` payload by its label, others as given.
pub open spec fn resolved_kind(event_type: Seq<char>, payload: Json) -> Seq<char> {
    if event_type == "table"@ {
        table_kind(payload)
    } else {
        event_type
    }
}

/// Payloads that `process_event` handles without panicking.
pub open spec fn processable(event_type: Seq<char>, payload: Json) -> bool {
    let k = resolved_kind(event_type, payload);
    if k == "log"@ {
        log_processable(payload)
    } else if k == "exception"@ {
        exception_processable(payload)
    } else if k == "query"@ || k == "executed_query"@ {
        query_processable(payload)
    } else if k == "application_log"@ {
        app_log_processable(payload)
    } else {
        true
    }
}

/// What `process_event` gives for a payload: the processor of its resolved type decides;
/// a type without a processor gives an `Unknown Event` entry.
pub open spec fn processed(
    event_type: Seq<char>,
    payload: Json,
    r: Result<EventEntry, EventError>,
) -> bool {
    let k = resolved_kind(event_type, payload);
    if k == "log"@ {
        r matches Ok(e) && log_entry(payload, e)
    } else if k == "exception"@ {
        r matches Ok(e) && exception_entry(payload, e)
    } else if k == "query"@ || k == "executed_query"@ {
        r matches Ok(e) && query_entry(payload, e)
    } else if k == "application_log"@ {
        r matches Ok(e) && app_log_entry(payload, e)
    } else if k == "cache"@ {
        cache_result(payload, r)
    } else if k == "request"@ {
        http_result(payload, r)
    } else {
        r matches Ok(e) && plain_entry(
            k,
            "Unknown Event: "@ + k,
            "Unknown event type"@,
            payload,
            e,
        )
    }
}

/// A `table` payload is processed exactly as a payload of the event type its label stands
/// for: same entry, same errors.
pub proof fn law_table_payload_as_kind(payload: Json, r: Result<EventEntry, EventError>)
    ensures
        processable("table"@, payload) == processable(table_kind(payload), payload),
        processed("table"@, payload, r) == processed(table_kind(payload), payload, r),
{
    reveal_strlit("table");
    reveal_strlit("request");
    reveal_strlit("cache");
    reveal_strlit("query");
    reveal_strlit("log");
    reveal_strlit("exception");
    assert("request"@.len() != "table"@.len());
    assert("log"@.len() != "table"@.len());
    assert("exception"@.len() != "table"@.len());
    assert("cache"@[0] != "table"@[0]);
    assert("query"@[0] != "table"@[0]);
    assert(table_kind(payload) != "table"@);
}

/// A table payload stands for the event type its `content.label` names, whatever its case:
/// `query` and `database` stand for `query`, `http` and `request` for `request`, `cache` for
/// `cache`, `log` for `log`, `exception` and `error` for `exception`; any other label, or
/// none, for `request`. A payload labelled as a query is processed as a `query` payload.
pub proof fn law_table_label_kinds(payload: Json, l: Seq<char>, r: Result<EventEntry, EventError>)
    ensures
        get(payload, "content"@) is None ==> table_kind(payload) == "request"@,
        get(payload, "content"@) matches Some(c) && get_str(c, "label"@) is None ==> table_kind(
            payload,
        ) == "request"@,
        get(payload, "content"@) matches Some(c) && get_str(c, "label"@) == Some(l) ==> {
            let low = lowercase_of(l);
            &&& (low == "query"@ || low == "database"@) ==> table_kind(payload) == "query"@
                && (processed("table"@, payload, r) == processed("query"@, payload, r))
            &&& (low == "http"@ || low == "request"@) ==> table_kind(payload) == "request"@
            &&& low == "cache"@ ==> table_kind(payload) == "cache"@
            &&& low == "log"@ ==> table_kind(payload) == "log"@
            &&& (low == "exception"@ || low == "error"@) ==> table_kind(payload) == "exception"@
            &&& !(low == "query"@ || low == "database"@ || low == "http"@ || low == "request"@
                || low == "cache"@ || low == "log"@ || low == "exception"@ || low == "error"@)
                ==> table_kind(payload) == "request"@
        },
{
    reveal_strlit("query");
    reveal_strlit("database");
    reveal_strlit("http");
    reveal_strlit("request");
    reveal_strlit("cache");
    reveal_strlit("log");
    reveal_strlit("exception");
    reveal_strlit("error");
    reveal_strlit("table");
    law_table_payload_as_kind(payload, r);
    assert("query"@[0] != "cache"@[0]);
    assert("query"@.len() != "http"@.len());
    assert("query"@.len() != "request"@.len());
    assert("database"@.len() != "http"@.len());
    assert("database"@.len() != "request"@.len());
    assert("database"@.len() != "cache"@.len());
    assert("cache"@.len() != "http"@.len());
    assert("cache"@.len() != "request"@.len());
    assert("log"@.len() != "http"@.len());
    assert("log"@.len() != "request"@.len());
    assert("log"@.len() != "cache"@.len());
    assert("log"@.len() != "query"@.len());
    assert("log"@.len() != "database"@.len());
    assert("exception"@.len() != "http"@.len());
    assert("exception"@.len() != "request"@.len());
    assert("exception"@.len() != "cache"@.len());
    assert("exception"@.len() != "query"@.len());
    assert("exception"@.len() != "database"@.len());
    assert("exception"@.len() != "log"@.len());
    assert("error"@[0] != "cache"@[0]);
    assert("error"@[0] != "query"@[0]);
    assert("error"@.len() != "http"@.len());
    assert("error"@.len() != "request"@.len());
    assert("error"@.len() != "database"@.len());
    assert("error"@.len() != "log"@.len());
}

/// The event type a table payload stands for.
pub fn detect_table_event_type(payload: &Json) -> (k: &'static str)
    ensures
        k@ == table_kind(*payload),
{
    let c = match payload.get("content") {
        Some(c) => c,
        None => return "request",
    };
    let label = match c.get("label") {
        Some(l) => match l.as_str() {
            Some(s) => s,
            None => return "request",
        },
        None => return "request",
    };
    let low = to_lowercase(label);
    let l = low.as_str();
    if str_eq(l, "http") || str_eq(l, "request") {
        "request"
    } else if str_eq(l, "cache") {
        "cache"
    } else if str_eq(l, "query") || str_eq(l, "database") {
        "query"
    } else if str_eq(l, "log") {
        "log"
    } else if str_eq(l, "exception") || str_eq(l, "error") {
        "exception"
    } else {
        "request"
    }
}

/// Whether `process_event` can handle this payload.
pub fn can_process_event(event_type: &str, payload: &Json) -> (r: bool)
    ensures
        r == processable(event_type@, *payload),
{
    let k: &str = if str_eq(event_type, "table") {
        detect_table_event_type(payload)
    } else {
        event_type
    };
    if str_eq(k, "log") {
        LogProcessor.can_process(payload)
    } else if str_eq(k, "exception") {
        ExceptionProcessor.can_process(payload)
    } else if str_eq(k, "query") || str_eq(k, "executed_query") {
        QueryProcessor.can_process(payload)
    } else if str_eq(k, "application_log") {
        ApplicationLogProcessor.can_process(payload)
    } else {
        true
    }
}

/// Processes a payload with the processor for its event type; `table` payloads go by
/// their label.
pub fn process_event(event_type: &str, payload: &Json) -> (r: Result<EventEntry, EventError>)
    requires
        processable(event_type@, *payload),
    ensures
        processed(event_type@, *payload, r),
{
    let k: &str = if str_eq(event_type, "table") {
        detect_table_event_type(payload)
    } else {
        event_type
    };
    if str_eq(k, "log") {
        LogProcessor.process(payload)
    } else if str_eq(k, "exception") {
        ExceptionProcessor.process(payload)
    } else if str_eq(k, "query") || str_eq(k, "executed_query") {
        QueryProcessor.process(payload)
    } else if str_eq(k, "application_log") {
        ApplicationLogProcessor.process(payload)
    } else if str_eq(k, "cache") {
        CacheEvent::process(payload)
    } else if str_eq(k, "request") {
        HttpEvent::process(payload)
    } else {
        let mut label = to_string("Unknown Event: ");
        push_str(&mut label, k);
        Ok(EventEntry::new(k, label, to_string("Unknown event type"), payload))
    }
}

/// `process_event` where it can run, `None` where the payload would make it panic.
pub fn try_process_event(event_type: &str, payload: &Json) -> (r: Option<
    Result<EventEntry, EventError>,
>)
    ensures
        match r {
            Some(res) => processable(event_type@, *payload) && processed(
                event_type@,
                *payload,
                res,
            ),
            None => !processable(event_type@, *payload),
        },
{
    if can_process_event(event_type, payload) {
        Some(process_event(event_type, payload))
    } else {
        None
    }
}

} // verus!
