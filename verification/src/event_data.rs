//! Structured event data read out of payload contents, one kind per event type.
use vstd::prelude::*;

use crate::entry::EventError;
use crate::events::{cache_key, cache_operation};
use crate::json::{
    array_of, bool_of, clone_fields, clone_items_from, clone_opt, double_of, fields_view, get,
    get_str, get_u64, items_view, json_view, opt_view, pretty, pretty_text, str_of, DoubleText,
    Json, JsonView,
};
use crate::processors::{str_field, str_field_or, str_or, str_or_empty, u64_or_zero, u64_field_or_zero};
use crate::text::{replace_str, to_string};

verus! {

/// A text that may be absent, by its characters.
pub open spec fn opt_text(o: Option<String>) -> Option<Seq<char>> {
    match o {
        Some(s) => Some(s@),
        None => None,
    }
}

/// Field `key` of `j` as text, when it is text.
pub fn opt_str_field(j: &Json, key: &str) -> (r: Option<String>)
    ensures
        opt_text(r) == get_str(*j, key@),
{
    match j.get(key) {
        Some(v) => match v.as_str() {
            Some(s) => Some(to_string(s)),
            None => None,
        },
        None => None,
    }
}

/// Field `key` of `j` as a non-negative integer.
pub fn opt_u64_field(j: &Json, key: &str) -> (r: Option<u64>)
    ensures
        r == get_u64(*j, key@),
{
    match j.get(key) {
        Some(v) => v.as_u64(),
        None => None,
    }
}

/// Field `key` of `j` read as a double.
pub fn opt_double_field(j: &Json, key: &str) -> (r: Option<DoubleText>)
    ensures
        r == match get(*j, key@) {
            Some(v) => double_of(v),
            None => None,
        },
{
    match j.get(key) {
        Some(v) => match v.as_double() {
            Some(d) => Some(d.copy()),
            None => None,
        },
        None => None,
    }
}

/// A cache operation.
pub struct CacheEvent {
    /// `Hit`, `Missed`, `Key written`, `Forgotten`, ...
    pub operation: String,
    pub key: String,
    pub value: Option<Json>,
    pub expiration_seconds: Option<u64>,
    /// The expiration read as a double, for its renderings in minutes and hours.
    pub expiration: Option<DoubleText>,
    pub tags: Option<String>,
    pub store: Option<String>,
    pub ttl: Option<String>,
}

/// Whether an HTTP event is a request or a response.
pub enum HttpEventType {
    Request,
    Response,
}

/// An HTTP request or response.
pub struct HttpEvent {
    pub event_type: HttpEventType,
    pub url: String,
    pub method: Option<String>,
    pub status_code: Option<u64>,
    pub success: Option<bool>,
    /// The headers, in the order of the payload's header object.
    pub headers: Vec<(String, Json)>,
    pub body: Option<Json>,
    pub duration_seconds: Option<DoubleText>,
    pub connection_time_seconds: Option<DoubleText>,
    pub size_bytes: Option<u64>,
    pub request_size_bytes: Option<u64>,
    pub content_type: Option<String>,
}

/// A labelled table of values.
pub struct TableEvent {
    pub label: String,
    /// The fields, in the order of the payload's object.
    pub data: Vec<(String, Json)>,
}

/// A log line.
pub struct LogEvent {
    pub level: String,
    pub message: String,
    pub context: Option<Json>,
}

/// An SQL query.
pub struct QueryEvent {
    pub sql: String,
    pub bindings: Vec<Json>,
    pub duration_ms: Option<DoubleText>,
    pub connection_name: Option<String>,
    pub affected_rows: Option<u64>,
}

/// One frame of a stack trace.
pub struct StackFrame {
    pub file: String,
    pub line: u64,
    pub function: String,
    pub class: Option<String>,
}

/// An exception with its stack trace.
pub struct ExceptionEvent {
    pub class: String,
    pub message: String,
    pub file: String,
    pub line: u64,
    pub stack_trace: Vec<StackFrame>,
    pub context: Option<Json>,
}

/// An application log line.
pub struct ApplicationLogEvent {
    pub level: String,
    pub message: String,
    pub context: Option<Json>,
    pub channel: Option<String>,
}

/// Structured data of any event type.
pub enum ProcessedEvent {
    Cache(CacheEvent),
    Http(HttpEvent),
    Table(TableEvent),
    Log(LogEvent),
    Query(QueryEvent),
    Exception(ExceptionEvent),
    ApplicationLog(ApplicationLogEvent),
}

// ---------------------------------------------------------------- cache

/// The cache event read from `values`.
pub open spec fn cache_event_of(values: Json, ev: CacheEvent) -> bool {
    &&& ev.operation@ == cache_operation(values)
    &&& ev.key@ == cache_key(values)
    &&& opt_view(ev.value) == opt_view(get(values, "Value"@))
    &&& ev.expiration_seconds == get_u64(values, "Expiration in seconds"@)
    &&& ev.expiration == (match get(values, "Expiration in seconds"@) {
        Some(v) => if u64_of_is_some(v) {
            double_of(v)
        } else {
            None
        },
        None => None,
    })
    &&& opt_text(ev.tags) == get_str(values, "Tags"@)
    &&& opt_text(ev.store) == get_str(values, "Store"@)
    &&& opt_text(ev.ttl) == get_str(values, "TTL"@)
}

/// Whether a cache event's expiration has its double reading exactly when it has seconds.
pub open spec fn cache_event_wf(ev: CacheEvent) -> bool {
    ev.expiration_seconds is Some <==> ev.expiration is Some
}

/// Whether a value is a non-negative integer.
pub open spec fn u64_of_is_some(v: Json) -> bool {
    crate::json::u64_of(v) is Some
}

/// Reads a cache event from a payload's `content`; fails when `values` is missing.
pub fn process_cache_event(content: &Json) -> (r: Result<ProcessedEvent, EventError>)
    ensures
        match get(*content, "values"@) {
            None => r matches Err(EventError::MissingValues { event }) && event@ == "cache"@,
            Some(v) => r matches Ok(ProcessedEvent::Cache(ev)) && cache_event_of(v, ev)
                && cache_event_wf(ev),
        },
{
    let values = match content.get("values") {
        Some(v) => v,
        None => return Err(EventError::MissingValues { event: to_string("cache") }),
    };
    let raw = str_field_or(values, "Event", "Unknown");
    proof {
        reveal_strlit("");
        assert(""@ =~= Seq::<char>::empty());
        reveal_strlit("<code>");
        reveal_strlit("</code>");
    }
    let op1 = replace_str(raw.as_str(), "<code>", "");
    let operation = replace_str(op1.as_str(), "</code>", "");
    let key = str_field_or(values, "Key", "Unknown");
    let value = clone_opt(values.get("Value"));
    let (expiration_seconds, expiration) = match values.get("Expiration in seconds") {
        Some(v) => match v.as_u64() {
            Some(n) => (Some(n), match v.as_double() {
                Some(d) => Some(d.copy()),
                None => None,
            }),
            None => (None, None),
        },
        None => (None, None),
    };
    let tags = opt_str_field(values, "Tags");
    let store = opt_str_field(values, "Store");
    let ttl = opt_str_field(values, "TTL");
    Ok(
        ProcessedEvent::Cache(
            CacheEvent { operation, key, value, expiration_seconds, expiration, tags, store, ttl },
        ),
    )
}

// ---------------------------------------------------------------- HTTP

/// The fields of an HTTP event read from `values`, all but its body.
pub open spec fn http_fields_of(values: Json, ev: HttpEvent) -> bool {
    let method = get_str(values, "Method"@);
    let status = get_u64(values, "Status"@);
    &&& (ev.event_type is Response) == (method is None && status is Some)
    &&& ev.url@ == str_or_empty(values, "URL"@)
    &&& opt_text(ev.method) == method
    &&& ev.status_code == status
    &&& ev.success == (match get(values, "Success"@) {
        Some(v) => bool_of(v),
        None => None,
    })
    &&& fields_view(ev.headers@) == (match get(values, "Headers"@) {
        Some(Json::Object(fields)) => fields_view(fields@),
        _ => Seq::empty(),
    })
    &&& ev.duration_seconds == (match get(values, "Duration"@) {
        Some(v) => double_of(v),
        None => None,
    })
    &&& ev.connection_time_seconds == (match get(values, "Connection time"@) {
        Some(v) => double_of(v),
        None => None,
    })
    &&& ev.size_bytes == get_u64(values, "Size"@)
    &&& ev.request_size_bytes == get_u64(values, "Request Size"@)
    &&& opt_text(ev.content_type) == get_str(values, "Type"@)
}

/// The first of two fields of `values` that is present.
pub open spec fn first_present(values: Json, first: Seq<char>, second: Seq<char>) -> Option<JsonView> {
    match get(values, first) {
        Some(b) => Some(json_view(b)),
        None => opt_view(get(values, second)),
    }
}

/// The HTTP event read from `values`, its body taken from `Body`, else from `Data`.
pub open spec fn http_event_of(values: Json, ev: HttpEvent) -> bool {
    &&& http_fields_of(values, ev)
    &&& opt_view(ev.body) == first_present(values, "Body"@, "Data"@)
}

/// Reads the HTTP event of `values`, its body from the first present of two fields.
fn read_http(values: &Json, first: &str, second: &str) -> (ev: HttpEvent)
    ensures
        http_fields_of(*values, ev),
        opt_view(ev.body) == first_present(*values, first@, second@),
{
    let method = opt_str_field(values, "Method");
    let status_code = opt_u64_field(values, "Status");
    let event_type = if method.is_some() {
        HttpEventType::Request
    } else if status_code.is_some() {
        HttpEventType::Response
    } else {
        HttpEventType::Request
    };
    let url = str_field(values, "URL");
    let success = match values.get("Success") {
        Some(v) => v.as_bool(),
        None => None,
    };
    let headers = match values.get("Headers") {
        Some(h) => match h.as_object() {
            Some(fields) => clone_fields(fields),
            None => Vec::new(),
        },
        None => Vec::new(),
    };
    let body = match values.get(first) {
        Some(b) => Some(b.deep_clone()),
        None => clone_opt(values.get(second)),
    };
    let duration_seconds = opt_double_field(values, "Duration");
    let connection_time_seconds = opt_double_field(values, "Connection time");
    let size_bytes = opt_u64_field(values, "Size");
    let request_size_bytes = opt_u64_field(values, "Request Size");
    let content_type = opt_str_field(values, "Type");
    proof {
        assert(fields_view(Seq::<(String, Json)>::empty()) =~= Seq::empty());
    }
    HttpEvent {
        event_type,
        url,
        method,
        status_code,
        success,
        headers,
        body,
        duration_seconds,
        connection_time_seconds,
        size_bytes,
        request_size_bytes,
        content_type,
    }
}

/// Reads an HTTP event from a payload's `content`; fails when `values` is missing.
pub fn process_http_event(content: &Json) -> (r: Result<ProcessedEvent, EventError>)
    ensures
        match get(*content, "values"@) {
            None => r matches Err(EventError::MissingValues { event }) && event@ == "HTTP"@,
            Some(v) => r matches Ok(ProcessedEvent::Http(ev)) && http_event_of(v, ev),
        },
{
    match content.get("values") {
        Some(values) => Ok(ProcessedEvent::Http(read_http(values, "Body", "Data"))),
        None => Err(EventError::MissingValues { event: to_string("HTTP") }),
    }
}

/// Reads an HTTP event as the detail panel does: as `process_http_event` does, but with the
/// body taken from `Data` before `Body`; fails when `values` is missing.
pub fn parse_http_event(content: &Json) -> (r: Result<HttpEvent, EventError>)
    ensures
        match get(*content, "values"@) {
            None => r matches Err(EventError::MissingValues { event }) && event@ == "HTTP"@,
            Some(v) => r matches Ok(ev) && http_fields_of(v, ev) && opt_view(ev.body)
                == first_present(v, "Data"@, "Body"@),
        },
{
    match content.get("values") {
        Some(values) => Ok(read_http(values, "Data", "Body")),
        None => Err(EventError::MissingValues { event: to_string("HTTP") }),
    }
}

// ---------------------------------------------------------------- tables

/// The table read from `values`: its fields, or a single `data` field holding a value that
/// is not an object.
pub open spec fn table_event_of(label: Seq<char>, values: Json, ev: TableEvent) -> bool {
    &&& ev.label@ == label
    &&& fields_view(ev.data@) == (match values {
        Json::Object(fields) => fields_view(fields@),
        _ => seq![("data"@, json_view(values))],
    })
}

/// Reads a labelled table from `values`.
pub fn process_table_event(label: &str, values: &Json) -> (r: Result<ProcessedEvent, EventError>)
    ensures
        r matches Ok(ProcessedEvent::Table(ev)) && table_event_of(label@, *values, ev),
{
    let data = match values.as_object() {
        Some(fields) => clone_fields(fields),
        None => {
            let mut d: Vec<(String, Json)> = Vec::new();
            let c = values.deep_clone();
            d.push((to_string("data"), c));
            proof {
                assert(d@.drop_last() =~= Seq::<(String, Json)>::empty());
                assert(fields_view(d@.drop_last()) =~= Seq::empty());
                assert(fields_view(d@) =~= seq![("data"@, json_view(*values))]);
            }
            d
        },
    };
    Ok(ProcessedEvent::Table(TableEvent { label: to_string(label), data }))
}

// ---------------------------------------------------------------- logs

/// The log read from `values`: an array gives its first value as message and the rest as
/// context; an object gives its `level`, `message` and `context`; anything else is the
/// message, as pretty JSON.
pub open spec fn log_event_of(values: Json, ev: LogEvent) -> bool {
    match values {
        Json::Array(items) => {
            &&& ev.level@ == "Info"@
            &&& ev.message@ == (if items@.len() > 0 {
                match str_of(items@[0]) {
                    Some(s) => s,
                    None => pretty_text(json_view(items@[0])),
                }
            } else {
                "Empty log"@
            })
            &&& opt_view(ev.context) == (if items@.len() > 1 {
                Some(JsonView::Array(items_view(items@.skip(1))))
            } else {
                None
            })
        },
        Json::Object(_) => {
            &&& ev.level@ == str_or(values, "level"@, "Info"@)
            &&& ev.message@ == str_or_empty(values, "message"@)
            &&& opt_view(ev.context) == opt_view(get(values, "context"@))
        },
        _ => {
            &&& ev.level@ == "Info"@
            &&& ev.message@ == pretty_text(json_view(values))
            &&& ev.context is None
        },
    }
}

/// Reads a log from a payload's `content`; fails when `values` is missing.
pub fn process_log_event(content: &Json) -> (r: Result<ProcessedEvent, EventError>)
    ensures
        match get(*content, "values"@) {
            None => r matches Err(EventError::MissingValues { event }) && event@ == "log"@,
            Some(v) => r matches Ok(ProcessedEvent::Log(ev)) && log_event_of(v, ev),
        },
{
    let values = match content.get("values") {
        Some(v) => v,
        None => return Err(EventError::MissingValues { event: to_string("log") }),
    };
    match values {
        Json::Array(items) => {
            let message = if items.len() > 0 {
                match items[0].as_str() {
                    Some(s) => to_string(s),
                    None => pretty(&items[0]),
                }
            } else {
                to_string("Empty log")
            };
            let context = if items.len() > 1 {
                Some(Json::Array(clone_items_from(items, 1)))
            } else {
                None
            };
            Ok(ProcessedEvent::Log(LogEvent { level: to_string("Info"), message, context }))
        },
        Json::Object(_) => {
            let level = str_field_or(values, "level", "Info");
            let message = str_field(values, "message");
            let context = clone_opt(values.get("context"));
            Ok(ProcessedEvent::Log(LogEvent { level, message, context }))
        },
        _ => Ok(
            ProcessedEvent::Log(
                LogEvent { level: to_string("Info"), message: pretty(values), context: None },
            ),
        ),
    }
}

// ---------------------------------------------------------------- queries

/// The query read from `content`; `bindings` that are not an array count as one binding.
pub open spec fn query_event_of(content: Json, ev: QueryEvent) -> bool {
    &&& ev.sql@ == str_or_empty(content, "sql"@)
    &&& items_view(ev.bindings@) == (match get(content, "bindings"@) {
        Some(Json::Array(items)) => items_view(items@),
        Some(b) => seq![json_view(b)],
        None => Seq::empty(),
    })
    &&& ev.duration_ms == (match get(content, "time"@) {
        Some(v) => double_of(v),
        None => None,
    })
    &&& opt_text(ev.connection_name) == get_str(content, "connection_name"@)
    &&& ev.affected_rows == get_u64(content, "affected_rows"@)
}

/// Reads a query from a payload's `content`.
pub fn process_query_event(content: &Json) -> (r: Result<ProcessedEvent, EventError>)
    ensures
        r matches Ok(ProcessedEvent::Query(ev)) && query_event_of(*content, ev),
{
    let sql = str_field(content, "sql");
    let duration_ms = opt_double_field(content, "time");
    let connection_name = opt_str_field(content, "connection_name");
    let bindings = match content.get("bindings") {
        Some(b) => match b.as_array() {
            Some(items) => {
                let v = clone_items_from(items, 0);
                proof {
                    assert(items@.skip(0) =~= items@);
                }
                v
            },
            None => {
                let mut v: Vec<Json> = Vec::new();
                let c = b.deep_clone();
                v.push(c);
                proof {
                    assert(v@.drop_last() =~= Seq::<Json>::empty());
                    assert(items_view(v@.drop_last()) =~= Seq::empty());
                    assert(items_view(v@) =~= seq![json_view(*b)]);
                }
                v
            },
        },
        None => {
            let v: Vec<Json> = Vec::new();
            proof {
                assert(items_view(v@) =~= Seq::<JsonView>::empty());
            }
            v
        },
    };
    let affected_rows = opt_u64_field(content, "affected_rows");
    Ok(
        ProcessedEvent::Query(
            QueryEvent { sql, bindings, duration_ms, connection_name, affected_rows },
        ),
    )
}

// ---------------------------------------------------------------- exceptions

/// The frame read from a stack trace entry.
pub open spec fn stack_frame_of(obj: Json, f: StackFrame) -> bool {
    &&& f.file@ == str_or_empty(obj, "file"@)
    &&& f.line == u64_or_zero(obj, "line"@)
    &&& f.function@ == str_or_empty(obj, "function"@)
    &&& opt_text(f.class) == get_str(obj, "class"@)
}

/// The frames read from the first `n` stack trace entries: one per entry that is an object.
pub open spec fn frames_of(entries: Seq<Json>, n: nat, frames: Seq<StackFrame>) -> bool
    decreases n,
{
    if n == 0 || n > entries.len() {
        frames.len() == 0
    } else if entries[n - 1] is Object {
        frames.len() > 0 && frames_of(entries, (n - 1) as nat, frames.drop_last())
            && stack_frame_of(entries[n - 1], frames.last())
    } else {
        frames_of(entries, (n - 1) as nat, frames)
    }
}

/// The exception read from `content`.
pub open spec fn exception_event_of(content: Json, ev: ExceptionEvent) -> bool {
    &&& ev.class@ == str_or(content, "class"@, "Unknown Exception"@)
    &&& ev.message@ == str_or_empty(content, "message"@)
    &&& ev.file@ == str_or_empty(content, "file"@)
    &&& ev.line == u64_or_zero(content, "line"@)
    &&& (match get(content, "frames"@) {
        Some(Json::Array(entries)) => frames_of(entries@, entries@.len(), ev.stack_trace@),
        _ => ev.stack_trace@.len() == 0,
    })
    &&& opt_view(ev.context) == opt_view(get(content, "context"@))
}

/// Reads an exception from a payload's `content`.
pub fn process_exception_event(content: &Json) -> (r: Result<ProcessedEvent, EventError>)
    ensures
        r matches Ok(ProcessedEvent::Exception(ev)) && exception_event_of(*content, ev),
{
    let class = str_field_or(content, "class", "Unknown Exception");
    let message = str_field(content, "message");
    let file = str_field(content, "file");
    let line = u64_field_or_zero(content, "line");
    let mut stack_trace: Vec<StackFrame> = Vec::new();
    if let Some(fr) = content.get("frames") {
        if let Some(entries) = fr.as_array() {
            let mut i: usize = 0;
            while i < entries.len()
                invariant
                    i <= entries.len(),
                    frames_of(entries@, i as nat, stack_trace@),
                decreases entries.len() - i,
            {
                let entry = &entries[i];
                let ghost before = stack_trace@;
                if entry.is_object() {
                    let frame = StackFrame {
                        file: str_field(entry, "file"),
                        line: u64_field_or_zero(entry, "line"),
                        function: str_field(entry, "function"),
                        class: opt_str_field(entry, "class"),
                    };
                    stack_trace.push(frame);
                    proof {
                        assert(stack_trace@.drop_last() =~= before);
                    }
                }
                i += 1;
            }
        }
    }
    let context = clone_opt(content.get("context"));
    Ok(
        ProcessedEvent::Exception(
            ExceptionEvent { class, message, file, line, stack_trace, context },
        ),
    )
}

// ---------------------------------------------------------------- application logs

/// The application log read from `content`.
pub open spec fn application_log_event_of(content: Json, ev: ApplicationLogEvent) -> bool {
    &&& ev.message@ == str_or_empty(content, "value"@)
    &&& ev.level@ == str_or(content, "level"@, "Info"@)
    &&& opt_text(ev.channel) == get_str(content, "channel"@)
    &&& opt_view(ev.context) == opt_view(get(content, "context"@))
}

/// Reads an application log from a payload's `content`.
pub fn process_application_log_event(content: &Json) -> (r: Result<ProcessedEvent, EventError>)
    ensures
        r matches Ok(ProcessedEvent::ApplicationLog(ev)) && application_log_event_of(*content, ev),
{
    let message = str_field(content, "value");
    let level = str_field_or(content, "level", "Info");
    let channel = opt_str_field(content, "channel");
    let context = clone_opt(content.get("context"));
    Ok(ProcessedEvent::ApplicationLog(ApplicationLogEvent { level, message, context, channel }))
}

} // verus!
