//! The table plugin: cache operations, HTTP traffic and generic labelled tables, each with a
//! markdown body of its own.
use vstd::prelude::*;

use crate::events::{cache_description, cache_key, cache_operation, cache_summary};
use crate::json::{double_of, get, get_str, get_u64, json_view, pretty, pretty_text, u64_of, DoubleText, Json};
use crate::processors::{str_field, str_field_or, str_or_empty};
use crate::renderers::cache::{
    cache_markdown, expiration_section, lemma_value_body_by_view, metadata_section,
    push_expiration, push_metadata, push_value, value_part,
};
use crate::renderers::http::{
    bytes_line, header_block, push_bytes_line, push_header_block, push_response_body,
    push_seconds_line, response_body_part, seconds_line,
};
use crate::renderers::table::{push_table_line, table_lines};
use crate::event_data::{cache_event_of, opt_double_field, opt_str_field, opt_text, opt_u64_field, CacheEvent};
use crate::shared::{common_entry, process_common_event, EventEntry};
use crate::plugins::deref_opt;
use crate::text::{
    contains_text, decimal, lemma_contains_middle, push_str, replace_str, str_eq, to_string,
    u64_to_string,
};

verus! {

/// `values[key]` read as a double, when it is a non-negative integer.
pub open spec fn integer_double(values: Json, key: Seq<char>) -> Option<DoubleText> {
    match get(values, key) {
        Some(v) => if u64_of(v) is Some {
            double_of(v)
        } else {
            None
        },
        None => None,
    }
}

/// `values[key]` read as a double.
pub open spec fn double_field(values: Json, key: Seq<char>) -> Option<DoubleText> {
    match get(values, key) {
        Some(v) => double_of(v),
        None => None,
    }
}

/// Label, summary and markdown of a cache operation.
pub open spec fn cache_texts(values: Json) -> (Seq<char>, Seq<char>, Seq<char>) {
    let op = cache_operation(values);
    let key = cache_key(values);
    (
        "Cache: "@ + op,
        cache_description(op, key),
        "## Cache Operation: "@ + op + "\n\n"@ + "### Key\n```\n"@ + key + "\n```\n\n"@
            + expiration_section(
            get_u64(values, "Expiration in seconds"@),
            integer_double(values, "Expiration in seconds"@),
        ) + value_part(get(values, "Value"@)) + metadata_section(
            get_str(values, "Tags"@),
            get_str(values, "Store"@),
            get_str(values, "TTL"@),
        ),
    )
}

/// The headers section: present whenever `Headers` is an object, even an empty one.
pub open spec fn headers_text(values: Json) -> Seq<char> {
    match get(values, "Headers"@) {
        Some(Json::Object(fields)) => header_block(fields@),
        _ => Seq::empty(),
    }
}

/// The body of a request: `Data` as pretty JSON, else a text `Body` as it is.
pub open spec fn request_body_text(values: Json) -> Seq<char> {
    match get(values, "Data"@) {
        Some(d) => "### Request Body\n\n```json\n"@ + pretty_text(json_view(d)) + "\n```\n"@,
        None => match get_str(values, "Body"@) {
            Some(b) => "### Request Body\n\n```\n"@ + b + "\n```\n"@,
            None => Seq::empty(),
        },
    }
}

/// Markdown of a request.
pub open spec fn request_text(values: Json, method: Seq<char>) -> Seq<char> {
    "## HTTP Request\n\n"@ + "**URL:** "@ + str_or_empty(values, "URL"@) + "\n\n"@
        + "**Method:** "@ + method + "\n\n"@ + match get_str(values, "Type"@) {
        Some(t) => "**Type:** "@ + t + "\n\n"@,
        None => Seq::empty(),
    } + headers_text(values) + request_body_text(values)
}

/// Whether a response reports success (`Success`, false when absent).
pub open spec fn response_success(values: Json) -> bool {
    match get(values, "Success"@) {
        Some(Json::Bool(b)) => b,
        _ => false,
    }
}

/// The status line of a response.
pub open spec fn status_text(values: Json, code: u64) -> Seq<char> {
    "**Status:** "@ + decimal(code as nat) + " ("@ + (if response_success(values) {
        "Success"@
    } else {
        "Failed"@
    }) + ")\n\n"@
}

/// The performance section of a response.
pub open spec fn performance_text(values: Json) -> Seq<char> {
    "### Performance\n\n"@ + seconds_line("Duration"@, double_field(values, "Duration"@))
        + seconds_line("Connection Time"@, double_field(values, "Connection time"@)) + bytes_line(
        "Size"@,
        get_u64(values, "Size"@),
    ) + bytes_line("Request Size"@, get_u64(values, "Request Size"@)) + "\n"@
}

/// Markdown of a response.
pub open spec fn response_text(values: Json, code: u64) -> Seq<char> {
    "## HTTP Response\n\n"@ + "**URL:** "@ + str_or_empty(values, "URL"@) + "\n\n"@
        + status_text(values, code) + performance_text(values) + headers_text(values)
        + response_body_part(get(values, "Body"@))
}

/// Label, summary and markdown of HTTP traffic: a request has a `Method`, a response a
/// `Status`; anything else keeps the table label and gets an empty body.
pub open spec fn http_texts(values: Json) -> (Seq<char>, Seq<char>, Seq<char>) {
    let url = str_or_empty(values, "URL"@);
    match (get_str(values, "Method"@), get_u64(values, "Status"@)) {
        (Some(m), _) => ("HTTP: Request"@, url, request_text(values, m)),
        (None, Some(code)) => (
            "HTTP: Response"@,
            url + " - "@ + decimal(code as nat),
            response_text(values, code),
        ),
        (None, None) => ("table"@, Seq::empty(), Seq::empty()),
    }
}

/// Markdown of any other labelled table: its fields one by one, or its value as pretty JSON
/// when it is not an object.
pub open spec fn other_text(label: Seq<char>, values: Json) -> Seq<char> {
    "## "@ + label + "\n\n"@ + match values {
        Json::Object(fields) => table_lines(fields@),
        _ => "```json\n"@ + pretty_text(json_view(values)) + "\n```"@,
    }
}

/// Label, summary and markdown of a table payload's `content`, or `None` when it has no
/// `values` (the entry then stays as it started).
pub open spec fn table_texts_of(content: Json) -> Option<(Seq<char>, Seq<char>, Seq<char>)> {
    let label = str_or_empty(content, "label"@);
    match get(content, "values"@) {
        None => None,
        Some(values) => if label == "Cache"@ {
            Some(cache_texts(values))
        } else if label == "Http"@ {
            Some(http_texts(values))
        } else {
            Some((label, Seq::empty(), other_text(label, values)))
        },
    }
}

/// The entry the table plugin makes of a decoded payload.
pub open spec fn table_plugin_entry(decoded: Option<Json>, timestamp: Seq<char>, e: EventEntry) -> bool {
    let texts = match decoded {
        Some(v) => match get(v, "content"@) {
            Some(c) => table_texts_of(c),
            None => None,
        },
        None => None,
    };
    match texts {
        None => common_entry("table"@, timestamp, e),
        Some((label, description, content)) => {
            &&& e.timestamp@ == timestamp
            &&& e.label@ == label
            &&& e.description@ == description
            &&& e.content@ == content
            &&& e.content_type@ == "markdown"@
        },
    }
}

/// An HTTP response in a table payload (a `Status` and no `Method`) is listed as
/// `HTTP: Response`, summarised by its URL, ` - ` and its status code, and its markdown holds
/// the status line `**Status:** <code> (Success)` when `Success` is the boolean `true`, and
/// `**Status:** <code> (Failed)` otherwise (`false`, absent or not a boolean).
pub proof fn law_plugin_response_status(v: Json, timestamp: Seq<char>, e: EventEntry)
    requires
        table_plugin_entry(Some(v), timestamp, e),
    ensures
        get(v, "content"@) matches Some(c) ==> (get_str(c, "label"@) == Some("Http"@) ==> (get(
            c,
            "values"@,
        ) matches Some(vals) ==> (get_str(vals, "Method"@) is None ==> (get_u64(vals, "Status"@) matches Some(code) ==> {
            &&& e.label@ == "HTTP: Response"@
            &&& e.description@ == str_or_empty(vals, "URL"@) + " - "@ + decimal(code as nat)
            &&& get(vals, "Success"@) == Some(Json::Bool(true)) ==> contains_text(
                e.content@,
                "**Status:** "@ + decimal(code as nat) + " (Success)"@,
            )
            &&& get(vals, "Success"@) != Some(Json::Bool(true)) ==> contains_text(
                e.content@,
                "**Status:** "@ + decimal(code as nat) + " (Failed)"@,
            )
        })))),
{
    reveal_strlit("Http");
    reveal_strlit("Cache");
    assert("Http"@.len() != "Cache"@.len());
    if let Some(c) = get(v, "content"@) {
        if get_str(c, "label"@) == Some("Http"@) {
            if let Some(vals) = get(c, "values"@) {
                if get_str(vals, "Method"@) is None {
                    if let Some(code) = get_u64(vals, "Status"@) {
                        let url = str_or_empty(vals, "URL"@);
                        let word = if response_success(vals) {
                            "Success"@
                        } else {
                            "Failed"@
                        };
                        let pre = "## HTTP Response\n\n"@ + "**URL:** "@ + url + "\n\n"@;
                        let part = "**Status:** "@ + decimal(code as nat) + " ("@ + word + ")"@;
                        let post = "\n\n"@ + performance_text(vals) + headers_text(vals)
                            + response_body_part(get(vals, "Body"@));
                        reveal_strlit(")\n\n");
                        reveal_strlit(")");
                        reveal_strlit("\n\n");
                        assert(")\n\n"@ =~= ")"@ + "\n\n"@);
                        assert(response_text(vals, code) =~= pre + part + post);
                        lemma_contains_middle(pre, part, post);
                        reveal_strlit(" (");
                        reveal_strlit(" (Success)");
                        reveal_strlit(" (Failed)");
                        reveal_strlit("Success");
                        reveal_strlit("Failed");
                        assert(" ("@ + "Success"@ + ")"@ =~= " (Success)"@);
                        assert(" ("@ + "Failed"@ + ")"@ =~= " (Failed)"@);
                        let head = "**Status:** "@ + decimal(code as nat);
                        assert(part =~= head + (" ("@ + word + ")"@));
                    }
                }
            }
        }
    }
}

/// The table plugin draws a cache operation as the cache renderer draws the cache event read
/// from the same values: the same label, summary and markdown.
pub proof fn law_plugin_draws_cache_as_renderer(values: Json, ev: CacheEvent)
    requires
        cache_event_of(values, ev),
    ensures
        cache_texts(values) == (
            "Cache: "@ + ev.operation@,
            cache_description(ev.operation@, ev.key@),
            cache_markdown(ev),
        ),
{
    match (get(values, "Value"@), ev.value) {
        (Some(a), Some(b)) => lemma_value_body_by_view(a, b),
        _ => {},
    }
    assert(value_part(get(values, "Value"@)) == value_part(ev.value));
    assert(integer_double(values, "Expiration in seconds"@) == ev.expiration);
}

fn cache_parts(values: &Json) -> (r: (String, String, String))
    ensures
        (r.0@, r.1@, r.2@) == cache_texts(*values),
{
    let raw = str_field_or(values, "Event", "Unknown");
    proof {
        reveal_strlit("");
        assert(""@ =~= Seq::<char>::empty());
        reveal_strlit("<code>");
        reveal_strlit("</code>");
    }
    let op1 = replace_str(raw.as_str(), "<code>", "");
    let op = replace_str(op1.as_str(), "</code>", "");
    let key = str_field_or(values, "Key", "Unknown");
    let mut md = to_string("## Cache Operation: ");
    push_str(&mut md, op.as_str());
    push_str(&mut md, "\n\n");
    push_str(&mut md, "### Key\n```\n");
    push_str(&mut md, key.as_str());
    push_str(&mut md, "\n```\n\n");
    let (seconds, double) = match values.get("Expiration in seconds") {
        Some(v) => match v.as_u64() {
            Some(n) => (Some(n), match v.as_double() {
                Some(d) => Some(d.copy()),
                None => None,
            }),
            None => (None, None),
        },
        None => (None, None),
    };
    push_expiration(&mut md, seconds, &double);
    push_value(&mut md, values.get("Value"));
    let tags = opt_str_field(values, "Tags");
    let store = opt_str_field(values, "Store");
    let ttl = opt_str_field(values, "TTL");
    push_metadata(&mut md, &tags, &store, &ttl);
    let mut label = to_string("Cache: ");
    push_str(&mut label, op.as_str());
    let description = cache_summary(op.as_str(), key.as_str());
    proof {
        assert(md@ =~= cache_texts(*values).2);
    }
    (label, description, md)
}

fn push_headers_text(md: &mut String, values: &Json)
    ensures
        final(md)@ == old(md)@ + headers_text(*values),
{
    match values.get("Headers") {
        Some(h) => match h.as_object() {
            Some(fields) => push_header_block(md, fields),
            None => {},
        },
        None => {},
    }
    proof {
        assert(headers_text(*values) == match get(*values, "Headers"@) {
            Some(Json::Object(fields)) => header_block(fields@),
            _ => Seq::<char>::empty(),
        });
    }
}

fn request_markdown(values: &Json, method: &str) -> (md: String)
    ensures
        md@ == request_text(*values, method@),
{
    let url = str_field(values, "URL");
    let mut md = to_string("## HTTP Request\n\n");
    push_str(&mut md, "**URL:** ");
    push_str(&mut md, url.as_str());
    push_str(&mut md, "\n\n");
    push_str(&mut md, "**Method:** ");
    push_str(&mut md, method);
    push_str(&mut md, "\n\n");
    let ghost s1 = md@;
    if let Some(t) = opt_str_field(values, "Type") {
        push_str(&mut md, "**Type:** ");
        push_str(&mut md, t.as_str());
        push_str(&mut md, "\n\n");
    }
    let ghost s2 = md@;
    push_headers_text(&mut md, values);
    let ghost s3 = md@;
    match values.get("Data") {
        Some(d) => {
            push_str(&mut md, "### Request Body\n\n```json\n");
            let p = pretty(d);
            push_str(&mut md, p.as_str());
            push_str(&mut md, "\n```\n");
        },
        None => match values.get("Body") {
            Some(b) => match b.as_str() {
                Some(text) => {
                    push_str(&mut md, "### Request Body\n\n```\n");
                    push_str(&mut md, text);
                    push_str(&mut md, "\n```\n");
                },
                None => {},
            },
            None => {},
        },
    }
    proof {
        let ty = match get_str(*values, "Type"@) {
            Some(t) => "**Type:** "@ + t + "\n\n"@,
            None => Seq::<char>::empty(),
        };
        assert(s2 =~= s1 + ty);
        assert(md@ =~= s3 + request_body_text(*values));
        assert(md@ =~= request_text(*values, method@));
    }
    md
}

fn push_status_text(md: &mut String, values: &Json, code: u64)
    ensures
        final(md)@ == old(md)@ + status_text(*values, code),
{
    let ghost start = md@;
    let success = match values.get("Success") {
        Some(v) => match v.as_bool() {
            Some(b) => b,
            None => false,
        },
        None => false,
    };
    push_str(md, "**Status:** ");
    let digits = u64_to_string(code);
    push_str(md, digits.as_str());
    push_str(md, " (");
    push_str(md, if success { "Success" } else { "Failed" });
    push_str(md, ")\n\n");
    proof {
        assert(success == response_success(*values));
        assert(md@ =~= start + status_text(*values, code));
    }
}

fn push_performance_text(md: &mut String, values: &Json)
    ensures
        final(md)@ == old(md)@ + performance_text(*values),
{
    let ghost start = md@;
    push_str(md, "### Performance\n\n");
    let duration = opt_double_field(values, "Duration");
    let connection = opt_double_field(values, "Connection time");
    let size = opt_u64_field(values, "Size");
    let request_size = opt_u64_field(values, "Request Size");
    let ghost a = seconds_line("Duration"@, duration);
    let ghost b = seconds_line("Connection Time"@, connection);
    let ghost c = bytes_line("Size"@, size);
    let ghost d = bytes_line("Request Size"@, request_size);
    push_seconds_line(md, "Duration", &duration);
    push_seconds_line(md, "Connection Time", &connection);
    push_bytes_line(md, "Size", size);
    push_bytes_line(md, "Request Size", request_size);
    push_str(md, "\n");
    proof {
        assert(md@ =~= start + ("### Performance\n\n"@ + a + b + c + d + "\n"@));
    }
}

fn response_markdown(values: &Json, code: u64) -> (md: String)
    ensures
        md@ == response_text(*values, code),
{
    let url = str_field(values, "URL");
    let mut md = to_string("## HTTP Response\n\n");
    push_str(&mut md, "**URL:** ");
    push_str(&mut md, url.as_str());
    push_str(&mut md, "\n\n");
    let ghost s1 = md@;
    push_status_text(&mut md, values, code);
    push_performance_text(&mut md, values);
    push_headers_text(&mut md, values);
    push_response_body(&mut md, values.get("Body"));
    proof {
        assert(s1 =~= "## HTTP Response\n\n"@ + "**URL:** "@ + str_or_empty(*values, "URL"@) + "\n\n"@);
        assert(md@ =~= response_text(*values, code));
    }
    md
}

fn http_parts(values: &Json) -> (r: (String, String, String))
    ensures
        (r.0@, r.1@, r.2@) == http_texts(*values),
{
    let url = str_field(values, "URL");
    match values.get("Method") {
        Some(m) => match m.as_str() {
            Some(method) => {
                let md = request_markdown(values, method);
                return (to_string("HTTP: Request"), url, md);
            },
            None => {},
        },
        None => {},
    }
    match values.get("Status") {
        Some(s) => match s.as_u64() {
            Some(code) => {
                let md = response_markdown(values, code);
                let mut d = url;
                push_str(&mut d, " - ");
                let digits = u64_to_string(code);
                push_str(&mut d, digits.as_str());
                return (to_string("HTTP: Response"), d, md);
            },
            None => {},
        },
        None => {},
    }
    proof {
        reveal_strlit("");
    }
    (to_string("table"), String::new(), String::new())
}

fn other_markdown(label: &str, values: &Json) -> (md: String)
    ensures
        md@ == other_text(label@, *values),
{
    let mut md = to_string("## ");
    push_str(&mut md, label);
    push_str(&mut md, "\n\n");
    let ghost head = md@;
    match values.as_object() {
        Some(fields) => {
            let mut i: usize = 0;
            while i < fields.len()
                invariant
                    i <= fields.len(),
                    md@ == head + table_lines(fields@.take(i as int)),
                decreases fields.len() - i,
            {
                proof {
                    assert(fields@.take(i + 1).drop_last() =~= fields@.take(i as int));
                }
                let (k, v) = &fields[i];
                push_table_line(&mut md, k.as_str(), v);
                i += 1;
            }
            proof {
                assert(fields@.take(fields.len() as int) =~= fields@);
            }
        },
        None => {
            push_str(&mut md, "```json\n");
            let p = pretty(values);
            push_str(&mut md, p.as_str());
            push_str(&mut md, "\n```");
        },
    }
    proof {
        assert(md@ =~= other_text(label@, *values));
    }
    md
}

fn content_parts(content: &Json) -> (r: Option<(String, String, String)>)
    ensures
        match (r, table_texts_of(*content)) {
            (Some(t), Some(u)) => (t.0@, t.1@, t.2@) == u,
            (None, None) => true,
            _ => false,
        },
{
    let label = str_field(content, "label");
    let values = match content.get("values") {
        Some(v) => v,
        None => return None,
    };
    if str_eq(label.as_str(), "Cache") {
        Some(cache_parts(values))
    } else if str_eq(label.as_str(), "Http") {
        Some(http_parts(values))
    } else {
        let md = other_markdown(label.as_str(), values);
        proof {
            reveal_strlit("");
        }
        Some((label, String::new(), md))
    }
}

/// Processes `table` payloads.
pub struct TableEvent;

impl TableEvent {
    /// The entry for a table payload: by `content.label`, a cache operation, an HTTP request
    /// or response, or a generic table, each with its markdown body; the plain starting entry
    /// when the payload is not JSON or has no `content.values`.
    pub fn process(&self, payload: &str, decoded: Option<&Json>, timestamp: String) -> (e: EventEntry)
        ensures
            table_plugin_entry(deref_opt(decoded), timestamp@, e),
    {
        let mut entry = process_common_event("table", timestamp);
        let content = match decoded {
            Some(v) => v.get("content"),
            None => None,
        };
        if let Some(c) = content {
            if let Some((label, description, md)) = content_parts(c) {
                entry.label = label;
                entry.description = description;
                entry.content = md;
                entry.content_type = to_string("markdown");
            }
        }
        entry
    }
}

} // verus!
