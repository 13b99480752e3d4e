//! The query plugin: an SQL query with its operation, connection, time and source.
use vstd::prelude::*;

use crate::json::{get, Json};
use crate::plugins::{content_of, content_ref, deref_opt, origin_lines, push_origin_lines};
use crate::processors::{
    can_clip, cuts_at_byte, len_bytes, operation_of, push_time_display, query_operation, query_time,
    query_time_of, str_field, str_or_empty, time_display, time_shortest,
};
use crate::shared::{common_entry, process_common_event, EventEntry};
use crate::text::{byte_len, byte_prefix, prefix_bytes, push_str, to_string, trim, trim_str};

verus! {

/// The query for the event list: its first 50 bytes when longer, trimmed.
pub open spec fn query_head(sql: Seq<char>) -> Seq<char> {
    if len_bytes(sql) > 50 {
        trim(byte_prefix(sql, 50))
    } else {
        trim(sql)
    }
}

/// The source section, when the payload has an `origin`.
pub open spec fn query_source(payload: Json) -> Seq<char> {
    match get(payload, "origin"@) {
        Some(o) => "\n### Source\n\n"@ + origin_lines(o),
        None => Seq::empty(),
    }
}

/// Markdown of a query.
pub open spec fn query_body(payload: Json, c: Json) -> Seq<char> {
    let sql = str_or_empty(c, "sql"@);
    "## SQL Query\n\n"@ + "**Operation:** "@ + query_operation(sql) + "\n\n"@
        + "**Connection:** "@ + str_or_empty(c, "connection_name"@) + "\n\n"@
        + "**Execution Time:** "@ + time_display(query_time(c)) + "\n\n"@
        + "### Query\n\n```sql\n"@ + sql + "\n```\n"@ + query_source(payload)
}

/// Decoded payloads that the query plugin handles without panicking: a query past 50 bytes
/// must have a character boundary at byte 50.
pub open spec fn query_plugin_processable(decoded: Option<Json>) -> bool {
    match content_of(decoded) {
        Some(c) => can_clip(str_or_empty(c, "sql"@), 50, 50),
        None => true,
    }
}

/// The entry the query plugin makes of a decoded payload.
pub open spec fn query_plugin_entry(decoded: Option<Json>, timestamp: Seq<char>, e: EventEntry) -> bool {
    match (decoded, content_of(decoded)) {
        (Some(v), Some(c)) => {
            let sql = str_or_empty(c, "sql"@);
            &&& e.timestamp@ == timestamp
            &&& e.label@ == "Query: "@ + query_operation(sql)
            &&& e.description@ == query_head(sql) + " ("@ + time_shortest(query_time(c)) + "ms)"@
            &&& e.content@ == query_body(v, c)
            &&& e.content_type@ == "markdown"@
        },
        _ => common_entry("query"@, timestamp, e),
    }
}

/// Processes `executed_query` payloads.
pub struct QueryEvent;

impl QueryEvent {
    /// Whether `process` can handle a decoded payload.
    pub fn can_process(&self, decoded: Option<&Json>) -> (r: bool)
        ensures
            r == query_plugin_processable(deref_opt(decoded)),
    {
        match content_ref(decoded) {
            Some(c) => {
                let sql = str_field(c, "sql");
                byte_len(sql.as_str()) <= 50 || cuts_at_byte(sql.as_str(), 50)
            },
            None => true,
        }
    }

    /// The entry for a query payload with `content`: `Query: <OPERATION>` as label, the
    /// query's head and time as summary, and a markdown body; the plain starting entry
    /// otherwise.
    pub fn process(&self, payload: &str, decoded: Option<&Json>, timestamp: String) -> (e: EventEntry)
        requires
            query_plugin_processable(deref_opt(decoded)),
        ensures
            query_plugin_entry(deref_opt(decoded), timestamp@, e),
    {
        let mut entry = process_common_event("query", timestamp);
        let v = match decoded {
            Some(v) => v,
            None => return entry,
        };
        let c = match v.get("content") {
            Some(c) => c,
            None => return entry,
        };
        let sql = str_field(c, "sql");
        let connection = str_field(c, "connection_name");
        let time = query_time_of(c);
        let operation = operation_of(sql.as_str());
        let mut label = to_string("Query: ");
        push_str(&mut label, operation.as_str());
        let mut description = if byte_len(sql.as_str()) > 50 {
            let p = prefix_bytes(sql.as_str(), 50);
            trim_str(p.as_str())
        } else {
            trim_str(sql.as_str())
        };
        push_str(&mut description, " (");
        push_str(&mut description, time.shortest.as_str());
        push_str(&mut description, "ms)");
        let mut md = to_string("## SQL Query\n\n");
        push_str(&mut md, "**Operation:** ");
        push_str(&mut md, operation.as_str());
        push_str(&mut md, "\n\n");
        push_str(&mut md, "**Connection:** ");
        push_str(&mut md, connection.as_str());
        push_str(&mut md, "\n\n");
        push_str(&mut md, "**Execution Time:** ");
        push_time_display(&mut md, &time);
        push_str(&mut md, "\n\n");
        push_str(&mut md, "### Query\n\n```sql\n");
        push_str(&mut md, sql.as_str());
        push_str(&mut md, "\n```\n");
        let ghost before_source = md@;
        if let Some(o) = v.get("origin") {
            push_str(&mut md, "\n### Source\n\n");
            push_origin_lines(&mut md, o);
        }
        proof {
            assert(md@ =~= before_source + query_source(*v));
            assert(md@ =~= query_body(*v, *c));
        }
        entry.label = label;
        entry.description = description;
        entry.content = md;
        entry.content_type = to_string("markdown");
        entry
    }
}

} // verus!
