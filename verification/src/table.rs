//! Table payloads: one payload type that carries cache events, HTTP traffic or plain
//! labelled tables, told apart by `content.label`.
use vstd::prelude::*;

use crate::entry::{plain_entry, EventEntry, EventError};
use crate::event_data::{process_cache_event, process_http_event, process_table_event, HttpEventType, ProcessedEvent};
use crate::events::{cache_description, cache_key, cache_operation, cache_result};
use crate::json::{get, get_str, get_u64, Json};
use crate::processors::{str_field, str_or_empty};
use crate::text::{decimal, push_str, str_eq, to_string, u64_to_string};

verus! {

/// The list label and summary of a table payload's entry, or why it has none.
pub open spec fn table_texts(payload: Json) -> Result<(Seq<char>, Seq<char>), EventError> {
    match get(payload, "content"@) {
        None => Ok(("Table"@, Seq::empty())),
        Some(c) => {
            let label = str_or_empty(c, "label"@);
            if label == "Cache"@ {
                match get(c, "values"@) {
                    None => Err(EventError::MissingValues { event: arbitrary() }),
                    Some(v) => Ok(
                        (
                            "Cache: "@ + cache_operation(v),
                            cache_description(cache_operation(v), cache_key(v)),
                        ),
                    ),
                }
            } else if label == "Http"@ {
                match get(c, "values"@) {
                    None => Err(EventError::MissingValues { event: arbitrary() }),
                    Some(v) => {
                        let url = str_or_empty(v, "URL"@);
                        let is_response = crate::events::http_is_response(v);
                        if is_response {
                            Ok(
                                (
                                    "HTTP: Response"@,
                                    url + " - "@ + decimal(get_u64(v, "Status"@)->0 as nat),
                                ),
                            )
                        } else {
                            Ok(("HTTP: Request"@, url))
                        }
                    },
                }
            } else {
                match get(c, "values"@) {
                    None => Err(EventError::UnknownTableFormat),
                    Some(_) => Ok((label, label + " data"@)),
                }
            }
        },
    }
}

/// What processing a table payload gives.
pub open spec fn table_result(payload: Json, r: Result<EventEntry, EventError>) -> bool {
    match table_texts(payload) {
        Ok((label, description)) => r matches Ok(e) && plain_entry(
            "table"@,
            label,
            description,
            payload,
            e,
        ),
        Err(EventError::MissingValues { event: _ }) => {
            let l = str_or_empty(get(payload, "content"@)->0, "label"@);
            r matches Err(EventError::MissingValues { event }) && event@ == (if l == "Cache"@ {
                "cache"@
            } else {
                "HTTP"@
            })
        },
        Err(_) => r matches Err(EventError::UnknownTableFormat),
    }
}

/// HTTP traffic in a table payload is listed by what it is: a response (a `Status` and no
/// `Method`) as `HTTP: Response`, summarised by its URL, ` - ` and its status code in
/// decimal; a request (a `Method`) as `HTTP: Request`, summarised by its URL. Any other label
/// with values is listed under that label, summarised as `<label> data`.
pub proof fn law_table_http_summaries(payload: Json, r: Result<EventEntry, EventError>)
    requires
        table_result(payload, r),
    ensures
        get(payload, "content"@) matches Some(c) ==> {
            &&& (get_str(c, "label"@) == Some("Http"@)) ==> (get(c, "values"@) matches Some(v) ==> {
                let url = str_or_empty(v, "URL"@);
                &&& (get_str(v, "Method"@) is None) ==> (get_u64(v, "Status"@) matches Some(code)
                    ==> (r matches Ok(e) && e.label@ == "HTTP: Response"@ && e.description@ == url
                    + " - "@ + decimal(code as nat)))
                &&& (get_str(v, "Method"@) is Some) ==> (r matches Ok(e) && e.label@
                    == "HTTP: Request"@ && e.description@ == url)
            })
            &&& get_str(c, "label"@) matches Some(l) ==> ((l != "Http"@ && l != "Cache"@ && get(
                c,
                "values"@,
            ) is Some) ==> (r matches Ok(e) && e.label@ == l && e.description@ == l + " data"@))
        },
{
    reveal_strlit("Http");
    reveal_strlit("Cache");
    assert("Http"@.len() != "Cache"@.len());
}

/// A table payload labelled `Cache` is listed as a cache payload with the same values is:
/// same label, same summary.
pub proof fn law_table_cache_as_cache_event(
    payload: Json,
    r: Result<EventEntry, EventError>,
    cache_payload: Json,
    rc: Result<EventEntry, EventError>,
)
    requires
        table_result(payload, r),
        cache_result(cache_payload, rc),
        get(payload, "content"@) matches Some(c) && get_str(c, "label"@) == Some("Cache"@),
        get(payload, "content"@) matches Some(c) && get(cache_payload, "content"@) matches Some(cc)
            && get(c, "values"@) is Some && get(c, "values"@) == get(cc, "values"@),
    ensures
        r matches Ok(e) && rc matches Ok(ec) && e.label@ == ec.label@ && e.description@
            == ec.description@,
{
}

/// The entry for a table payload: a cache event, an HTTP request or response, or a
/// labelled table, by `content.label`.
pub fn process(payload: &Json) -> (r: Result<EventEntry, EventError>)
    ensures
        table_result(*payload, r),
{
    let mut entry = EventEntry::new("table", to_string("Table"), String::new(), payload);
    if let Some(content) = payload.get("content") {
        let label = str_field(content, "label");
        let processed = if str_eq(label.as_str(), "Cache") {
            process_cache_event(content)?
        } else if str_eq(label.as_str(), "Http") {
            process_http_event(content)?
        } else if let Some(values) = content.get("values") {
            process_table_event(label.as_str(), values)?
        } else {
            return Err(EventError::UnknownTableFormat);
        };
        match processed {
            ProcessedEvent::Cache(cache_event) => {
                let mut l = to_string("Cache: ");
                push_str(&mut l, cache_event.operation.as_str());
                entry.label = l;
                let op = cache_event.operation.as_str();
                let key = cache_event.key.as_str();
                entry.description = if str_eq(op, "Hit") {
                    let mut d = to_string("Cache hit for: ");
                    push_str(&mut d, key);
                    d
                } else if str_eq(op, "Missed") {
                    let mut d = to_string("Cache miss for: ");
                    push_str(&mut d, key);
                    d
                } else if str_eq(op, "Key written") {
                    let mut d = to_string("Cache write: ");
                    push_str(&mut d, key);
                    d
                } else if str_eq(op, "Forgotten") {
                    let mut d = to_string("Cache key forgotten: ");
                    push_str(&mut d, key);
                    d
                } else {
                    let mut d = to_string(op);
                    push_str(&mut d, " (");
                    push_str(&mut d, key);
                    push_str(&mut d, ")");
                    d
                };
            },
            ProcessedEvent::Http(http_event) => {
                match http_event.event_type {
                    HttpEventType::Request => {
                        entry.label = to_string("HTTP: Request");
                        entry.description = http_event.url;
                    },
                    HttpEventType::Response => {
                        entry.label = to_string("HTTP: Response");
                        entry.description = match http_event.status_code {
                            Some(status_code) => {
                                let mut d = http_event.url;
                                push_str(&mut d, " - ");
                                let digits = u64_to_string(status_code);
                                push_str(&mut d, digits.as_str());
                                d
                            },
                            None => http_event.url,
                        };
                    },
                }
            },
            ProcessedEvent::Table(table_event) => {
                let mut d = to_string(table_event.label.as_str());
                push_str(&mut d, " data");
                entry.label = table_event.label;
                entry.description = d;
            },
            _ => {
                return Err(EventError::UnexpectedTableEvent);
            },
        }
    }
    Ok(entry)
}

} // verus!
