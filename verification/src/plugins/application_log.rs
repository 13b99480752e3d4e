//! The application log plugin: the logged text with its source, or the raw payload when it
//! is not JSON.
use vstd::prelude::*;

use crate::json::{get, Json};
use crate::plugins::{deref_opt, origin_lines, push_origin_lines};
use crate::processors::{can_clip, cuts_at_byte, len_bytes, str_field, str_or_empty};
use crate::shared::{process_common_event, EventEntry};
use crate::text::{byte_len, byte_prefix, prefix_bytes, push_str, to_string, trim, trim_str};

verus! {

/// A text for the event list: its first 50 bytes, trimmed and followed by ` ...`, when
/// longer.
pub open spec fn spaced_clip(v: Seq<char>) -> Seq<char> {
    if len_bytes(v) > 50 {
        trim(byte_prefix(v, 50)) + " ..."@
    } else {
        v
    }
}

/// `spaced_clip` of a string.
fn spaced_clip_str(s: &str) -> (r: String)
    requires
        can_clip(s@, 50, 50),
    ensures
        r@ == spaced_clip(s@),
{
    if byte_len(s) > 50 {
        let p = prefix_bytes(s, 50);
        let mut t = trim_str(p.as_str());
        push_str(&mut t, " ...");
        t
    } else {
        to_string(s)
    }
}

/// The source section, when the payload has an `origin`.
pub open spec fn app_log_source(payload: Json) -> Seq<char> {
    match get(payload, "origin"@) {
        Some(o) => "### Source\n\n"@ + origin_lines(o) + "\n"@,
        None => Seq::empty(),
    }
}

/// Markdown of an application log.
pub open spec fn app_log_body(payload: Json, value: Seq<char>) -> Seq<char> {
    "## Application Log\n\n"@ + app_log_source(payload) + "### Log Content\n\n```\n"@ + value
        + "\n```\n"@
}

/// Payloads that the application log plugin handles without panicking: the text it clips
/// (the logged value, or the raw payload when it is not JSON) must have a character
/// boundary at byte 50 when longer.
pub open spec fn app_log_plugin_processable(payload: Seq<char>, decoded: Option<Json>) -> bool {
    match decoded {
        Some(v) => match get(v, "content"@) {
            Some(c) => can_clip(str_or_empty(c, "value"@), 50, 50),
            None => true,
        },
        None => can_clip(payload, 50, 50),
    }
}

/// The entry the application log plugin makes of a payload.
pub open spec fn app_log_plugin_entry(
    payload: Seq<char>,
    decoded: Option<Json>,
    timestamp: Seq<char>,
    e: EventEntry,
) -> bool {
    &&& e.timestamp@ == timestamp
    &&& e.label@ == "Application Log"@
    &&& match decoded {
        None => {
            &&& e.description@ == spaced_clip(payload)
            &&& e.content@ == "```\n"@ + payload + "\n```"@
            &&& e.content_type@ == "markdown"@
        },
        Some(v) => match get(v, "content"@) {
            None => {
                &&& e.description@ == Seq::<char>::empty()
                &&& e.content@ == Seq::<char>::empty()
                &&& e.content_type@ == "json"@
            },
            Some(c) => {
                let value = str_or_empty(c, "value"@);
                &&& e.description@ == (if value.len() > 0 {
                    spaced_clip(value)
                } else {
                    Seq::empty()
                })
                &&& e.content@ == app_log_body(v, value)
                &&& e.content_type@ == "markdown"@
            },
        },
    }
}

/// Processes `application_log` payloads.
pub struct ApplicationLogEvent;

impl ApplicationLogEvent {
    /// Whether `process` can handle a payload.
    pub fn can_process(&self, payload: &str, decoded: Option<&Json>) -> (r: bool)
        ensures
            r == app_log_plugin_processable(payload@, deref_opt(decoded)),
    {
        let text = match decoded {
            Some(v) => match v.get("content") {
                Some(c) => str_field(c, "value"),
                None => return true,
            },
            None => to_string(payload),
        };
        byte_len(text.as_str()) <= 50 || cuts_at_byte(text.as_str(), 50)
    }

    /// The entry for an application log: labelled `Application Log`, with the clipped
    /// value as summary and a markdown body holding source and value; a payload that is not
    /// JSON is shown as it is.
    pub fn process(&self, payload: &str, decoded: Option<&Json>, timestamp: String) -> (e: EventEntry)
        requires
            app_log_plugin_processable(payload@, deref_opt(decoded)),
        ensures
            app_log_plugin_entry(payload@, deref_opt(decoded), timestamp@, e),
    {
        let mut entry = process_common_event("application_log", timestamp);
        entry.label = to_string("Application Log");
        match decoded {
            Some(v) => {
                if let Some(c) = v.get("content") {
                    let value = str_field(c, "value");
                    if !value.as_str().is_empty() {
                        entry.description = spaced_clip_str(value.as_str());
                    }
                    let mut md = to_string("## Application Log\n\n");
                    let ghost head = md@;
                    if let Some(o) = v.get("origin") {
                        push_str(&mut md, "### Source\n\n");
                        push_origin_lines(&mut md, o);
                        push_str(&mut md, "\n");
                    }
                    proof {
                        assert(md@ =~= head + app_log_source(*v));
                    }
                    push_str(&mut md, "### Log Content\n\n```\n");
                    push_str(&mut md, value.as_str());
                    push_str(&mut md, "\n```\n");
                    proof {
                        assert(md@ =~= app_log_body(*v, value@));
                    }
                    entry.content = md;
                    entry.content_type = to_string("markdown");
                }
            },
            None => {
                let mut md = to_string("```\n");
                push_str(&mut md, payload);
                push_str(&mut md, "\n```");
                entry.content = md;
                entry.description = spaced_clip_str(payload);
                entry.content_type = to_string("markdown");
            },
        }
        entry
    }
}

} // verus!
