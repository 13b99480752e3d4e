//! The exception plugin: class, message and stack trace as markdown.
use vstd::prelude::*;

use crate::json::Json;
use crate::plugins::{content_of, content_ref, deref_opt};
use crate::processors::{
    exception_class, exception_markdown, push_stack_trace, source_paragraph, stack_trace_markdown,
    str_field, str_field_or, str_or_empty,
};
use crate::shared::{common_entry, process_common_event, EventEntry};
use crate::text::{push_str, to_string};

verus! {

/// Markdown of an exception: its class, its message when there is one, and its stack trace.
pub open spec fn exception_body(c: Json) -> Seq<char> {
    let message = str_or_empty(c, "message"@);
    "## "@ + exception_class(c) + "\n\n"@ + (if message.len() > 0 {
        "**Error:** "@ + message + "\n\n"@
    } else {
        Seq::empty()
    }) + stack_trace_markdown(c)
}

/// The exception plugin writes the markdown body that the exception processor writes,
/// without the processor's closing source line.
pub proof fn law_plugin_body_is_processor_body(c: Json, origin: Option<Seq<char>>)
    ensures
        exception_markdown(c, origin) == exception_body(c) + source_paragraph(origin),
{
    assert(exception_markdown(c, origin) =~= exception_body(c) + source_paragraph(origin));
}

/// The entry the exception plugin makes of a decoded payload.
pub open spec fn exception_plugin_entry(decoded: Option<Json>, timestamp: Seq<char>, e: EventEntry) -> bool {
    match content_of(decoded) {
        None => common_entry("exception"@, timestamp, e),
        Some(c) => {
            &&& e.timestamp@ == timestamp
            &&& e.label@ == "exception"@
            &&& e.description@ == Seq::<char>::empty()
            &&& e.content@ == exception_body(c)
            &&& e.content_type@ == "markdown"@
        },
    }
}

/// Processes `exception` payloads.
pub struct ExceptionEvent;

impl ExceptionEvent {
    /// The entry for an exception payload: a markdown body with class, message and stack
    /// trace when it has `content`; the plain starting entry otherwise.
    pub fn process(&self, payload: &str, decoded: Option<&Json>, timestamp: String) -> (e: EventEntry)
        ensures
            exception_plugin_entry(deref_opt(decoded), timestamp@, e),
    {
        let mut entry = process_common_event("exception", timestamp);
        if let Some(c) = content_ref(decoded) {
            let class = str_field_or(c, "class", "Unknown Exception");
            let message = str_field(c, "message");
            let mut md = to_string("## ");
            push_str(&mut md, class.as_str());
            push_str(&mut md, "\n\n");
            if !message.as_str().is_empty() {
                push_str(&mut md, "**Error:** ");
                push_str(&mut md, message.as_str());
                push_str(&mut md, "\n\n");
            }
            push_stack_trace(&mut md, c);
            proof {
                assert(md@ =~= exception_body(*c));
            }
            entry.content = md;
            entry.content_type = to_string("markdown");
        }
        entry
    }
}

} // verus!
