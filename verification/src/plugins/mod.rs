//! Event processors that take the text of a payload, one per event type, and what they share:
//! the payload's `content` and the source section built from its `origin`.
pub mod application_log;
pub mod exception;
pub mod query;
pub mod table;

use vstd::prelude::*;

use crate::json::{compact, compact_text, get, get_str, get_u64, json_view, Json};
use crate::processors::str_field;
use crate::shared::EventEntry;
use crate::text::{chars_of, decimal, push_str, str_eq, string_of, to_string, u64_to_string};
use application_log::{app_log_plugin_entry, app_log_plugin_processable, ApplicationLogEvent};
use exception::{exception_plugin_entry, ExceptionEvent};
use query::{query_plugin_entry, query_plugin_processable, QueryEvent};
use table::{table_plugin_entry, TableEvent};

verus! {

/// The `content` of a decoded payload.
pub open spec fn content_of(decoded: Option<Json>) -> Option<Json> {
    match decoded {
        Some(v) => get(v, "content"@),
        None => None,
    }
}

/// A reference's value, for contracts over optional references.
pub open spec fn deref_opt(o: Option<&Json>) -> Option<Json> {
    match o {
        Some(v) => Some(*v),
        None => None,
    }
}

/// The `content` of a decoded payload.
pub fn content_ref(decoded: Option<&Json>) -> (r: Option<&Json>)
    ensures
        deref_opt(r) == content_of(deref_opt(decoded)),
{
    match decoded {
        Some(v) => v.get("content"),
        None => None,
    }
}

/// What follows the last `/` of a path (the whole path when it has none).
pub open spec fn last_segment(s: Seq<char>) -> Seq<char>
    decreases s.len(),
{
    if s.len() == 0 {
        s
    } else if s.last() == '/' {
        Seq::empty()
    } else {
        last_segment(s.drop_last()).push(s.last())
    }
}

/// The file name of a path: what follows its last `/`.
pub fn file_name_of(path: &str) -> (r: String)
    ensures
        r@ == last_segment(path@),
{
    let v = chars_of(path);
    let mut start: usize = 0;
    let mut i: usize = 0;
    while i < v.len()
        invariant
            v@ == path@,
            start <= i <= v.len(),
            last_segment(v@.take(i as int)) == v@.subrange(start as int, i as int),
        decreases v.len() - i,
    {
        proof {
            assert(v@.take(i + 1).drop_last() =~= v@.take(i as int));
            assert(v@.take(i + 1).last() == v@[i as int]);
        }
        if v[i] == '/' {
            start = i + 1;
            proof {
                assert(v@.subrange(start as int, i + 1) =~= Seq::<char>::empty());
            }
        } else {
            proof {
                assert(v@.subrange(start as int, i + 1) =~= v@.subrange(start as int, i as int).push(
                    v@[i as int],
                ));
            }
        }
        i += 1;
    }
    proof {
        assert(v@.take(v.len() as int) =~= v@);
    }
    string_of(&v, start, v.len())
}

/// The lines that describe where an event comes from: file (by name, then in full), line
/// and host, each when known.
pub open spec fn origin_lines(origin: Json) -> Seq<char> {
    origin_file_lines(origin) + origin_number_line(origin) + origin_host_line(origin)
}

/// The file lines of an origin: the file by name, then in full.
pub open spec fn origin_file_lines(origin: Json) -> Seq<char> {
    match get_str(origin, "file"@) {
        Some(f) => "- **File:** "@ + last_segment(f) + "\n"@ + "  <small>"@ + f + "</small>\n"@,
        None => Seq::empty(),
    }
}

/// The line number line of an origin.
pub open spec fn origin_number_line(origin: Json) -> Seq<char> {
    match get_u64(origin, "line_number"@) {
        Some(n) => "- **Line:** "@ + decimal(n as nat) + "\n"@,
        None => Seq::empty(),
    }
}

/// The host line of an origin.
pub open spec fn origin_host_line(origin: Json) -> Seq<char> {
    match get_str(origin, "hostname"@) {
        Some(h) => "- **Host:** "@ + h + "\n"@,
        None => Seq::empty(),
    }
}

fn push_origin_file(md: &mut String, origin: &Json)
    ensures
        final(md)@ == old(md)@ + origin_file_lines(*origin),
{
    let ghost start = md@;
    if let Some(f) = origin.get("file") {
        if let Some(file) = f.as_str() {
            let name = file_name_of(file);
            push_str(md, "- **File:** ");
            push_str(md, name.as_str());
            push_str(md, "\n");
            push_str(md, "  <small>");
            push_str(md, file);
            push_str(md, "</small>\n");
        }
    }
    proof {
        assert(md@ =~= start + origin_file_lines(*origin));
    }
}

fn push_origin_number(md: &mut String, origin: &Json)
    ensures
        final(md)@ == old(md)@ + origin_number_line(*origin),
{
    let ghost start = md@;
    if let Some(l) = origin.get("line_number") {
        if let Some(n) = l.as_u64() {
            push_str(md, "- **Line:** ");
            let digits = u64_to_string(n);
            push_str(md, digits.as_str());
            push_str(md, "\n");
        }
    }
    proof {
        assert(md@ =~= start + origin_number_line(*origin));
    }
}

fn push_origin_host(md: &mut String, origin: &Json)
    ensures
        final(md)@ == old(md)@ + origin_host_line(*origin),
{
    let ghost start = md@;
    if let Some(h) = origin.get("hostname") {
        if let Some(host) = h.as_str() {
            push_str(md, "- **Host:** ");
            push_str(md, host);
            push_str(md, "\n");
        }
    }
    proof {
        assert(md@ =~= start + origin_host_line(*origin));
    }
}

/// Appends the origin lines.
pub fn push_origin_lines(md: &mut String, origin: &Json)
    ensures
        final(md)@ == old(md)@ + origin_lines(*origin),
{
    let ghost start = md@;
    push_origin_file(md, origin);
    push_origin_number(md, origin);
    push_origin_host(md, origin);
    proof {
        assert(md@ =~= start + origin_lines(*origin));
    }
}

/// The plugins a factory can hand an event to.
#[derive(Clone, Copy, PartialEq, Eq, Structural, Debug)]
pub enum PluginKind {
    Table,
    ApplicationLog,
    Query,
    Exception,
}

/// The plugin registered under an event type.
pub open spec fn registered_plugin(name: Seq<char>) -> Option<PluginKind> {
    if name == "table"@ {
        Some(PluginKind::Table)
    } else if name == "application_log"@ {
        Some(PluginKind::ApplicationLog)
    } else if name == "executed_query"@ {
        Some(PluginKind::Query)
    } else if name == "exception"@ {
        Some(PluginKind::Exception)
    } else {
        None
    }
}

/// Events that a plugin handles without panicking.
pub open spec fn plugin_accepts(kind: PluginKind, payload: Seq<char>, decoded: Option<Json>) -> bool {
    match kind {
        PluginKind::ApplicationLog => app_log_plugin_processable(payload, decoded),
        PluginKind::Query => query_plugin_processable(decoded),
        _ => true,
    }
}

/// The entry a plugin makes of an event.
pub open spec fn plugin_entry(
    kind: PluginKind,
    payload: Seq<char>,
    decoded: Option<Json>,
    timestamp: Seq<char>,
    e: EventEntry,
) -> bool {
    match kind {
        PluginKind::Table => table_plugin_entry(decoded, timestamp, e),
        PluginKind::ApplicationLog => app_log_plugin_entry(payload, decoded, timestamp, e),
        PluginKind::Query => query_plugin_entry(decoded, timestamp, e),
        PluginKind::Exception => exception_plugin_entry(decoded, timestamp, e),
    }
}

/// The type an event names (`type`), empty when it names none.
pub open spec fn named_type(event: Json) -> Seq<char> {
    match get_str(event, "type"@) {
        Some(t) => t,
        None => Seq::empty(),
    }
}

/// Events that a factory hands to a plugin without a panic.
pub open spec fn makeable(event: Json) -> bool {
    match registered_plugin(named_type(event)) {
        Some(k) => plugin_accepts(k, compact_text(json_view(event)), Some(event)),
        None => true,
    }
}

/// Hands events to the plugin registered for their type.
pub struct LocalEventFactory {
    processors: Vec<(String, PluginKind)>,
}

impl LocalEventFactory {
    /// Whether the registry holds exactly the plugins of `registered_plugin`.
    pub closed spec fn wf(&self) -> bool {
        &&& forall|i: int|
            0 <= i < self.processors@.len() ==> registered_plugin(#[trigger] self.processors@[i].0@)
                == Some(self.processors@[i].1)
        &&& forall|name: Seq<char>|
            registered_plugin(name) is Some ==> exists|i: int|
                0 <= i < self.processors@.len() && #[trigger] self.processors@[i].0@ == name
    }

    /// A factory with the table, application log, query and exception plugins.
    pub fn new() -> (f: LocalEventFactory)
        ensures
            f.wf(),
    {
        let mut processors: Vec<(String, PluginKind)> = Vec::new();
        processors.push((to_string("table"), PluginKind::Table));
        processors.push((to_string("application_log"), PluginKind::ApplicationLog));
        processors.push((to_string("executed_query"), PluginKind::Query));
        processors.push((to_string("exception"), PluginKind::Exception));
        let f = LocalEventFactory { processors };
        proof {
            reveal_strlit("table");
            reveal_strlit("application_log");
            reveal_strlit("executed_query");
            reveal_strlit("exception");
            assert(f.processors@[0].0@ == "table"@);
            assert(f.processors@[1].0@ == "application_log"@);
            assert(f.processors@[2].0@ == "executed_query"@);
            assert(f.processors@[3].0@ == "exception"@);
            assert forall|name: Seq<char>| registered_plugin(name) is Some implies exists|i: int|
                0 <= i < f.processors@.len() && #[trigger] f.processors@[i].0@ == name by {
                if name == "table"@ {
                    assert(f.processors@[0].0@ == name);
                } else if name == "application_log"@ {
                    assert(f.processors@[1].0@ == name);
                } else if name == "executed_query"@ {
                    assert(f.processors@[2].0@ == name);
                } else {
                    assert(f.processors@[3].0@ == name);
                }
            }
        }
        f
    }

    /// The plugin registered under `event_type`.
    pub fn plugin_for(&self, event_type: &str) -> (r: Option<PluginKind>)
        requires
            self.wf(),
        ensures
            r == registered_plugin(event_type@),
    {
        let mut i: usize = 0;
        while i < self.processors.len()
            invariant
                self.wf(),
                i <= self.processors@.len(),
                forall|j: int| 0 <= j < i ==> #[trigger] self.processors@[j].0@ != event_type@,
            decreases self.processors.len() - i,
        {
            if str_eq(self.processors[i].0.as_str(), event_type) {
                assert(registered_plugin(self.processors@[i as int].0@) == Some(
                    self.processors@[i as int].1,
                ));
                return Some(self.processors[i].1);
            }
            i += 1;
        }
        None
    }

    /// The entry that the plugin registered for the event's `type` makes of it (the plugin
    /// gets the event as compact JSON text, and its decoding); `None` when no plugin is
    /// registered for that type.
    pub fn make(&self, event: &Json, timestamp: String) -> (r: Option<EventEntry>)
        requires
            self.wf(),
            makeable(*event),
        ensures
            match registered_plugin(named_type(*event)) {
                None => r is None,
                Some(k) => r matches Some(e) && plugin_entry(
                    k,
                    compact_text(json_view(*event)),
                    Some(*event),
                    timestamp@,
                    e,
                ),
            },
    {
        let event_type = str_field(event, "type");
        let kind = match self.plugin_for(event_type.as_str()) {
            Some(k) => k,
            None => return None,
        };
        let text = compact(event);
        let decoded = Some(event);
        Some(
            match kind {
                PluginKind::Table => TableEvent.process(text.as_str(), decoded, timestamp),
                PluginKind::ApplicationLog => ApplicationLogEvent.process(
                    text.as_str(),
                    decoded,
                    timestamp,
                ),
                PluginKind::Query => QueryEvent.process(text.as_str(), decoded, timestamp),
                PluginKind::Exception => ExceptionEvent.process(text.as_str(), decoded, timestamp),
            },
        )
    }
}

} // verus!
