//! Markdown, list labels and summaries for structured event data.
use vstd::prelude::*;

use crate::event_data::{
    opt_text, ApplicationLogEvent, CacheEvent, ExceptionEvent, HttpEvent, HttpEventType, LogEvent,
    QueryEvent, StackFrame, TableEvent,
};
use crate::events::cache_description;
use crate::json::{
    array_of, bool_of, clone_items_from, compact, compact_text, items_view, json_view, pretty,
    pretty_text, str_of, u64_of, DoubleText, Json, JsonView,
};
use crate::processors::{
    can_clip, clip, clip_str, clip_trimmed, clip_trimmed_str, query_operation, query_summary,
    len_bytes,
};
use crate::text::{
    byte_len, byte_prefix, decimal, prefix_bytes, push_str, replace_all, replace_str, str_eq,
    to_string, trim, trim_str, u64_to_string, first_word_of, to_uppercase,
};

pub mod cache;
pub mod http;
pub mod table;

verus! {

/// `**Field:** value\n\n` lines and other optional paragraphs.
pub open spec fn only_if(cond: bool, text: Seq<char>) -> Seq<char> {
    if cond {
        text
    } else {
        Seq::empty()
    }
}

/// The paragraph for an optional text.
pub open spec fn opt_paragraph(o: Option<Seq<char>>, prefix: Seq<char>, suffix: Seq<char>) -> Seq<char> {
    match o {
        Some(t) => prefix + t + suffix,
        None => Seq::empty(),
    }
}

/// A fenced pretty-JSON context section.
pub open spec fn context_section(context: Option<Json>, heading: Seq<char>) -> Seq<char> {
    match context {
        Some(c) => heading + "```json\n"@ + pretty_text(json_view(c)) + "\n```\n"@,
        None => Seq::empty(),
    }
}

/// Appends the context section.
fn push_context(md: &mut String, context: &Option<Json>, heading: &str)
    ensures
        final(md)@ == old(md)@ + context_section(*context, heading@),
{
    if let Some(c) = context {
        push_str(md, heading);
        push_str(md, "```json\n");
        let p = pretty(c);
        push_str(md, p.as_str());
        push_str(md, "\n```\n");
    }
}

// ---------------------------------------------------------------- application logs

/// Markdown of an application log.
pub open spec fn application_log_markdown(ev: ApplicationLogEvent) -> Seq<char> {
    "## Application Log\n\n"@ + only_if(ev.level@ != "Info"@, "**Level:** "@ + ev.level@ + "\n\n"@)
        + opt_paragraph(opt_text(ev.channel), "**Channel:** "@, "\n\n"@)
        + "### Log Content\n\n```\n"@ + ev.message@ + "\n```\n"@ + context_section(
        ev.context,
        "\n### Context\n\n"@,
    )
}

pub fn render_application_log_markdown(app_log_event: &ApplicationLogEvent) -> (s: String)
    ensures
        s@ == application_log_markdown(*app_log_event),
{
    let mut md = to_string("## Application Log\n\n");
    if !str_eq(app_log_event.level.as_str(), "Info") {
        push_str(&mut md, "**Level:** ");
        push_str(&mut md, app_log_event.level.as_str());
        push_str(&mut md, "\n\n");
    }
    if let Some(channel) = &app_log_event.channel {
        push_str(&mut md, "**Channel:** ");
        push_str(&mut md, channel.as_str());
        push_str(&mut md, "\n\n");
    }
    push_str(&mut md, "### Log Content\n\n```\n");
    push_str(&mut md, app_log_event.message.as_str());
    push_str(&mut md, "\n```\n");
    push_context(&mut md, &app_log_event.context, "\n### Context\n\n");
    proof {
        assert(md@ =~= application_log_markdown(*app_log_event));
    }
    md
}

pub fn get_application_log_label(_app_log_event: &ApplicationLogEvent) -> (s: String)
    ensures
        s@ == "Application Log"@,
{
    to_string("Application Log")
}

/// Summary of an application log: its message clipped to 50 bytes, or `Empty log`.
pub open spec fn application_log_summary(ev: ApplicationLogEvent) -> Seq<char> {
    if ev.message@.len() > 0 {
        clip_trimmed(ev.message@, 50)
    } else {
        "Empty log"@
    }
}

pub fn get_application_log_description(app_log_event: &ApplicationLogEvent) -> (s: String)
    requires
        can_clip(app_log_event.message@, 50, 50),
    ensures
        s@ == application_log_summary(*app_log_event),
{
    if !app_log_event.message.as_str().is_empty() {
        clip_trimmed_str(app_log_event.message.as_str(), 50)
    } else {
        to_string("Empty log")
    }
}

// ---------------------------------------------------------------- logs

/// Markdown of a log line.
pub open spec fn log_markdown(ev: LogEvent) -> Seq<char> {
    "## Log Entry\n\n"@ + only_if(ev.level@ != "Info"@, "**Level:** "@ + ev.level@ + "\n\n"@)
        + "### Message\n\n```json\n"@ + ev.message@ + "\n```\n"@ + context_section(
        ev.context,
        "\n### Context\n\n"@,
    )
}

pub fn render_log_markdown(log_event: &LogEvent) -> (s: String)
    ensures
        s@ == log_markdown(*log_event),
{
    let mut md = to_string("## Log Entry\n\n");
    if !str_eq(log_event.level.as_str(), "Info") {
        push_str(&mut md, "**Level:** ");
        push_str(&mut md, log_event.level.as_str());
        push_str(&mut md, "\n\n");
    }
    push_str(&mut md, "### Message\n\n```json\n");
    push_str(&mut md, log_event.message.as_str());
    push_str(&mut md, "\n```\n");
    push_context(&mut md, &log_event.context, "\n### Context\n\n");
    proof {
        assert(md@ =~= log_markdown(*log_event));
    }
    md
}

pub fn get_log_label(_log_event: &LogEvent) -> (s: String)
    ensures
        s@ == "Log"@,
{
    to_string("Log")
}

/// A one-line rendering: line breaks become spaces, double spaces single ones, then trimmed.
pub open spec fn one_line(s: Seq<char>) -> Seq<char> {
    trim(replace_all(replace_all(s, "\n"@, " "@), "  "@, " "@))
}

/// Summary of a log line: the message clipped to 100 bytes, on one line.
pub open spec fn log_summary(ev: LogEvent) -> Seq<char> {
    one_line(clip(ev.message@, 100, 97))
}

/// `s` on one line.
pub fn one_line_str(s: &str) -> (r: String)
    ensures
        r@ == one_line(s@),
{
    proof {
        reveal_strlit("\n");
        reveal_strlit("  ");
    }
    let a = replace_str(s, "\n", " ");
    let b = replace_str(a.as_str(), "  ", " ");
    trim_str(b.as_str())
}

pub fn get_log_description(log_event: &LogEvent) -> (s: String)
    requires
        can_clip(log_event.message@, 100, 97),
    ensures
        s@ == log_summary(*log_event),
{
    let d = clip_str(log_event.message.as_str(), 100, 97);
    one_line_str(d.as_str())
}

// ---------------------------------------------------------------- exceptions

/// One frame line of an exception's stack trace.
pub open spec fn stack_frame_line(f: StackFrame, index: nat) -> Seq<char> {
    decimal(index) + ". "@ + opt_paragraph(opt_text(f.class), Seq::empty(), "::"@) + f.function@
        + "() "@ + "at "@ + f.file@ + ":"@ + decimal(f.line as nat) + "\n"@
}

/// The first `n` frame lines.
pub open spec fn stack_lines(frames: Seq<StackFrame>, n: nat) -> Seq<char>
    decreases n,
{
    if n == 0 || n > frames.len() {
        Seq::empty()
    } else {
        stack_lines(frames, (n - 1) as nat) + stack_frame_line(frames[n - 1], n)
    }
}

/// Markdown of an exception.
pub open spec fn exception_event_markdown(ev: ExceptionEvent) -> Seq<char> {
    "## "@ + ev.class@ + "\n\n"@ + only_if(ev.message@.len() > 0, "**Error:** "@ + ev.message@ + "\n\n"@)
        + only_if(
        ev.file@.len() > 0,
        "**Location:** "@ + ev.file@ + ":"@ + decimal(ev.line as nat) + "\n\n"@,
    ) + only_if(
        ev.stack_trace@.len() > 0,
        "### Stack Trace\n\n"@ + stack_lines(ev.stack_trace@, ev.stack_trace@.len()) + "\n"@,
    ) + context_section(ev.context, "### Context\n\n"@)
}

pub fn render_exception_markdown(exception_event: &ExceptionEvent) -> (s: String)
    ensures
        s@ == exception_event_markdown(*exception_event),
{
    let ev = exception_event;
    let mut md = to_string("## ");
    push_str(&mut md, ev.class.as_str());
    push_str(&mut md, "\n\n");
    if !ev.message.as_str().is_empty() {
        push_str(&mut md, "**Error:** ");
        push_str(&mut md, ev.message.as_str());
        push_str(&mut md, "\n\n");
    }
    if !ev.file.as_str().is_empty() {
        push_str(&mut md, "**Location:** ");
        push_str(&mut md, ev.file.as_str());
        push_str(&mut md, ":");
        let l = u64_to_string(ev.line);
        push_str(&mut md, l.as_str());
        push_str(&mut md, "\n\n");
    }
    let ghost before_stack = md@;
    if ev.stack_trace.len() > 0 {
        push_str(&mut md, "### Stack Trace\n\n");
        let mut i: usize = 0;
        while i < ev.stack_trace.len()
            invariant
                i <= ev.stack_trace.len(),
                md@ == before_stack + "### Stack Trace\n\n"@ + stack_lines(ev.stack_trace@, i as nat),
            decreases ev.stack_trace.len() - i,
        {
            let frame = &ev.stack_trace[i];
            let ghost mid = md@;
            let num = u64_to_string((i + 1) as u64);
            push_str(&mut md, num.as_str());
            push_str(&mut md, ". ");
            if let Some(class) = &frame.class {
                push_str(&mut md, class.as_str());
                push_str(&mut md, "::");
            }
            push_str(&mut md, frame.function.as_str());
            push_str(&mut md, "() ");
            push_str(&mut md, "at ");
            push_str(&mut md, frame.file.as_str());
            push_str(&mut md, ":");
            let l = u64_to_string(frame.line);
            push_str(&mut md, l.as_str());
            push_str(&mut md, "\n");
            proof {
                assert(md@ =~= mid + stack_frame_line(ev.stack_trace@[i as int], (i + 1) as nat));
            }
            i += 1;
        }
        push_str(&mut md, "\n");
    }
    push_context(&mut md, &ev.context, "### Context\n\n");
    proof {
        assert(md@ =~= exception_event_markdown(*ev));
    }
    md
}

pub fn get_exception_label(_exception_event: &ExceptionEvent) -> (s: String)
    ensures
        s@ == "Exception"@,
{
    to_string("Exception")
}

/// `class: message`, or the class alone.
pub open spec fn exception_event_headline(ev: ExceptionEvent) -> Seq<char> {
    if ev.message@.len() > 0 {
        ev.class@ + ": "@ + ev.message@
    } else {
        ev.class@
    }
}

pub fn get_exception_description(exception_event: &ExceptionEvent) -> (s: String)
    requires
        can_clip(exception_event_headline(*exception_event), 100, 97),
    ensures
        s@ == clip(exception_event_headline(*exception_event), 100, 97),
{
    let d = if !exception_event.message.as_str().is_empty() {
        let mut d = to_string(exception_event.class.as_str());
        push_str(&mut d, ": ");
        push_str(&mut d, exception_event.message.as_str());
        d
    } else {
        to_string(exception_event.class.as_str())
    };
    clip_str(d.as_str(), 100, 97)
}

// ---------------------------------------------------------------- queries

/// A query time with its unit.
pub open spec fn duration_display(d: DoubleText) -> Seq<char> {
    if d.below_one {
        d.fixed3@ + " ms"@
    } else if d.below_thousand {
        d.fixed2@ + " ms"@
    } else {
        d.thousandths_fixed2@ + " s"@
    }
}

/// The connection paragraph of a query's markdown.
pub open spec fn query_connection_part(ev: QueryEvent) -> Seq<char> {
    match ev.connection_name {
        Some(c) => only_if(c@.len() > 0, "**Connection:** "@ + c@ + "\n\n"@),
        None => Seq::empty(),
    }
}

/// The execution time paragraph of a query's markdown.
pub open spec fn query_time_part(ev: QueryEvent) -> Seq<char> {
    match ev.duration_ms {
        Some(d) => "**Execution Time:** "@ + duration_display(d) + "\n\n"@,
        None => Seq::empty(),
    }
}

/// The affected rows paragraph of a query's markdown.
pub open spec fn query_rows_part(ev: QueryEvent) -> Seq<char> {
    match ev.affected_rows {
        Some(n) => "**Affected Rows:** "@ + decimal(n as nat) + "\n\n"@,
        None => Seq::empty(),
    }
}

/// The bindings section of a query's markdown.
pub open spec fn query_bindings_part(ev: QueryEvent) -> Seq<char> {
    only_if(
        ev.bindings@.len() > 0,
        "\n### Bindings\n\n```json\n"@ + pretty_text(JsonView::Array(items_view(ev.bindings@)))
            + "\n```\n"@,
    )
}

/// Markdown of a query.
pub open spec fn query_event_markdown(ev: QueryEvent) -> Seq<char> {
    "## SQL Query\n\n"@ + "**Operation:** "@ + query_operation(ev.sql@) + "\n\n"@
        + query_connection_part(ev) + query_time_part(ev) + query_rows_part(ev)
        + "### Query\n\n```sql\n"@ + ev.sql@ + "\n```\n"@ + query_bindings_part(ev)
}

/// The operation of a query.
fn query_op(sql: &str) -> (s: String)
    ensures
        s@ == query_operation(sql@),
{
    let t = trim_str(sql);
    match first_word_of(t.as_str()) {
        Some(w) => to_uppercase(w.as_str()),
        None => to_string("SQL"),
    }
}

fn push_query_connection(md: &mut String, ev: &QueryEvent)
    ensures
        final(md)@ == old(md)@ + query_connection_part(*ev),
{
    if let Some(c) = &ev.connection_name {
        if !c.as_str().is_empty() {
            push_str(md, "**Connection:** ");
            push_str(md, c.as_str());
            push_str(md, "\n\n");
        }
    }
}

fn push_query_time(md: &mut String, ev: &QueryEvent)
    ensures
        final(md)@ == old(md)@ + query_time_part(*ev),
{
    if let Some(d) = &ev.duration_ms {
        let ghost start = md@;
        push_str(md, "**Execution Time:** ");
        if d.below_one {
            push_str(md, d.fixed3.as_str());
            push_str(md, " ms");
        } else if d.below_thousand {
            push_str(md, d.fixed2.as_str());
            push_str(md, " ms");
        } else {
            push_str(md, d.thousandths_fixed2.as_str());
            push_str(md, " s");
        }
        push_str(md, "\n\n");
        proof {
            assert(md@ =~= start + query_time_part(*ev));
        }
    }
}

fn push_query_rows(md: &mut String, ev: &QueryEvent)
    ensures
        final(md)@ == old(md)@ + query_rows_part(*ev),
{
    if let Some(n) = ev.affected_rows {
        push_str(md, "**Affected Rows:** ");
        let digits = u64_to_string(n);
        push_str(md, digits.as_str());
        push_str(md, "\n\n");
    }
}

fn push_query_bindings(md: &mut String, ev: &QueryEvent)
    ensures
        final(md)@ == old(md)@ + query_bindings_part(*ev),
{
    if ev.bindings.len() > 0 {
        let copy = clone_items_from(&ev.bindings, 0);
        let arr = Json::Array(copy);
        let p = pretty(&arr);
        proof {
            assert(ev.bindings@.skip(0) =~= ev.bindings@);
        }
        push_str(md, "\n### Bindings\n\n```json\n");
        push_str(md, p.as_str());
        push_str(md, "\n```\n");
    }
}

pub fn render_query_markdown(query_event: &QueryEvent) -> (s: String)
    ensures
        s@ == query_event_markdown(*query_event),
{
    let ev = query_event;
    let mut md = to_string("## SQL Query\n\n");
    let op = query_op(ev.sql.as_str());
    push_str(&mut md, "**Operation:** ");
    push_str(&mut md, op.as_str());
    push_str(&mut md, "\n\n");
    push_query_connection(&mut md, ev);
    push_query_time(&mut md, ev);
    push_query_rows(&mut md, ev);
    push_str(&mut md, "### Query\n\n```sql\n");
    push_str(&mut md, ev.sql.as_str());
    push_str(&mut md, "\n```\n");
    push_query_bindings(&mut md, ev);
    proof {
        assert(md@ =~= query_event_markdown(*ev));
    }
    md
}

pub fn get_query_label(query_event: &QueryEvent) -> (s: String)
    ensures
        s@ == "Query: "@ + query_operation(query_event.sql@),
{
    let op = query_op(query_event.sql.as_str());
    let mut l = to_string("Query: ");
    push_str(&mut l, op.as_str());
    l
}

/// Summary of a query: the clipped query, with its time when known.
pub open spec fn query_event_summary(ev: QueryEvent) -> Seq<char> {
    query_summary(ev.sql@) + (match ev.duration_ms {
        Some(d) => " ("@ + d.shortest@ + "ms)"@,
        None => Seq::empty(),
    })
}

pub fn get_query_description(query_event: &QueryEvent) -> (s: String)
    requires
        can_clip(query_event.sql@, 50, 50),
    ensures
        s@ == query_event_summary(*query_event),
{
    let sql = query_event.sql.as_str();
    let mut d = if byte_len(sql) > 50 {
        let p = prefix_bytes(sql, 50);
        let mut t = trim_str(p.as_str());
        push_str(&mut t, "...");
        t
    } else {
        trim_str(sql)
    };
    if let Some(t) = &query_event.duration_ms {
        push_str(&mut d, " (");
        push_str(&mut d, t.shortest.as_str());
        push_str(&mut d, "ms)");
    }
    d
}

} // verus!
