//! Processors that turn a payload into an entry with a markdown body.
use vstd::prelude::*;

use crate::entry::{extract_origin_info, extract_timestamp, origin_of, timestamp_of, EventEntry, EventError};
use crate::json::{
    array_of, compact, compact_text, double_of, get, get_str, get_u64, json_view, pretty,
    pretty_text, str_of, DoubleText, Json,
};
use crate::text::{
    lemma_ascii_len, lemma_byte_prefix_len, lemma_utf8_len_concat,
    byte_len, byte_prefix, cuts_at, decimal, ends_with, first_word, first_word_of, prefix_bytes, push_str,
    to_string, to_uppercase, trim, trim_str, u64_to_string, uppercase_of, utf8_len,
};

verus! {

/// The byte length of `v`, as `str::len` reports it.
pub open spec fn len_bytes(v: Seq<char>) -> usize {
    utf8_len(v) as usize
}

/// `v` when at most `limit` bytes long; otherwise its first `limit` bytes, trimmed, and `...`.
pub open spec fn clip_trimmed(v: Seq<char>, limit: usize) -> Seq<char> {
    if len_bytes(v) > limit {
        trim(byte_prefix(v, limit as int)) + "..."@
    } else {
        v
    }
}

/// `v` when at most `limit` bytes long; otherwise its first `keep` bytes and `...`.
pub open spec fn clip(v: Seq<char>, limit: usize, keep: usize) -> Seq<char> {
    if len_bytes(v) > limit {
        byte_prefix(v, keep as int) + "..."@
    } else {
        v
    }
}

/// Whether cutting `v` as `clip_trimmed`/`clip` do is possible: the cut falls on a character
/// boundary (slicing a string elsewhere panics).
pub open spec fn can_clip(v: Seq<char>, limit: usize, keep: usize) -> bool {
    len_bytes(v) > limit ==> cuts_at(v, keep as int)
}

/// Clipping keeps a text within its limit: whatever `clip` gives is at most `limit` bytes
/// long when the kept part and the `...` fit in it (as for list labels, 47 of 50 bytes,
/// and descriptions, 77 of 80 or 97 of 100).
pub proof fn law_clip_fits(v: Seq<char>, limit: usize, keep: usize)
    requires
        utf8_len(v) <= usize::MAX,
        can_clip(v, limit, keep),
        keep + 3 <= limit,
    ensures
        utf8_len(clip(v, limit, keep)) <= limit,
{
    if len_bytes(v) > limit {
        lemma_byte_prefix_len(v, keep as int);
        lemma_utf8_len_concat(byte_prefix(v, keep as int), "..."@);
        reveal_strlit("...");
        lemma_ascii_len("..."@);
    }
}

/// Whether `s` can be cut at byte `n`.
pub fn cuts_at_byte(s: &str, n: usize) -> (r: bool)
    ensures
        r == cuts_at(s@, n as int),
{
    s.is_char_boundary(n)
}

/// `s` clipped to `limit` bytes and trimmed.
pub fn clip_trimmed_str(s: &str, limit: usize) -> (r: String)
    requires
        can_clip(s@, limit, limit),
    ensures
        r@ == clip_trimmed(s@, limit),
{
    if byte_len(s) > limit {
        let p = prefix_bytes(s, limit);
        let mut t = trim_str(p.as_str());
        push_str(&mut t, "...");
        t
    } else {
        to_string(s)
    }
}

/// `s` clipped to `limit` bytes, keeping `keep`.
pub fn clip_str(s: &str, limit: usize, keep: usize) -> (r: String)
    requires
        can_clip(s@, limit, keep),
    ensures
        r@ == clip(s@, limit, keep),
{
    if byte_len(s) > limit {
        let mut p = prefix_bytes(s, keep);
        push_str(&mut p, "...");
        p
    } else {
        to_string(s)
    }
}

/// Text of `j[key]`, or empty text.
pub open spec fn str_or_empty(j: Json, key: Seq<char>) -> Seq<char> {
    match get_str(j, key) {
        Some(s) => s,
        None => Seq::empty(),
    }
}

/// Text of `j[key]`, or `default`.
pub open spec fn str_or(j: Json, key: Seq<char>, default: Seq<char>) -> Seq<char> {
    match get_str(j, key) {
        Some(s) => s,
        None => default,
    }
}

/// `j[key]` as a non-negative integer, or 0.
pub open spec fn u64_or_zero(j: Json, key: Seq<char>) -> u64 {
    match get_u64(j, key) {
        Some(n) => n,
        None => 0,
    }
}

/// Text of `j[key]`, or `default`.
pub fn str_field_or(j: &Json, key: &str, default: &str) -> (s: String)
    ensures
        s@ == str_or(*j, key@, default@),
{
    match j.get(key) {
        Some(v) => match v.as_str() {
            Some(t) => to_string(t),
            None => to_string(default),
        },
        None => to_string(default),
    }
}

/// Text of `j[key]`, or empty text.
pub fn str_field(j: &Json, key: &str) -> (s: String)
    ensures
        s@ == str_or_empty(*j, key@),
{
    match j.get(key) {
        Some(v) => match v.as_str() {
            Some(t) => to_string(t),
            None => String::new(),
        },
        None => String::new(),
    }
}

/// `j[key]` as a non-negative integer, or 0.
pub fn u64_field_or_zero(j: &Json, key: &str) -> (n: u64)
    ensures
        n == u64_or_zero(*j, key@),
{
    match j.get(key) {
        Some(v) => match v.as_u64() {
            Some(n) => n,
            None => 0,
        },
        None => 0,
    }
}

/// The `**Source:** ...` paragraph of a markdown body, when the payload has an origin.
pub open spec fn source_paragraph(origin: Option<Seq<char>>) -> Seq<char> {
    match origin {
        Some(o) => "**Source:** "@ + o + "\n\n"@,
        None => Seq::empty(),
    }
}

// ---------------------------------------------------------------- application logs

/// The logged text of an application log, when the payload has `content`.
pub open spec fn app_log_value(payload: Json) -> Option<Seq<char>> {
    match get(payload, "content"@) {
        Some(c) => Some(str_or_empty(c, "value"@)),
        None => None,
    }
}

/// Summary of an application log: the text, clipped to 50 bytes; empty text stays empty.
pub open spec fn app_log_description(value: Seq<char>) -> Seq<char> {
    if value.len() == 0 {
        Seq::empty()
    } else {
        clip_trimmed(value, 50)
    }
}

/// Markdown body of an application log.
pub open spec fn app_log_markdown(value: Seq<char>, origin: Option<Seq<char>>) -> Seq<char> {
    "## Application Log\n\n"@ + source_paragraph(origin) + "### Log Content\n\n```\n"@ + value
        + "\n```\n"@
}

/// Payloads that the application log processor handles without panicking.
pub open spec fn app_log_processable(payload: Json) -> bool {
    match app_log_value(payload) {
        Some(v) => can_clip(v, 50, 50),
        None => true,
    }
}

/// The entry the application log processor makes of `payload`.
pub open spec fn app_log_entry(payload: Json, e: EventEntry) -> bool {
    &&& e.timestamp@ == timestamp_of(payload)
    &&& e.label@ == "Application Log"@
    &&& e.content_type@ == "markdown"@
    &&& e.event_type@ == "application_log"@
    &&& json_view(e.raw_payload) == json_view(payload)
    &&& match app_log_value(payload) {
        Some(v) => {
            &&& e.description@ == app_log_description(v)
            &&& e.content@ == app_log_markdown(v, origin_of(payload))
        },
        None => e.description@ == Seq::<char>::empty() && e.content@ == Seq::<char>::empty(),
    }
}

/// Processes application log events (`type: application_log`).
pub struct ApplicationLogProcessor;

impl ApplicationLogProcessor {
    /// Whether `process` can handle `payload`.
    pub fn can_process(&self, payload: &Json) -> (r: bool)
        ensures
            r == app_log_processable(*payload),
    {
        match payload.get("content") {
            Some(c) => {
                let v = str_field(c, "value");
                byte_len(v.as_str()) <= 50 || cuts_at_byte(v.as_str(), 50)
            },
            None => true,
        }
    }

    /// The entry for an application log payload: label `Application Log`, the logged text
    /// (clipped) as description, and a markdown body with source and text.
    pub fn process(&self, payload: &Json) -> (r: Result<EventEntry, EventError>)
        requires
            app_log_processable(*payload),
        ensures
            r matches Ok(e) && app_log_entry(*payload, e),
    {
        let mut entry = EventEntry {
            timestamp: extract_timestamp(payload),
            label: to_string("Application Log"),
            description: String::new(),
            content: String::new(),
            content_type: to_string("markdown"),
            event_type: to_string("application_log"),
            raw_payload: payload.deep_clone(),
        };
        if let Some(content) = payload.get("content") {
            let value = str_field(content, "value");
            if !value.as_str().is_empty() {
                entry.description = clip_trimmed_str(value.as_str(), 50);
            }
            let mut markdown = to_string("## Application Log\n\n");
            if let Some(origin) = extract_origin_info(payload) {
                push_str(&mut markdown, "**Source:** ");
                push_str(&mut markdown, origin.as_str());
                push_str(&mut markdown, "\n\n");
            }
            push_str(&mut markdown, "### Log Content\n\n```\n");
            push_str(&mut markdown, value.as_str());
            push_str(&mut markdown, "\n```\n");
            entry.content = markdown;
            proof {
                let o = origin_of(*payload);
                assert(entry.content@ =~= app_log_markdown(value@, o));
            }
        }
        Ok(entry)
    }

    pub fn display_name(&self) -> (s: &'static str)
        ensures
            s@ == "Application Log"@,
    {
        "Application Log"
    }
}

// ---------------------------------------------------------------- logs

/// The `values` of a log payload.
pub open spec fn log_values(payload: Json) -> Option<Json> {
    match get(payload, "content"@) {
        Some(c) => get(c, "values"@),
        None => None,
    }
}

/// The first of the logged values, when `values` is a non-empty array.
pub open spec fn log_first(payload: Json) -> Option<Json> {
    match log_values(payload) {
        Some(v) => match array_of(v) {
            Some(items) => if items.len() > 0 {
                Some(items[0])
            } else {
                None
            },
            None => None,
        },
        None => None,
    }
}

/// A logged value as text: a string as itself, anything else as compact JSON.
pub open spec fn value_text(v: Json) -> Seq<char> {
    match str_of(v) {
        Some(s) => s,
        None => compact_text(json_view(v)),
    }
}

/// Summary of a log: the first value, clipped to 100 bytes.
pub open spec fn log_description(payload: Json) -> Seq<char> {
    match log_first(payload) {
        Some(f) => clip(value_text(f), 100, 97),
        None => Seq::empty(),
    }
}

/// Markdown body of a log: the values as pretty JSON, then the source.
pub open spec fn log_markdown(payload: Json) -> Seq<char> {
    (match log_values(payload) {
        Some(v) => "```json\n"@ + pretty_text(json_view(v)) + "\n```"@,
        None => Seq::empty(),
    }) + (match origin_of(payload) {
        Some(o) => "\n\n**Source:** "@ + o,
        None => Seq::empty(),
    })
}

/// Payloads that the log processor handles without panicking.
pub open spec fn log_processable(payload: Json) -> bool {
    match log_first(payload) {
        Some(f) => can_clip(value_text(f), 100, 97),
        None => true,
    }
}

/// The entry the log processor makes of `payload`.
pub open spec fn log_entry(payload: Json, e: EventEntry) -> bool {
    &&& e.timestamp@ == timestamp_of(payload)
    &&& e.label@ == "log"@
    &&& e.content_type@ == "markdown"@
    &&& e.event_type@ == "log"@
    &&& json_view(e.raw_payload) == json_view(payload)
    &&& e.description@ == log_description(payload)
    &&& e.content@ == log_markdown(payload)
}

/// A logged value as text.
fn first_value_text(v: &Json) -> (s: String)
    ensures
        s@ == value_text(*v),
{
    match v.as_str() {
        Some(t) => to_string(t),
        None => compact(v),
    }
}

/// Processes log events (`type: log`).
pub struct LogProcessor;

impl LogProcessor {
    /// Whether `process` can handle `payload`.
    pub fn can_process(&self, payload: &Json) -> (r: bool)
        ensures
            r == log_processable(*payload),
    {
        if let Some(content) = payload.get("content") {
            if let Some(values) = content.get("values") {
                if let Some(items) = values.as_array() {
                    if items.len() > 0 {
                        let d = first_value_text(&items[0]);
                        return byte_len(d.as_str()) <= 100 || cuts_at_byte(d.as_str(), 97);
                    }
                }
            }
        }
        true
    }

    /// The entry for a log payload: label `log`, the first value (clipped) as description,
    /// and the values as pretty JSON in the body.
    pub fn process(&self, payload: &Json) -> (r: Result<EventEntry, EventError>)
        requires
            log_processable(*payload),
        ensures
            r matches Ok(e) && log_entry(*payload, e),
    {
        let mut entry = EventEntry {
            timestamp: extract_timestamp(payload),
            label: to_string("log"),
            description: String::new(),
            content: String::new(),
            content_type: to_string("markdown"),
            event_type: to_string("log"),
            raw_payload: payload.deep_clone(),
        };
        if let Some(content) = payload.get("content") {
            if let Some(values) = content.get("values") {
                let pretty_json = pretty(values);
                let mut body = to_string("```json\n");
                push_str(&mut body, pretty_json.as_str());
                push_str(&mut body, "\n```");
                entry.content = body;
                if let Some(items) = values.as_array() {
                    if items.len() > 0 {
                        let d = first_value_text(&items[0]);
                        entry.description = clip_str(d.as_str(), 100, 97);
                    }
                }
            }
        }
        let ghost before = entry.content@;
        if let Some(origin) = extract_origin_info(payload) {
            push_str(&mut entry.content, "\n\n**Source:** ");
            push_str(&mut entry.content, origin.as_str());
        }
        proof {
            assert(entry.content@ =~= log_markdown(*payload));
        }
        Ok(entry)
    }

    pub fn display_name(&self) -> (s: &'static str)
        ensures
            s@ == "Log"@,
    {
        "Log"
    }
}

// ---------------------------------------------------------------- exceptions

/// The exception class named by `content`, `Unknown Exception` when absent.
pub open spec fn exception_class(c: Json) -> Seq<char> {
    str_or(c, "class"@, "Unknown Exception"@)
}

/// `class: message`, or the class alone when there is no message.
pub open spec fn exception_headline(c: Json) -> Seq<char> {
    let message = str_or_empty(c, "message"@);
    if message.len() > 0 {
        exception_class(c) + ": "@ + message
    } else {
        exception_class(c)
    }
}

/// One line of a code snippet; the line where the frame stopped is marked with an arrow.
pub open spec fn snippet_line(line_info: Json, frame_line: u64) -> Seq<char> {
    let n = u64_or_zero(line_info, "line_number"@);
    (if n == frame_line {
        "→ "@
    } else {
        "  "@
    }) + decimal(n as nat) + ": "@ + str_or_empty(line_info, "text"@) + "\n"@
}

/// The first `n` lines of a snippet.
pub open spec fn snippet_lines(lines: Seq<Json>, n: nat, frame_line: u64) -> Seq<char>
    decreases n,
{
    if n == 0 || n > lines.len() {
        Seq::empty()
    } else {
        snippet_lines(lines, (n - 1) as nat, frame_line) + snippet_line(lines[n - 1], frame_line)
    }
}

/// The code snippet of a frame, when it has one.
pub open spec fn frame_snippet(frame: Json) -> Seq<char> {
    match get(frame, "snippet"@) {
        Some(sn) => match array_of(sn) {
            Some(lines) => "```php\n"@ + snippet_lines(
                lines,
                lines.len(),
                u64_or_zero(frame, "line_number"@),
            ) + "```\n\n"@,
            None => Seq::empty(),
        },
        None => Seq::empty(),
    }
}

/// Frame number `index` (counted from 1) of a stack trace.
pub open spec fn frame_markdown(frame: Json, index: nat) -> Seq<char> {
    decimal(index) + ". **"@ + str_or_empty(frame, "class"@) + "**::**"@ + str_or_empty(
        frame,
        "method"@,
    ) + "**() at "@ + str_or_empty(frame, "file_name"@) + ":"@ + decimal(
        u64_or_zero(frame, "line_number"@) as nat,
    ) + "\n\n"@ + frame_snippet(frame)
}

/// The first `n` frames of a stack trace.
pub open spec fn frames_markdown(frames: Seq<Json>, n: nat) -> Seq<char>
    decreases n,
{
    if n == 0 || n > frames.len() {
        Seq::empty()
    } else {
        frames_markdown(frames, (n - 1) as nat) + frame_markdown(frames[n - 1], n)
    }
}

/// The stack trace section, when `content.frames` is an array.
pub open spec fn stack_trace_markdown(c: Json) -> Seq<char> {
    match get(c, "frames"@) {
        Some(f) => match array_of(f) {
            Some(frames) => "### Stack Trace\n\n"@ + frames_markdown(frames, frames.len()),
            None => Seq::empty(),
        },
        None => Seq::empty(),
    }
}

/// Markdown body of an exception.
pub open spec fn exception_markdown(c: Json, origin: Option<Seq<char>>) -> Seq<char> {
    let message = str_or_empty(c, "message"@);
    "## "@ + exception_class(c) + "\n\n"@ + (if message.len() > 0 {
        "**Error:** "@ + message + "\n\n"@
    } else {
        Seq::empty()
    }) + stack_trace_markdown(c) + source_paragraph(origin)
}

/// Payloads that the exception processor handles without panicking.
pub open spec fn exception_processable(payload: Json) -> bool {
    match get(payload, "content"@) {
        Some(c) => can_clip(exception_headline(c), 100, 97),
        None => true,
    }
}

/// The entry the exception processor makes of `payload`.
pub open spec fn exception_entry(payload: Json, e: EventEntry) -> bool {
    &&& e.timestamp@ == timestamp_of(payload)
    &&& e.label@ == "Exception"@
    &&& e.content_type@ == "markdown"@
    &&& e.event_type@ == "exception"@
    &&& json_view(e.raw_payload) == json_view(payload)
    &&& match get(payload, "content"@) {
        Some(c) => {
            &&& e.description@ == clip(exception_headline(c), 100, 97)
            &&& e.content@ == exception_markdown(c, origin_of(payload))
        },
        None => e.description@ == Seq::<char>::empty() && e.content@ == Seq::<char>::empty(),
    }
}

/// `class: message` of an exception.
fn headline(c: &Json) -> (s: String)
    ensures
        s@ == exception_headline(*c),
{
    let class = str_field_or(c, "class", "Unknown Exception");
    let message = str_field(c, "message");
    if !message.as_str().is_empty() {
        let mut d = class;
        push_str(&mut d, ": ");
        push_str(&mut d, message.as_str());
        d
    } else {
        class
    }
}

/// Appends the code snippet of a frame.
fn push_snippet(md: &mut String, frame: &Json)
    ensures
        final(md)@ == old(md)@ + frame_snippet(*frame),
{
    let frame_line = u64_field_or_zero(frame, "line_number");
    if let Some(sn) = frame.get("snippet") {
        if let Some(lines) = sn.as_array() {
            let ghost start = md@;
            push_str(md, "```php\n");
            let mut k: usize = 0;
            while k < lines.len()
                invariant
                    k <= lines.len(),
                    md@ == start + "```php\n"@ + snippet_lines(lines@, k as nat, frame_line),
                decreases lines.len() - k,
            {
                let li = &lines[k];
                let n = u64_field_or_zero(li, "line_number");
                let ghost mid = md@;
                if n == frame_line {
                    push_str(md, "→ ");
                } else {
                    push_str(md, "  ");
                }
                let digits = u64_to_string(n);
                push_str(md, digits.as_str());
                push_str(md, ": ");
                let text = str_field(li, "text");
                push_str(md, text.as_str());
                push_str(md, "\n");
                proof {
                    assert(md@ =~= mid + snippet_line(lines@[k as int], frame_line));
                }
                k += 1;
            }
            push_str(md, "```\n\n");
            proof {
                assert(md@ =~= start + frame_snippet(*frame));
            }
        }
    }
}

/// Appends frame number `index` of a stack trace.
fn push_frame(md: &mut String, frame: &Json, index: u64)
    ensures
        final(md)@ == old(md)@ + frame_markdown(*frame, index as nat),
{
    let ghost start = md@;
    let num = u64_to_string(index);
    push_str(md, num.as_str());
    push_str(md, ". **");
    let class = str_field(frame, "class");
    push_str(md, class.as_str());
    push_str(md, "**::**");
    let method = str_field(frame, "method");
    push_str(md, method.as_str());
    push_str(md, "**() at ");
    let file = str_field(frame, "file_name");
    push_str(md, file.as_str());
    push_str(md, ":");
    let line = u64_to_string(u64_field_or_zero(frame, "line_number"));
    push_str(md, line.as_str());
    push_str(md, "\n\n");
    push_snippet(md, frame);
    proof {
        assert(md@ =~= start + frame_markdown(*frame, index as nat));
    }
}

/// Appends a stack trace section.
pub(crate) fn push_stack_trace(md: &mut String, c: &Json)
    ensures
        final(md)@ == old(md)@ + stack_trace_markdown(*c),
{
    if let Some(f) = c.get("frames") {
        if let Some(frames) = f.as_array() {
            let ghost start = md@;
            push_str(md, "### Stack Trace\n\n");
            let mut i: usize = 0;
            while i < frames.len()
                invariant
                    i <= frames.len(),
                    md@ == start + "### Stack Trace\n\n"@ + frames_markdown(frames@, i as nat),
                decreases frames.len() - i,
            {
                let frame = &frames[i];
                let ghost mid = md@;
                push_frame(md, frame, (i + 1) as u64);
                proof {
                    assert(md@ =~= mid + frame_markdown(frames@[i as int], (i + 1) as nat));
                }
                i += 1;
            }
            proof {
                assert(md@ =~= start + stack_trace_markdown(*c));
            }
        }
    }
}

/// Processes exception events (`type: exception`).
pub struct ExceptionProcessor;

impl ExceptionProcessor {
    /// Whether `process` can handle `payload`.
    pub fn can_process(&self, payload: &Json) -> (r: bool)
        ensures
            r == exception_processable(*payload),
    {
        match payload.get("content") {
            Some(c) => {
                let d = headline(c);
                byte_len(d.as_str()) <= 100 || cuts_at_byte(d.as_str(), 97)
            },
            None => true,
        }
    }

    /// The entry for an exception payload: label `Exception`, `class: message` (clipped) as
    /// description, and a markdown body with the error, the stack trace and the source.
    pub fn process(&self, payload: &Json) -> (r: Result<EventEntry, EventError>)
        requires
            exception_processable(*payload),
        ensures
            r matches Ok(e) && exception_entry(*payload, e),
    {
        let mut entry = EventEntry {
            timestamp: extract_timestamp(payload),
            label: to_string("Exception"),
            description: String::new(),
            content: String::new(),
            content_type: to_string("markdown"),
            event_type: to_string("exception"),
            raw_payload: payload.deep_clone(),
        };
        if let Some(c) = payload.get("content") {
            let d = headline(c);
            entry.description = clip_str(d.as_str(), 100, 97);
            let class = str_field_or(c, "class", "Unknown Exception");
            let message = str_field(c, "message");
            let mut md = to_string("## ");
            push_str(&mut md, class.as_str());
            push_str(&mut md, "\n\n");
            if !message.as_str().is_empty() {
                push_str(&mut md, "**Error:** ");
                push_str(&mut md, message.as_str());
                push_str(&mut md, "\n\n");
            }
            push_stack_trace(&mut md, c);
            if let Some(origin) = extract_origin_info(payload) {
                push_str(&mut md, "**Source:** ");
                push_str(&mut md, origin.as_str());
                push_str(&mut md, "\n\n");
            }
            proof {
                assert(md@ =~= exception_markdown(*c, origin_of(*payload)));
            }
            entry.content = md;
        }
        Ok(entry)
    }

    pub fn display_name(&self) -> (s: &'static str)
        ensures
            s@ == "Exception"@,
    {
        "Exception"
    }
}

// ---------------------------------------------------------------- SQL queries

/// The operation of a query: its first word in upper case, `SQL` when there is none.
pub open spec fn query_operation(sql: Seq<char>) -> Seq<char> {
    match first_word(trim(sql)) {
        Some(w) => uppercase_of(w),
        None => "SQL"@,
    }
}

/// The query text for the event list: trimmed, and clipped to 50 bytes.
pub open spec fn query_summary(sql: Seq<char>) -> Seq<char> {
    if len_bytes(sql) > 50 {
        trim(byte_prefix(sql, 50)) + "..."@
    } else {
        trim(sql)
    }
}

/// The execution time of a query in milliseconds (`content.time`), 0 when absent.
pub open spec fn query_time(c: Json) -> Option<DoubleText> {
    match get(c, "time"@) {
        Some(t) => double_of(t),
        None => None,
    }
}

/// The shortest rendering of a query time (`0` when absent).
pub open spec fn time_shortest(t: Option<DoubleText>) -> Seq<char> {
    match t {
        Some(d) => d.shortest@,
        None => "0"@,
    }
}

/// A query time with its unit: milliseconds with three decimals below 1 ms, with two
/// decimals below 1000 ms, seconds with two decimals above.
pub open spec fn time_display(t: Option<DoubleText>) -> Seq<char> {
    match t {
        Some(d) => if d.below_one {
            d.fixed3@ + " ms"@
        } else if d.below_thousand {
            d.fixed2@ + " ms"@
        } else {
            d.thousandths_fixed2@ + " s"@
        },
        None => "0.000"@ + " ms"@,
    }
}

/// Markdown body of a query.
pub open spec fn query_markdown(c: Json, origin: Option<Seq<char>>) -> Seq<char> {
    let sql = str_or_empty(c, "sql"@);
    let connection = str_or_empty(c, "connection_name"@);
    "## SQL Query\n\n"@ + "**Operation:** "@ + query_operation(sql) + "\n\n"@ + (
    if connection.len() > 0 {
        "**Connection:** "@ + connection + "\n\n"@
    } else {
        Seq::empty()
    }) + "**Execution Time:** "@ + time_display(query_time(c)) + "\n\n"@
        + "### Query\n\n```sql\n"@ + sql + "\n```\n"@ + (match origin {
        Some(o) => "\n**Source:** "@ + o + "\n"@,
        None => Seq::empty(),
    })
}

/// The list summaries of logs and exceptions: a log is summarised by its first value (text
/// as it is), an exception by `<class>: <message>` (`Unknown Exception` when the class is not
/// given, the class alone without a message); a summary of at most 100 bytes is shown whole,
/// a longer one is cut to its first 97 bytes and `...`.
pub proof fn law_log_and_exception_summaries(payload: Json, e: EventEntry)
    ensures
        log_entry(payload, e) ==> (log_first(payload) matches Some(f) ==> (str_of(f) matches Some(t)
            ==> {
            &&& len_bytes(t) <= 100 ==> e.description@ == t
            &&& len_bytes(t) > 100 ==> e.description@ == byte_prefix(t, 97) + "..."@
        })),
        exception_entry(payload, e) ==> (get(payload, "content"@) matches Some(c) ==> {
            let class = match get_str(c, "class"@) {
                Some(k) => k,
                None => "Unknown Exception"@,
            };
            let message = str_or_empty(c, "message"@);
            let headline = if message.len() == 0 {
                class
            } else {
                class + ": "@ + message
            };
            &&& e.label@ == "Exception"@
            &&& len_bytes(headline) <= 100 ==> e.description@ == headline
            &&& len_bytes(headline) > 100 ==> e.description@ == byte_prefix(headline, 97) + "..."@
        }),
{
}

/// Where an exception and an application log show their source: two payloads with the same
/// `content` get the same markdown, except that one whose `origin` names a file (`file`,
/// non-empty, at `line_number`) shows `**Source:** <file>:<line>` as well: for an exception
/// after the rest, for an application log right after its heading.
pub proof fn law_source_paragraphs(p1: Json, p2: Json, o: Json, f: Seq<char>, n: u64)
    requires
        get(p1, "content"@) == get(p2, "content"@),
        get(p1, "content"@) is Some,
        get(p2, "origin"@) is None,
        get(p1, "origin"@) == Some(o),
        get_str(o, "file"@) == Some(f),
        f.len() > 0,
        get_u64(o, "line_number"@) == Some(n),
    ensures
        forall|e1: EventEntry, e2: EventEntry|
            exception_entry(p1, e1) && exception_entry(p2, e2) ==> e1.content@ == e2.content@
                + "**Source:** "@ + f + ":"@ + decimal(n as nat) + "\n\n"@,
        forall|e1: EventEntry, e2: EventEntry|
            app_log_entry(p1, e1) && app_log_entry(p2, e2) ==> {
                &&& e2.content@.len() >= 20
                &&& e2.content@.subrange(0, 20) == "## Application Log\n\n"@
                &&& e1.content@ == "## Application Log\n\n"@ + "**Source:** "@ + f + ":"@
                    + decimal(n as nat) + "\n\n"@ + e2.content@.subrange(20, e2.content@.len() as int)
            },
{
    let c = get(p1, "content"@)->0;
    let src = "**Source:** "@ + f + ":"@ + decimal(n as nat) + "\n\n"@;
    assert(origin_of(p1) == Some(f + ":"@ + decimal(n as nat)));
    assert(origin_of(p2) is None);
    assert(exception_markdown(c, origin_of(p1)) =~= exception_markdown(c, None) + src);
    reveal_strlit("## Application Log\n\n");
    let head = "## Application Log\n\n"@;
    let v = str_or_empty(c, "value"@);
    let tail = "### Log Content\n\n```\n"@ + v + "\n```\n"@;
    assert(app_log_markdown(v, None) =~= head + tail);
    assert(app_log_markdown(v, origin_of(p1)) =~= head + src + tail);
    assert((head + tail).subrange(0, 20) =~= head);
    assert((head + tail).subrange(20, (head + tail).len() as int) =~= tail);
}

/// The source line of a query: two payloads with the same `content` get the same markdown,
/// except that one whose `origin` names a file (`file`, non-empty, at `line_number`, 0 when
/// absent) ends with `\n**Source:** <file>:<line>\n` after it, and one without an origin, or
/// whose origin names no file, ends with the query itself.
pub proof fn law_query_source_line(p1: Json, e1: EventEntry, p2: Json, e2: EventEntry)
    requires
        query_entry(p1, e1),
        query_entry(p2, e2),
        get(p1, "content"@) == get(p2, "content"@),
        get(p1, "content"@) is Some,
        get(p2, "origin"@) is None,
    ensures
        get(p1, "origin"@) matches Some(o) ==> (get_str(o, "file"@) matches Some(f) ==> (f.len() > 0
            ==> e1.content@ == e2.content@ + "\n**Source:** "@ + f + ":"@ + decimal(
            match get_u64(o, "line_number"@) {
                Some(n) => n as nat,
                None => 0,
            },
        ) + "\n"@)),
        get(p1, "origin"@) matches Some(o) ==> (get_str(o, "file"@) matches Some(f) ==> (f.len() == 0
            ==> e1.content@ == e2.content@)),
        get(p1, "origin"@) matches Some(o) ==> (get_str(o, "file"@) is None ==> e1.content@
            == e2.content@),
        get(p1, "origin"@) is None ==> e1.content@ == e2.content@,
        ends_with(e2.content@, "\n```\n"@),
{
    let c = get(p1, "content"@)->0;
    let ghost body = query_markdown(c, None);
    assert(query_markdown(c, None) =~= body);
    match origin_of(p1) {
        Some(o) => {
            assert(query_markdown(c, Some(o)) =~= body + "\n**Source:** "@ + o + "\n"@);
        },
        None => {},
    }
    assert(origin_of(p2) is None);
    let tail = "\n```\n"@;
    reveal_strlit("\n```\n");
    assert(query_markdown(c, None).subrange(
        query_markdown(c, None).len() - tail.len(),
        query_markdown(c, None).len() as int,
    ) =~= tail);
}

/// Payloads that the query processor handles without panicking.
pub open spec fn query_processable(payload: Json) -> bool {
    match get(payload, "content"@) {
        Some(c) => can_clip(str_or_empty(c, "sql"@), 50, 50),
        None => true,
    }
}

/// The entry the query processor makes of `payload`.
pub open spec fn query_entry(payload: Json, e: EventEntry) -> bool {
    &&& e.timestamp@ == timestamp_of(payload)
    &&& e.content_type@ == "markdown"@
    &&& e.event_type@ == "query"@
    &&& json_view(e.raw_payload) == json_view(payload)
    &&& match get(payload, "content"@) {
        Some(c) => {
            let sql = str_or_empty(c, "sql"@);
            &&& e.label@ == "Query: "@ + query_operation(sql)
            &&& e.description@ == query_summary(sql) + " ("@ + time_shortest(query_time(c))
                + "ms)"@
            &&& e.content@ == query_markdown(c, origin_of(payload))
        },
        None => {
            &&& e.label@ == "Query"@
            &&& e.description@ == Seq::<char>::empty()
            &&& e.content@ == Seq::<char>::empty()
        },
    }
}

/// The operation of a query.
pub(crate) fn operation_of(sql: &str) -> (s: String)
    ensures
        s@ == query_operation(sql@),
{
    let t = trim_str(sql);
    match first_word_of(t.as_str()) {
        Some(w) => to_uppercase(w.as_str()),
        None => to_string("SQL"),
    }
}

/// The time of a query as a double (0 when absent or not a number).
pub(crate) fn query_time_of(c: &Json) -> (d: DoubleText)
    ensures
        d.shortest@ == time_shortest(query_time(*c)),
        time_display(Some(d)) == time_display(query_time(*c)),
        match query_time(*c) {
            Some(t) => d == t,
            None => d.is_zero(),
        },
{
    proof {
        reveal_strlit("0");
        reveal_strlit("0.000");
        reveal_strlit(" ms");
    }
    match c.get("time") {
        Some(t) => match t.as_double() {
            Some(d) => d.copy(),
            None => DoubleText::zero(),
        },
        None => DoubleText::zero(),
    }
}

/// Appends a query time with its unit.
pub(crate) fn push_time_display(md: &mut String, d: &DoubleText)
    ensures
        final(md)@ == old(md)@ + time_display(Some(*d)),
{
    let ghost start = md@;
    if d.below_one {
        push_str(md, d.fixed3.as_str());
        push_str(md, " ms");
    } else if d.below_thousand {
        push_str(md, d.fixed2.as_str());
        push_str(md, " ms");
    } else {
        push_str(md, d.thousandths_fixed2.as_str());
        push_str(md, " s");
    }
    proof {
        assert(md@ =~= start + time_display(Some(*d)));
    }
}

/// Processes SQL query events (`type: query` or `executed_query`).
pub struct QueryProcessor;

impl QueryProcessor {
    /// Whether `process` can handle `payload`.
    pub fn can_process(&self, payload: &Json) -> (r: bool)
        ensures
            r == query_processable(*payload),
    {
        match payload.get("content") {
            Some(c) => {
                let sql = str_field(c, "sql");
                byte_len(sql.as_str()) <= 50 || cuts_at_byte(sql.as_str(), 50)
            },
            None => true,
        }
    }

    /// The entry for a query payload: `Query: <OPERATION>` as label, the clipped query and
    /// its time as description, and a markdown body with operation, connection, time, query
    /// and source.
    pub fn process(&self, payload: &Json) -> (r: Result<EventEntry, EventError>)
        requires
            query_processable(*payload),
        ensures
            r matches Ok(e) && query_entry(*payload, e),
    {
        let mut entry = EventEntry {
            timestamp: extract_timestamp(payload),
            label: to_string("Query"),
            description: String::new(),
            content: String::new(),
            content_type: to_string("markdown"),
            event_type: to_string("query"),
            raw_payload: payload.deep_clone(),
        };
        if let Some(c) = payload.get("content") {
            let sql = str_field(c, "sql");
            let connection = str_field(c, "connection_name");
            let zero = DoubleText::zero();
            let time: &DoubleText = match c.get("time") {
                Some(t) => match t.as_double() {
                    Some(d) => d,
                    None => &zero,
                },
                None => &zero,
            };
            proof {
                reveal_strlit("0");
                reveal_strlit("0.000");
                reveal_strlit("0.000 ms");
                reveal_strlit(" ms");
                assert(time.shortest@ == time_shortest(query_time(*c)));
            }
            let operation = operation_of(sql.as_str());
            let mut label = to_string("Query: ");
            push_str(&mut label, operation.as_str());
            entry.label = label;
            let mut description = if byte_len(sql.as_str()) > 50 {
                let p = prefix_bytes(sql.as_str(), 50);
                let mut t = trim_str(p.as_str());
                push_str(&mut t, "...");
                t
            } else {
                trim_str(sql.as_str())
            };
            push_str(&mut description, " (");
            push_str(&mut description, time.shortest.as_str());
            push_str(&mut description, "ms)");
            entry.description = description;
            let mut md = to_string("## SQL Query\n\n");
            push_str(&mut md, "**Operation:** ");
            push_str(&mut md, operation.as_str());
            push_str(&mut md, "\n\n");
            if !connection.as_str().is_empty() {
                push_str(&mut md, "**Connection:** ");
                push_str(&mut md, connection.as_str());
                push_str(&mut md, "\n\n");
            }
            push_str(&mut md, "**Execution Time:** ");
            let ghost before_time = md@;
            if time.below_one {
                push_str(&mut md, time.fixed3.as_str());
                push_str(&mut md, " ms");
            } else if time.below_thousand {
                push_str(&mut md, time.fixed2.as_str());
                push_str(&mut md, " ms");
            } else {
                push_str(&mut md, time.thousandths_fixed2.as_str());
                push_str(&mut md, " s");
            }
            proof {
                assert(md@ =~= before_time + time_display(query_time(*c)));
            }
            push_str(&mut md, "\n\n");
            push_str(&mut md, "### Query\n\n```sql\n");
            push_str(&mut md, sql.as_str());
            push_str(&mut md, "\n```\n");
            if let Some(origin) = extract_origin_info(payload) {
                push_str(&mut md, "\n**Source:** ");
                push_str(&mut md, origin.as_str());
                push_str(&mut md, "\n");
            }
            proof {
                assert(md@ =~= query_markdown(*c, origin_of(*payload)));
            }
            entry.content = md;
        }
        Ok(entry)
    }

    pub fn display_name(&self) -> (s: &'static str)
        ensures
            s@ == "SQL Query"@,
    {
        "SQL Query"
    }
}

} // verus!
