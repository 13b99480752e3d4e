//! Markdown, label and summary of an HTTP request or response.
use vstd::prelude::*;

use crate::event_data::{opt_text, HttpEvent, HttpEventType};
use crate::json::{json_view, pretty, pretty_text, str_of, DoubleText, Json};
use crate::renderers::{only_if, opt_paragraph};
use crate::text::{contains_text, decimal, lemma_contains_middle, push_str, to_string, u64_to_string};

verus! {

/// The string items of an array, in order; the others are left out.
pub open spec fn str_items(items: Seq<Json>) -> Seq<Seq<char>>
    decreases items.len(),
{
    if items.len() == 0 {
        Seq::empty()
    } else {
        let rest = str_items(items.drop_last());
        match str_of(items.last()) {
            Some(s) => rest.push(s),
            None => rest,
        }
    }
}

/// The parts, with `sep` between each two.
pub open spec fn join(parts: Seq<Seq<char>>, sep: Seq<char>) -> Seq<char>
    decreases parts.len(),
{
    if parts.len() == 0 {
        Seq::empty()
    } else if parts.len() == 1 {
        parts[0]
    } else {
        join(parts.drop_last(), sep) + sep + parts.last()
    }
}

/// The line of one header: its text, or the texts of its array joined by commas; nothing for
/// other values.
pub open spec fn header_line(key: Seq<char>, value: Json) -> Seq<char> {
    match value {
        Json::Str(s) => "- **"@ + key + ":** "@ + s@ + "\n"@,
        Json::Array(items) => "- **"@ + key + ":** "@ + join(str_items(items@), ", "@) + "\n"@,
        _ => Seq::empty(),
    }
}

/// The lines of the headers, in order.
pub open spec fn header_lines(headers: Seq<(String, Json)>) -> Seq<char>
    decreases headers.len(),
{
    if headers.len() == 0 {
        Seq::empty()
    } else {
        header_lines(headers.drop_last()) + header_line(headers.last().0@, headers.last().1)
    }
}

/// A headers section.
pub open spec fn header_block(headers: Seq<(String, Json)>) -> Seq<char> {
    "### Headers\n\n"@ + header_lines(headers) + "\n"@
}

/// The headers section, when there are headers.
pub open spec fn headers_part(headers: Seq<(String, Json)>) -> Seq<char> {
    only_if(headers.len() > 0, header_block(headers))
}

/// The request body section: pretty JSON for objects and arrays, the text for a string.
pub open spec fn request_body_part(body: Option<Json>) -> Seq<char> {
    match body {
        Some(Json::Str(s)) => "### Request Body\n\n```\n"@ + s@ + "\n```\n"@,
        Some(b) => only_if(
            b is Object || b is Array,
            "### Request Body\n\n```json\n"@ + pretty_text(json_view(b)) + "\n```\n"@,
        ),
        None => Seq::empty(),
    }
}

/// Markdown of a request.
pub open spec fn request_markdown(ev: HttpEvent) -> Seq<char> {
    "## HTTP Request\n\n"@ + "**URL:** "@ + ev.url@ + "\n\n"@ + opt_paragraph(
        opt_text(ev.method),
        "**Method:** "@,
        "\n\n"@,
    ) + opt_paragraph(opt_text(ev.content_type), "**Type:** "@, "\n\n"@) + headers_part(
        ev.headers@,
    ) + request_body_part(ev.body)
}

/// `Success`, `Failed` or `Unknown`.
pub open spec fn success_word(success: Option<bool>) -> Seq<char> {
    match success {
        Some(true) => "Success"@,
        Some(false) => "Failed"@,
        None => "Unknown"@,
    }
}

/// The status paragraph, when the status is known.
pub open spec fn status_part(ev: HttpEvent) -> Seq<char> {
    match ev.status_code {
        Some(c) => "**Status:** "@ + decimal(c as nat) + " ("@ + success_word(ev.success)
            + ")\n\n"@,
        None => Seq::empty(),
    }
}

/// A time in seconds with six decimals.
pub open spec fn seconds_line(name: Seq<char>, d: Option<DoubleText>) -> Seq<char> {
    match d {
        Some(t) => "- **"@ + name + ":** "@ + t.fixed6@ + "s\n"@,
        None => Seq::empty(),
    }
}

/// A byte count.
pub open spec fn bytes_line(name: Seq<char>, n: Option<u64>) -> Seq<char> {
    match n {
        Some(v) => "- **"@ + name + ":** "@ + decimal(v as nat) + " bytes\n"@,
        None => Seq::empty(),
    }
}

/// The performance section of a response.
pub open spec fn performance_part(ev: HttpEvent) -> Seq<char> {
    "### Performance\n\n"@ + seconds_line("Duration"@, ev.duration_seconds) + seconds_line(
        "Connection Time"@,
        ev.connection_time_seconds,
    ) + bytes_line("Size"@, ev.size_bytes) + bytes_line("Request Size"@, ev.request_size_bytes)
        + "\n"@
}

/// The response body section: pretty JSON, or a note for `null`.
pub open spec fn response_body_part(body: Option<Json>) -> Seq<char> {
    match body {
        Some(Json::Null) => "### Response Body\n\n*No response body*\n"@,
        Some(b) => "### Response Body\n\n```json\n"@ + pretty_text(json_view(b)) + "\n```\n"@,
        None => Seq::empty(),
    }
}

/// Markdown of a response.
pub open spec fn response_markdown(ev: HttpEvent) -> Seq<char> {
    "## HTTP Response\n\n"@ + "**URL:** "@ + ev.url@ + "\n\n"@ + status_part(ev)
        + performance_part(ev) + headers_part(ev.headers@) + response_body_part(ev.body)
}

/// Markdown of an HTTP event.
pub open spec fn http_markdown(ev: HttpEvent) -> Seq<char> {
    match ev.event_type {
        HttpEventType::Request => request_markdown(ev),
        HttpEventType::Response => response_markdown(ev),
    }
}

/// The string items of `items`, joined by `, `.
fn joined_strs(items: &Vec<Json>) -> (s: String)
    ensures
        s@ == join(str_items(items@), ", "@),
{
    let mut out = String::new();
    let mut any = false;
    let mut i: usize = 0;
    while i < items.len()
        invariant
            i <= items.len(),
            out@ == join(str_items(items@.take(i as int)), ", "@),
            any == (str_items(items@.take(i as int)).len() > 0),
        decreases items.len() - i,
    {
        let ghost before = str_items(items@.take(i as int));
        proof {
            assert(items@.take(i + 1).drop_last() =~= items@.take(i as int));
        }
        if let Json::Str(t) = &items[i] {
            if any {
                push_str(&mut out, ", ");
            }
            push_str(&mut out, t.as_str());
            proof {
                let after = str_items(items@.take(i + 1));
                assert(after == before.push(t@));
                assert(after.drop_last() =~= before);
                if before.len() == 0 {
                    assert(out@ =~= t@);
                }
            }
            any = true;
        }
        i += 1;
    }
    proof {
        assert(items@.take(items.len() as int) =~= items@);
    }
    out
}

fn push_header_line(md: &mut String, key: &str, value: &Json)
    ensures
        final(md)@ == old(md)@ + header_line(key@, *value),
{
    let ghost start = md@;
    match value {
        Json::Str(s) => {
            push_str(md, "- **");
            push_str(md, key);
            push_str(md, ":** ");
            push_str(md, s.as_str());
            push_str(md, "\n");
        },
        Json::Array(items) => {
            let j = joined_strs(items);
            push_str(md, "- **");
            push_str(md, key);
            push_str(md, ":** ");
            push_str(md, j.as_str());
            push_str(md, "\n");
        },
        _ => {},
    }
    proof {
        assert(md@ =~= start + header_line(key@, *value));
    }
}

pub(crate) fn push_header_block(md: &mut String, headers: &Vec<(String, Json)>)
    ensures
        final(md)@ == old(md)@ + header_block(headers@),
{
    let ghost start = md@;
    push_str(md, "### Headers\n\n");
    let ghost mid = md@;
    let mut i: usize = 0;
    while i < headers.len()
        invariant
            i <= headers.len(),
            md@ == mid + header_lines(headers@.take(i as int)),
        decreases headers.len() - i,
    {
        proof {
            assert(headers@.take(i + 1).drop_last() =~= headers@.take(i as int));
        }
        let (k, v) = &headers[i];
        push_header_line(md, k.as_str(), v);
        i += 1;
    }
    push_str(md, "\n");
    proof {
        assert(headers@.take(headers.len() as int) =~= headers@);
        assert(md@ =~= start + header_block(headers@));
    }
}

fn push_headers(md: &mut String, headers: &Vec<(String, Json)>)
    ensures
        final(md)@ == old(md)@ + headers_part(headers@),
{
    if headers.len() > 0 {
        push_header_block(md, headers);
    }
}

fn push_request_body(md: &mut String, body: &Option<Json>)
    ensures
        final(md)@ == old(md)@ + request_body_part(*body),
{
    let ghost start = md@;
    if let Some(b) = body {
        if b.is_object() || b.is_array() {
            push_str(md, "### Request Body\n\n```json\n");
            let p = pretty(b);
            push_str(md, p.as_str());
            push_str(md, "\n```\n");
        } else if let Json::Str(s) = b {
            push_str(md, "### Request Body\n\n```\n");
            push_str(md, s.as_str());
            push_str(md, "\n```\n");
        }
    }
    proof {
        assert(md@ =~= start + request_body_part(*body));
    }
}

fn push_opt_paragraph(md: &mut String, o: &Option<String>, prefix: &str, suffix: &str)
    ensures
        final(md)@ == old(md)@ + opt_paragraph(opt_text(*o), prefix@, suffix@),
{
    if let Some(t) = o {
        let ghost start = md@;
        push_str(md, prefix);
        push_str(md, t.as_str());
        push_str(md, suffix);
        proof {
            assert(md@ =~= start + opt_paragraph(opt_text(*o), prefix@, suffix@));
        }
    }
}

fn push_request(md: &mut String, ev: &HttpEvent)
    ensures
        final(md)@ == old(md)@ + request_markdown(*ev),
{
    let ghost start = md@;
    push_str(md, "## HTTP Request\n\n");
    push_str(md, "**URL:** ");
    push_str(md, ev.url.as_str());
    push_str(md, "\n\n");
    let ghost s1 = md@;
    push_opt_paragraph(md, &ev.method, "**Method:** ", "\n\n");
    let ghost s2 = md@;
    push_opt_paragraph(md, &ev.content_type, "**Type:** ", "\n\n");
    let ghost s3 = md@;
    push_headers(md, &ev.headers);
    let ghost s4 = md@;
    push_request_body(md, &ev.body);
    proof {
        assert(s1 =~= start + "## HTTP Request\n\n"@ + "**URL:** "@ + ev.url@ + "\n\n"@);
        assert(md@ =~= start + request_markdown(*ev));
    }
}

pub(crate) fn push_seconds_line(md: &mut String, name: &str, d: &Option<DoubleText>)
    ensures
        final(md)@ == old(md)@ + seconds_line(name@, *d),
{
    if let Some(t) = d {
        let ghost start = md@;
        push_str(md, "- **");
        push_str(md, name);
        push_str(md, ":** ");
        push_str(md, t.fixed6.as_str());
        push_str(md, "s\n");
        proof {
            assert(md@ =~= start + seconds_line(name@, *d));
        }
    }
}

pub(crate) fn push_bytes_line(md: &mut String, name: &str, n: Option<u64>)
    ensures
        final(md)@ == old(md)@ + bytes_line(name@, n),
{
    if let Some(v) = n {
        let ghost start = md@;
        push_str(md, "- **");
        push_str(md, name);
        push_str(md, ":** ");
        let digits = u64_to_string(v);
        push_str(md, digits.as_str());
        push_str(md, " bytes\n");
        proof {
            assert(md@ =~= start + bytes_line(name@, n));
        }
    }
}

fn push_status(md: &mut String, ev: &HttpEvent)
    ensures
        final(md)@ == old(md)@ + status_part(*ev),
{
    if let Some(c) = ev.status_code {
        let ghost start = md@;
        push_str(md, "**Status:** ");
        let digits = u64_to_string(c);
        push_str(md, digits.as_str());
        push_str(md, " (");
        match ev.success {
            Some(true) => push_str(md, "Success"),
            Some(false) => push_str(md, "Failed"),
            None => push_str(md, "Unknown"),
        }
        push_str(md, ")\n\n");
        proof {
            assert(md@ =~= start + status_part(*ev));
        }
    }
}

fn push_performance(md: &mut String, ev: &HttpEvent)
    ensures
        final(md)@ == old(md)@ + performance_part(*ev),
{
    let ghost start = md@;
    push_str(md, "### Performance\n\n");
    push_seconds_line(md, "Duration", &ev.duration_seconds);
    push_seconds_line(md, "Connection Time", &ev.connection_time_seconds);
    push_bytes_line(md, "Size", ev.size_bytes);
    push_bytes_line(md, "Request Size", ev.request_size_bytes);
    push_str(md, "\n");
    proof {
        assert(md@ =~= start + performance_part(*ev));
    }
}

pub(crate) fn push_response_body(md: &mut String, body: Option<&Json>)
    ensures
        final(md)@ == old(md)@ + response_body_part(match body {
            Some(b) => Some(*b),
            None => None,
        }),
{
    let ghost start = md@;
    if let Some(b) = body {
        if b.is_null() {
            push_str(md, "### Response Body\n\n*No response body*\n");
        } else {
            push_str(md, "### Response Body\n\n```json\n");
            let p = pretty(b);
            push_str(md, p.as_str());
            push_str(md, "\n```\n");
        }
    }
    proof {
        assert(md@ =~= start + response_body_part(match body {
            Some(b) => Some(*b),
            None => None,
        }));
    }
}

fn push_response(md: &mut String, ev: &HttpEvent)
    ensures
        final(md)@ == old(md)@ + response_markdown(*ev),
{
    let ghost start = md@;
    push_str(md, "## HTTP Response\n\n");
    push_str(md, "**URL:** ");
    push_str(md, ev.url.as_str());
    push_str(md, "\n\n");
    let ghost s1 = md@;
    push_status(md, ev);
    let ghost s2 = md@;
    push_performance(md, ev);
    let ghost s3 = md@;
    push_headers(md, &ev.headers);
    let ghost s4 = md@;
    push_response_body(md, ev.body.as_ref());
    proof {
        let head = "## HTTP Response\n\n"@ + "**URL:** "@ + ev.url@ + "\n\n"@;
        let st = status_part(*ev);
        let pf = performance_part(*ev);
        let hd = headers_part(ev.headers@);
        let bd = response_body_part(ev.body);
        assert(s1 =~= start + head);
        assert(md@ =~= start + (head + st + pf + hd + bd));
    }
}

/// The markdown body of an HTTP request or response.
pub fn render_http_markdown(http_event: &HttpEvent) -> (s: String)
    ensures
        s@ == http_markdown(*http_event),
{
    let mut md = String::new();
    match http_event.event_type {
        HttpEventType::Request => push_request(&mut md, http_event),
        HttpEventType::Response => push_response(&mut md, http_event),
    }
    proof {
        assert(md@ =~= http_markdown(*http_event));
    }
    md
}

/// The markdown of HTTP traffic names what it is and where it went: a request begins with
/// `## HTTP Request` and its URL and shows `**Method:** <method>` when the method is known; a
/// response begins with `## HTTP Response` and its URL and, when its status is known, shows
/// `**Status:** <code> (Success)`, `(Failed)` or `(Unknown)` as its `success` flag is true,
/// false or absent. Its summary is the URL, followed by ` - <code>` for a response with a
/// status.
pub proof fn law_http_markdown_lines(ev: HttpEvent)
    ensures
        ev.event_type is Request ==> http_markdown(ev).subrange(0, 28 + ev.url@.len() as int)
            == "## HTTP Request\n\n**URL:** "@ + ev.url@ + "\n\n"@,
        ev.event_type is Response ==> http_markdown(ev).subrange(0, 29 + ev.url@.len() as int)
            == "## HTTP Response\n\n**URL:** "@ + ev.url@ + "\n\n"@,
        ev.event_type is Request ==> (ev.method matches Some(m) ==> contains_text(
            http_markdown(ev),
            "**Method:** "@ + m@ + "\n\n"@,
        )),
        ev.event_type is Response ==> (ev.status_code matches Some(c) ==> {
            &&& ev.success == Some(true) ==> contains_text(
                http_markdown(ev),
                "**Status:** "@ + decimal(c as nat) + " (Success)"@,
            )
            &&& ev.success == Some(false) ==> contains_text(
                http_markdown(ev),
                "**Status:** "@ + decimal(c as nat) + " (Failed)"@,
            )
            &&& ev.success is None ==> contains_text(
                http_markdown(ev),
                "**Status:** "@ + decimal(c as nat) + " (Unknown)"@,
            )
        }),
        http_summary(ev) == (if ev.event_type is Response && ev.status_code is Some {
            ev.url@ + " - "@ + decimal(ev.status_code->0 as nat)
        } else {
            ev.url@
        }),
{
    reveal_strlit(" (Success)");
    reveal_strlit(" (Failed)");
    reveal_strlit(" (Unknown)");
    reveal_strlit(" (");
    reveal_strlit(")");
    reveal_strlit("Success");
    reveal_strlit("Failed");
    reveal_strlit("Unknown");
    match ev.event_type {
        HttpEventType::Request => lemma_request_lines(ev),
        HttpEventType::Response => {
            lemma_response_lines(ev);
            if let Some(c) = ev.status_code {
                let head = "**Status:** "@ + decimal(c as nat);
                assert(head + " ("@ + "Success"@ + ")"@ =~= head + " (Success)"@);
                assert(head + " ("@ + "Failed"@ + ")"@ =~= head + " (Failed)"@);
                assert(head + " ("@ + "Unknown"@ + ")"@ =~= head + " (Unknown)"@);
            }
        },
    }
}

proof fn lemma_request_lines(ev: HttpEvent)
    requires
        ev.event_type is Request,
    ensures
        http_markdown(ev).subrange(0, 28 + ev.url@.len() as int) == "## HTTP Request\n\n**URL:** "@
            + ev.url@ + "\n\n"@,
        ev.method matches Some(m) ==> contains_text(http_markdown(ev), "**Method:** "@ + m@ + "\n\n"@),
{
    reveal_strlit("## HTTP Request\n\n");
    reveal_strlit("## HTTP Response\n\n");
    reveal_strlit("**URL:** ");
    reveal_strlit("\n\n");
    reveal_strlit("## HTTP Request\n\n**URL:** ");
    reveal_strlit("## HTTP Response\n\n**URL:** ");
    let url = ev.url@;
    let pre = "## HTTP Request\n\n"@ + "**URL:** "@ + url + "\n\n"@;
    let rest = opt_paragraph(opt_text(ev.method), "**Method:** "@, "\n\n"@) + opt_paragraph(
        opt_text(ev.content_type),
        "**Type:** "@,
        "\n\n"@,
    ) + headers_part(ev.headers@) + request_body_part(ev.body);
    assert(http_markdown(ev) =~= pre + rest);
    assert(pre =~= "## HTTP Request\n\n**URL:** "@ + url + "\n\n"@);
    assert((pre + rest).subrange(0, pre.len() as int) =~= pre);
    if let Some(m) = ev.method {
        let part = "**Method:** "@ + m@ + "\n\n"@;
        let post = opt_paragraph(opt_text(ev.content_type), "**Type:** "@, "\n\n"@)
            + headers_part(ev.headers@) + request_body_part(ev.body);
        assert(http_markdown(ev) =~= pre + part + post);
        lemma_contains_middle(pre, part, post);
    }

}

proof fn lemma_response_lines(ev: HttpEvent)
    requires
        ev.event_type is Response,
    ensures
        http_markdown(ev).subrange(0, 29 + ev.url@.len() as int) == "## HTTP Response\n\n**URL:** "@
            + ev.url@ + "\n\n"@,
        ev.status_code matches Some(c) ==> contains_text(
            http_markdown(ev),
            "**Status:** "@ + decimal(c as nat) + " ("@ + success_word(ev.success) + ")"@,
        ),
{
    reveal_strlit("## HTTP Request\n\n");
    reveal_strlit("## HTTP Response\n\n");
    reveal_strlit("**URL:** ");
    reveal_strlit("\n\n");
    reveal_strlit("## HTTP Request\n\n**URL:** ");
    reveal_strlit("## HTTP Response\n\n**URL:** ");
    let url = ev.url@;
    let pre = "## HTTP Response\n\n"@ + "**URL:** "@ + url + "\n\n"@;
    let rest = status_part(ev) + performance_part(ev) + headers_part(ev.headers@)
        + response_body_part(ev.body);
    assert(http_markdown(ev) =~= pre + rest);
    assert(pre =~= "## HTTP Response\n\n**URL:** "@ + url + "\n\n"@);
    assert((pre + rest).subrange(0, pre.len() as int) =~= pre);
    if let Some(c) = ev.status_code {
        let word = success_word(ev.success);
        let part = "**Status:** "@ + decimal(c as nat) + " ("@ + word + ")"@;
        let post = "\n\n"@ + performance_part(ev) + headers_part(ev.headers@)
            + response_body_part(ev.body);
        reveal_strlit(")\n\n");
        reveal_strlit(")");
        assert(")\n\n"@ =~= ")"@ + "\n\n"@);
        assert(http_markdown(ev) =~= pre + part + post);
        lemma_contains_middle(pre, part, post);
        reveal_strlit(" (");
        reveal_strlit(" (Success)");
        reveal_strlit(" (Failed)");
        reveal_strlit(" (Unknown)");
        reveal_strlit("Success");
        reveal_strlit("Failed");
        reveal_strlit("Unknown");
        assert(" ("@ + "Success"@ + ")"@ =~= " (Success)"@);
        assert(" ("@ + "Failed"@ + ")"@ =~= " (Failed)"@);
        assert(" ("@ + "Unknown"@ + ")"@ =~= " (Unknown)"@);
        let head = "**Status:** "@ + decimal(c as nat);
        assert(part =~= head + (" ("@ + word + ")"@));
    }

}

/// `HTTP: Request` or `HTTP: Response`.
pub fn get_http_label(http_event: &HttpEvent) -> (s: String)
    ensures
        s@ == match http_event.event_type {
            HttpEventType::Request => "HTTP: Request"@,
            HttpEventType::Response => "HTTP: Response"@,
        },
{
    match http_event.event_type {
        HttpEventType::Request => to_string("HTTP: Request"),
        HttpEventType::Response => to_string("HTTP: Response"),
    }
}

/// The summary of an HTTP event: its URL, with the status of a response when known.
pub open spec fn http_summary(ev: HttpEvent) -> Seq<char> {
    match (ev.event_type, ev.status_code) {
        (HttpEventType::Response, Some(c)) => ev.url@ + " - "@ + decimal(c as nat),
        _ => ev.url@,
    }
}

/// The URL, and for a response with a status, `<url> - <status>`.
pub fn get_http_description(http_event: &HttpEvent) -> (s: String)
    ensures
        s@ == http_summary(*http_event),
{
    match (&http_event.event_type, http_event.status_code) {
        (HttpEventType::Response, Some(c)) => {
            let mut d = to_string(http_event.url.as_str());
            push_str(&mut d, " - ");
            let digits = u64_to_string(c);
            push_str(&mut d, digits.as_str());
            d
        },
        _ => to_string(http_event.url.as_str()),
    }
}

} // verus!
