//! Raw payload records: what arrived, with the HTML or text worth showing pulled out of it.
use vstd::prelude::*;

use crate::json::{array_of, compact, compact_text, get, json_view, str_of, Json};
use crate::processors::{len_bytes, str_field, str_or_empty};
use crate::text::{byte_len, str_eq, to_string};

verus! {

/// A stored payload.
pub struct PayloadEntry {
    /// When it arrived.
    pub timestamp: String,
    /// The payload as compact JSON.
    pub data: String,
    /// The payload's `type`.
    pub p_type: String,
    /// The text shown for it (see `get_html`).
    pub html: String,
    /// `content.values.URL`.
    pub url: String,
    /// `content.values.Method`.
    pub method: String,
    /// `content.values.label`.
    pub label: String,
}

impl PayloadEntry {
    /// A copy of this record.
    pub fn copy(&self) -> (r: PayloadEntry)
        ensures
            r == *self,
    {
        PayloadEntry {
            timestamp: self.timestamp.clone(),
            data: self.data.clone(),
            p_type: self.p_type.clone(),
            html: self.html.clone(),
            url: self.url.clone(),
            method: self.method.clone(),
            label: self.label.clone(),
        }
    }
}

/// Stored payload records, in arrival order.
pub struct PayloadStorage {
    payloads: Vec<PayloadEntry>,
}

impl PayloadStorage {
    /// The stored records, oldest first.
    pub closed spec fn records(&self) -> Seq<PayloadEntry> {
        self.payloads@
    }

    /// An empty store.
    pub fn new() -> (s: PayloadStorage)
        ensures
            s.records() == Seq::<PayloadEntry>::empty(),
    {
        PayloadStorage { payloads: Vec::new() }
    }

    /// Stores a record after the others.
    pub fn add_payload(&mut self, entry: PayloadEntry)
        ensures
            final(self).records() == old(self).records().push(entry),
    {
        self.payloads.push(entry);
    }

    /// Copies of the stored records, oldest first.
    pub fn get_payloads(&self) -> (v: Vec<PayloadEntry>)
        ensures
            v@ == self.records(),
    {
        let mut v: Vec<PayloadEntry> = Vec::new();
        let mut i: usize = 0;
        while i < self.payloads.len()
            invariant
                i <= self.payloads.len(),
                v@ == self.payloads@.take(i as int),
            decreases self.payloads.len() - i,
        {
            v.push(self.payloads[i].copy());
            i += 1;
            proof {
                assert(v@ =~= self.payloads@.take(i as int));
            }
        }
        proof {
            assert(self.payloads@.take(i as int) =~= self.payloads@);
        }
        v
    }
}

/// Adding records one after another and listing gives them back in the order added.
pub proof fn law_payloads_in_arrival_order(
    s0: Seq<PayloadEntry>,
    a: PayloadEntry,
    b: PayloadEntry,
    s2: Seq<PayloadEntry>,
)
    requires
        s2 == s0.push(a).push(b),
    ensures
        s2.len() == s0.len() + 2,
        s2[s0.len() as int] == a,
        s2[s0.len() as int + 1] == b,
        s2.take(s0.len() as int) == s0,
{
    assert(s2.take(s0.len() as int) =~= s0);
}

/// The inner text of the first `<pre>` element of an HTML document, as the `tl` parser reads
/// it; `None` when the document has no such element.
pub uninterp spec fn pre_inner_text(html: Seq<char>) -> Option<Seq<char>>;

/// What a payload's HTML shows: the inner text of its first `<pre>` element, or the document
/// itself when it has none.
pub open spec fn pre_text(html: Seq<char>) -> Seq<char> {
    match pre_inner_text(html) {
        Some(t) => t,
        None => html,
    }
}

/// Trusted: `tl::parse` with default options, then the inner text of the first `pre`
/// element (`query_selector("pre")`, its first match, `inner_text`), or `None` when there is
/// none. `tl::parse` fails only on input longer than `u32::MAX` bytes, which `requires`
/// leaves out. The result is a function of the input alone, named `pre_inner_text`.
#[verifier::external_body]
fn first_pre_text(html: &str) -> (r: Option<String>)
    requires
        len_bytes(html@) <= u32::MAX,
    ensures
        pre_inner_text(html@) == match r {
            Some(t) => Some(t@),
            None => None::<Seq<char>>,
        },
{
    let dom = tl::parse(html, tl::ParserOptions::default()).unwrap();
    let parser = dom.parser();
    dom.query_selector("pre").and_then(|mut e| e.next()).and_then(|n| n.get(parser)).map(
        |e| e.inner_text(parser).to_string(),
    )
}

/// The text an HTML document shows: the inner text of its first `<pre>` element, or the
/// whole document when it has none.
pub fn parse_html(html: &str) -> (s: String)
    requires
        len_bytes(html@) <= u32::MAX,
    ensures
        s@ == pre_text(html@),
{
    match first_pre_text(html) {
        Some(t) => t,
        None => to_string(html),
    }
}

/// `content.values` of a payload.
pub open spec fn payload_values(payload: Json) -> Option<Json> {
    match get(payload, "content"@) {
        Some(c) => get(c, "values"@),
        None => None,
    }
}

/// The HTML or text that a payload carries for display, before parsing: for a table event,
/// the `Data` of a `GET`/`POST` request or the `Body` of anything else; for a log, its first
/// value; when that is text.
pub open spec fn html_source(payload: Json) -> Option<Seq<char>> {
    let t = str_or_empty(payload, "type"@);
    if t == "table"@ {
        table_html_source(payload)
    } else if t == "log"@ {
        match payload_values(payload) {
            Some(v) => match array_of(v) {
                Some(items) => if items.len() > 0 {
                    str_of(items[0])
                } else {
                    None
                },
                None => None,
            },
            None => None,
        }
    } else {
        None
    }
}

/// The HTML that a table payload carries: the `Data` of a `GET`/`POST` request, the `Body`
/// of anything else, when that is text.
pub open spec fn table_html_source(payload: Json) -> Option<Seq<char>> {
    match payload_values(payload) {
        Some(v) => {
            let m = str_of_field(v, "Method"@);
            let field = if m == Some("GET"@) || m == Some("POST"@) {
                "Data"@
            } else {
                "Body"@
            };
            str_of_field(v, field)
        },
        None => None,
    }
}

/// The text of field `key` of `j`.
pub open spec fn str_of_field(j: Json, key: Seq<char>) -> Option<Seq<char>> {
    match get(j, key) {
        Some(v) => str_of(v),
        None => None,
    }
}

/// What a payload shows: its HTML source read by `parse_html`, or empty text.
pub open spec fn html_of(payload: Json) -> Seq<char> {
    match html_source(payload) {
        Some(h) => pre_text(h),
        None => Seq::empty(),
    }
}

/// Payloads whose HTML `parse_html` can read (it refuses more than `u32::MAX` bytes).
pub open spec fn html_readable(payload: Json) -> bool {
    match html_source(payload) {
        Some(h) => len_bytes(h) <= u32::MAX,
        None => true,
    }
}

/// The text of field `key` of `j`, when it is text.
fn field_str<'a>(j: &'a Json, key: &str) -> (r: Option<&'a str>)
    ensures
        match r {
            Some(s) => str_of_field(*j, key@) == Some(s@),
            None => str_of_field(*j, key@) is None,
        },
{
    match j.get(key) {
        Some(v) => v.as_str(),
        None => None,
    }
}

/// The HTML source of a table payload.
pub(crate) fn table_html_source_of<'a>(payload: &'a Json) -> (r: Option<&'a str>)
    ensures
        match r {
            Some(s) => table_html_source(*payload) == Some(s@),
            None => table_html_source(*payload) is None,
        },
{
    let values = match payload.get("content") {
        Some(c) => c.get("values"),
        None => None,
    };
    match values {
        Some(v) => {
            let m = field_str(v, "Method");
            let is_request = match m {
                Some(m) => str_eq(m, "GET") || str_eq(m, "POST"),
                None => false,
            };
            let field = if is_request {
                "Data"
            } else {
                "Body"
            };
            field_str(v, field)
        },
        None => None,
    }
}

/// The HTML source of a payload.
fn html_source_of<'a>(payload: &'a Json) -> (r: Option<&'a str>)
    ensures
        match r {
            Some(s) => html_source(*payload) == Some(s@),
            None => html_source(*payload) is None,
        },
{
    let t = str_field(payload, "type");
    let values = match payload.get("content") {
        Some(c) => c.get("values"),
        None => None,
    };
    if str_eq(t.as_str(), "table") {
        table_html_source_of(payload)
    } else if str_eq(t.as_str(), "log") {
        match values {
            Some(v) => match v.as_array() {
                Some(items) => if items.len() > 0 {
                    items[0].as_str()
                } else {
                    None
                },
                None => None,
            },
            None => None,
        }
    } else {
        None
    }
}

/// Whether `get_html` can read this payload.
pub fn html_is_readable(payload: &Json) -> (r: bool)
    ensures
        r == html_readable(*payload),
{
    match html_source_of(payload) {
        Some(h) => byte_len(h) as u64 <= u32::MAX as u64,
        None => true,
    }
}

/// The text a payload shows (see `html_of`).
pub fn get_html(payload: &Json) -> (s: String)
    requires
        html_readable(*payload),
    ensures
        s@ == html_of(*payload),
{
    match html_source_of(payload) {
        Some(h) => parse_html(h),
        None => String::new(),
    }
}

/// The record stored for a payload that arrived at `timestamp`.
pub open spec fn payload_record(payload: Json, timestamp: Seq<char>, r: PayloadEntry) -> bool {
    &&& r.timestamp@ == timestamp
    &&& r.data@ == compact_text(json_view(payload))
    &&& r.p_type@ == str_or_empty(payload, "type"@)
    &&& r.html@ == html_of(payload)
    &&& r.url@ == values_text(payload, "URL"@)
    &&& r.method@ == values_text(payload, "Method"@)
    &&& r.label@ == values_text(payload, "label"@)
}

/// Field `key` of `content.values`, as text, or empty text.
pub open spec fn values_text(payload: Json, key: Seq<char>) -> Seq<char> {
    match payload_values(payload) {
        Some(v) => str_or_empty(v, key),
        None => Seq::empty(),
    }
}

/// Field `key` of `content.values`, as text, or empty text.
pub(crate) fn values_field(payload: &Json, key: &str) -> (s: String)
    ensures
        s@ == values_text(*payload, key@),
{
    match payload.get("content") {
        Some(c) => match c.get("values") {
            Some(v) => str_field(v, key),
            None => String::new(),
        },
        None => String::new(),
    }
}

/// The record for a payload that arrived at `timestamp`.
pub fn payload_entry(payload: &Json, timestamp: String) -> (r: PayloadEntry)
    requires
        html_readable(*payload),
    ensures
        payload_record(*payload, timestamp@, r),
{
    PayloadEntry {
        timestamp,
        data: compact(payload),
        p_type: str_field(payload, "type"),
        html: get_html(payload),
        url: values_field(payload, "URL"),
        method: values_field(payload, "Method"),
        label: values_field(payload, "label"),
    }
}

/// Stores the record of a payload that arrived at `timestamp`.
pub fn process_payload(payload: &Json, timestamp: String, storage: &mut PayloadStorage)
    requires
        html_readable(*payload),
    ensures
        final(storage).records().len() == old(storage).records().len() + 1,
        final(storage).records().drop_last() == old(storage).records(),
        payload_record(*payload, timestamp@, final(storage).records().last()),
{
    let entry = payload_entry(payload, timestamp);
    storage.add_payload(entry);
    proof {
        assert(storage.records().drop_last() =~= old(storage).records());
    }
}

} // verus!
