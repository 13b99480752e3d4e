//! Markdown, label and summary of a cache operation.
use vstd::prelude::*;

use crate::details::{as_double, double_value};
use crate::event_data::{cache_event_wf, opt_text, CacheEvent};
use crate::events::{cache_description, cache_summary};
use crate::json::{fields_view, items_view, json_view, pretty, pretty_text, DoubleText, Json};
use crate::processors::len_bytes;
use crate::renderers::{only_if, opt_paragraph};
use crate::text::{byte_len, decimal, digit_char, push_str, to_string, u64_to_string};

verus! {

/// `n / d` in hundredths, rounded to the nearest and, on a tie, to the even one: how `{:.2}`
/// prints the quotient when it is exact in binary.
pub open spec fn hundredths_half_even(n: nat, d: nat) -> nat
    recommends
        d > 0,
{
    let q = (n * 100) / d;
    let r = (n * 100) % d;
    if 2 * r > d {
        q + 1
    } else if 2 * r < d {
        q
    } else if q % 2 == 1 {
        q + 1
    } else {
        q
    }
}

/// A count of hundredths written with two decimals.
pub open spec fn two_decimals(h: nat) -> Seq<char> {
    decimal(h / 100) + seq!['.', digit_char(((h / 10) % 10) as int), digit_char((h % 10) as int)]
}

/// `size / 1024` with two decimals, `size` taken as a double: a byte count in kilobytes.
pub open spec fn kilobytes_text(size: nat) -> Seq<char> {
    two_decimals(hundredths_half_even(as_double(size), 1024))
}

/// A byte count in kilobytes, with two decimals.
pub fn kilobytes(size: usize) -> (s: String)
    ensures
        s@ == kilobytes_text(size as nat),
{
    let d = double_value(size as u64);
    let prod: u128 = d * 100;
    let q: u128 = prod / 1024;
    let r: u128 = prod % 1024;
    let h: u128 = if 2 * r > 1024 {
        q + 1
    } else if 2 * r < 1024 {
        q
    } else if q % 2 == 1 {
        q + 1
    } else {
        q
    };
    assert(h == hundredths_half_even(as_double(size as nat), 1024));
    assert(h / 100 <= u64::MAX) by {
        assert(q <= prod);
    }
    let whole = u64_to_string((h / 100) as u64);
    let tens = u64_to_string(((h / 10) % 10) as u64);
    let ones = u64_to_string((h % 10) as u64);
    let mut s = whole;
    push_str(&mut s, ".");
    push_str(&mut s, tens.as_str());
    push_str(&mut s, ones.as_str());
    proof {
        reveal_strlit(".");
        assert(s@ =~= kilobytes_text(size as nat));
    }
    s
}

/// An expiration, in hours past an hour, in minutes past a minute.
pub open spec fn expiration_text(seconds: u64, d: DoubleText) -> Seq<char> {
    if seconds > 3600 {
        d.per_hour_fixed2@ + " hours ("@ + decimal(seconds as nat) + " seconds)"@
    } else if seconds > 60 {
        d.per_minute_fixed1@ + " minutes ("@ + decimal(seconds as nat) + " seconds)"@
    } else {
        decimal(seconds as nat) + " seconds"@
    }
}

/// The expiration section, when the expiration is known.
pub open spec fn expiration_section(seconds: Option<u64>, d: Option<DoubleText>) -> Seq<char> {
    match (seconds, d) {
        (Some(s), Some(d)) => "### Expiration\n"@ + expiration_text(s, d) + "\n\n"@,
        _ => Seq::empty(),
    }
}

/// The expiration section of a cache event.
pub open spec fn expiration_part(ev: CacheEvent) -> Seq<char> {
    expiration_section(ev.expiration_seconds, ev.expiration)
}

/// How a cached value is shown: placeholders for empty and null values, pretty JSON
/// otherwise, with its size past 1000 bytes.
pub open spec fn value_body(v: Json) -> Seq<char> {
    if v matches Json::Array(items) && items@.len() == 0 {
        "```json\n[]\n```\n\n*Empty array*\n"@
    } else if v matches Json::Object(fields) && fields@.len() == 0 {
        "```json\n{}\n```\n\n*Empty object*\n"@
    } else if v is Null {
        "```\nnull\n```\n\n*Null value*\n"@
    } else {
        let p = pretty_text(json_view(v));
        "```json\n"@ + p + "\n```\n"@ + only_if(
            len_bytes(p) > 1000,
            "\n*Size: "@ + kilobytes_text(len_bytes(p) as nat) + " KB*\n"@,
        )
    }
}

/// Items keep their number in the view.
pub proof fn lemma_items_view_len(s: Seq<Json>)
    ensures
        items_view(s).len() == s.len(),
    decreases s.len(),
{
    if s.len() > 0 {
        lemma_items_view_len(s.drop_last());
    }
}

/// Fields keep their number in the view.
pub proof fn lemma_fields_view_len(s: Seq<(String, Json)>)
    ensures
        fields_view(s).len() == s.len(),
    decreases s.len(),
{
    if s.len() > 0 {
        lemma_fields_view_len(s.drop_last());
    }
}

/// How a value is shown depends on its view alone.
pub proof fn lemma_value_body_by_view(a: Json, b: Json)
    requires
        json_view(a) == json_view(b),
    ensures
        value_body(a) == value_body(b),
{
    match (a, b) {
        (Json::Array(x), Json::Array(y)) => {
            lemma_items_view_len(x@);
            lemma_items_view_len(y@);
        },
        (Json::Object(x), Json::Object(y)) => {
            lemma_fields_view_len(x@);
            lemma_fields_view_len(y@);
        },
        _ => {},
    }
}

/// The value section.
pub open spec fn value_part(value: Option<Json>) -> Seq<char> {
    match value {
        Some(v) => "### Value\n"@ + value_body(v),
        None => "### Value\n*No value provided*\n"@,
    }
}

/// The tags, store and original TTL, when any is known.
pub open spec fn metadata_section(
    tags: Option<Seq<char>>,
    store: Option<Seq<char>>,
    ttl: Option<Seq<char>>,
) -> Seq<char> {
    only_if(
        tags is Some || store is Some || ttl is Some,
        "\n### Additional Information\n"@ + opt_paragraph(tags, "- **Tags**: "@, "\n"@)
            + opt_paragraph(store, "- **Cache Store**: "@, "\n"@) + opt_paragraph(
            ttl,
            "- **Original TTL**: "@,
            "\n"@,
        ),
    )
}

/// The metadata section of a cache event.
pub open spec fn metadata_part(ev: CacheEvent) -> Seq<char> {
    metadata_section(opt_text(ev.tags), opt_text(ev.store), opt_text(ev.ttl))
}

/// Markdown of a cache operation.
pub open spec fn cache_markdown(ev: CacheEvent) -> Seq<char> {
    "## Cache Operation: "@ + ev.operation@ + "\n\n"@ + "### Key\n```\n"@ + ev.key@
        + "\n```\n\n"@ + expiration_part(ev) + value_part(ev.value) + metadata_part(ev)
}

pub(crate) fn push_expiration(md: &mut String, seconds: Option<u64>, double: &Option<DoubleText>)
    requires
        seconds is Some ==> double is Some,
    ensures
        final(md)@ == old(md)@ + expiration_section(seconds, *double),
{
    if let Some(e) = seconds {
        let d = match double {
            Some(d) => d,
            None => {
                assert(false);
                return;
            },
        };
        let ghost start = md@;
        push_str(md, "### Expiration\n");
        let secs = u64_to_string(e);
        if e > 3600 {
            push_str(md, d.per_hour_fixed2.as_str());
            push_str(md, " hours (");
            push_str(md, secs.as_str());
            push_str(md, " seconds)");
        } else if e > 60 {
            push_str(md, d.per_minute_fixed1.as_str());
            push_str(md, " minutes (");
            push_str(md, secs.as_str());
            push_str(md, " seconds)");
        } else {
            push_str(md, secs.as_str());
            push_str(md, " seconds");
        }
        push_str(md, "\n\n");
        proof {
            assert(md@ =~= start + expiration_section(seconds, *double));
        }
    }
}

pub(crate) fn push_value_body(md: &mut String, v: &Json)
    ensures
        final(md)@ == old(md)@ + value_body(*v),
{
    let ghost start = md@;
    let empty_array = match v {
        Json::Array(items) => items.len() == 0,
        _ => false,
    };
    let empty_object = match v {
        Json::Object(fields) => fields.len() == 0,
        _ => false,
    };
    if empty_array {
        push_str(md, "```json\n[]\n```\n\n*Empty array*\n");
    } else if empty_object {
        push_str(md, "```json\n{}\n```\n\n*Empty object*\n");
    } else if v.is_null() {
        push_str(md, "```\nnull\n```\n\n*Null value*\n");
    } else {
        let p = pretty(v);
        push_str(md, "```json\n");
        push_str(md, p.as_str());
        push_str(md, "\n```\n");
        let size = byte_len(p.as_str());
        if size > 1000 {
            push_str(md, "\n*Size: ");
            let kb = kilobytes(size);
            push_str(md, kb.as_str());
            push_str(md, " KB*\n");
        }
    }
    proof {
        assert(md@ =~= start + value_body(*v));
    }
}

pub(crate) fn push_value(md: &mut String, value: Option<&Json>)
    ensures
        final(md)@ == old(md)@ + value_part(match value {
            Some(v) => Some(*v),
            None => None,
        }),
{
    match value {
        None => {
            push_str(md, "### Value\n*No value provided*\n");
        },
        Some(v) => {
            push_str(md, "### Value\n");
            push_value_body(md, v);
        },
    }
}

pub(crate) fn push_metadata(
    md: &mut String,
    tags: &Option<String>,
    store: &Option<String>,
    ttl: &Option<String>,
)
    ensures
        final(md)@ == old(md)@ + metadata_section(opt_text(*tags), opt_text(*store), opt_text(*ttl)),
{
    if tags.is_some() || store.is_some() || ttl.is_some() {
        let ghost start = md@;
        push_str(md, "\n### Additional Information\n");
        if let Some(t) = tags {
            push_str(md, "- **Tags**: ");
            push_str(md, t.as_str());
            push_str(md, "\n");
        }
        if let Some(t) = store {
            push_str(md, "- **Cache Store**: ");
            push_str(md, t.as_str());
            push_str(md, "\n");
        }
        if let Some(t) = ttl {
            push_str(md, "- **Original TTL**: ");
            push_str(md, t.as_str());
            push_str(md, "\n");
        }
        proof {
            assert(md@ =~= start + metadata_section(opt_text(*tags), opt_text(*store), opt_text(*ttl)));
        }
    }
}

/// The markdown body of a cache operation: operation, key, expiration, value and metadata.
pub fn render_cache_markdown(cache_event: &CacheEvent) -> (s: String)
    requires
        cache_event_wf(*cache_event),
    ensures
        s@ == cache_markdown(*cache_event),
{
    let ev = cache_event;
    let mut md = to_string("## Cache Operation: ");
    push_str(&mut md, ev.operation.as_str());
    push_str(&mut md, "\n\n");
    push_str(&mut md, "### Key\n```\n");
    push_str(&mut md, ev.key.as_str());
    push_str(&mut md, "\n```\n\n");
    push_expiration(&mut md, ev.expiration_seconds, &ev.expiration);
    push_value(&mut md, ev.value.as_ref());
    push_metadata(&mut md, &ev.tags, &ev.store, &ev.ttl);
    proof {
        assert(md@ =~= cache_markdown(*ev));
    }
    md
}

/// `Cache: <operation>`.
pub fn get_cache_label(cache_event: &CacheEvent) -> (s: String)
    ensures
        s@ == "Cache: "@ + cache_event.operation@,
{
    let mut l = to_string("Cache: ");
    push_str(&mut l, cache_event.operation.as_str());
    l
}

/// The summary of a cache operation, worded by operation.
pub fn get_cache_description(cache_event: &CacheEvent) -> (s: String)
    ensures
        s@ == cache_description(cache_event.operation@, cache_event.key@),
{
    cache_summary(cache_event.operation.as_str(), cache_event.key.as_str())
}

} // verus!
