//! What the detail panel shows of structured event data, item by item: cache metadata, HTTP
//! performance figures, table fields, and where an event comes from.
use vstd::prelude::*;

use crate::event_data::{opt_text, CacheEvent, HttpEvent, HttpEventType};
use crate::json::{
    compact, compact_text, get, get_str, get_u64, json_view, pretty, pretty_text, DoubleText, Json,
};
use crate::processors::{query_time, query_time_of, str_field, str_field_or, str_or, str_or_empty, u64_field_or_zero, u64_or_zero};
use crate::text::{
    decimal, digit_char, lemma_text_before_asymmetric, lemma_text_before_total,
    lemma_text_before_transitive, push_str, str_before, str_eq, text_before, to_string, u64_to_string,
};

verus! {

/// One labelled figure of the detail panel.
pub struct Item {
    pub label: String,
    pub value: String,
}

/// The `(label, value)` texts of items.
pub open spec fn items_text(items: Seq<Item>) -> Seq<(Seq<char>, Seq<char>)>
    decreases items.len(),
{
    if items.len() == 0 {
        Seq::empty()
    } else {
        items_text(items.drop_last()).push((items.last().label@, items.last().value@))
    }
}

fn push_item(items: &mut Vec<Item>, label: &str, value: String)
    ensures
        items_text(final(items)@) == items_text(old(items)@).push((label@, value@)),
{
    let ghost before = items@;
    items.push(Item { label: to_string(label), value });
    proof {
        assert(items@.drop_last() =~= before);
    }
}

// ---------------------------------------------------------------- cache

/// A cache expiration in short form: hours or minutes with one decimal past an hour or a
/// minute, else seconds.
pub open spec fn short_duration(seconds: u64, d: DoubleText) -> Seq<char> {
    if seconds > 3600 {
        d.per_hour_fixed1@ + "h"@
    } else if seconds > 60 {
        d.per_minute_fixed1@ + "m"@
    } else {
        decimal(seconds as nat) + "s"@
    }
}

/// A cache expiration in short form, from its seconds and their double reading.
pub fn format_duration(seconds: u64, d: &DoubleText) -> (s: String)
    ensures
        s@ == short_duration(seconds, *d),
{
    if seconds > 3600 {
        let mut s = to_string(d.per_hour_fixed1.as_str());
        push_str(&mut s, "h");
        s
    } else if seconds > 60 {
        let mut s = to_string(d.per_minute_fixed1.as_str());
        push_str(&mut s, "m");
        s
    } else {
        let mut s = u64_to_string(seconds);
        push_str(&mut s, "s");
        s
    }
}

/// Whether a cache event has any metadata to show.
pub fn has_cache_metadata(ev: &CacheEvent) -> (b: bool)
    ensures
        b == (ev.expiration_seconds is Some || ev.tags is Some || ev.store is Some || ev.ttl is Some),
{
    ev.expiration_seconds.is_some() || ev.tags.is_some() || ev.store.is_some() || ev.ttl.is_some()
}

/// An item when its value is there.
pub open spec fn opt_item(label: Seq<char>, value: Option<Seq<char>>) -> Seq<(Seq<char>, Seq<char>)> {
    match value {
        Some(v) => seq![(label, v)],
        None => Seq::empty(),
    }
}

/// The metadata items of a cache event: expiration, tags, store and TTL, each when known.
pub open spec fn cache_metadata(ev: CacheEvent) -> Seq<(Seq<char>, Seq<char>)> {
    opt_item(
        "Expires:"@,
        match (ev.expiration_seconds, ev.expiration) {
            (Some(s), Some(d)) => Some(short_duration(s, d)),
            _ => None,
        },
    ) + opt_item("Tags:"@, opt_text(ev.tags)) + opt_item("Store:"@, opt_text(ev.store))
        + opt_item("TTL:"@, opt_text(ev.ttl))
}

fn push_opt_item(items: &mut Vec<Item>, label: &str, value: &Option<String>)
    ensures
        items_text(final(items)@) == items_text(old(items)@) + opt_item(label@, opt_text(*value)),
{
    match value {
        Some(v) => push_item(items, label, to_string(v.as_str())),
        None => {
            assert(items_text(old(items)@) + Seq::<(Seq<char>, Seq<char>)>::empty() =~= items_text(
                old(items)@,
            ));
        },
    }
    proof {
        assert(items_text(items@) =~= items_text(old(items)@) + opt_item(label@, opt_text(*value)));
    }
}

/// The metadata items of a cache event, in the order the panel shows them.
pub fn cache_metadata_items(ev: &CacheEvent) -> (items: Vec<Item>)
    requires
        ev.expiration_seconds is Some ==> ev.expiration is Some,
    ensures
        items_text(items@) == cache_metadata(*ev),
{
    let mut items: Vec<Item> = Vec::new();
    let expires: Option<String> = match (ev.expiration_seconds, &ev.expiration) {
        (Some(s), Some(d)) => Some(format_duration(s, d)),
        _ => None,
    };
    push_opt_item(&mut items, "Expires:", &expires);
    push_opt_item(&mut items, "Tags:", &ev.tags);
    push_opt_item(&mut items, "Store:", &ev.store);
    push_opt_item(&mut items, "TTL:", &ev.ttl);
    proof {
        assert(opt_text(expires) == match (ev.expiration_seconds, ev.expiration) {
            (Some(s), Some(d)) => Some(short_duration(s, d)),
            _ => None,
        });
        assert(items_text(items@) =~= cache_metadata(*ev));
    }
    items
}

// ---------------------------------------------------------------- byte counts

/// 2^53: integers below it are exact as doubles.
pub open spec fn exact_limit() -> nat {
    0x20_0000_0000_0000
}

/// The step between neighbouring doubles around `b`: 1 below 2^53, doubling with each bit
/// past it.
pub open spec fn double_step(b: nat) -> nat
    decreases b,
{
    if b < exact_limit() {
        1
    } else {
        2 * double_step(b / 2)
    }
}

/// `b` converted to a double: rounded to a multiple of its step, to the nearest, and on a tie
/// to an even multiple.
pub open spec fn as_double(b: nat) -> nat {
    let p = double_step(b);
    let q = b / p;
    let rem = b % p;
    if 2 * rem > p || (2 * rem == p && q % 2 == 1) {
        (q + 1) * p
    } else {
        q * p
    }
}

/// 1024 to the `k`.
pub open spec fn pow1024(k: nat) -> nat
    decreases k,
{
    if k == 0 {
        1
    } else {
        1024 * pow1024((k - 1) as nat)
    }
}

/// How many times a size is divided by 1024 before it is shown: while it is at least 1024,
/// at most three times.
pub open spec fn unit_steps(r: nat, k: nat) -> nat
    decreases 3 - k,
{
    if k < 3 && r / pow1024(k) >= 1024 {
        unit_steps(r, k + 1)
    } else {
        k
    }
}

/// The unit after `k` divisions.
pub open spec fn unit_name(k: nat) -> Seq<char> {
    if k == 0 {
        "B"@
    } else if k == 1 {
        "KB"@
    } else if k == 2 {
        "MB"@
    } else {
        "GB"@
    }
}

/// `n / d` in tenths, rounded to the nearest and, on a tie, to the even one.
pub open spec fn tenths_half_even(n: nat, d: nat) -> nat {
    let q = (n * 10) / d;
    let rem = (n * 10) % d;
    if 2 * rem > d || (2 * rem == d && q % 2 == 1) {
        q + 1
    } else {
        q
    }
}

/// A byte count as the panel shows it: converted to a double, divided by 1024 while it is at
/// least 1024 (up to gigabytes), then whole or with one decimal.
pub open spec fn bytes_text(bytes: u64) -> Seq<char> {
    let r = as_double(bytes as nat);
    let k = unit_steps(r, 0);
    let d = pow1024(k);
    if r % d == 0 {
        decimal(r / d) + unit_name(k)
    } else {
        let t = tenths_half_even(r, d);
        decimal(t / 10) + seq!['.', digit_char((t % 10) as int)] + unit_name(k)
    }
}

/// Sizes below a kilobyte are shown exactly, in bytes.
pub proof fn law_small_sizes_in_bytes(bytes: u64)
    requires
        bytes < 1024,
    ensures
        bytes_text(bytes) == decimal(bytes as nat) + "B"@,
{
    assert(double_step(bytes as nat) == 1);
    assert(as_double(bytes as nat) == bytes);
    assert(pow1024(0) == 1);
    assert(unit_steps(bytes as nat, 0) == 0);
}

proof fn lemma_double_step_bounds(b: nat)
    ensures
        double_step(b) >= 1,
        b / double_step(b) < exact_limit(),
        b >= exact_limit() ==> double_step(b) * 0x10_0000_0000_0000 <= b,
        b < 0x1_0000_0000_0000_0000 ==> double_step(b) <= 4096,
    decreases b,
{
    if b >= exact_limit() {
        lemma_double_step_bounds(b / 2);
        let p = double_step(b / 2);
        assert(p >= 1);
        vstd::arithmetic::div_mod::lemma_div_denominator(b as int, 2, p as int);
        assert(b / double_step(b) == (b / 2) / p);
        if b / 2 >= exact_limit() {
            assert(2 * p * 0x10_0000_0000_0000 <= b) by (nonlinear_arith)
                requires
                    p * 0x10_0000_0000_0000 <= b / 2,
            ;
        } else {
            assert(p == 1);
        }
        if b < 0x1_0000_0000_0000_0000 {
            assert(double_step(b) <= 4096) by (nonlinear_arith)
                requires
                    double_step(b) * 0x10_0000_0000_0000 <= b,
                    b < 0x1_0000_0000_0000_0000,
            ;
        }
    }
}

/// The step of `b`, and `b` divided by it.
fn step_of(b: u64) -> (r: (u128, u128))
    ensures
        r.0 == double_step(b as nat),
        r.1 == (b as nat) / double_step(b as nat),
{
    proof {
        lemma_double_step_bounds(b as nat);
    }
    let mut p: u128 = 1;
    let mut v: u128 = b as u128;
    while v >= 0x20_0000_0000_0000
        invariant
            p >= 1,
            double_step(b as nat) <= 4096,
            v == (b as nat) / (p as nat),
            double_step(b as nat) == p * double_step(v as nat),
        decreases v,
    {
        proof {
            vstd::arithmetic::div_mod::lemma_div_denominator(b as int, p as int, 2);
            lemma_double_step_bounds((v / 2) as nat);
            assert(double_step(v as nat) == 2 * double_step((v / 2) as nat));
            assert(p * double_step(v as nat) == (p * 2) * double_step((v / 2) as nat)) by (nonlinear_arith)
                requires
                    double_step(v as nat) == 2 * double_step((v / 2) as nat),
            ;
            assert(p * 2 <= 4096) by (nonlinear_arith)
                requires
                    (p * 2) * double_step((v / 2) as nat) <= 4096,
                    double_step((v / 2) as nat) >= 1,
            ;
        }
        v = v / 2;
        p = p * 2;
    }
    proof {
        assert(double_step(v as nat) == 1);
        assert(p * double_step(v as nat) == p) by (nonlinear_arith)
            requires
                double_step(v as nat) == 1,
        ;
    }
    (p, v)
}

/// The items count of a text in one decimal place.
fn push_tenths(s: &mut String, t: u128)
    requires
        t / 10 <= u64::MAX,
    ensures
        final(s)@ == old(s)@ + decimal((t / 10) as nat) + seq!['.', digit_char((t % 10) as int)],
{
    let whole = u64_to_string((t / 10) as u64);
    push_str(s, whole.as_str());
    push_str(s, ".");
    let d = u64_to_string((t % 10) as u64);
    push_str(s, d.as_str());
    proof {
        reveal_strlit(".");
    }
}

/// A byte count converted to a double, as an integer.
pub(crate) fn double_value(b: u64) -> (r: u128)
    ensures
        r == as_double(b as nat),
        r <= 0x2_0000_0000_0000_0000,
{
    let (p, q) = step_of(b);
    proof {
        lemma_double_step_bounds(b as nat);
    }
    let rem: u128 = (b as u128) % p;
    assert((q + 1) * p <= 0x2_0000_0000_0000_0000 && q * p <= (q + 1) * p) by (nonlinear_arith)
        requires
            q < 0x20_0000_0000_0000,
            1 <= p <= 4096,
    ;
    let r: u128 = if 2 * rem > p || (2 * rem == p && q % 2 == 1) {
        (q + 1) * p
    } else {
        q * p
    };
    r
}

/// A byte count with its unit: `B`, `KB`, `MB` or `GB`, whole or with one decimal.
pub fn format_bytes(bytes: u64) -> (s: String)
    ensures
        s@ == bytes_text(bytes),
{
    let r = double_value(bytes);
    let mut k: u64 = 0;
    let mut d: u128 = 1;
    proof {
        reveal_with_fuel(pow1024, 4);
    }
    while k < 3 && r / d >= 1024
        invariant
            k <= 3,
            d == pow1024(k as nat),
            1 <= d <= 0x4000_0000,
            k < 3 ==> d * 1024 <= 0x4000_0000,
            unit_steps(r as nat, 0) == unit_steps(r as nat, k as nat),
            r <= 0x2_0000_0000_0000_0000,
        decreases 3 - k,
    {
        proof {
            reveal_with_fuel(pow1024, 4);
        }
        d = d * 1024;
        k = k + 1;
    }
    proof {
        reveal_with_fuel(pow1024, 4);
        assert(unit_steps(r as nat, k as nat) == k);
        if k == 3 {
            assert(d == 0x4000_0000);
            assert(r / d <= 0x8_0000_0000) by (nonlinear_arith)
                requires
                    d == 0x4000_0000,
                    r <= 0x2_0000_0000_0000_0000,
            ;
        } else {
            assert(r / d < 1024);
        }
    }
    let unit = if k == 0 {
        "B"
    } else if k == 1 {
        "KB"
    } else if k == 2 {
        "MB"
    } else {
        "GB"
    };
    let mut s = String::new();
    if r % d == 0 {
        let whole = u64_to_string((r / d) as u64);
        push_str(&mut s, whole.as_str());
    } else {
        let n10: u128 = r * 10;
        let t0: u128 = n10 / d;
        let rem10: u128 = n10 % d;
        let t: u128 = if 2 * rem10 > d || (2 * rem10 == d && t0 % 2 == 1) {
            t0 + 1
        } else {
            t0
        };
        assert(t == tenths_half_even(r as nat, d as nat));
        assert(t / 10 <= r / d + 1) by (nonlinear_arith)
            requires
                t0 == (r * 10) / (d as int),
                t <= t0 + 1,
                d >= 1,
        {
            assert(r * 10 < (r / d + 1) * d * 10);
        }
        push_tenths(&mut s, t);
    }
    push_str(&mut s, unit);
    proof {
        reveal_strlit("B");
        reveal_strlit("KB");
        reveal_strlit("MB");
        reveal_strlit("GB");
        assert(s@ =~= bytes_text(bytes));
    }
    s
}

// ---------------------------------------------------------------- HTTP performance

/// A time in seconds shown in whole milliseconds.
pub open spec fn millis_text(d: DoubleText) -> Seq<char> {
    decimal(d.thousandfold_whole as nat) + "ms"@
}

/// The performance items of an HTTP event: duration and connection time in milliseconds and
/// size, each when known.
pub open spec fn performance_metrics(ev: HttpEvent) -> Seq<(Seq<char>, Seq<char>)> {
    opt_item(
        "Duration:"@,
        match ev.duration_seconds {
            Some(d) => Some(millis_text(d)),
            None => None,
        },
    ) + opt_item(
        "Connection:"@,
        match ev.connection_time_seconds {
            Some(d) => Some(millis_text(d)),
            None => None,
        },
    ) + opt_item(
        "Size:"@,
        match ev.size_bytes {
            Some(b) => Some(bytes_text(b)),
            None => None,
        },
    )
}

/// The performance items show what is known, in order (duration, connection time, size),
/// and both times in whole milliseconds: the seconds times 1000, cut to a whole number, and
/// `ms`. Two equal times show the same text.
pub proof fn law_performance_items_in_millis(ev: HttpEvent)
    ensures
        performance_metrics(ev).len() == (if ev.duration_seconds is Some { 1int } else { 0 }) + (
        if ev.connection_time_seconds is Some { 1int } else { 0 }) + (if ev.size_bytes is Some {
            1int
        } else {
            0
        }),
        ev.duration_seconds matches Some(d) ==> performance_metrics(ev)[0] == (
            "Duration:"@,
            decimal(d.thousandfold_whole as nat) + "ms"@,
        ),
        ev.connection_time_seconds matches Some(d) ==> performance_metrics(ev)[if ev.duration_seconds is Some {
            1int
        } else {
            0
        }] == ("Connection:"@, decimal(d.thousandfold_whole as nat) + "ms"@),
        ev.duration_seconds matches Some(a) ==> (ev.connection_time_seconds matches Some(b) ==> (a
            == b ==> performance_metrics(ev)[0].1 == performance_metrics(ev)[1].1)),
{
}

fn millis_of(d: &DoubleText) -> (s: String)
    ensures
        s@ == millis_text(*d),
{
    let mut s = u64_to_string(d.thousandfold_whole);
    push_str(&mut s, "ms");
    s
}

/// The performance items of an HTTP event, in the order the panel shows them; the section is
/// shown when there is any.
pub fn performance_items(ev: &HttpEvent) -> (items: Vec<Item>)
    ensures
        items_text(items@) == performance_metrics(*ev),
{
    let mut items: Vec<Item> = Vec::new();
    let duration: Option<String> = match &ev.duration_seconds {
        Some(d) => Some(millis_of(d)),
        None => None,
    };
    let connection: Option<String> = match &ev.connection_time_seconds {
        Some(d) => Some(millis_of(d)),
        None => None,
    };
    let size: Option<String> = match ev.size_bytes {
        Some(b) => Some(format_bytes(b)),
        None => None,
    };
    push_opt_item(&mut items, "Duration:", &duration);
    push_opt_item(&mut items, "Connection:", &connection);
    push_opt_item(&mut items, "Size:", &size);
    proof {
        assert(items_text(items@) =~= performance_metrics(*ev));
    }
    items
}

// ---------------------------------------------------------------- tables and origins

/// How a table's values are shown: each field with its pretty JSON, or the whole value as
/// pretty JSON when it is not an object.
pub enum TableData {
    Fields(Vec<Item>),
    Raw(String),
}

/// The field items of an object.
pub open spec fn field_items(fields: Seq<(String, Json)>) -> Seq<(Seq<char>, Seq<char>)>
    decreases fields.len(),
{
    if fields.len() == 0 {
        Seq::empty()
    } else {
        field_items(fields.drop_last()).push(
            (fields.last().0@, pretty_text(json_view(fields.last().1))),
        )
    }
}

/// How a table's values are shown.
pub fn table_data_view(values: &Json) -> (r: TableData)
    ensures
        match (r, *values) {
            (TableData::Fields(items), Json::Object(fields)) => items_text(items@) == field_items(
                fields@,
            ),
            (TableData::Raw(text), v) => !(v is Object) && text@ == pretty_text(json_view(v)),
            _ => false,
        },
{
    match values {
        Json::Object(fields) => {
            let mut items: Vec<Item> = Vec::new();
            let mut i: usize = 0;
            while i < fields.len()
                invariant
                    i <= fields.len(),
                    items_text(items@) == field_items(fields@.take(i as int)),
                decreases fields.len() - i,
            {
                proof {
                    assert(fields@.take(i + 1).drop_last() =~= fields@.take(i as int));
                }
                let (k, v) = &fields[i];
                let p = pretty(v);
                push_item(&mut items, k.as_str(), p);
                i += 1;
            }
            proof {
                assert(fields@.take(fields.len() as int) =~= fields@);
            }
            TableData::Fields(items)
        },
        _ => TableData::Raw(pretty(values)),
    }
}

/// Where a payload says it comes from: `file:line` (empty file and line 0 when absent), when
/// it has an `origin`.
pub open spec fn origin_text(payload: Json) -> Option<Seq<char>> {
    match get(payload, "origin"@) {
        Some(o) => Some(
            (match get_str(o, "file"@) {
                Some(f) => f,
                None => Seq::empty(),
            }) + ":"@ + decimal(
                match get_u64(o, "line_number"@) {
                    Some(n) => n as nat,
                    None => 0,
                },
            ),
        ),
        None => None,
    }
}

/// `file:line` of a payload's origin, when it has one.
pub fn origin_line(payload: &Json) -> (r: Option<String>)
    ensures
        opt_text(r) == origin_text(*payload),
{
    match payload.get("origin") {
        Some(o) => {
            let mut s = str_field(o, "file");
            push_str(&mut s, ":");
            let line = u64_field_or_zero(o, "line_number");
            let digits = u64_to_string(line);
            push_str(&mut s, digits.as_str());
            Some(s)
        },
        None => None,
    }
}

// ---------------------------------------------------------------- tones

/// The colour family a badge is drawn in.
#[derive(Clone, Copy, PartialEq, Eq, Structural, Debug)]
pub enum Tone {
    Positive,
    Caution,
    Negative,
    Informative,
    Neutral,
}

/// The tone of a cache operation: a hit is good news, a miss a warning, a write
/// informative, a forgotten key bad news.
pub open spec fn operation_tone_of(operation: Seq<char>) -> Tone {
    if operation == "Hit"@ {
        Tone::Positive
    } else if operation == "Missed"@ {
        Tone::Caution
    } else if operation == "Key written"@ {
        Tone::Informative
    } else if operation == "Forgotten"@ {
        Tone::Negative
    } else {
        Tone::Neutral
    }
}

/// The tone of a cache operation's badge.
pub fn operation_tone(operation: &str) -> (t: Tone)
    ensures
        t == operation_tone_of(operation@),
{
    if str_eq(operation, "Hit") {
        Tone::Positive
    } else if str_eq(operation, "Missed") {
        Tone::Caution
    } else if str_eq(operation, "Key written") {
        Tone::Informative
    } else if str_eq(operation, "Forgotten") {
        Tone::Negative
    } else {
        Tone::Neutral
    }
}

/// The tone of an HTTP status: success for 2xx, a warning for 3xx, an error from 400 on.
pub open spec fn status_tone(status: Option<u64>) -> Tone {
    match status {
        Some(s) => if 200 <= s < 300 {
            Tone::Positive
        } else if s >= 400 {
            Tone::Negative
        } else if s >= 300 {
            Tone::Caution
        } else {
            Tone::Neutral
        },
        None => Tone::Neutral,
    }
}

/// The badge of an HTTP event: a request's method (`GET` when unknown), drawn as good news;
/// a response's status (`Response` when unknown), drawn by its tone.
pub open spec fn badge_of(ev: HttpEvent) -> (Seq<char>, Tone) {
    match ev.event_type {
        HttpEventType::Request => (
            match opt_text(ev.method) {
                Some(m) => m,
                None => "GET"@,
            },
            Tone::Positive,
        ),
        HttpEventType::Response => (
            match ev.status_code {
                Some(s) => decimal(s as nat),
                None => "Response"@,
            },
            status_tone(ev.status_code),
        ),
    }
}

/// The badge of an HTTP event.
pub fn http_badge(ev: &HttpEvent) -> (r: (String, Tone))
    ensures
        (r.0@, r.1) == badge_of(*ev),
{
    match ev.event_type {
        HttpEventType::Request => {
            let text = match &ev.method {
                Some(m) => to_string(m.as_str()),
                None => to_string("GET"),
            };
            (text, Tone::Positive)
        },
        HttpEventType::Response => {
            let text = match ev.status_code {
                Some(s) => u64_to_string(s),
                None => to_string("Response"),
            };
            let tone = match ev.status_code {
                Some(s) => if 200 <= s && s < 300 {
                    Tone::Positive
                } else if s >= 400 {
                    Tone::Negative
                } else if s >= 300 {
                    Tone::Caution
                } else {
                    Tone::Neutral
                },
                None => Tone::Neutral,
            };
            (text, tone)
        },
    }
}

/// The body of an HTTP event as the panel shows it: pretty JSON when its type is `Json`,
/// compact JSON otherwise.
pub fn http_body_text(ev: &HttpEvent) -> (r: Option<String>)
    ensures
        match ev.body {
            Some(b) => r matches Some(t) && t@ == (if opt_text(ev.content_type) == Some("Json"@) {
                pretty_text(json_view(b))
            } else {
                compact_text(json_view(b))
            }),
            None => r is None,
        },
{
    match &ev.body {
        Some(b) => {
            let is_json = match &ev.content_type {
                Some(t) => str_eq(t.as_str(), "Json"),
                None => false,
            };
            Some(if is_json { pretty(b) } else { compact(b) })
        },
        None => None,
    }
}

/// The header names, position by position.
pub open spec fn header_keys(headers: Seq<(String, Json)>) -> Seq<Seq<char>> {
    Seq::new(headers.len(), |k: int| headers[k].0@)
}

/// Whether `order` lists every position of `keys` exactly once, each key sorting no later
/// than the one after it.
pub open spec fn sorted_order(keys: Seq<Seq<char>>, order: Seq<usize>) -> bool {
    &&& order.len() == keys.len()
    &&& forall|i: int| 0 <= i < order.len() ==> order[i] < keys.len()
    &&& forall|i: int, j: int| 0 <= i < j < order.len() ==> order[i] != order[j]
    &&& forall|i: int, j: int|
        0 <= i < j < order.len() ==> !text_before(
            #[trigger] keys[order[j] as int],
            #[trigger] keys[order[i] as int],
        )
}

/// The positions of the headers in the order of their names.
pub fn header_order(headers: &Vec<(String, Json)>) -> (order: Vec<usize>)
    ensures
        sorted_order(header_keys(headers@), order@),
{
    let ghost keys = header_keys(headers@);
    let mut order: Vec<usize> = Vec::new();
    let mut j: usize = 0;
    while j < headers.len()
        invariant
            keys == header_keys(headers@),
            j <= headers.len(),
            order.len() == j,
            forall|i: int| 0 <= i < order.len() ==> order[i] < j,
            forall|a: int, b: int| 0 <= a < b < order.len() ==> order[a] != order[b],
            forall|a: int, b: int|
                0 <= a < b < order.len() ==> !text_before(
                    #[trigger] keys[order[b] as int],
                    #[trigger] keys[order[a] as int],
                ),
        decreases headers.len() - j,
    {
        let key = headers[j].0.as_str();
        let mut p: usize = 0;
        loop
            invariant
                keys == header_keys(headers@),
                j < headers.len(),
                key@ == keys[j as int],
                order.len() == j,
                forall|i: int| 0 <= i < order.len() ==> order[i] < j,
                p <= order.len(),
                forall|q: int| 0 <= q < p ==> !text_before(keys[j as int], #[trigger] keys[order[q] as int]),
            ensures
                p <= order.len(),
                forall|q: int| 0 <= q < p ==> !text_before(keys[j as int], #[trigger] keys[order[q] as int]),
                p < order.len() ==> text_before(keys[j as int], keys[order[p as int] as int]),
            decreases order.len() - p,
        {
            if p == order.len() {
                break;
            }
            let k = order[p];
            if str_before(key, headers[k].0.as_str()) {
                break;
            }
            p += 1;
        }
        let ghost old_order = order@;
        order.insert(p, j);
        proof {
            assert(order@ == old_order.insert(p as int, j));
            assert forall|a: int, b: int| 0 <= a < b < order.len() implies !text_before(
                #[trigger] keys[order[b] as int],
                #[trigger] keys[order[a] as int],
            ) by {
                if b == p {
                    assert(order[a] == old_order[a]);
                } else if a == p {
                    let ob = old_order[b - 1] as int;
                    let op = old_order[p as int] as int;
                    assert(order[b] == old_order[b - 1]);
                    lemma_text_before_total(keys[op], keys[ob]);
                    if b - 1 > p {
                        assert(!text_before(keys[ob], keys[op]));
                    }
                    if text_before(keys[op], keys[ob]) {
                        lemma_text_before_transitive(keys[j as int], keys[op], keys[ob]);
                    }
                    lemma_text_before_asymmetric(keys[j as int], keys[ob]);
                } else {
                    let oa = if a < p { a } else { a - 1 };
                    let ob = if b < p { b } else { b - 1 };
                    assert(order[a] == old_order[oa]);
                    assert(order[b] == old_order[ob]);
                }
            }
        }
        j += 1;
    }
    order
}

/// The header rows of the detail panel: each name with a colon, and its value as compact
/// JSON, in the order of the names.
pub fn header_items(headers: &Vec<(String, Json)>) -> (items: Vec<Item>)
    ensures
        exists|order: Seq<usize>|
            {
                &&& sorted_order(header_keys(headers@), order)
                &&& items_text(items@) == Seq::new(
                    order.len(),
                    |i: int| (headers@[order[i] as int].0@ + ":"@, compact_text(json_view(headers@[order[i] as int].1))),
                )
            },
{
    let order = header_order(headers);
    let ghost rows = Seq::new(
        order@.len(),
        |i: int| (headers@[order@[i] as int].0@ + ":"@, compact_text(json_view(headers@[order@[i] as int].1))),
    );
    let mut items: Vec<Item> = Vec::new();
    let mut i: usize = 0;
    while i < order.len()
        invariant
            sorted_order(header_keys(headers@), order@),
            rows == Seq::new(
                order@.len(),
                |i: int| (headers@[order@[i] as int].0@ + ":"@, compact_text(json_view(headers@[order@[i] as int].1))),
            ),
            i <= order.len(),
            items_text(items@) == rows.take(i as int),
        decreases order.len() - i,
    {
        let k = order[i];
        let mut label = to_string(headers[k].0.as_str());
        push_str(&mut label, ":");
        let value = compact(&headers[k].1);
        push_item(&mut items, label.as_str(), value);
        proof {
            assert(rows.take(i + 1) =~= rows.take(i as int).push(rows[i as int]));
        }
        i += 1;
    }
    proof {
        assert(rows.take(i as int) =~= rows);
    }
    items
}

// ---------------------------------------------------------------- logs

/// How one logged value is written: text as it is, numbers and booleans as JSON, `null`,
/// and objects and arrays as pretty JSON.
pub open spec fn value_line(v: Json) -> Seq<char> {
    match v {
        Json::Str(s) => s@,
        Json::Number(_) => compact_text(json_view(v)),
        Json::Bool(b) => if b {
            "true"@
        } else {
            "false"@
        },
        Json::Null => "null"@,
        _ => pretty_text(json_view(v)),
    }
}

/// The logged values numbered from 1.
pub open spec fn value_rows(items: Seq<Json>) -> Seq<(Seq<char>, Seq<char>)>
    decreases items.len(),
{
    if items.len() == 0 {
        Seq::empty()
    } else {
        value_rows(items.drop_last()).push((decimal(items.len()), value_line(items.last())))
    }
}

/// The value list of a log payload: its `content.values`, one numbered row per value of an
/// array, a single row for anything else.
pub open spec fn log_value_list(payload: Json) -> Seq<(Seq<char>, Seq<char>)> {
    match get(payload, "content"@) {
        Some(c) => match get(c, "values"@) {
            Some(Json::Array(items)) => value_rows(items@),
            Some(v) => seq![("1"@, value_line(v))],
            None => Seq::empty(),
        },
        None => Seq::empty(),
    }
}

fn value_text(v: &Json) -> (s: String)
    ensures
        s@ == value_line(*v),
{
    match v {
        Json::Str(s) => to_string(s.as_str()),
        Json::Number(_) => compact(v),
        Json::Bool(b) => to_string(if *b { "true" } else { "false" }),
        Json::Null => to_string("null"),
        _ => pretty(v),
    }
}

/// The value list of a log payload.
pub fn log_value_items(payload: &Json) -> (items: Vec<Item>)
    ensures
        items_text(items@) == log_value_list(*payload),
{
    let mut items: Vec<Item> = Vec::new();
    let values = match payload.get("content") {
        Some(c) => match c.get("values") {
            Some(v) => v,
            None => return items,
        },
        None => return items,
    };
    match values {
        Json::Array(list) => {
            let mut i: usize = 0;
            while i < list.len()
                invariant
                    i <= list.len(),
                    items_text(items@) == value_rows(list@.take(i as int)),
                decreases list.len() - i,
            {
                proof {
                    assert(list@.take(i + 1).drop_last() =~= list@.take(i as int));
                }
                let number = u64_to_string((i + 1) as u64);
                let ghost before = items@;
                items.push(Item { label: number, value: value_text(&list[i]) });
                proof {
                    assert(items@.drop_last() =~= before);
                }
                i += 1;
            }
            proof {
                assert(list@.take(list.len() as int) =~= list@);
            }
        },
        _ => {
            let label = to_string("1");
            let value = value_text(values);
            let ghost row = (label@, value@);
            items.push(Item { label, value });
            proof {
                assert(items@.drop_last() =~= Seq::<Item>::empty());
                assert(items_text(items@.drop_last()) =~= Seq::empty());
                assert(items_text(items@) == Seq::<(Seq<char>, Seq<char>)>::empty().push(row));
                assert(items_text(items@) =~= seq![("1"@, value_line(*values))]);
            }
        },
    }
    items
}

// ---------------------------------------------------------------- exceptions

/// One frame of a stack trace as the panel lists it.
pub struct FrameRow {
    /// Its number, from 1.
    pub number: String,
    /// `class::method`.
    pub title: String,
    /// `file:line`.
    pub location: String,
}

/// The texts of a frame row.
pub open spec fn frame_row(frame: Json, number: nat) -> (Seq<char>, Seq<char>, Seq<char>) {
    (
        decimal(number),
        str_or_empty(frame, "class"@) + "::"@ + str_or_empty(frame, "method"@),
        str_or_empty(frame, "file_name"@) + ":"@ + decimal(
            u64_or_zero(frame, "line_number"@) as nat,
        ),
    )
}

/// The texts of frame rows.
pub open spec fn frame_rows_text(rows: Seq<FrameRow>) -> Seq<(Seq<char>, Seq<char>, Seq<char>)>
    decreases rows.len(),
{
    if rows.len() == 0 {
        Seq::empty()
    } else {
        frame_rows_text(rows.drop_last()).push(
            (rows.last().number@, rows.last().title@, rows.last().location@),
        )
    }
}

/// The rows of the first `n` frames.
pub open spec fn frames_rows(frames: Seq<Json>, n: nat) -> Seq<(Seq<char>, Seq<char>, Seq<char>)>
    decreases n,
{
    if n == 0 || n > frames.len() {
        Seq::empty()
    } else {
        frames_rows(frames, (n - 1) as nat).push(frame_row(frames[n - 1], n))
    }
}

/// The stack trace section of an exception: `<n> frames` and a row per frame, when
/// `frames` is an array.
pub fn stack_trace_rows(content: &Json) -> (r: Option<(String, Vec<FrameRow>)>)
    ensures
        match get(*content, "frames"@) {
            Some(Json::Array(frames)) => r matches Some((heading, rows)) && heading@ == decimal(
                frames@.len(),
            ) + " frames"@ && frame_rows_text(rows@) == frames_rows(frames@, frames@.len()),
            _ => r is None,
        },
{
    let frames = match content.get("frames") {
        Some(Json::Array(frames)) => frames,
        _ => return None,
    };
    let mut heading = u64_to_string(frames.len() as u64);
    push_str(&mut heading, " frames");
    let mut rows: Vec<FrameRow> = Vec::new();
    let mut i: usize = 0;
    while i < frames.len()
        invariant
            i <= frames.len(),
            frame_rows_text(rows@) == frames_rows(frames@, i as nat),
        decreases frames.len() - i,
    {
        let frame = &frames[i];
        let number = u64_to_string((i + 1) as u64);
        let mut title = str_field(frame, "class");
        push_str(&mut title, "::");
        let method = str_field(frame, "method");
        push_str(&mut title, method.as_str());
        let mut location = str_field(frame, "file_name");
        push_str(&mut location, ":");
        let line = u64_to_string(u64_field_or_zero(frame, "line_number"));
        push_str(&mut location, line.as_str());
        let ghost before = rows@;
        rows.push(FrameRow { number, title, location });
        proof {
            assert(rows@.drop_last() =~= before);
        }
        i += 1;
    }
    Some((heading, rows))
}

// ---------------------------------------------------------------- queries

/// A query time in short form: milliseconds with three decimals below 1 ms, with one below
/// 1000 ms, seconds with two above.
pub open spec fn short_query_time(t: DoubleText) -> Seq<char> {
    if t.below_one {
        t.fixed3@ + "ms"@
    } else if t.below_thousand {
        t.fixed1@ + "ms"@
    } else {
        t.thousandths_fixed2@ + "s"@
    }
}

/// The metrics of a query: its time (0 when absent) and its connection (`default` when
/// absent).
pub fn query_metrics(content: &Json) -> (items: Vec<Item>)
    ensures
        items_text(items@) == seq![
            ("time"@, match query_time(*content) {
                Some(t) => short_query_time(t),
                None => "0.000ms"@,
            }),
            ("connection"@, str_or(*content, "connection_name"@, "default"@)),
        ],
{
    let t = query_time_of(content);
    let time = if t.below_one {
        let mut s = to_string(t.fixed3.as_str());
        push_str(&mut s, "ms");
        s
    } else if t.below_thousand {
        let mut s = to_string(t.fixed1.as_str());
        push_str(&mut s, "ms");
        s
    } else {
        let mut s = to_string(t.thousandths_fixed2.as_str());
        push_str(&mut s, "s");
        s
    };
    proof {
        reveal_strlit("0.000ms");
        reveal_strlit("0.000");
        reveal_strlit("ms");
        assert(time@ =~= match query_time(*content) {
            Some(t) => short_query_time(t),
            None => "0.000ms"@,
        });
    }
    let mut items: Vec<Item> = Vec::new();
    push_item(&mut items, "time", time);
    push_item(&mut items, "connection", str_field_or(content, "connection_name", "default"));
    proof {
        assert(items_text(items@) =~= seq![
            ("time"@, match query_time(*content) {
                Some(t) => short_query_time(t),
                None => "0.000ms"@,
            }),
            ("connection"@, str_or(*content, "connection_name"@, "default"@)),
        ]);
    }
    items
}

// ---------------------------------------------------------------- application logs

/// The heading of an application log: its level (`Info` when absent) and, when it has a
/// channel, `• <channel>`.
pub fn app_log_heading(content: &Json) -> (r: (String, Option<String>))
    ensures
        r.0@ == str_or(*content, "level"@, "Info"@),
        opt_text(r.1) == match get_str(*content, "channel"@) {
            Some(ch) => Some("• "@ + ch),
            None => None,
        },
{
    let level = str_field_or(content, "level", "Info");
    let channel = match content.get("channel") {
        Some(c) => match c.as_str() {
            Some(ch) => {
                let mut s = to_string("• ");
                push_str(&mut s, ch);
                Some(s)
            },
            None => None,
        },
        None => None,
    };
    (level, channel)
}

/// The context of an application log as pretty JSON, when it has one that is not `null`.
pub fn app_log_context(content: &Json) -> (r: Option<String>)
    ensures
        opt_text(r) == match get(*content, "context"@) {
            Some(c) => if c is Null {
                None
            } else {
                Some(pretty_text(json_view(c)))
            },
            None => None,
        },
{
    match content.get("context") {
        Some(c) => if c.is_null() {
            None
        } else {
            Some(pretty(c))
        },
        None => None,
    }
}

/// Where an application log comes from, `file:line • host`, when its origin names a file.
pub open spec fn app_log_origin_text(payload: Json) -> Option<Seq<char>> {
    match get(payload, "origin"@) {
        Some(o) => {
            let file = str_or_empty(o, "file"@);
            if file.len() > 0 {
                Some(file + ":"@ + decimal(u64_or_zero(o, "line_number"@) as nat) + " • "@
                    + str_or_empty(o, "hostname"@))
            } else {
                None
            }
        },
        None => None,
    }
}

/// Where an application log comes from.
pub fn app_log_origin(payload: &Json) -> (r: Option<String>)
    ensures
        opt_text(r) == app_log_origin_text(*payload),
{
    match payload.get("origin") {
        Some(o) => {
            let file = str_field(o, "file");
            if file.as_str().is_empty() {
                return None;
            }
            let mut s = file;
            push_str(&mut s, ":");
            let line = u64_to_string(u64_field_or_zero(o, "line_number"));
            push_str(&mut s, line.as_str());
            push_str(&mut s, " • ");
            let host = str_field(o, "hostname");
            push_str(&mut s, host.as_str());
            Some(s)
        },
        None => None,
    }
}

} // verus!
