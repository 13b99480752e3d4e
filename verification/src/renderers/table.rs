//! Markdown, label and summary of a labelled table of values.
use vstd::prelude::*;

use crate::event_data::TableEvent;
use crate::json::{compact, compact_text, json_view, pretty, pretty_text, Json, NumberKind};
use crate::renderers::only_if;
use crate::text::{decimal, push_str, to_string, u64_to_string};

verus! {

/// The `- **key:** text` line of a plain value.
pub open spec fn bullet(key: Seq<char>, text: Seq<char>) -> Seq<char> {
    "- **"@ + key + ":** "@ + text + "\n"@
}

/// How one field of a table is shown: objects and arrays as pretty JSON under a heading of
/// their own, other values on a bulleted line.
pub open spec fn table_line(key: Seq<char>, value: Json) -> Seq<char> {
    match value {
        Json::Object(_) => "### "@ + key + "\n\n```json\n"@ + pretty_text(json_view(value))
            + "\n```\n\n"@,
        Json::Array(_) => "### "@ + key + "\n\n```json\n"@ + pretty_text(json_view(value))
            + "\n```\n\n"@,
        Json::Str(s) => bullet(key, s@),
        Json::Number(n) => match n.kind {
            NumberKind::PosInt(v) => bullet(key, decimal(v as nat)),
            _ => bullet(key, compact_text(json_view(value))),
        },
        Json::Bool(b) => bullet(key, if b { "true"@ } else { "false"@ }),
        Json::Null => bullet(key, "*null*"@),
    }
}

/// The lines of the fields, in order.
pub open spec fn table_lines(data: Seq<(String, Json)>) -> Seq<char>
    decreases data.len(),
{
    if data.len() == 0 {
        Seq::empty()
    } else {
        table_lines(data.drop_last()) + table_line(data.last().0@, data.last().1)
    }
}

/// Markdown of a table.
pub open spec fn table_markdown(ev: TableEvent) -> Seq<char> {
    "## "@ + ev.label@ + "\n\n"@ + table_lines(ev.data@) + only_if(
        ev.data@.len() == 0,
        "*No data available*\n"@,
    )
}

fn push_bullet(md: &mut String, key: &str, text: &str)
    ensures
        final(md)@ == old(md)@ + bullet(key@, text@),
{
    let ghost start = md@;
    push_str(md, "- **");
    push_str(md, key);
    push_str(md, ":** ");
    push_str(md, text);
    push_str(md, "\n");
    proof {
        assert(md@ =~= start + bullet(key@, text@));
    }
}

pub(crate) fn push_table_line(md: &mut String, key: &str, value: &Json)
    ensures
        final(md)@ == old(md)@ + table_line(key@, *value),
{
    let ghost start = md@;
    match value {
        Json::Object(_) | Json::Array(_) => {
            push_str(md, "### ");
            push_str(md, key);
            push_str(md, "\n\n```json\n");
            let p = pretty(value);
            push_str(md, p.as_str());
            push_str(md, "\n```\n\n");
        },
        Json::Str(s) => push_bullet(md, key, s.as_str()),
        Json::Number(n) => match n.kind {
            NumberKind::PosInt(v) => {
                let digits = u64_to_string(v);
                push_bullet(md, key, digits.as_str());
            },
            _ => {
                let c = compact(value);
                push_bullet(md, key, c.as_str());
            },
        },
        Json::Bool(b) => push_bullet(md, key, if *b { "true" } else { "false" }),
        Json::Null => push_bullet(md, key, "*null*"),
    }
    proof {
        assert(md@ =~= start + table_line(key@, *value));
    }
}

/// The markdown body of a table: a heading with its label, then one entry per field in order.
pub fn render_table_markdown(table_event: &TableEvent) -> (s: String)
    ensures
        s@ == table_markdown(*table_event),
{
    let data = &table_event.data;
    let mut md = to_string("## ");
    push_str(&mut md, table_event.label.as_str());
    push_str(&mut md, "\n\n");
    let ghost head = md@;
    let mut i: usize = 0;
    while i < data.len()
        invariant
            i <= data.len(),
            md@ == head + table_lines(data@.take(i as int)),
        decreases data.len() - i,
    {
        proof {
            assert(data@.take(i + 1).drop_last() =~= data@.take(i as int));
        }
        let (k, v) = &data[i];
        push_table_line(&mut md, k.as_str(), v);
        i += 1;
    }
    if data.len() == 0 {
        push_str(&mut md, "*No data available*\n");
    }
    proof {
        assert(data@.take(data.len() as int) =~= data@);
        assert(md@ =~= table_markdown(*table_event));
    }
    md
}

/// The table's label.
pub fn get_table_label(table_event: &TableEvent) -> (s: String)
    ensures
        s@ == table_event.label@,
{
    to_string(table_event.label.as_str())
}

/// `<label> data`.
pub fn get_table_description(table_event: &TableEvent) -> (s: String)
    ensures
        s@ == table_event.label@ + " data"@,
{
    let mut d = to_string(table_event.label.as_str());
    push_str(&mut d, " data");
    d
}

} // verus!
