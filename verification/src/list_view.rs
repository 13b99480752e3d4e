//! What the event list and the detail panel show of an entry: clipped texts, the text put on
//! the clipboard, and when a payload counts as large.
use vstd::prelude::*;

use crate::entry::EventEntry;
use crate::json::{compact, compact_text, json_view, pretty, pretty_text, Json};
use crate::processors::{can_clip, clip, clip_str, len_bytes};
use crate::text::{
    byte_len, byte_prefix, cuts_at, lemma_ascii_len, lemma_byte_prefix_len, lemma_utf8_len_concat,
    prefix_bytes, push_str, to_string, utf8_len,
};

verus! {

/// The label as the event list shows it: past 50 bytes, its first 47 and `...`.
pub fn display_label(label: &str) -> (s: String)
    requires
        can_clip(label@, 50, 47),
    ensures
        s@ == clip(label@, 50, 47),
{
    clip_str(label, 50, 47)
}

/// The description as the event list shows it: past 80 bytes, its first 77 and `...`.
pub fn display_description(description: &str) -> (s: String)
    requires
        can_clip(description@, 80, 77),
    ensures
        s@ == clip(description@, 80, 77),
{
    clip_str(description, 80, 77)
}

/// The text copied for a payload's JSON: past 50000 bytes, its first 5000 and a note.
pub open spec fn copy_clip(json: Seq<char>) -> Seq<char> {
    if len_bytes(json) > 50000 {
        byte_prefix(json, 5000) + "... [JSON truncated for performance]"@
    } else {
        json
    }
}

/// Pretty JSON texts that `clip_copy_text` can cut.
pub open spec fn copy_clippable(json: Seq<char>) -> bool {
    len_bytes(json) > 50000 ==> cuts_at(json, 5000)
}

/// The clipboard never gets more than 50000 bytes of a payload's JSON: longer texts are
/// cut to their first 5000 bytes and a note.
pub proof fn law_clipboard_text_bounded(json: Seq<char>)
    requires
        utf8_len(json) <= usize::MAX,
        copy_clippable(json),
    ensures
        utf8_len(copy_clip(json)) <= 50000,
{
    if len_bytes(json) > 50000 {
        lemma_byte_prefix_len(json, 5000);
        let note = "... [JSON truncated for performance]"@;
        lemma_utf8_len_concat(byte_prefix(json, 5000), note);
        reveal_strlit("... [JSON truncated for performance]");
        lemma_ascii_len(note);
    }
}

/// A payload's pretty JSON, cut for the clipboard.
pub fn clip_copy_text(json: &str) -> (s: String)
    requires
        copy_clippable(json@),
    ensures
        s@ == copy_clip(json@),
{
    if byte_len(json) > 50000 {
        let mut p = prefix_bytes(json, 5000);
        push_str(&mut p, "... [JSON truncated for performance]");
        p
    } else {
        to_string(json)
    }
}

/// The clipboard text for a payload: its pretty JSON, cut as `clip_copy_text` does; `None`
/// where that cut would fall inside a character.
pub fn copy_text(payload: &Json) -> (r: Option<String>)
    ensures
        match r {
            Some(s) => copy_clippable(pretty_text(json_view(*payload))) && s@ == copy_clip(
                pretty_text(json_view(*payload)),
            ),
            None => !copy_clippable(pretty_text(json_view(*payload))),
        },
{
    let json = pretty(payload);
    if byte_len(json.as_str()) > 50000 && !json.as_str().is_char_boundary(5000) {
        None
    } else {
        Some(clip_copy_text(json.as_str()))
    }
}

/// What identifies an entry in the detail panel's cache: `<timestamp>-<label>`.
pub fn entry_id(entry: &EventEntry) -> (s: String)
    ensures
        s@ == entry.timestamp@ + "-"@ + entry.label@,
{
    let mut s = to_string(entry.timestamp.as_str());
    push_str(&mut s, "-");
    push_str(&mut s, entry.label.as_str());
    s
}

/// Whether an entry's payload is large: more than 10000 bytes of compact JSON.
pub fn is_large_content(entry: &EventEntry) -> (b: bool)
    ensures
        b == (len_bytes(compact_text(json_view(entry.raw_payload))) > 10000),
{
    let text = compact(&entry.raw_payload);
    byte_len(text.as_str()) > 10000
}

} // verus!
