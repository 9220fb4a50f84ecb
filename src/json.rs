//! The JSON form of a listing: an array of objects with the keys `name`,
//! `len_bytes`, `last_modified` and `file_type`.
use vstd::prelude::*;

use crate::decimal::{decimal, decimal_text};
use crate::entry::{entries_view, file_type_label, EntryView, FileEntry};

verus! {

/// What serde_json makes of a string: the quoted and escaped JSON string,
/// or `None` where it reports an error.
pub uninterp spec fn json_text_of(s: Seq<char>) -> Option<Seq<char>>;

/// Relies on `serde_json::to_string` applied to a string slice: the JSON
/// string literal that encodes it, or an error.
#[verifier::external_body]
fn json_string(s: &str) -> (r: Option<String>)
    ensures
        match r {
            Some(t) => json_text_of(s@) == Some(t@),
            None => json_text_of(s@) is None,
        },
{
    serde_json::to_string(s).ok()
}

/// The JSON object of one record, with its fields in declaration order.
pub open spec fn entry_json(e: EntryView) -> Option<Seq<char>> {
    match (
        json_text_of(e.name),
        json_text_of(e.last_modified),
        json_text_of(file_type_label(e.file_type)),
    ) {
        (Some(n), Some(m), Some(t)) => Some(
            "{\"name\":"@ + n + ",\"len_bytes\":"@ + decimal(e.len_bytes as nat)
                + ",\"last_modified\":"@ + m + ",\"file_type\":"@ + t + "}"@,
        ),
        _ => None,
    }
}

/// The objects of the records, joined by commas.
pub open spec fn objects_json(es: Seq<EntryView>) -> Option<Seq<char>>
    decreases es.len(),
{
    if es.len() == 0 {
        Some(Seq::empty())
    } else {
        match (objects_json(es.drop_last()), entry_json(es.last())) {
            (Some(a), Some(b)) => Some(
                if es.len() == 1 {
                    b
                } else {
                    a + ","@ + b
                },
            ),
            _ => None,
        }
    }
}

/// The JSON array of the records; `None` where a string could not be encoded.
pub open spec fn listing_json(es: Seq<EntryView>) -> Option<Seq<char>> {
    match objects_json(es) {
        Some(b) => Some("["@ + b + "]"@),
        None => None,
    }
}

/// What is printed in JSON mode: the array, or a notice where encoding failed.
pub open spec fn json_output(es: Seq<EntryView>) -> Seq<char> {
    match listing_json(es) {
        Some(t) => t,
        None => "Cannot parse JSON"@,
    }
}

/// Encodes one record as a JSON object.
pub fn entry_to_json(e: &FileEntry) -> (r: Option<String>)
    ensures
        match r {
            Some(t) => entry_json(e@) == Some(t@),
            None => entry_json(e@) is None,
        },
{
    let name = json_string(e.name.as_str());
    let modified = json_string(e.last_modified.as_str());
    let kind = json_string(e.file_type.as_str());
    match (name, modified, kind) {
        (Some(n), Some(m), Some(t)) => {
            let mut out = String::from_str("{\"name\":");
            out.append(n.as_str());
            out.append(",\"len_bytes\":");
            out.append(decimal_text(e.len_bytes).as_str());
            out.append(",\"last_modified\":");
            out.append(m.as_str());
            out.append(",\"file_type\":");
            out.append(t.as_str());
            out.append("}");
            Some(out)
        },
        _ => None,
    }
}

/// Encodes a listing as a JSON array, or gives `"Cannot parse JSON"` where
/// a string of it could not be encoded.
pub fn render_json(entries: &Vec<FileEntry>) -> (r: String)
    ensures
        r@ == json_output(entries_view(entries@)),
{
    let ghost es = entries_view(entries@);
    let mut body = String::new();
    let mut i: usize = 0;
    while i < entries.len()
        invariant
            i <= entries@.len(),
            es == entries_view(entries@),
            objects_json(es.take(i as int)) == Some(body@),
        decreases entries@.len() - i,
    {
        assert(es.take(i as int + 1).drop_last() =~= es.take(i as int));
        assert(es.take(i as int + 1).last() == entries@[i as int]@);
        match entry_to_json(&entries[i]) {
            Some(t) => {
                if i > 0 {
                    body.append(",");
                }
                body.append(t.as_str());
            },
            None => {
                proof {
                    assert(objects_json(es.take(i as int + 1)) is None);
                    lemma_objects_json_none(es, i as int + 1);
                }
                return String::from_str("Cannot parse JSON");
            },
        }
        i = i + 1;
    }
    assert(es.take(es.len() as int) =~= es);
    let mut out = String::from_str("[");
    out.append(body.as_str());
    out.append("]");
    out
}

/// Once a prefix of the records cannot be encoded, neither can any longer one.
proof fn lemma_objects_json_none(es: Seq<EntryView>, k: int)
    requires
        0 <= k <= es.len(),
        objects_json(es.take(k)) is None,
    ensures
        objects_json(es) is None,
    decreases es.len() - k,
{
    if k < es.len() {
        assert(es.take(k + 1).drop_last() =~= es.take(k));
        lemma_objects_json_none(es, k + 1);
    } else {
        assert(es.take(k) =~= es);
    }
}

} // verus!
