//! A listing as JSON: an array with one object for each record, written
//! without any space, the fields in the order name, e_type, size, modifiled,
//! path. Every value is a string; the size is the byte count as a numeral.

use crate::entry::{EntryView, FileEntry};
use crate::listing::entries_view;
use crate::text::{opt_text, opt_texts, texts};
use vstd::prelude::*;

verus! {

/// A text as serde_json writes it as a JSON string: between double quotes,
/// with the escapes that JSON asks for. `None` where serde_json reports an
/// error.
pub uninterp spec fn json_string_text(s: Seq<char>) -> Option<Seq<char>>;

/// Calls `serde_json::to_string` on a `str`.
///
/// Trusted: the outcome is the one that `json_string_text` names for the text,
/// an error of serde_json being `None`.
#[verifier::external_body]
fn json_string(s: &str) -> (r: Option<String>)
    ensures
        opt_text(r) == json_string_text(s@),
{
    match serde_json::to_string(s) {
        Ok(text) => Some(text),
        Err(_) => None,
    }
}

/// What stands in place of the listing where it cannot be written as JSON.
pub open spec fn json_failure_text() -> Seq<char> {
    "can't parse to json"@
}

/// The object of one record, from its five values already written as JSON.
pub open spec fn object_text(
    name: Seq<char>,
    kind: Seq<char>,
    size: Seq<char>,
    modified: Seq<char>,
    path: Seq<char>,
) -> Seq<char> {
    "{\"name\":"@ + name + ",\"e_type\":"@ + kind + ",\"size\":"@ + size + ",\"modifiled\":"@
        + modified + ",\"path\":"@ + path + "}"@
}

/// The items, a comma between each two of them.
pub open spec fn comma_separated(items: Seq<Seq<char>>) -> Seq<char>
    decreases items.len(),
{
    if items.len() == 0 {
        Seq::empty()
    } else if items.len() == 1 {
        items[0]
    } else {
        comma_separated(items.drop_last()) + ","@ + items.last()
    }
}

/// The array of some items already written as JSON.
pub open spec fn array_text(items: Seq<Seq<char>>) -> Seq<char> {
    "["@ + comma_separated(items) + "]"@
}

/// The object of one record from what became of writing its five values:
/// `None` where one of them could not be written.
pub open spec fn object_of_values(
    name: Option<Seq<char>>,
    kind: Option<Seq<char>>,
    size: Option<Seq<char>>,
    modified: Option<Seq<char>>,
    path: Option<Seq<char>>,
) -> Option<Seq<char>> {
    match (name, kind, size, modified, path) {
        (Some(name), Some(kind), Some(size), Some(modified), Some(path)) => Some(
            object_text(name, kind, size, modified, path),
        ),
        _ => None,
    }
}

/// The object of a record, or `None` where one of its values cannot be
/// written.
pub open spec fn entry_json_text(entry: EntryView) -> Option<Seq<char>> {
    object_of_values(
        json_string_text(entry.name),
        json_string_text(entry.kind.label_text()),
        json_string_text(entry.size),
        json_string_text(entry.modified),
        json_string_text(entry.path),
    )
}

/// The objects of some records in order, or `None` where one of the records
/// cannot be written.
pub open spec fn entry_json_texts(entries: Seq<EntryView>) -> Option<Seq<Seq<char>>>
    decreases entries.len(),
{
    if entries.len() == 0 {
        Some(Seq::empty())
    } else {
        match (entry_json_texts(entries.drop_last()), entry_json_text(entries.last())) {
            (Some(items), Some(item)) => Some(items.push(item)),
            _ => None,
        }
    }
}

/// The array of some objects, or the failure text where they could not all
/// be written.
pub open spec fn array_or_failure_text(items: Option<Seq<Seq<char>>>) -> Seq<char> {
    match items {
        Some(items) => array_text(items),
        None => json_failure_text(),
    }
}

/// The JSON of a listing: the array of its records' objects, or the failure
/// text where a record cannot be written.
pub open spec fn listing_json_text(entries: Seq<EntryView>) -> Seq<char> {
    array_or_failure_text(entry_json_texts(entries))
}

/// A record that cannot be written spoils every listing that it is part of.
proof fn lemma_unwritable_prefix(entries: Seq<EntryView>, k: int)
    requires
        0 <= k <= entries.len(),
        entry_json_texts(entries.take(k)) is None,
    ensures
        entry_json_texts(entries) is None,
    decreases entries.len(),
{
    if k == entries.len() {
        assert(entries.take(k) =~= entries);
    } else {
        assert(entries.drop_last().take(k) =~= entries.take(k));
        lemma_unwritable_prefix(entries.drop_last(), k);
    }
}

/// Writes the object of one record from its five values, each already
/// written as JSON.
pub fn json_object(name: &str, kind: &str, size: &str, modified: &str, path: &str) -> (r: String)
    ensures
        r@ == object_text(name@, kind@, size@, modified@, path@),
{
    let mut r = "{\"name\":".to_owned();
    r.append(name);
    r.append(",\"e_type\":");
    r.append(kind);
    r.append(",\"size\":");
    r.append(size);
    r.append(",\"modifiled\":");
    r.append(modified);
    r.append(",\"path\":");
    r.append(path);
    r.append("}");
    r
}

/// Writes the array of some items, each already written as JSON.
pub fn json_array(items: &Vec<String>) -> (r: String)
    ensures
        r@ == array_text(texts(items@)),
{
    let ghost all = texts(items@);
    let mut r = "[".to_owned();
    let mut i: usize = 0;
    while i < items.len()
        invariant
            i <= items.len(),
            all == texts(items@),
            r@ == "["@ + comma_separated(all.take(i as int)),
        decreases items.len() - i,
    {
        proof {
            let next = all.take(i + 1);
            assert(next.drop_last() =~= all.take(i as int));
        }
        if i > 0 {
            r.append(",");
        }
        r.append(items[i].as_str());
        i += 1;
    }
    assert(all.take(i as int) =~= all);
    r.append("]");
    r
}

/// Writes the object of one record from what became of writing its five
/// values: `None` where one of them could not be written.
pub fn json_object_of(
    name: Option<String>,
    kind: Option<String>,
    size: Option<String>,
    modified: Option<String>,
    path: Option<String>,
) -> (r: Option<String>)
    ensures
        opt_text(r) == object_of_values(
            opt_text(name),
            opt_text(kind),
            opt_text(size),
            opt_text(modified),
            opt_text(path),
        ),
{
    match (name, kind, size, modified, path) {
        (Some(name), Some(kind), Some(size), Some(modified), Some(path)) => Some(
            json_object(
                name.as_str(),
                kind.as_str(),
                size.as_str(),
                modified.as_str(),
                path.as_str(),
            ),
        ),
        _ => None,
    }
}

/// Writes the array of some objects, or the failure text where they could
/// not all be written.
pub fn json_array_or_failure(items: Option<Vec<String>>) -> (r: String)
    ensures
        r@ == array_or_failure_text(opt_texts(items)),
{
    match items {
        Some(items) => json_array(&items),
        None => "can't parse to json".to_owned(),
    }
}

/// Writes the object of a record, or `None` where serde_json cannot write
/// one of its values.
pub fn entry_json(entry: &FileEntry) -> (r: Option<String>)
    ensures
        opt_text(r) == entry_json_text(entry@),
{
    json_object_of(
        json_string(entry.name()),
        json_string(entry.kind().label()),
        json_string(entry.size()),
        json_string(entry.modified()),
        json_string(entry.path()),
    )
}

/// Writes the objects of the records of a listing, or `None` where
/// serde_json cannot write one of the values.
pub fn entry_jsons(entries: &Vec<FileEntry>) -> (r: Option<Vec<String>>)
    ensures
        opt_texts(r) == entry_json_texts(entries_view(entries@)),
{
    let ghost views = entries_view(entries@);
    let mut items: Vec<String> = Vec::new();
    let mut i: usize = 0;
    while i < entries.len()
        invariant
            i <= entries.len(),
            views == entries_view(entries@),
            entry_json_texts(views.take(i as int)) == Some(texts(items@)),
        decreases entries.len() - i,
    {
        proof {
            let next = views.take(i + 1);
            assert(next.drop_last() =~= views.take(i as int));
        }
        match entry_json(&entries[i]) {
            Some(item) => {
                items.push(item);
            },
            None => {
                proof {
                    lemma_unwritable_prefix(views, i + 1);
                }
                return None;
            },
        }
        i += 1;
    }
    assert(views.take(i as int) =~= views);
    Some(items)
}

/// Writes a listing as JSON, or the failure text where serde_json cannot
/// write one of the values.
pub fn render_json(entries: &Vec<FileEntry>) -> (r: String)
    ensures
        r@ == listing_json_text(entries_view(entries@)),
{
    json_array_or_failure(entry_jsons(entries))
}

} // verus!
