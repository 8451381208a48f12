//! A parsed manifest as a tree of tables, arrays and scalars, each carrying
//! the byte range it spans in the manifest text, and the lookup of a key path
//! in it.
use vstd::prelude::*;

use core::ops::Range;

use crate::text::{str_views, first_named, lemma_first_named_at, lemma_first_named_none, same_text};

verus! {

/// A value of the tree.
#[derive(Debug)]
pub enum DocValue {
    String(String),
    Boolean(bool),
    Array(Vec<DocItem>),
    Table(DocTable),
    /// Any other scalar (integer, float, date-time).
    Other,
}

/// A value with the byte range that it spans.
#[derive(Debug)]
pub struct DocItem {
    pub value: DocValue,
    pub span: Range<usize>,
}

/// A key of a table, the range the key spans, and its value.
#[derive(Debug)]
pub struct DocEntry {
    pub key: String,
    pub key_span: Range<usize>,
    pub item: DocItem,
}

/// A table: its entries in document order.
#[derive(Debug)]
pub struct DocTable {
    pub entries: Vec<DocEntry>,
}

/// Where a key and its value stand in the manifest text.
#[derive(Debug)]
pub struct TomlSpan {
    pub key: Range<usize>,
    pub value: Range<usize>,
}

pub open spec fn entry_keys(entries: Seq<DocEntry>) -> Seq<Seq<char>> {
    entries.map_values(|e: DocEntry| e.key@)
}

impl DocTable {
    /// The entry of the given key, if the table has one.
    pub open spec fn spec_entry(self, key: Seq<char>) -> Option<DocEntry> {
        match first_named(entry_keys(self.entries@), key) {
            Some(i) => Some(self.entries@[i]),
            None => None,
        }
    }

    /// The entry of the given key, if the table has one.
    pub fn get_key_value(&self, key: &str) -> (r: Option<&DocEntry>)
        ensures
            r matches Some(e) ==> self.spec_entry(key@) == Some(*e),
            r is None ==> self.spec_entry(key@) is None,
    {
        let mut i: usize = 0;
        while i < self.entries.len()
            invariant
                i <= self.entries@.len(),
                forall|j: int| 0 <= j < i ==> entry_keys(self.entries@)[j] != key@,
            decreases self.entries@.len() - i,
        {
            if same_text(self.entries[i].key.as_str(), key) {
                proof {
                    lemma_first_named_at(entry_keys(self.entries@), key@, i as int);
                }
                return Some(&self.entries[i]);
            }
            i = i + 1;
        }
        proof {
            lemma_first_named_none(entry_keys(self.entries@), key@);
        }
        None
    }
}

/// Whether `item` is a string equal to `text`.
pub open spec fn is_text(item: DocItem, text: Seq<char>) -> bool {
    item.value matches DocValue::String(s) && s@ == text
}

/// Whether `items[k]` is the first string element equal to `text`.
pub open spec fn is_first_string(items: Seq<DocItem>, text: Seq<char>, k: int) -> bool {
    &&& 0 <= k < items.len()
    &&& is_text(items[k], text)
    &&& forall|j: int| 0 <= j < k ==> !is_text(#[trigger] items[j], text)
}

/// The first string element of an array equal to `text`, if any.
pub open spec fn first_string(items: Seq<DocItem>, text: Seq<char>) -> Option<DocItem> {
    if exists|k: int| is_first_string(items, text, k) {
        Some(items[choose|k: int| is_first_string(items, text, k)])
    } else {
        None
    }
}

/// Follows `path` from its `i`-th segment on, starting in `table`.
///
/// A segment names a key of the current table. On the last segment the key
/// and its value are found. Before that, a table value is descended into; an
/// array value ends the search on its first string element equal to the next
/// segment; any other value has nothing below it, so the path is not found.
pub open spec fn lookup_from(table: DocTable, path: Seq<Seq<char>>, i: int) -> Option<(DocEntry, DocItem)>
    decreases path.len() - i,
{
    if i < 0 || i >= path.len() {
        None
    } else {
        match table.spec_entry(path[i]) {
            None => None,
            Some(entry) => if i + 1 == path.len() {
                Some((entry, entry.item))
            } else {
                match entry.item.value {
                    DocValue::Table(t) => lookup_from(t, path, i + 1),
                    DocValue::Array(items) => match first_string(items@, path[i + 1]) {
                        Some(item) => Some((entry, item)),
                        None => None,
                    },
                    _ => None,
                }
            },
        }
    }
}

/// The spans of the key and value that the key path `path` leads to, if any.
pub open spec fn find_span(doc: DocTable, path: Seq<Seq<char>>) -> Option<(Range<usize>, Range<usize>)> {
    match lookup_from(doc, path, 0) {
        Some((entry, item)) => Some((entry.key_span, item.span)),
        None => None,
    }
}

/// The key and value that `path` leads to in `document`, if any.
pub open spec fn spec_get_key_value(document: DocTable, path: Seq<&str>) -> Option<(DocEntry, DocItem)> {
    lookup_from(document, str_views(path), 0)
}

/// The spans of the key and value that `path` leads to in `document`, if any.
pub open spec fn spec_get_key_value_span(document: DocTable, path: Seq<&str>) -> Option<(Range<usize>, Range<usize>)> {
    match spec_get_key_value(document, path) {
        Some((entry, item)) => Some((entry.key_span, item.span)),
        None => None,
    }
}

fn find_string<'doc>(items: &'doc Vec<DocItem>, text: &str) -> (r: Option<&'doc DocItem>)
    ensures
        r matches Some(it) ==> first_string(items@, text@) == Some(*it),
        r is None ==> first_string(items@, text@) is None,
{
    let mut k: usize = 0;
    while k < items.len()
        invariant
            k <= items@.len(),
            forall|j: int| 0 <= j < k ==> !is_text(#[trigger] items@[j], text@),
        decreases items@.len() - k,
    {
        if let DocValue::String(s) = &items[k].value {
            if same_text(s.as_str(), text) {
                proof {
                    let c = choose|c: int| is_first_string(items@, text@, c);
                    assert(is_first_string(items@, text@, k as int));
                    assert(c == k) by {
                        if c < k {
                            assert(!is_text(items@[c], text@));
                        } else if k < c {
                        }
                    }
                }
                return Some(&items[k]);
            }
        }
        k = k + 1;
    }
    None
}

/// The key and value that `path` leads to in `document`, if any.
pub fn get_key_value<'doc>(document: &'doc DocTable, path: &[&str]) -> (r: Option<(&'doc DocEntry, &'doc DocItem)>)
    ensures
        r matches Some((e, it)) ==> spec_get_key_value(*document, path@) == Some((*e, *it)),
        r is None ==> spec_get_key_value(*document, path@) is None,
{
    let ghost p = str_views(path@);
    let mut table: &DocTable = document;
    let mut i: usize = 0;
    while i < path.len()
        invariant
            p == str_views(path@),
            i <= path@.len(),
            lookup_from(*document, p, 0) == lookup_from(*table, p, i as int),
        decreases path@.len() - i,
    {
        assert(p[i as int] == path@[i as int]@);
        let entry = match table.get_key_value(path[i]) {
            Some(e) => e,
            None => return None,
        };
        if i + 1 == path.len() {
            return Some((entry, &entry.item));
        }
        assert(p[i + 1] == path@[i + 1]@);
        match &entry.item.value {
            DocValue::Table(t) => {
                table = t;
            },
            DocValue::Array(items) => {
                return match find_string(items, path[i + 1]) {
                    Some(item) => Some((entry, item)),
                    None => None,
                };
            },
            _ => return None,
        }
        i = i + 1;
    }
    None
}

/// The spans of the key and value that `path` leads to in `document`, if any.
pub fn get_key_value_span(document: &DocTable, path: &[&str]) -> (r: Option<TomlSpan>)
    ensures
        r matches Some(s) ==> spec_get_key_value_span(*document, path@) == Some((s.key, s.value)),
        r is None ==> spec_get_key_value_span(*document, path@) is None,
{
    match get_key_value(document, path) {
        Some((entry, item)) => Some(
            TomlSpan {
                key: Range { start: entry.key_span.start, end: entry.key_span.end },
                value: Range { start: item.span.start, end: item.span.end },
            },
        ),
        None => None,
    }
}

} // verus!
