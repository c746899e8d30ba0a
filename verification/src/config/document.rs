//! The untyped document a configuration file parses into: a tree of string
//! values and tables. The decoder reads only strings and tables; every other
//! kind of value is kept opaquely as [`TomlValue::Other`], which the decoder
//! skips. Contracts speak of the document through its abstract value,
//! [`DocView`].

use vstd::prelude::*;

use crate::text::str_eq;

verus! {

/// One node of a parsed configuration document.
#[derive(Debug, PartialEq, Eq)]
pub enum TomlValue {
    /// A string value.
    Str(String),
    /// A table: key/value entries, in the order the parser hands them out.
    Table(Vec<(String, TomlValue)>),
    /// Any other kind of value (number, boolean, array, datetime).
    Other,
}

/// Abstract value of a document node: the same tree over sequences.
pub enum DocView {
    Str(Seq<char>),
    Table(Seq<(Seq<char>, DocView)>),
    Other,
}

/// Abstract value of a [`TomlValue`].
pub open spec fn doc_view(v: TomlValue) -> DocView
    decreases v,
{
    match v {
        TomlValue::Str(s) => DocView::Str(s@),
        TomlValue::Table(es) => DocView::Table(entries_view(es@)),
        TomlValue::Other => DocView::Other,
    }
}

/// Abstract value of a table's entries.
pub open spec fn entries_view(entries: Seq<(String, TomlValue)>) -> Seq<(Seq<char>, DocView)>
    decreases entries,
{
    if entries.len() == 0 {
        Seq::empty()
    } else {
        entries_view(entries.drop_last()).push(
            (entries.last().0@, doc_view(entries.last().1)),
        )
    }
}

/// An entries view is the view of each entry, in place.
pub broadcast proof fn lemma_entries_view(entries: Seq<(String, TomlValue)>)
    ensures
        (#[trigger] entries_view(entries)).len() == entries.len(),
        forall|i: int|
            0 <= i < entries.len() ==> #[trigger] entries_view(entries)[i] == (
                entries[i].0@,
                doc_view(entries[i].1),
            ),
    decreases entries.len(),
{
    if entries.len() > 0 {
        lemma_entries_view(entries.drop_last());
    }
}

/// `d` with nesting below `depth` levels collapsed to [`DocView::Other`].
/// The decoder reads at most four levels, so a generous cut changes nothing
/// it can observe.
pub open spec fn doc_truncate(d: DocView, depth: nat) -> DocView
    decreases depth, 0int,
{
    if depth == 0 {
        DocView::Other
    } else {
        match d {
            DocView::Str(s) => DocView::Str(s),
            DocView::Table(es) => DocView::Table(trunc_entries(es, (depth - 1) as nat)),
            DocView::Other => DocView::Other,
        }
    }
}

/// Each entry's value truncated at `depth` levels.
pub open spec fn trunc_entries(entries: Seq<(Seq<char>, DocView)>, depth: nat) -> Seq<
    (Seq<char>, DocView),
>
    decreases depth, 1int,
{
    Seq::new(entries.len(), |i: int| (entries[i].0, doc_truncate(entries[i].1, depth)))
}

/// Looks `key` up among `entries`; the last binding wins, following standard
/// mapping insertion semantics.
pub open spec fn table_get(entries: Seq<(Seq<char>, DocView)>, key: Seq<char>) -> Option<DocView>
    decreases entries.len(),
{
    if entries.len() == 0 {
        None
    } else if entries.last().0 == key {
        Some(entries.last().1)
    } else {
        table_get(entries.drop_last(), key)
    }
}

/// Executable lookup matching [`table_get`] on the entries' abstract value.
pub fn table_get_ref<'a>(entries: &'a Vec<(String, TomlValue)>, key: &str) -> (r: Option<
    &'a TomlValue,
>)
    ensures
        match r {
            Some(v) => table_get(entries_view(entries@), key@) == Some(doc_view(*v)),
            None => table_get(entries_view(entries@), key@) is None,
        },
{
    proof {
        lemma_entries_view(entries@);
    }
    let mut found: Option<usize> = None;
    let mut i: usize = 0;
    while i < entries.len()
        invariant
            i <= entries@.len(),
            match found {
                Some(j) => j < i && table_get(entries_view(entries@).take(i as int), key@)
                    == Some(doc_view(entries@[j as int].1)),
                None => table_get(entries_view(entries@).take(i as int), key@) is None,
            },
        decreases entries@.len() - i,
    {
        proof {
            lemma_entries_view(entries@);
            assert(entries_view(entries@).take(i + 1).drop_last() =~= entries_view(
                entries@,
            ).take(i as int));
            assert(entries_view(entries@).take(i + 1).last() == (
                entries@[i as int].0@,
                doc_view(entries@[i as int].1),
            ));
        }
        if str_eq(entries[i].0.as_str(), key) {
            found = Some(i);
        }
        i += 1;
    }
    proof {
        assert(entries_view(entries@).take(entries@.len() as int) =~= entries_view(entries@));
    }
    match found {
        Some(j) => Some(&entries[j].1),
        None => None,
    }
}

} // verus!
