use vstd::prelude::*;
use crate::page::{is_markdown, is_markdown_name};
use crate::template::{is_index, is_index_name};

verus! {

/// What the walk does with one entry of a content directory.
#[derive(PartialEq, Eq, Structural, Clone, Copy, Debug)]
pub enum EntryKind {
    /// The directory's index page, rendered after all its siblings.
    Index,
    /// A subdirectory, walked at once into the mirrored output directory.
    Subdir,
    /// A page, rendered at once and listed on the directory's index.
    Page,
    /// Anything else, left alone.
    Skip,
}

/// One entry of a directory listing.
pub struct Entry {
    pub name: String,
    pub is_dir: bool,
}

/// What the walk does with each entry of one directory, in listing order.
pub struct DirPlan {
    pub kinds: Vec<EntryKind>,
    pub has_index: bool,
}

pub open spec fn kind_spec(name: Seq<char>, is_dir: bool) -> EntryKind {
    if is_dir {
        EntryKind::Subdir
    } else if is_index_name(name) {
        EntryKind::Index
    } else if is_markdown_name(name) {
        EntryKind::Page
    } else {
        EntryKind::Skip
    }
}

/// The entries of a directory that its index page lists, in listing order.
pub open spec fn listed_spec(entries: Seq<Entry>) -> Seq<Entry> {
    entries.filter(|e: Entry| kind_spec(e.name@, e.is_dir) == EntryKind::Page)
}

/// Sorts one directory entry.
pub fn classify_entry(name: &str, is_dir: bool) -> (r: EntryKind)
    ensures
        r == kind_spec(name@, is_dir),
{
    if is_dir {
        EntryKind::Subdir
    } else if is_index(name) {
        EntryKind::Index
    } else if is_markdown(name) {
        EntryKind::Page
    } else {
        EntryKind::Skip
    }
}

/// Sorts the entries of one directory, in listing order.
pub fn plan_dir(entries: &Vec<Entry>) -> (r: DirPlan)
    ensures
        r.kinds.len() == entries.len(),
        forall|i: int|
            0 <= i < entries.len() ==> r.kinds[i] == kind_spec(
                #[trigger] entries[i].name@,
                entries[i].is_dir,
            ),
        r.has_index == exists|i: int|
            0 <= i < entries.len() && kind_spec(#[trigger] entries[i].name@, entries[i].is_dir)
                == EntryKind::Index,
{
    let mut kinds: Vec<EntryKind> = Vec::new();
    let mut has_index = false;
    let mut i: usize = 0;
    while i < entries.len()
        invariant
            i <= entries.len(),
            kinds.len() == i,
            forall|j: int|
                0 <= j < i ==> kinds[j] == kind_spec(#[trigger] entries[j].name@, entries[j].is_dir),
            has_index == exists|j: int|
                0 <= j < i && kind_spec(#[trigger] entries[j].name@, entries[j].is_dir)
                    == EntryKind::Index,
        decreases entries.len() - i,
    {
        let k = classify_entry(entries[i].name.as_str(), entries[i].is_dir);
        if k == EntryKind::Index {
            has_index = true;
        }
        kinds.push(k);
        i = i + 1;
    }
    DirPlan { kinds, has_index }
}

/// The pages that a directory's index lists, in listing order.
pub fn listed_entries(entries: &Vec<Entry>) -> (r: Vec<usize>)
    ensures
        r@.map_values(|k: usize| entries@[k as int]) == listed_spec(entries@),
        forall|j: int| 0 <= j < r.len() ==> r[j] < entries.len(),
{
    let mut r: Vec<usize> = Vec::new();
    let mut i: usize = 0;
    while i < entries.len()
        invariant
            i <= entries.len(),
            forall|j: int| 0 <= j < r.len() ==> r[j] < i,
            r@.map_values(|k: usize| entries@[k as int]) == listed_spec(
                entries@.subrange(0, i as int),
            ),
        decreases entries.len() - i,
    {
        let k = classify_entry(entries[i].name.as_str(), entries[i].is_dir);
        proof {
            let s = entries@.subrange(0, i as int + 1);
            assert(entries@.subrange(0, i as int) =~= s.drop_last());
            reveal(Seq::filter);
        }
        if k == EntryKind::Page {
            r.push(i);
        }
        proof {
            let s = entries@.subrange(0, i as int + 1);
            assert(r@.map_values(|k: usize| entries@[k as int]) =~= listed_spec(s));
        }
        i = i + 1;
    }
    assert(entries@.subrange(0, entries.len() as int) =~= entries@);
    r
}

/// An index page lists every markdown page directly in its directory, other
/// than the index itself, and nothing else: no subdirectory and no other file.
pub proof fn lemma_index_lists_siblings(entries: Seq<Entry>, e: Entry)
    ensures
        listed_spec(entries).contains(e) <==> (entries.contains(e) && !e.is_dir
            && is_markdown_name(e.name@) && !is_index_name(e.name@)),
{
    let p = |e: Entry| kind_spec(e.name@, e.is_dir) == EntryKind::Page;
    if entries.contains(e) && p(e) {
        let i = choose|i: int| 0 <= i < entries.len() && entries[i] == e;
        entries.lemma_filter_contains(p, i);
    }
    if listed_spec(entries).contains(e) {
        entries.lemma_filter_contains_rev(p, e);
        let k = choose|k: int| 0 <= k < entries.filter(p).len() && entries.filter(p)[k] == e;
        entries.lemma_filter_pred(p, k);
    }
}

} // verus!
