//! Directory trees as they are read from the disk.

use crate::text::same_text;
use vstd::prelude::*;

verus! {

/// An entry of a directory: a file with its size in bytes, or a directory
/// with its own entries.
#[derive(Debug, PartialEq, Eq)]
pub enum DirEntry {
    File { name: String, size: u64 },
    Dir { name: String, entries: Vec<DirEntry> },
}

/// The mathematical content of a `DirEntry`.
pub enum DirEntryView {
    File { name: Seq<char>, size: u64 },
    Dir { name: Seq<char>, entries: Seq<DirEntryView> },
}

impl DirEntryView {
    /// The name of the entry.
    pub open spec fn name(self) -> Seq<char> {
        match self {
            DirEntryView::File { name, .. } => name,
            DirEntryView::Dir { name, .. } => name,
        }
    }
}

/// The content of an entry.
pub open spec fn entry_view(entry: DirEntry) -> DirEntryView
    decreases entry,
{
    match entry {
        DirEntry::File { name, size } => DirEntryView::File { name: name@, size },
        DirEntry::Dir { name, entries } => DirEntryView::Dir {
            name: name@,
            entries: entries_view(entries@, entries@.len() as int),
        },
    }
}

/// The contents of the first `upto` entries of `entries`.
pub open spec fn entries_view(entries: Seq<DirEntry>, upto: int) -> Seq<DirEntryView>
    decreases entries, upto,
{
    if upto <= 0 || upto > entries.len() {
        Seq::empty()
    } else {
        entries_view(entries, upto - 1).push(entry_view(entries[upto - 1]))
    }
}

/// The contents of a list of entries.
pub open spec fn list_view(entries: Vec<DirEntry>) -> Seq<DirEntryView> {
    entries_view(entries@, entries@.len() as int)
}

/// The contents of a list of entries are those of its entries, one by one.
pub proof fn lemma_list_view(entries: Vec<DirEntry>)
    ensures
        list_view(entries).len() == entries@.len(),
        forall|i: int|
            0 <= i < entries@.len() ==> #[trigger] list_view(entries)[i] == entry_view(entries@[i]),
{
    lemma_entries_view(entries@, entries@.len() as int);
}

/// The contents of the first `upto` entries are those of the entries, one
/// by one.
pub proof fn lemma_entries_view(entries: Seq<DirEntry>, upto: int)
    requires
        0 <= upto <= entries.len(),
    ensures
        entries_view(entries, upto).len() == upto,
        forall|i: int|
            0 <= i < upto ==> #[trigger] entries_view(entries, upto)[i] == entry_view(entries[i]),
    decreases upto,
{
    if upto > 0 {
        lemma_entries_view(entries, upto - 1);
    }
}

/// Some entry of `entries` has the name `name`.
pub open spec fn has_entry(entries: Seq<DirEntryView>, name: Seq<char>) -> bool {
    exists|i: int| 0 <= i < entries.len() && (#[trigger] entries[i]).name() == name
}

impl DirEntry {
    /// The name of the entry.
    pub fn name(&self) -> (name: &String)
        ensures
            name@ == entry_view(*self).name(),
    {
        match self {
            DirEntry::File { name, .. } => name,
            DirEntry::Dir { name, .. } => name,
        }
    }
}

/// Whether some entry of `entries` has the name `name`.
pub fn contains_entry(entries: &Vec<DirEntry>, name: &str) -> (r: bool)
    ensures
        r == has_entry(list_view(*entries), name@),
{
    proof {
        lemma_list_view(*entries);
    }
    let mut i: usize = 0;
    while i < entries.len()
        invariant
            i <= entries@.len(),
            list_view(*entries).len() == entries@.len(),
            forall|k: int|
                0 <= k < entries@.len() ==> #[trigger] list_view(*entries)[k] == entry_view(
                    entries@[k],
                ),
            forall|k: int| 0 <= k < i ==> (#[trigger] list_view(*entries)[k]).name() != name@,
        decreases entries@.len() - i,
    {
        if same_text(entries[i].name().as_str(), name) {
            assert(list_view(*entries)[i as int].name() == name@);
            return true;
        }
        i = i + 1;
    }
    false
}

} // verus!
