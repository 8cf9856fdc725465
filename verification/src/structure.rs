//! The structure of a project directory as shown to the user: its visible
//! entries, down to a fixed depth.

use crate::text::{chars_of, same_text};
use crate::tree::{entry_view, lemma_entries_view, list_view, DirEntry, DirEntryView};
use vstd::prelude::*;

verus! {

/// An entry of this name is shown: one that does not begin with a dot and
/// is neither `node_modules` nor `target`.
pub open spec fn is_shown_name(name: Seq<char>) -> bool {
    !(name.len() > 0 && name[0] == '.') && name != "node_modules"@ && name != "target"@
}

/// The depth to which a project directory is shown.
pub open spec fn shown_depth() -> nat {
    3
}

/// What is shown of the entries of a directory with `depth` levels left:
/// nothing where no level is left; else the entries with a shown name, in
/// their order, each directory with what is shown of its own entries one
/// level further down.
pub open spec fn shown(entries: Seq<DirEntryView>, depth: nat) -> Seq<DirEntryView>
    decreases depth, entries.len(),
{
    if depth == 0 || entries.len() == 0 {
        Seq::empty()
    } else {
        let before = shown(entries.drop_last(), depth);
        match entries.last() {
            DirEntryView::File { name, size } => if is_shown_name(name) {
                before.push(DirEntryView::File { name, size })
            } else {
                before
            },
            DirEntryView::Dir { name, entries: below } => if is_shown_name(name) {
                before.push(
                    DirEntryView::Dir { name, entries: shown(below, (depth - 1) as nat) },
                )
            } else {
                before
            },
        }
    }
}

/// Whether an entry of the name `name` is shown.
pub fn is_shown(name: &str) -> (r: bool)
    ensures
        r == is_shown_name(name@),
{
    let chars = chars_of(name);
    if chars.len() > 0 && chars[0] == '.' {
        return false;
    }
    !same_text(name, "node_modules") && !same_text(name, "target")
}

/// What is shown of the entries of a directory with `depth` levels left.
pub fn visible_structure(entries: &Vec<DirEntry>, depth: usize) -> (tree: Vec<DirEntry>)
    ensures
        list_view(tree) == shown(list_view(*entries), depth as nat),
    decreases depth,
{
    let mut tree: Vec<DirEntry> = Vec::new();
    if depth == 0 {
        return tree;
    }
    let ghost all = list_view(*entries);
    proof {
        lemma_entries_view(entries@, entries@.len() as int);
        assert(all.take(0) =~= Seq::<DirEntryView>::empty());
    }
    let mut i: usize = 0;
    while i < entries.len()
        invariant
            i <= entries@.len(),
            depth > 0,
            all == list_view(*entries),
            all.len() == entries@.len(),
            forall|k: int| 0 <= k < all.len() ==> #[trigger] all[k] == entry_view(entries@[k]),
            list_view(tree) == shown(all.take(i as int), depth as nat),
        decreases entries@.len() - i,
    {
        proof {
            assert(all.take(i as int + 1).drop_last() =~= all.take(i as int));
            assert(all.take(i as int + 1).last() == entry_view(entries@[i as int]));
        }
        let ghost before = list_view(tree);
        let ghost held = tree@;
        match &entries[i] {
            DirEntry::File { name, size } => {
                if is_shown(name.as_str()) {
                    tree.push(DirEntry::File { name: name.clone(), size: *size });
                    proof {
                        lemma_entries_view(held, held.len() as int);
                        lemma_entries_view(tree@, tree@.len() as int);
                        assert(list_view(tree) =~= before.push(
                            DirEntryView::File { name: name@, size: *size },
                        ));
                    }
                }
            },
            DirEntry::Dir { name, entries: below } => {
                if is_shown(name.as_str()) {
                    let sub = visible_structure(below, depth - 1);
                    tree.push(DirEntry::Dir { name: name.clone(), entries: sub });
                    proof {
                        lemma_entries_view(held, held.len() as int);
                        lemma_entries_view(tree@, tree@.len() as int);
                        assert(list_view(tree) =~= before.push(
                            DirEntryView::Dir {
                                name: name@,
                                entries: shown(list_view(*below), (depth - 1) as nat),
                            },
                        ));
                    }
                }
            },
        }
        i = i + 1;
    }
    proof {
        assert(all.take(all.len() as int) =~= all);
    }
    tree
}

/// The number of levels of a project directory that are shown, and so the
/// number of levels that need to be read.
pub fn structure_depth() -> (depth: usize)
    ensures
        depth == shown_depth(),
{
    3
}

/// The structure of a project directory as shown to the user: what is
/// shown of its entries, three levels deep.
pub fn get_project_structure(entries: &Vec<DirEntry>) -> (tree: Vec<DirEntry>)
    ensures
        list_view(tree) == shown(list_view(*entries), shown_depth()),
{
    visible_structure(entries, structure_depth())
}

} // verus!
