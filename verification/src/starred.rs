//! The set of starred projects, kept as a list of project paths.

use crate::json::{
    encode_strings_pretty, json_array_parse, json_array_pretty_text, parse_strings,
};
use crate::text::same_text;
use vstd::prelude::*;

verus! {

/// No path stands twice in `paths`.
pub open spec fn no_duplicates(paths: Seq<Seq<char>>) -> bool {
    forall|i: int, j: int| 0 <= i < j < paths.len() ==> paths[i] != paths[j]
}

/// `paths` without the later copies of a path that stands in it more than
/// once.
pub open spec fn without_duplicates(paths: Seq<Seq<char>>) -> Seq<Seq<char>>
    decreases paths.len(),
{
    if paths.len() == 0 {
        paths
    } else {
        let kept = without_duplicates(paths.drop_last());
        if kept.contains(paths.last()) {
            kept
        } else {
            kept.push(paths.last())
        }
    }
}

/// `paths` after a toggle of `path`: without it where it was starred, with
/// it at the end where it was not.
pub open spec fn toggled(paths: Seq<Seq<char>>, path: Seq<char>) -> Seq<Seq<char>> {
    if paths.contains(path) {
        paths.remove(paths.index_of(path))
    } else {
        paths.push(path)
    }
}

/// The starred paths that a stored text gives: those of the JSON array, and
/// none where the text is no JSON array of strings.
pub open spec fn stored_paths(text: Seq<char>) -> Seq<Seq<char>> {
    match json_array_parse(text) {
        Some(paths) => without_duplicates(paths),
        None => Seq::empty(),
    }
}

/// A toggle changes whether `path` is starred and leaves every other path
/// as it was; a second toggle of the same path restores the set.
pub proof fn lemma_toggle_twice_restores(paths: Seq<Seq<char>>, path: Seq<char>)
    requires
        no_duplicates(paths),
    ensures
        no_duplicates(toggled(paths, path)),
        toggled(paths, path).contains(path) == !paths.contains(path),
        forall|other: Seq<char>|
            other != path ==> toggled(paths, path).contains(other) == paths.contains(other),
        toggled(toggled(paths, path), path).to_set() == paths.to_set(),
        toggled(toggled(paths, path), path).contains(path) == paths.contains(path),
        !paths.contains(path) ==> toggled(toggled(paths, path), path) == paths,
{
    let once = toggled(paths, path);
    lemma_toggle(paths, path);
    lemma_toggle(once, path);
    let twice = toggled(once, path);
    assert forall|other: Seq<char>| twice.contains(other) == paths.contains(other) by {
        if other == path {
        } else {
        }
    }
    assert(twice.to_set() =~= paths.to_set());
    if !paths.contains(path) {
        let at = once.index_of(path);
        assert(once[paths.len() as int] == path);
        assert(at == paths.len());
        assert(twice =~= paths);
    }
}

proof fn lemma_toggle(paths: Seq<Seq<char>>, path: Seq<char>)
    requires
        no_duplicates(paths),
    ensures
        no_duplicates(toggled(paths, path)),
        toggled(paths, path).contains(path) == !paths.contains(path),
        forall|other: Seq<char>|
            other != path ==> toggled(paths, path).contains(other) == paths.contains(other),
{
    let after = toggled(paths, path);
    if paths.contains(path) {
        let at = paths.index_of(path);
        assert forall|i: int, j: int| 0 <= i < j < after.len() implies after[i] != after[j] by {
            let i0 = if i < at { i } else { i + 1 };
            let j0 = if j < at { j } else { j + 1 };
            assert(after[i] == paths[i0] && after[j] == paths[j0]);
        }
        if after.contains(path) {
            let k = choose|k: int| 0 <= k < after.len() && after[k] == path;
            let k0 = if k < at { k } else { k + 1 };
            assert(after[k] == paths[k0]);
        }
        assert forall|other: Seq<char>| other != path implies after.contains(other)
            == paths.contains(other) by {
            if paths.contains(other) {
                let k = choose|k: int| 0 <= k < paths.len() && paths[k] == other;
                let k1 = if k < at { k } else { k - 1 };
                assert(after[k1] == other);
            }
            if after.contains(other) {
                let k = choose|k: int| 0 <= k < after.len() && after[k] == other;
                let k0 = if k < at { k } else { k + 1 };
                assert(paths[k0] == other);
            }
        }
    } else {
        assert(after[paths.len() as int] == path);
        assert forall|other: Seq<char>| other != path implies after.contains(other)
            == paths.contains(other) by {
            if paths.contains(other) {
                let k = choose|k: int| 0 <= k < paths.len() && paths[k] == other;
                assert(after[k] == other);
            }
            if after.contains(other) {
                let k = choose|k: int| 0 <= k < after.len() && after[k] == other;
                assert(paths[k] == other);
            }
        }
    }
}

proof fn lemma_without_duplicates(paths: Seq<Seq<char>>)
    ensures
        no_duplicates(without_duplicates(paths)),
        forall|p: Seq<char>| without_duplicates(paths).contains(p) == paths.contains(p),
    decreases paths.len(),
{
    if paths.len() > 0 {
        let rest = paths.drop_last();
        let kept = without_duplicates(rest);
        let all = without_duplicates(paths);
        lemma_without_duplicates(rest);
        assert forall|p: Seq<char>| all.contains(p) == paths.contains(p) by {
            if paths.contains(p) {
                let k = choose|k: int| 0 <= k < paths.len() && paths[k] == p;
                if k < rest.len() {
                    assert(rest[k] == p);
                    assert(rest.contains(p));
                    assert(kept.contains(p) == rest.contains(p));
                    let a = choose|a: int| 0 <= a < kept.len() && kept[a] == p;
                    assert(all[a] == p);
                } else {
                    if !kept.contains(p) {
                        assert(all[kept.len() as int] == p);
                    }
                }
            }
            if all.contains(p) {
                let a = choose|a: int| 0 <= a < all.len() && all[a] == p;
                if a < kept.len() {
                    assert(kept[a] == p);
                    assert(kept.contains(p));
                    assert(kept.contains(p) == rest.contains(p));
                    let k = choose|k: int| 0 <= k < rest.len() && rest[k] == p;
                    assert(paths[k] == p);
                } else {
                    assert(paths[paths.len() - 1] == p);
                }
            }
        }
    }
}

/// The paths of the starred projects, each once, in the order in which they
/// were starred.
pub struct StarredSet {
    paths: Vec<String>,
}

impl View for StarredSet {
    type V = Seq<Seq<char>>;

    closed spec fn view(&self) -> Seq<Seq<char>> {
        self.paths.deep_view()
    }
}

impl StarredSet {
    /// The set is well formed: it holds no path twice.
    pub open spec fn wf(&self) -> bool {
        no_duplicates(self@)
    }

    /// The empty set.
    pub fn new() -> (set: StarredSet)
        ensures
            set@ == Seq::<Seq<char>>::empty(),
            set.wf(),
    {
        let set = StarredSet { paths: Vec::new() };
        assert(set@ =~= Seq::<Seq<char>>::empty());
        set
    }

    /// The position of `path` in the set, if it is starred.
    fn position(&self, path: &str) -> (r: Option<usize>)
        ensures
            match r {
                Some(i) => i < self@.len() && self@[i as int] == path@,
                None => !self@.contains(path@),
            },
    {
        let mut i: usize = 0;
        while i < self.paths.len()
            invariant
                i <= self.paths@.len(),
                self@.len() == self.paths@.len(),
                forall|k: int| 0 <= k < i ==> self@[k] != path@,
            decreases self.paths@.len() - i,
        {
            if same_text(self.paths[i].as_str(), path) {
                return Some(i);
            }
            i = i + 1;
        }
        None
    }

    /// Whether `path` is starred.
    pub fn contains(&self, path: &str) -> (r: bool)
        ensures
            r == self@.contains(path@),
    {
        self.position(path).is_some()
    }

    /// The starred paths.
    pub fn paths(&self) -> (paths: &Vec<String>)
        ensures
            paths.deep_view() == self@,
    {
        &self.paths
    }

    /// Stars `path` where it is not starred, and takes the star away where
    /// it is.
    pub fn toggle(&mut self, path: &str)
        requires
            old(self).wf(),
        ensures
            final(self).wf(),
            final(self)@ == toggled(old(self)@, path@),
    {
        proof {
            lemma_toggle(self@, path@);
        }
        match self.position(path) {
            Some(i) => {
                proof {
                    let s = self@;
                    let at = s.index_of(path@);
                    assert(s[at] == path@);
                    assert(at == i);
                }
                let _ = self.paths.remove(i);
                assert(self@ =~= old(self)@.remove(i as int));
            },
            None => {
                self.paths.push(path.to_owned());
                assert(self@ =~= old(self)@.push(path@));
            },
        }
    }

    /// The set that a stored text gives: the paths of the JSON array, each
    /// once; the empty set where the text is no JSON array of strings.
    pub fn from_json(text: &str) -> (set: StarredSet)
        ensures
            set.wf(),
            set@ == stored_paths(text@),
    {
        let mut set = StarredSet::new();
        match parse_strings(text) {
            None => set,
            Some(listed) => {
                let ghost all = listed.deep_view();
                let mut i: usize = 0;
                while i < listed.len()
                    invariant
                        i <= listed@.len(),
                        all == listed.deep_view(),
                        all.len() == listed@.len(),
                        set@ == without_duplicates(all.take(i as int)),
                    decreases listed@.len() - i,
                {
                    proof {
                        assert(all.take(i as int + 1).drop_last() =~= all.take(i as int));
                    }
                    if !set.contains(listed[i].as_str()) {
                        set.paths.push(listed[i].clone());
                        assert(set@ =~= without_duplicates(all.take(i as int)).push(all[i as int]));
                    }
                    i = i + 1;
                }
                proof {
                    assert(all.take(all.len() as int) =~= all);
                    lemma_without_duplicates(all);
                }
                set
            },
        }
    }

    /// The text under which the set is stored: an indented JSON array of its
    /// paths.
    pub fn to_json(&self) -> (text: String)
        ensures
            text@ == json_array_pretty_text(self@),
    {
        encode_strings_pretty(&self.paths)
    }
}

/// Toggles the star of the project at `project_path` in the set that the
/// stored text `stored` gives, and hands back the text to store in its
/// place.
pub fn toggle_project_star(stored: &str, project_path: &str) -> (text: String)
    ensures
        text@ == json_array_pretty_text(toggled(stored_paths(stored@), project_path@)),
{
    let mut set = StarredSet::from_json(stored);
    set.toggle(project_path);
    set.to_json()
}

} // verus!
