//! The state that the application keeps while it runs: the base directory
//! of the workspace and the names of its categories.

use crate::text::same_text;
use vstd::prelude::*;

verus! {

/// The chosen base directory, as it is kept in the configuration file.
#[derive(Debug, PartialEq, Eq)]
pub struct WorkspaceConfig {
    pub base_dir: String,
}

/// The base directory of the workspace and the names of its categories.
#[derive(Debug, PartialEq, Eq)]
pub struct AppState {
    pub base_dir: String,
    pub categories: Vec<String>,
}

/// The mathematical content of an `AppState`.
pub struct AppStateView {
    pub base_dir: Seq<char>,
    pub categories: Seq<Seq<char>>,
}

impl View for AppState {
    type V = AppStateView;

    open spec fn view(&self) -> AppStateView {
        AppStateView { base_dir: self.base_dir@, categories: self.categories.deep_view() }
    }
}

/// The categories that a new workspace starts with.
pub open spec fn default_category_names() -> Seq<Seq<char>> {
    seq!["desktop-apps"@, "web-apps"@, "cli-apps"@, "other"@]
}

/// The categories that a new workspace starts with.
pub fn default_categories() -> (names: Vec<String>)
    ensures
        names.deep_view() == default_category_names(),
{
    let mut names: Vec<String> = Vec::new();
    names.push("desktop-apps".to_owned());
    names.push("web-apps".to_owned());
    names.push("cli-apps".to_owned());
    names.push("other".to_owned());
    assert(names.deep_view() =~= default_category_names());
    names
}

impl Default for AppState {
    fn default() -> (state: AppState)
        ensures
            state@ == (AppStateView {
                base_dir: "~/dev"@,
                categories: default_category_names(),
            }),
    {
        AppState { base_dir: "~/dev".to_owned(), categories: default_categories() }
    }
}

/// The categories after the category `name` has been created: as before
/// where `name` is among them, and with `name` at the end where it is not.
pub open spec fn with_category(categories: Seq<Seq<char>>, name: Seq<char>) -> Seq<Seq<char>> {
    if categories.contains(name) {
        categories
    } else {
        categories.push(name)
    }
}

/// Records that the category `name` has been created.
pub fn create_category(state: &mut AppState, name: &str)
    ensures
        final(state)@.base_dir == old(state)@.base_dir,
        final(state)@.categories == with_category(old(state)@.categories, name@),
{
    let mut i: usize = 0;
    while i < state.categories.len()
        invariant
            i <= state.categories@.len(),
            state@ == old(state)@,
            state@.categories.len() == state.categories@.len(),
            forall|k: int| 0 <= k < i ==> state@.categories[k] != name@,
        decreases state.categories@.len() - i,
    {
        if same_text(state.categories[i].as_str(), name) {
            assert(state@.categories[i as int] == name@);
            return;
        }
        i = i + 1;
    }
    state.categories.push(name.to_owned());
    assert(state@.categories =~= old(state)@.categories.push(name@));
}

} // verus!
