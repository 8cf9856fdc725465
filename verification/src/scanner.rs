//! The directory scanner: from what was read of a workspace tree to project
//! records with type, size, file count, state of the working tree and star.

use crate::git_status::{get_git_status, status_of, ToolOutput, ToolOutputView};
use crate::starred::StarredSet;
use crate::text::{contains_text, same_text, text_contains};
use crate::tree::{
    contains_entry, entry_view, has_entry, lemma_list_view, list_view, DirEntry, DirEntryView,
};
use crate::time::{format_utc_second, utc_second_text};
use vstd::prelude::*;

verus! {

/// The kind of a project, told from the files at its top.
#[derive(Clone, Copy, Debug, PartialEq, Eq, Structural)]
pub enum ProjectType {
    Tauri,
    Rust,
    Node,
    React,
    Next,
    Electron,
    Go,
    Python,
    Markdown,
    Unknown,
}

impl ProjectType {
    /// The tag of the kind.
    pub open spec fn tag(self) -> Seq<char> {
        match self {
            ProjectType::Tauri => "tauri"@,
            ProjectType::Rust => "rust"@,
            ProjectType::Node => "node"@,
            ProjectType::React => "react"@,
            ProjectType::Next => "next"@,
            ProjectType::Electron => "electron"@,
            ProjectType::Go => "go"@,
            ProjectType::Python => "python"@,
            ProjectType::Markdown => "markdown"@,
            ProjectType::Unknown => "unknown"@,
        }
    }

    /// The tag of the kind.
    pub fn to_string(&self) -> (s: String)
        ensures
            s@ == self.tag(),
    {
        match self {
            ProjectType::Tauri => "tauri".to_owned(),
            ProjectType::Rust => "rust".to_owned(),
            ProjectType::Node => "node".to_owned(),
            ProjectType::React => "react".to_owned(),
            ProjectType::Next => "next".to_owned(),
            ProjectType::Electron => "electron".to_owned(),
            ProjectType::Go => "go".to_owned(),
            ProjectType::Python => "python".to_owned(),
            ProjectType::Markdown => "markdown".to_owned(),
            ProjectType::Unknown => "unknown".to_owned(),
        }
    }
}

/// What stands at the top of a project directory, as far as it tells the
/// kind of the project.
#[derive(Debug, PartialEq, Eq)]
pub struct ProjectMarkers {
    /// A Rust manifest, `Cargo.toml`.
    pub has_cargo_toml: bool,
    /// A folder `src-tauri`.
    pub has_src_tauri: bool,
    /// The text of the Node manifest, `package.json`, where there is one;
    /// the empty text for a manifest that cannot be read.
    pub package_json: Option<String>,
    /// A Go module file, `go.mod`.
    pub has_go_mod: bool,
    /// `requirements.txt`.
    pub has_requirements_txt: bool,
    /// `pyproject.toml`.
    pub has_pyproject_toml: bool,
    /// `README.md`.
    pub has_readme: bool,
}

/// The mathematical content of `ProjectMarkers`.
pub struct ProjectMarkersView {
    pub has_cargo_toml: bool,
    pub has_src_tauri: bool,
    pub package_json: Option<Seq<char>>,
    pub has_go_mod: bool,
    pub has_requirements_txt: bool,
    pub has_pyproject_toml: bool,
    pub has_readme: bool,
}

impl View for ProjectMarkers {
    type V = ProjectMarkersView;

    open spec fn view(&self) -> ProjectMarkersView {
        ProjectMarkersView {
            has_cargo_toml: self.has_cargo_toml,
            has_src_tauri: self.has_src_tauri,
            package_json: self.package_json.deep_view(),
            has_go_mod: self.has_go_mod,
            has_requirements_txt: self.has_requirements_txt,
            has_pyproject_toml: self.has_pyproject_toml,
            has_readme: self.has_readme,
        }
    }
}

/// The kind that a Node manifest tells: the first of `next`, `react` and
/// `electron` whose name it holds in double quotes, and `node` where it
/// holds none of them.
pub open spec fn node_flavour(manifest: Seq<char>) -> ProjectType {
    if contains_text(manifest, "\"next\""@, false) {
        ProjectType::Next
    } else if contains_text(manifest, "\"react\""@, false) {
        ProjectType::React
    } else if contains_text(manifest, "\"electron\""@, false) {
        ProjectType::Electron
    } else {
        ProjectType::Node
    }
}

/// The kind of a project with the markers `m`. The checks run in a fixed
/// order and the first that applies decides: a Rust manifest, a Node
/// manifest, a Go module file, a Python marker, a README.
pub open spec fn project_type_of(m: ProjectMarkersView) -> ProjectType {
    if m.has_cargo_toml {
        if m.has_src_tauri {
            ProjectType::Tauri
        } else {
            ProjectType::Rust
        }
    } else if m.package_json is Some {
        node_flavour(m.package_json->0)
    } else if m.has_go_mod {
        ProjectType::Go
    } else if m.has_requirements_txt || m.has_pyproject_toml {
        ProjectType::Python
    } else if m.has_readme {
        ProjectType::Markdown
    } else {
        ProjectType::Unknown
    }
}

/// A Rust manifest decides the kind, whatever else the directory holds: two
/// projects with a Rust manifest that agree on the folder `src-tauri` are of
/// the same kind, `tauri` with the folder and `rust` without it, also where
/// one of them has a Node manifest.
pub proof fn lemma_rust_manifest_decides(a: ProjectMarkersView, b: ProjectMarkersView)
    requires
        a.has_cargo_toml,
        b.has_cargo_toml,
        a.has_src_tauri == b.has_src_tauri,
    ensures
        project_type_of(a) == project_type_of(b),
        project_type_of(a) == if a.has_src_tauri {
            ProjectType::Tauri
        } else {
            ProjectType::Rust
        },
{
}

/// The markers of a project directory with the entries `entries` at its
/// top, whose Node manifest, where one is listed, has the text
/// `package_json`, or the empty text where it could not be read.
pub open spec fn markers_of(
    entries: Seq<DirEntryView>,
    package_json: Option<Seq<char>>,
) -> ProjectMarkersView {
    ProjectMarkersView {
        has_cargo_toml: has_entry(entries, "Cargo.toml"@),
        has_src_tauri: has_entry(entries, "src-tauri"@),
        package_json: if has_entry(entries, "package.json"@) {
            match package_json {
                Some(text) => Some(text),
                None => Some(Seq::empty()),
            }
        } else {
            None
        },
        has_go_mod: has_entry(entries, "go.mod"@),
        has_requirements_txt: has_entry(entries, "requirements.txt"@),
        has_pyproject_toml: has_entry(entries, "pyproject.toml"@),
        has_readme: has_entry(entries, "README.md"@),
    }
}

/// A directory with a Rust manifest is a Rust project whatever else it
/// holds: with a Node manifest beside the Rust manifest, of whatever text,
/// the kind is `tauri` where the directory holds `src-tauri` and `rust`
/// where it does not.
pub proof fn lemma_rust_manifest_wins_over_node_manifest(
    entries: Seq<DirEntryView>,
    package_json: Option<Seq<char>>,
)
    requires
        has_entry(entries, "Cargo.toml"@),
        has_entry(entries, "package.json"@),
    ensures
        project_type_of(markers_of(entries, package_json)) == if has_entry(
            entries,
            "src-tauri"@,
        ) {
            ProjectType::Tauri
        } else {
            ProjectType::Rust
        },
{
}

/// Reads the markers of a project directory off its entries.
pub fn read_markers(entries: &Vec<DirEntry>, package_json: &Option<String>) -> (markers:
    ProjectMarkers)
    ensures
        markers@ == markers_of(list_view(*entries), package_json.deep_view()),
{
    let manifest = if contains_entry(entries, "package.json") {
        match package_json {
            Some(text) => Some(text.clone()),
            None => Some(String::new()),
        }
    } else {
        None
    };
    ProjectMarkers {
        has_cargo_toml: contains_entry(entries, "Cargo.toml"),
        has_src_tauri: contains_entry(entries, "src-tauri"),
        package_json: manifest,
        has_go_mod: contains_entry(entries, "go.mod"),
        has_requirements_txt: contains_entry(entries, "requirements.txt"),
        has_pyproject_toml: contains_entry(entries, "pyproject.toml"),
        has_readme: contains_entry(entries, "README.md"),
    }
}

/// Tells the kind of a project from the markers at its top.
pub fn detect_project_type(markers: &ProjectMarkers) -> (kind: ProjectType)
    ensures
        kind == project_type_of(markers@),
{
    if markers.has_cargo_toml {
        if markers.has_src_tauri {
            return ProjectType::Tauri;
        }
        return ProjectType::Rust;
    }
    match &markers.package_json {
        Some(manifest) => {
            if text_contains(manifest.as_str(), "\"next\"") {
                return ProjectType::Next;
            }
            if text_contains(manifest.as_str(), "\"react\"") {
                return ProjectType::React;
            }
            if text_contains(manifest.as_str(), "\"electron\"") {
                return ProjectType::Electron;
            }
            return ProjectType::Node;
        },
        None => {},
    }
    if markers.has_go_mod {
        return ProjectType::Go;
    }
    if markers.has_requirements_txt || markers.has_pyproject_toml {
        return ProjectType::Python;
    }
    if markers.has_readme {
        return ProjectType::Markdown;
    }
    ProjectType::Unknown
}

/// A directory of this name is left out of the statistics, with all that
/// lies below it.
pub open spec fn is_excluded_name(name: Seq<char>) -> bool {
    name == "node_modules"@ || name == "target"@ || name == ".git"@
}

/// Whether a directory of the name `name` is left out of the statistics.
pub fn is_excluded_dir(name: &str) -> (r: bool)
    ensures
        r == is_excluded_name(name@),
{
    same_text(name, "node_modules") || same_text(name, "target") || same_text(name, ".git")
}

/// What a walk through a directory tree counts: the bytes and the number
/// of the files, and the number of directories that it enters.
pub struct Tally {
    pub size: nat,
    pub files: nat,
    pub dirs: nat,
}

impl Tally {
    /// Nothing counted.
    pub open spec fn zero() -> Tally {
        Tally { size: 0, files: 0, dirs: 0 }
    }

    /// The two counts together.
    pub open spec fn plus(self, other: Tally) -> Tally {
        Tally {
            size: self.size + other.size,
            files: self.files + other.files,
            dirs: self.dirs + other.dirs,
        }
    }
}

/// What one entry counts: a file its size and itself; a directory what its
/// entries count and itself as entered, and nothing at all where its name
/// is excluded.
pub open spec fn entry_tally(entry: DirEntryView) -> Tally
    decreases entry,
{
    match entry {
        DirEntryView::File { size, .. } => Tally { size: size as nat, files: 1, dirs: 0 },
        DirEntryView::Dir { name, entries } => if is_excluded_name(name) {
            Tally::zero()
        } else {
            tally_of_first(entries, entries.len() as int).plus(
                Tally { size: 0, files: 0, dirs: 1 },
            )
        },
    }
}

/// What the first `upto` entries of `entries` count.
pub open spec fn tally_of_first(entries: Seq<DirEntryView>, upto: int) -> Tally
    decreases entries, upto,
{
    if upto <= 0 || upto > entries.len() {
        Tally::zero()
    } else {
        tally_of_first(entries, upto - 1).plus(entry_tally(entries[upto - 1]))
    }
}

/// What the entries of a directory count.
pub open spec fn tally_of(entries: Seq<DirEntryView>) -> Tally {
    tally_of_first(entries, entries.len() as int)
}

/// The number of bytes in the files below a directory with the entries
/// `entries`, leaving out what lies below an excluded directory.
pub open spec fn counted_size(entries: Seq<DirEntryView>) -> nat {
    tally_of(entries).size
}

/// The number of files below a directory with the entries `entries`,
/// leaving out what lies below an excluded directory.
pub open spec fn counted_files(entries: Seq<DirEntryView>) -> nat {
    tally_of(entries).files
}

/// An entry with every excluded directory in it emptied, at any depth.
pub open spec fn emptied(entry: DirEntryView) -> DirEntryView
    decreases entry,
{
    match entry {
        DirEntryView::File { .. } => entry,
        DirEntryView::Dir { name, entries } => if is_excluded_name(name) {
            DirEntryView::Dir { name, entries: Seq::empty() }
        } else {
            DirEntryView::Dir { name, entries: emptied_first(entries, entries.len() as int) }
        },
    }
}

/// The first `upto` entries of `entries`, each with every excluded
/// directory in it emptied.
pub open spec fn emptied_first(entries: Seq<DirEntryView>, upto: int) -> Seq<DirEntryView>
    decreases entries, upto,
{
    if upto <= 0 || upto > entries.len() {
        Seq::empty()
    } else {
        emptied_first(entries, upto - 1).push(emptied(entries[upto - 1]))
    }
}

/// The entries `entries`, each with every excluded directory in it emptied.
pub open spec fn emptied_all(entries: Seq<DirEntryView>) -> Seq<DirEntryView> {
    emptied_first(entries, entries.len() as int)
}

proof fn lemma_emptied_first(entries: Seq<DirEntryView>, upto: int)
    requires
        0 <= upto <= entries.len(),
    ensures
        emptied_first(entries, upto).len() == upto,
        forall|i: int|
            0 <= i < upto ==> #[trigger] emptied_first(entries, upto)[i] == emptied(entries[i]),
    decreases upto,
{
    if upto > 0 {
        lemma_emptied_first(entries, upto - 1);
    }
}

proof fn lemma_tally_depends_on_prefix(a: Seq<DirEntryView>, b: Seq<DirEntryView>, upto: int)
    requires
        0 <= upto <= a.len(),
        upto <= b.len(),
        forall|i: int| 0 <= i < upto ==> entry_tally(a[i]) == entry_tally(b[i]),
    ensures
        tally_of_first(a, upto) == tally_of_first(b, upto),
    decreases upto,
{
    if upto > 0 {
        lemma_tally_depends_on_prefix(a, b, upto - 1);
    }
}

proof fn lemma_emptied_entry_counts_the_same(entry: DirEntryView)
    ensures
        entry_tally(emptied(entry)) == entry_tally(entry),
    decreases entry,
{
    match entry {
        DirEntryView::File { .. } => {},
        DirEntryView::Dir { name, entries } => {
            if !is_excluded_name(name) {
                lemma_emptied_list_counts_the_same(entries, entries.len() as int);
                lemma_emptied_first(entries, entries.len() as int);
            }
        },
    }
}

proof fn lemma_emptied_list_counts_the_same(entries: Seq<DirEntryView>, upto: int)
    requires
        0 <= upto <= entries.len(),
    ensures
        tally_of_first(emptied_first(entries, entries.len() as int), upto) == tally_of_first(
            entries,
            upto,
        ),
    decreases entries, upto,
{
    lemma_emptied_first(entries, entries.len() as int);
    if upto > 0 {
        lemma_emptied_list_counts_the_same(entries, upto - 1);
        lemma_emptied_entry_counts_the_same(entries[upto - 1]);
    }
}

/// Files below `node_modules`, `target` or `.git`, at any depth, never
/// count. A directory of such a name counts nothing, whatever it holds; the
/// statistics of a tree are those of the tree with every such directory
/// emptied; and two trees that differ only below such directories have the
/// same statistics.
pub proof fn lemma_excluded_files_never_count(
    name: Seq<char>,
    below: Seq<DirEntryView>,
    entries: Seq<DirEntryView>,
    others: Seq<DirEntryView>,
)
    ensures
        is_excluded_name(name) ==> entry_tally(DirEntryView::Dir { name, entries: below })
            == Tally::zero(),
        counted_size(emptied_all(entries)) == counted_size(entries),
        counted_files(emptied_all(entries)) == counted_files(entries),
        emptied_all(entries) == emptied_all(others) ==> counted_size(entries) == counted_size(
            others,
        ) && counted_files(entries) == counted_files(others),
{
    lemma_emptied_first(entries, entries.len() as int);
    lemma_emptied_list_counts_the_same(entries, entries.len() as int);
    lemma_emptied_first(others, others.len() as int);
    lemma_emptied_list_counts_the_same(others, others.len() as int);
}

/// What the listings that wait on the work stack count together.
pub open spec fn pending_tally(pending: Seq<&Vec<DirEntry>>) -> Tally
    decreases pending.len(),
{
    if pending.len() == 0 {
        Tally::zero()
    } else {
        pending_tally(pending.drop_last()).plus(tally_of(list_view(*pending.last())))
    }
}

proof fn lemma_tally_grows(entries: Seq<DirEntryView>, i: int, j: int)
    requires
        0 <= i <= j <= entries.len(),
    ensures
        tally_of_first(entries, i).size <= tally_of_first(entries, j).size,
        tally_of_first(entries, i).files <= tally_of_first(entries, j).files,
        tally_of_first(entries, i).dirs <= tally_of_first(entries, j).dirs,
    decreases j - i,
{
    if i < j {
        lemma_tally_grows(entries, i, j - 1);
    }
}

/// The total size in bytes and the number of the files below a directory
/// with the entries `entries`, leaving out what lies below `node_modules`,
/// `target` or `.git`. The tree is walked with a stack of the directories
/// that are yet to be entered. `None` where the size does not fit 64 bits
/// or the number of files does not fit the machine's word.
pub fn calculate_directory_stats(entries: &Vec<DirEntry>) -> (stats: Option<(u64, usize)>)
    ensures
        match stats {
            Some((size, count)) => size == counted_size(list_view(*entries)) && count
                == counted_files(list_view(*entries)),
            None => counted_size(list_view(*entries)) > u64::MAX || counted_files(
                list_view(*entries),
            ) > usize::MAX,
        },
{
    let ghost goal = tally_of(list_view(*entries));
    let mut size: u64 = 0;
    let mut count: usize = 0;
    let mut pending: Vec<&Vec<DirEntry>> = Vec::new();
    pending.push(entries);
    proof {
        assert(pending@.drop_last() =~= Seq::<&Vec<DirEntry>>::empty());
        assert(pending_tally(pending@.drop_last()) == Tally::zero());
    }
    while pending.len() > 0
        invariant
            size + pending_tally(pending@).size == goal.size,
            count + pending_tally(pending@).files == goal.files,
            goal == tally_of(list_view(*entries)),
        decreases pending_tally(pending@).dirs + pending@.len(),
    {
        let ghost at_entry = pending@;
        let listing = pending.pop().unwrap();
        let ghost here = list_view(*listing);
        proof {
            assert(pending@ =~= at_entry.drop_last());
            lemma_list_view(*listing);
        }
        let mut i: usize = 0;
        while i < listing.len()
            invariant
                i <= listing@.len(),
                goal == tally_of(list_view(*entries)),
                here == list_view(*listing),
                here.len() == listing@.len(),
                forall|k: int|
                    0 <= k < here.len() ==> #[trigger] here[k] == entry_view(listing@[k]),
                size + pending_tally(pending@).size + tally_of(here).size - tally_of_first(
                    here,
                    i as int,
                ).size == goal.size,
                count + pending_tally(pending@).files + tally_of(here).files - tally_of_first(
                    here,
                    i as int,
                ).files == goal.files,
                pending_tally(pending@).dirs + pending@.len() + tally_of(here).dirs
                    - tally_of_first(here, i as int).dirs + 1 == pending_tally(at_entry).dirs
                    + at_entry.len(),
            decreases listing@.len() - i,
        {
            proof {
                lemma_tally_grows(here, i as int + 1, here.len() as int);
                assert(here[i as int] == entry_view(listing@[i as int]));
                assert(tally_of_first(here, i as int + 1) == tally_of_first(here, i as int).plus(
                    entry_tally(here[i as int]),
                ));
            }
            let ghost before = pending@;
            match &listing[i] {
                DirEntry::File { size: bytes, .. } => {
                    proof {
                        assert(entry_tally(here[i as int]) == (Tally {
                            size: *bytes as nat,
                            files: 1,
                            dirs: 0,
                        }));
                    }
                    size = match size.checked_add(*bytes) {
                        Some(sum) => sum,
                        None => {
                            return None;
                        },
                    };
                    count = match count.checked_add(1) {
                        Some(sum) => sum,
                        None => {
                            return None;
                        },
                    };
                },
                DirEntry::Dir { name, entries: below } => {
                    proof {
                        assert(here[i as int] == (DirEntryView::Dir {
                            name: name@,
                            entries: list_view(*below),
                        }));
                    }
                    if !is_excluded_dir(name.as_str()) {
                        pending.push(below);
                        proof {
                            assert(pending@.drop_last() =~= before);
                            assert(pending@.last() == below);
                            assert(entry_tally(here[i as int]) == tally_of(list_view(*below)).plus(
                                Tally { size: 0, files: 0, dirs: 1 },
                            ));
                        }
                    } else {
                        assert(entry_tally(here[i as int]) == Tally::zero());
                    }
                },
            }
            i = i + 1;
        }
    }
    Some((size, count))
}

/// The pattern after which the time of last modification is written:
/// year, month and day, then hour, minute and second.
pub open spec fn system_time_pattern() -> Seq<char> {
    "%Y-%m-%d %H:%M:%S"@
}

/// The text that stands for an instant that the calendar cannot represent:
/// that of the first second of 1970.
pub open spec fn epoch_text() -> Seq<char> {
    match utc_second_text(0, system_time_pattern()) {
        Some(text) => text,
        None => "1970-01-01 00:00:00"@,
    }
}

/// The time of last modification as shown with a project: the second
/// `secs` after the beginning of 1970 (UTC) as `YYYY-MM-DD hh:mm:ss`, and
/// the beginning of 1970 itself where the calendar cannot represent that
/// second.
pub open spec fn system_time_text(secs: u64) -> Seq<char> {
    if secs > i64::MAX {
        epoch_text()
    } else {
        match utc_second_text(secs as i64, system_time_pattern()) {
            Some(text) => text,
            None => epoch_text(),
        }
    }
}

/// Formats a time of last modification, given in seconds since the
/// beginning of 1970 (UTC).
pub fn format_system_time(secs: u64) -> (text: String)
    ensures
        text@ == system_time_text(secs),
{
    if secs <= i64::MAX as u64 {
        match format_utc_second(secs as i64, "%Y-%m-%d %H:%M:%S") {
            Some(text) => {
                return text;
            },
            None => {},
        }
    }
    match format_utc_second(0, "%Y-%m-%d %H:%M:%S") {
        Some(text) => text,
        None => "1970-01-01 00:00:00".to_owned(),
    }
}

/// A project as the scanner reports it.
#[derive(Debug, PartialEq, Eq)]
pub struct Project {
    pub name: String,
    pub path: String,
    pub project_type: String,
    pub last_modified: String,
    pub size: u64,
    pub files_count: usize,
    pub git_status: String,
    pub starred: bool,
}

/// The mathematical content of a `Project`.
pub struct ProjectView {
    pub name: Seq<char>,
    pub path: Seq<char>,
    pub project_type: Seq<char>,
    pub last_modified: Seq<char>,
    pub size: u64,
    pub files_count: usize,
    pub git_status: Seq<char>,
    pub starred: bool,
}

impl View for Project {
    type V = ProjectView;

    open spec fn view(&self) -> ProjectView {
        ProjectView {
            name: self.name@,
            path: self.path@,
            project_type: self.project_type@,
            last_modified: self.last_modified@,
            size: self.size,
            files_count: self.files_count,
            git_status: self.git_status@,
            starred: self.starred,
        }
    }
}

impl DeepView for Project {
    type V = ProjectView;

    open spec fn deep_view(&self) -> ProjectView {
        self.view()
    }
}

/// A category of the workspace with its projects.
#[derive(Debug, PartialEq, Eq)]
pub struct ProjectCategory {
    pub name: String,
    pub path: String,
    pub projects: Vec<Project>,
}

/// The mathematical content of a `ProjectCategory`.
pub struct ProjectCategoryView {
    pub name: Seq<char>,
    pub path: Seq<char>,
    pub projects: Seq<ProjectView>,
}

impl View for ProjectCategory {
    type V = ProjectCategoryView;

    open spec fn view(&self) -> ProjectCategoryView {
        ProjectCategoryView {
            name: self.name@,
            path: self.path@,
            projects: self.projects.deep_view(),
        }
    }
}

impl DeepView for ProjectCategory {
    type V = ProjectCategoryView;

    open spec fn deep_view(&self) -> ProjectCategoryView {
        self.view()
    }
}

/// What was read of one project directory.
#[derive(Debug, PartialEq, Eq)]
pub struct ProjectListing {
    /// The name of the directory.
    pub name: String,
    /// The absolute path of the directory.
    pub path: String,
    /// When the directory was last modified, in seconds since the beginning
    /// of 1970 (UTC).
    pub modified_secs: u64,
    /// The tree below the directory. What lies below an excluded directory
    /// need not be listed.
    pub entries: Vec<DirEntry>,
    /// The text of the Node manifest at the top of the directory, where it
    /// could be read.
    pub package_json: Option<String>,
    /// What the status command gave; `None` where it was not or could not be
    /// run.
    pub git: Option<ToolOutput>,
}

/// The mathematical content of a `ProjectListing`.
pub struct ProjectListingView {
    pub name: Seq<char>,
    pub path: Seq<char>,
    pub modified_secs: u64,
    pub entries: Seq<DirEntryView>,
    pub package_json: Option<Seq<char>>,
    pub git: Option<ToolOutputView>,
}

impl View for ProjectListing {
    type V = ProjectListingView;

    open spec fn view(&self) -> ProjectListingView {
        ProjectListingView {
            name: self.name@,
            path: self.path@,
            modified_secs: self.modified_secs,
            entries: list_view(self.entries),
            package_json: self.package_json.deep_view(),
            git: self.git.deep_view(),
        }
    }
}

/// The record of one entry of a category directory: `None` for a project
/// directory that could not be read.
pub open spec fn listing_view(listing: Option<ProjectListing>) -> Option<ProjectListingView> {
    match listing {
        Some(l) => Some(l@),
        None => None,
    }
}

/// The record of the project that `listing` describes, with the star that
/// `starred` gives its path; `None` where the total size or the number of
/// its files does not fit the record.
pub open spec fn project_of(listing: ProjectListingView, starred: Seq<Seq<char>>) -> Option<
    ProjectView,
> {
    if counted_size(listing.entries) > u64::MAX || counted_files(listing.entries) > usize::MAX {
        None
    } else {
        Some(
            ProjectView {
                name: listing.name,
                path: listing.path,
                project_type: project_type_of(
                    markers_of(listing.entries, listing.package_json),
                ).tag(),
                last_modified: system_time_text(listing.modified_secs),
                size: counted_size(listing.entries) as u64,
                files_count: counted_files(listing.entries) as usize,
                git_status: status_of(has_entry(listing.entries, ".git"@), listing.git).tag(),
                starred: starred.contains(listing.path),
            },
        )
    }
}

/// The records of the projects of a category: one for each directory that
/// could be read and measured, in the order of the listings; the others are
/// passed over.
pub open spec fn projects_of(
    listings: Seq<Option<ProjectListingView>>,
    starred: Seq<Seq<char>>,
) -> Seq<ProjectView>
    decreases listings.len(),
{
    if listings.len() == 0 {
        Seq::empty()
    } else {
        let before = projects_of(listings.drop_last(), starred);
        match listings.last() {
            Some(listing) => match project_of(listing, starred) {
                Some(project) => before.push(project),
                None => before,
            },
            None => before,
        }
    }
}

/// Builds the record of a project from what was read of its directory.
pub fn scan_project_directory(listing: &ProjectListing, starred: &StarredSet) -> (project: Option<
    Project,
>)
    ensures
        project.deep_view() == project_of(listing@, starred@),
{
    let kind = detect_project_type(&read_markers(&listing.entries, &listing.package_json));
    let (size, files_count) = match calculate_directory_stats(&listing.entries) {
        Some(stats) => stats,
        None => {
            return None;
        },
    };
    let state = get_git_status(contains_entry(&listing.entries, ".git"), &listing.git);
    let is_starred = starred.contains(listing.path.as_str());
    Some(
        Project {
            name: listing.name.clone(),
            path: listing.path.clone(),
            project_type: kind.to_string(),
            last_modified: format_system_time(listing.modified_secs),
            size,
            files_count,
            git_status: state.to_string(),
            starred: is_starred,
        },
    )
}

/// What was read of one category directory: its name, its path and its
/// project directories; `None` in place of the projects where the category
/// directory could not be read, and in place of a project that could not be
/// read.
#[derive(Debug, PartialEq, Eq)]
pub struct CategoryListing {
    pub name: String,
    pub path: String,
    pub projects: Option<Vec<Option<ProjectListing>>>,
}

/// The listings of a category's project directories, read or not.
pub open spec fn listing_views(listings: Seq<Option<ProjectListing>>) -> Seq<
    Option<ProjectListingView>,
> {
    Seq::new(listings.len(), |i: int| listing_view(listings[i]))
}

/// The category that `category` describes: its projects, and none where the
/// category directory could not be read.
pub open spec fn category_of(
    category: CategoryListing,
    starred: Seq<Seq<char>>,
) -> ProjectCategoryView {
    ProjectCategoryView {
        name: category.name@,
        path: category.path@,
        projects: match category.projects {
            Some(listings) => projects_of(listing_views(listings@), starred),
            None => Seq::empty(),
        },
    }
}

/// Builds the project records of a workspace from what was read of its
/// tree: one category for each listed category directory, in order, each
/// with the records of its projects. A category that could not be read has
/// no projects; a project that could not be read is passed over.
pub fn scan_projects(categories: &Vec<CategoryListing>, starred: &StarredSet) -> (found: Vec<
    ProjectCategory,
>)
    ensures
        found@.len() == categories@.len(),
        forall|c: int|
            0 <= c < categories@.len() ==> (#[trigger] found@[c])@ == category_of(
                categories@[c],
                starred@,
            ),
{
    let mut found: Vec<ProjectCategory> = Vec::new();
    let mut c: usize = 0;
    while c < categories.len()
        invariant
            c <= categories@.len(),
            found@.len() == c,
            forall|k: int|
                0 <= k < c ==> (#[trigger] found@[k])@ == category_of(categories@[k], starred@),
        decreases categories@.len() - c,
    {
        let category = &categories[c];
        let mut projects: Vec<Project> = Vec::new();
        match &category.projects {
            None => {
                assert(projects.deep_view() =~= Seq::<ProjectView>::empty());
            },
            Some(listings) => {
                let ghost all = listing_views(listings@);
                let mut i: usize = 0;
                assert(projects.deep_view() =~= projects_of(all.take(0), starred@));
                while i < listings.len()
                    invariant
                        i <= listings@.len(),
                        all == listing_views(listings@),
                        projects.deep_view() == projects_of(all.take(i as int), starred@),
                    decreases listings@.len() - i,
                {
                    proof {
                        assert(all.take(i as int + 1).drop_last() =~= all.take(i as int));
                    }
                    let ghost before = projects.deep_view();
                    match &listings[i] {
                        Some(listing) => match scan_project_directory(listing, starred) {
                            Some(project) => {
                                let ghost p = project@;
                                projects.push(project);
                                assert(projects.deep_view() =~= before.push(p));
                            },
                            None => {},
                        },
                        None => {},
                    }
                    i = i + 1;
                }
                proof {
                    assert(all.take(all.len() as int) =~= all);
                }
            },
        }
        found.push(
            ProjectCategory {
                name: category.name.clone(),
                path: category.path.clone(),
                projects,
            },
        );
        c = c + 1;
    }
    found
}

} // verus!
