//! Classification of a working tree from the output of the version-control
//! tool's status command in its porcelain form with the branch line.

use crate::text::{
    after_first_line, chars_of, contains_text, end_of_first_line, first_line, is_blank, occurs_at,
    part_contains, part_is_blank, part_starts_with,
};
use vstd::prelude::*;

verus! {

/// The state of a project's working tree.
#[derive(Clone, Copy, Debug, PartialEq, Eq, Structural)]
pub enum GitStatus {
    /// Nothing to report, or nothing known.
    Clean,
    /// The branch has commits that its upstream lacks.
    Ahead,
    /// The upstream has commits that the branch lacks.
    Behind,
    /// Both.
    Diverged,
    /// The working tree differs from the last commit.
    Modified,
}

/// What a run of the version-control tool gave: whether it ended in success,
/// and what it wrote to its standard output and to its standard error.
#[derive(Debug, PartialEq, Eq)]
pub struct ToolOutput {
    pub success: bool,
    pub stdout: String,
    pub stderr: String,
}

/// The mathematical content of a `ToolOutput`.
pub struct ToolOutputView {
    pub success: bool,
    pub stdout: Seq<char>,
    pub stderr: Seq<char>,
}

impl View for ToolOutput {
    type V = ToolOutputView;

    open spec fn view(&self) -> ToolOutputView {
        ToolOutputView { success: self.success, stdout: self.stdout@, stderr: self.stderr@ }
    }
}

impl DeepView for ToolOutput {
    type V = ToolOutputView;

    open spec fn deep_view(&self) -> ToolOutputView {
        self.view()
    }
}

impl GitStatus {
    /// The tag of the state.
    pub open spec fn tag(self) -> Seq<char> {
        match self {
            GitStatus::Clean => "clean"@,
            GitStatus::Ahead => "ahead"@,
            GitStatus::Behind => "behind"@,
            GitStatus::Diverged => "diverged"@,
            GitStatus::Modified => "modified"@,
        }
    }

    /// The tag of the state.
    pub fn to_string(&self) -> (s: String)
        ensures
            s@ == self.tag(),
    {
        match self {
            GitStatus::Clean => "clean".to_owned(),
            GitStatus::Ahead => "ahead".to_owned(),
            GitStatus::Behind => "behind".to_owned(),
            GitStatus::Diverged => "diverged".to_owned(),
            GitStatus::Modified => "modified".to_owned(),
        }
    }
}

/// The arguments with which the tool is asked for the status of the
/// working tree at `path`: in porcelain form and with the branch line.
pub open spec fn status_arguments_of(path: Seq<char>) -> Seq<Seq<char>> {
    seq!["-C"@, path, "status"@, "--porcelain"@, "--branch"@]
}

/// The arguments with which to ask the tool for the status of the working
/// tree at `path`.
pub fn status_arguments(path: &str) -> (arguments: Vec<String>)
    ensures
        arguments.deep_view() == status_arguments_of(path@),
{
    let mut arguments: Vec<String> = Vec::new();
    arguments.push("-C".to_owned());
    arguments.push(path.to_owned());
    arguments.push("status".to_owned());
    arguments.push("--porcelain".to_owned());
    arguments.push("--branch".to_owned());
    assert(arguments.deep_view() =~= status_arguments_of(path@));
    arguments
}

/// `line` is a branch line: it begins with `##`.
pub open spec fn is_branch_line(line: Seq<char>) -> bool {
    occurs_at(line, "##"@, 0, false)
}

/// What a branch line says of the branch and its upstream.
pub open spec fn branch_state(line: Seq<char>) -> GitStatus {
    let ahead = contains_text(line, "ahead"@, false);
    let behind = contains_text(line, "behind"@, false);
    if ahead && behind {
        GitStatus::Diverged
    } else if ahead {
        GitStatus::Ahead
    } else if behind {
        GitStatus::Behind
    } else {
        GitStatus::Clean
    }
}

/// The state that the status output `text` reports. The first line, where it
/// is a branch line, tells whether the branch is ahead, behind or both.
/// Anything but white space on another line means a modified tree, and
/// overrides that.
pub open spec fn porcelain_state(text: Seq<char>) -> GitStatus {
    let first = first_line(text);
    if is_branch_line(first) {
        if is_blank(after_first_line(text)) {
            branch_state(first)
        } else {
            GitStatus::Modified
        }
    } else if is_blank(text) {
        GitStatus::Clean
    } else {
        GitStatus::Modified
    }
}

/// The state of a working tree, from whether the project has version-control
/// metadata and from what the status command gave (`None` where it could not
/// be run). Without metadata, and where the command failed, the state is
/// `Clean`.
pub open spec fn status_of(has_metadata: bool, run: Option<ToolOutputView>) -> GitStatus {
    if !has_metadata {
        GitStatus::Clean
    } else {
        match run {
            Some(out) => if out.success {
                porcelain_state(out.stdout)
            } else {
                GitStatus::Clean
            },
            None => GitStatus::Clean,
        }
    }
}

/// Classifies the output of the status command.
pub fn classify_porcelain(stdout: &str) -> (state: GitStatus)
    ensures
        state == porcelain_state(stdout@),
{
    let text = chars_of(stdout);
    let end = end_of_first_line(&text);
    let ghost first = first_line(stdout@);
    proof {
        assert(text@.subrange(0, end as int) =~= first);
        assert(text@.subrange(0, text@.len() as int) =~= text@);
    }
    let marker = chars_of("##");
    if part_starts_with(&text, 0, end, &marker) {
        let rest_from: usize = if end < text.len() {
            end + 1
        } else {
            end
        };
        proof {
            assert(text@.subrange(rest_from as int, text@.len() as int) =~= after_first_line(
                stdout@,
            ));
        }
        if part_is_blank(&text, rest_from, text.len()) {
            let ahead = part_contains(&text, 0, end, &chars_of("ahead"), false);
            let behind = part_contains(&text, 0, end, &chars_of("behind"), false);
            if ahead && behind {
                GitStatus::Diverged
            } else if ahead {
                GitStatus::Ahead
            } else if behind {
                GitStatus::Behind
            } else {
                GitStatus::Clean
            }
        } else {
            GitStatus::Modified
        }
    } else if part_is_blank(&text, 0, text.len()) {
        GitStatus::Clean
    } else {
        GitStatus::Modified
    }
}

/// Classifies a working tree from whether the project has version-control
/// metadata and from what the status command gave.
pub fn get_git_status(has_metadata: bool, run: &Option<ToolOutput>) -> (state: GitStatus)
    ensures
        state == status_of(has_metadata, run.deep_view()),
{
    if !has_metadata {
        return GitStatus::Clean;
    }
    match run {
        Some(out) => {
            if out.success {
                classify_porcelain(out.stdout.as_str())
            } else {
                GitStatus::Clean
            }
        },
        None => GitStatus::Clean,
    }
}

} // verus!
