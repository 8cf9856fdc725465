//! Commits on the timeline: the hash of the latest commit, the persistent
//! id of a project, and the event that records a commit with its summary.

use crate::error::ErrorKind;
use crate::git_status::ToolOutput;
use crate::ids::{format_uuid, parse_uuid, random_uuid, uuid_parse, uuid_text};
use crate::text::{trim, trimmed};
use crate::time::{current_time, Timestamp};
use crate::timeline::{TimelineEvent, TimelineEventType, TimelineEventTypeView, TimelineEventView};
use crate::timeline_service::{holds_event, TimelineService};
use vstd::prelude::*;
use vstd::string::{StringExecFns, StringSliceAdditionalSpecFns};
use vstd::utf8::{
    decode_utf8, encode_utf8, encode_utf8_decode_utf8, encode_utf8_valid_utf8, is_char_boundary,
    is_char_boundary_start_end_of_seq,
};

verus! {

/// The arguments with which the tool is asked for the current revision.
pub open spec fn rev_parse_arguments_of() -> Seq<Seq<char>> {
    seq!["rev-parse"@, "HEAD"@]
}

/// The arguments with which the tool is asked for the patch of the commit
/// `commit_hash`.
pub open spec fn diff_tree_arguments_of(commit_hash: Seq<char>) -> Seq<Seq<char>> {
    seq!["diff-tree"@, "-p"@, commit_hash]
}

/// The arguments with which to ask the tool for the current revision.
pub fn rev_parse_arguments() -> (arguments: Vec<String>)
    ensures
        arguments.deep_view() == rev_parse_arguments_of(),
{
    let mut arguments: Vec<String> = Vec::new();
    arguments.push("rev-parse".to_owned());
    arguments.push("HEAD".to_owned());
    assert(arguments.deep_view() =~= rev_parse_arguments_of());
    arguments
}

/// The arguments with which to ask the tool for the patch of a commit.
pub fn diff_tree_arguments(commit_hash: &str) -> (arguments: Vec<String>)
    ensures
        arguments.deep_view() == diff_tree_arguments_of(commit_hash@),
{
    let mut arguments: Vec<String> = Vec::new();
    arguments.push("diff-tree".to_owned());
    arguments.push("-p".to_owned());
    arguments.push(commit_hash.to_owned());
    assert(arguments.deep_view() =~= diff_tree_arguments_of(commit_hash@));
    arguments
}

/// The message that reports a failed request for the latest commit.
pub open spec fn rev_parse_failed_text(stderr: Seq<char>) -> Seq<char> {
    "git rev-parse failed: "@ + stderr
}

/// The hash of the latest commit, from what the tool gave when asked for
/// the current revision: the output without the white space around it, or,
/// where the tool failed, a message with what it wrote to standard error.
pub fn get_latest_commit_hash(run: &ToolOutput) -> (r: Result<String, String>)
    ensures
        match r {
            Ok(hash) => run.success && hash@ == trimmed(run.stdout@),
            Err(message) => !run.success && message@ == rev_parse_failed_text(run.stderr@),
        },
{
    if !run.success {
        let mut message = String::from_str("git rev-parse failed: ");
        message.append(run.stderr.as_str());
        return Err(message);
    }
    Ok(trim(run.stdout.as_str()))
}

/// The id of a project and whether it is yet to be stored with the project.
#[derive(Debug, PartialEq, Eq)]
pub struct ProjectId {
    pub id: String,
    pub is_new: bool,
}

/// The id that a stored text gives a project: the text without the white
/// space around it, where that is a UUID.
pub open spec fn stored_project_id(stored: Option<Seq<char>>) -> Option<Seq<char>> {
    match stored {
        Some(text) => if uuid_parse(trimmed(text)) is Some {
            Some(trimmed(text))
        } else {
            None
        },
        None => None,
    }
}

/// The id of a project: the one stored with it, where a valid one is
/// stored, and else the id `fresh` as text, to be stored.
pub fn project_id_or(stored: Option<&str>, fresh: u128) -> (r: ProjectId)
    ensures
        match stored_project_id(
            match stored {
                Some(s) => Some(s@),
                None => None,
            },
        ) {
            Some(id) => r.id@ == id && !r.is_new,
            None => r.id@ == uuid_text(fresh) && uuid_parse(r.id@) == Some(fresh) && r.is_new,
        },
        uuid_parse(r.id@) is Some,
{
    match stored {
        Some(text) => {
            let candidate = trim(text);
            if parse_uuid(candidate.as_str()).is_some() {
                return ProjectId { id: candidate, is_new: false };
            }
        },
        None => {},
    }
    ProjectId { id: format_uuid(fresh), is_new: true }
}

/// The id of a project: the one stored with it, where a valid one is
/// stored, and else a fresh random id, to be stored. Whatever is drawn, the
/// id is a UUID, and a new one is written in hyphenated form.
pub fn get_or_create_project_uuid(stored: Option<&str>) -> (r: ProjectId)
    ensures
        match stored_project_id(
            match stored {
                Some(s) => Some(s@),
                None => None,
            },
        ) {
            Some(id) => r.id@ == id && !r.is_new,
            None => r.is_new && r.id@ == uuid_text(uuid_parse(r.id@)->0),
        },
        uuid_parse(r.id@) is Some,
{
    let fresh = random_uuid();
    project_id_or(stored, fresh)
}

/// The length of the longest beginning of `bytes` that is at most `upto`
/// bytes long and ends where a character ends.
pub open spec fn short_length(bytes: Seq<u8>, upto: int) -> int
    decreases upto,
{
    if upto <= 0 {
        0
    } else if is_char_boundary(bytes, upto) {
        upto
    } else {
        short_length(bytes, upto - 1)
    }
}

/// The length in bytes to which a hash of `len` bytes is shortened at
/// most.
pub open spec fn short_limit(len: nat) -> int {
    if len < 7 {
        len as int
    } else {
        7
    }
}

/// A commit hash in short: its first seven bytes as text; the whole hash
/// where it is shorter; and, where the seventh byte lies inside a
/// character, the characters that end before it.
pub open spec fn short_hash(hash: Seq<char>) -> Seq<char> {
    let bytes = encode_utf8(hash);
    decode_utf8(bytes.subrange(0, short_length(bytes, short_limit(bytes.len()))))
}

/// A hash of fewer than seven bytes is its own short form, and a hash with
/// a character boundary after its seventh byte is shortened to exactly its
/// first seven bytes.
pub proof fn lemma_short_hash(hash: Seq<char>)
    ensures
        encode_utf8(hash).len() < 7 ==> short_hash(hash) == hash,
        is_char_boundary(encode_utf8(hash), 7) ==> short_hash(hash) == decode_utf8(
            encode_utf8(hash).subrange(0, 7),
        ),
{
    let bytes = encode_utf8(hash);
    encode_utf8_valid_utf8(hash);
    is_char_boundary_start_end_of_seq(bytes);
    encode_utf8_decode_utf8(hash);
    if bytes.len() < 7 {
        assert(bytes.subrange(0, bytes.len() as int) =~= bytes);
    }
}

/// Shortens a commit hash.
pub fn shorten_hash(commit_hash: &str) -> (short: &str)
    ensures
        short@ == short_hash(commit_hash@),
{
    let ghost bytes = commit_hash.spec_bytes();
    let len = commit_hash.as_bytes().len();
    let mut cut: usize = if len < 7 {
        len
    } else {
        7
    };
    proof {
        encode_utf8_valid_utf8(commit_hash@);
        is_char_boundary_start_end_of_seq(bytes);
        assert(cut == short_limit(bytes.len()));
    }
    while cut > 0 && !commit_hash.is_char_boundary(cut)
        invariant
            bytes == commit_hash.spec_bytes(),
            cut <= short_limit(bytes.len()),
            is_char_boundary(bytes, 0),
            short_length(bytes, short_limit(bytes.len())) == short_length(bytes, cut as int),
        decreases cut,
    {
        cut = cut - 1;
    }
    let (short, _) = commit_hash.split_at(cut);
    proof {
        encode_utf8_decode_utf8(short@);
        assert(short.spec_bytes() == encode_utf8(short@));
    }
    short
}

/// The summary to show for a commit: the one that was generated, or a
/// fixed text where none could be.
pub open spec fn summary_or_placeholder(summary: Result<Seq<char>, ErrorKind>) -> Seq<char> {
    match summary {
        Ok(text) => text,
        Err(_) => "Commit summary unavailable"@,
    }
}

/// The event that records the commit `hash` of project `project_id` with
/// the summary `summary`.
pub open spec fn commit_event_view(
    id: u128,
    project_id: u128,
    now: Timestamp,
    hash: Seq<char>,
    summary: Seq<char>,
) -> TimelineEventView {
    TimelineEventView {
        id,
        project_id,
        timestamp: now,
        event_type: TimelineEventTypeView::GitCommit { hash, message: summary },
        title: "Commit "@ + short_hash(hash),
        description: Some(summary),
        metadata: "{}"@,
        user_id: None,
        tags: seq!["commit"@],
    }
}

/// The view of a summary or of the failure to get one.
pub open spec fn summary_view(summary: Result<String, ErrorKind>) -> Result<Seq<char>, ErrorKind> {
    match summary {
        Ok(text) => Ok(text@),
        Err(e) => Err(e),
    }
}

/// Builds the event that records a commit. A summary that could not be
/// generated is replaced by a fixed text. The title names the hash in
/// short.
pub fn commit_event(
    id: u128,
    project_id: u128,
    now: Timestamp,
    commit_hash: &str,
    summary: Result<String, ErrorKind>,
) -> (event: TimelineEvent)
    ensures
        event@ == commit_event_view(
            id,
            project_id,
            now,
            commit_hash@,
            summary_or_placeholder(summary_view(summary)),
        ),
{
    let text = match summary {
        Ok(text) => text,
        Err(_) => "Commit summary unavailable".to_owned(),
    };
    let short = shorten_hash(commit_hash);
    let mut title = String::from_str("Commit ");
    title.append(short);
    let mut tags: Vec<String> = Vec::new();
    tags.push("commit".to_owned());
    let event = TimelineEvent {
        id,
        project_id,
        timestamp: now,
        event_type: TimelineEventType::GitCommit {
            hash: commit_hash.to_owned(),
            message: text.clone(),
        },
        title,
        description: Some(text),
        metadata: "{}".to_owned(),
        user_id: None,
        tags,
    };
    assert(event@.tags =~= seq!["commit"@]);
    event
}

/// Records a commit on the timeline with the id `id` at the instant `now`,
/// and hands back the event that was stored. A failure to generate the
/// summary does not fail the record: the event then carries the fixed text.
/// An `id` that the log already holds gives `Storage`.
pub fn handle_git_commit_timeline_with(
    service: &mut TimelineService,
    id: u128,
    now: Timestamp,
    project_id: u128,
    commit_hash: &str,
    summary: Result<String, ErrorKind>,
) -> (r: Result<TimelineEvent, ErrorKind>)
    requires
        old(service).wf(),
    ensures
        final(service).wf(),
        match r {
            Ok(event) => {
                &&& !holds_event(old(service)@, id)
                &&& event@ == commit_event_view(
                    id,
                    project_id,
                    now,
                    commit_hash@,
                    summary_or_placeholder(summary_view(summary)),
                )
                &&& final(service)@ == old(service)@.push(event@)
            },
            Err(e) => {
                &&& holds_event(old(service)@, id)
                &&& e == ErrorKind::Storage
                &&& final(service)@ == old(service)@
            },
        },
{
    let event = commit_event(id, project_id, now, commit_hash, summary);
    match service.add_event(&event) {
        Ok(()) => Ok(event),
        Err(e) => Err(e),
    }
}

/// Records a commit on the timeline with a fresh random id at the present
/// instant. Whatever id and instant are drawn, the event is the one that
/// `handle_git_commit_timeline_with` makes of them. The record fails, with
/// `Storage`, only where the log holds an event with the drawn id; on an
/// empty log it succeeds.
pub fn handle_git_commit_timeline(
    service: &mut TimelineService,
    project_id: u128,
    commit_hash: &str,
    summary: Result<String, ErrorKind>,
) -> (r: Result<TimelineEvent, ErrorKind>)
    requires
        old(service).wf(),
    ensures
        final(service).wf(),
        old(service)@.len() == 0 ==> r is Ok,
        r is Err ==> exists|id: u128| holds_event(old(service)@, id),
        match r {
            Ok(event) => {
                &&& !holds_event(old(service)@, event.id)
                &&& event@ == commit_event_view(
                    event.id,
                    project_id,
                    event.timestamp,
                    commit_hash@,
                    summary_or_placeholder(summary_view(summary)),
                )
                &&& final(service)@ == old(service)@.push(event@)
            },
            Err(e) => e == ErrorKind::Storage && final(service)@ == old(service)@,
        },
{
    let id = random_uuid();
    let now = current_time();
    handle_git_commit_timeline_with(service, id, now, project_id, commit_hash, summary)
}

/// Records a commit of the project that `project_id` names. A `project_id`
/// that is no UUID gives `Parse`, and the log stays as it was. With a
/// `project_id` that is one, the record fails, with `Storage`, only where
/// the log holds an event with the drawn id; on an empty log it succeeds.
pub fn trigger_git_commit_timeline(
    service: &mut TimelineService,
    project_id: &str,
    commit_hash: &str,
    summary: Result<String, ErrorKind>,
) -> (r: Result<TimelineEvent, ErrorKind>)
    requires
        old(service).wf(),
    ensures
        final(service).wf(),
        uuid_parse(project_id@) is None <==> (r matches Err(e) && e == ErrorKind::Parse),
        uuid_parse(project_id@) is None ==> final(service)@ == old(service)@,
        uuid_parse(project_id@) is Some && old(service)@.len() == 0 ==> r is Ok,
        (r matches Err(e) && e == ErrorKind::Storage) ==> exists|id: u128|
            holds_event(old(service)@, id),
        uuid_parse(project_id@) is Some ==> match r {
            Ok(event) => {
                &&& !holds_event(old(service)@, event.id)
                &&& event@ == commit_event_view(
                    event.id,
                    uuid_parse(project_id@)->0,
                    event.timestamp,
                    commit_hash@,
                    summary_or_placeholder(summary_view(summary)),
                )
                &&& final(service)@ == old(service)@.push(event@)
            },
            Err(e) => e == ErrorKind::Storage && final(service)@ == old(service)@,
        },
{
    match parse_uuid(project_id) {
        Some(id) => handle_git_commit_timeline(service, id, commit_hash, summary),
        None => Err(ErrorKind::Parse),
    }
}

} // verus!
