use project_manager::commits::{
    commit_event, diff_tree_arguments, get_latest_commit_hash, get_or_create_project_uuid,
    handle_git_commit_timeline, handle_git_commit_timeline_with, project_id_or,
    rev_parse_arguments, shorten_hash, trigger_git_commit_timeline, ProjectId,
};
use project_manager::error::ErrorKind;
use project_manager::git_status::ToolOutput;
use project_manager::ids::{format_id, parse_id};
use project_manager::time::Timestamp;
use project_manager::timeline::{TimelineEvent, TimelineEventType};
use project_manager::timeline_service::TimelineService;

const HASH: &str = "0123456789abcdef0123456789abcdef01234567";

#[test]
fn latest_commit_hash_is_the_trimmed_output() {
    let run = ToolOutput {
        success: true,
        stdout: format!("{}\n", HASH),
        stderr: String::new(),
    };
    assert_eq!(get_latest_commit_hash(&run), Ok(HASH.to_string()));
}

#[test]
fn failed_rev_parse_reports_standard_error() {
    let run = ToolOutput {
        success: false,
        stdout: "ignored".to_string(),
        stderr: "fatal: not a git repository\n".to_string(),
    };
    assert_eq!(
        get_latest_commit_hash(&run),
        Err("git rev-parse failed: fatal: not a git repository\n".to_string())
    );
}

#[test]
fn stored_project_id_is_kept() {
    let kept = project_id_or(Some(" 550e8400-e29b-41d4-a716-446655440000\n"), 7);
    assert_eq!(
        kept,
        ProjectId { id: "550e8400-e29b-41d4-a716-446655440000".to_string(), is_new: false }
    );
    let kept = get_or_create_project_uuid(Some("550E8400E29B41D4A716446655440000"));
    assert_eq!(
        kept,
        ProjectId { id: "550E8400E29B41D4A716446655440000".to_string(), is_new: false }
    );
}

#[test]
fn missing_or_invalid_project_id_is_replaced() {
    let fresh = 0xa1a2a3a4b1b2c1c2d1d2d3d4d5d6d7d8u128;
    for stored in [None, Some(""), Some("not an id"), Some("550e8400-e29b-41d4-a716")] {
        assert_eq!(
            project_id_or(stored, fresh),
            ProjectId { id: "a1a2a3a4-b1b2-c1c2-d1d2-d3d4d5d6d7d8".to_string(), is_new: true }
        );
        let drawn = get_or_create_project_uuid(stored);
        assert!(drawn.is_new);
        assert_eq!(drawn.id.len(), 36);
        let value = parse_id(&drawn.id).unwrap();
        assert_eq!(format_id(value), drawn.id);
        assert_eq!((value >> 76) & 0xf, 4);
    }
    assert_ne!(get_or_create_project_uuid(None).id, get_or_create_project_uuid(None).id);
}

#[test]
fn commit_event_carries_hash_and_summary() {
    let now = Timestamp { secs: 100, nanos: 0 };
    let event = commit_event(1, 2, now, HASH, Ok("Added retry logic".to_string()));
    let expected = TimelineEvent {
        id: 1,
        project_id: 2,
        timestamp: now,
        event_type: TimelineEventType::GitCommit {
            hash: HASH.to_string(),
            message: "Added retry logic".to_string(),
        },
        title: "Commit 0123456".to_string(),
        description: Some("Added retry logic".to_string()),
        metadata: "{}".to_string(),
        user_id: None,
        tags: vec!["commit".to_string()],
    };
    assert_eq!(event, expected);
    let short = commit_event(1, 2, now, "abcdefg", Ok(String::new()));
    assert_eq!(short.title, "Commit abcdefg");
}

#[test]
fn commit_event_without_summary_carries_the_placeholder() {
    let now = Timestamp { secs: 100, nanos: 0 };
    let event = commit_event(1, 2, now, HASH, Err(ErrorKind::ProviderUnavailable));
    assert_eq!(event.description, Some("Commit summary unavailable".to_string()));
    assert_eq!(
        event.event_type,
        TimelineEventType::GitCommit {
            hash: HASH.to_string(),
            message: "Commit summary unavailable".to_string()
        }
    );
    assert_eq!(event.title, "Commit 0123456");
}

#[test]
fn commit_is_recorded_on_the_timeline() {
    let mut service = TimelineService::new();
    let now = Timestamp { secs: 100, nanos: 0 };
    let stored = handle_git_commit_timeline_with(
        &mut service,
        1,
        now,
        2,
        HASH,
        Err(ErrorKind::ProviderUnavailable),
    )
    .unwrap();
    assert_eq!(stored, commit_event(1, 2, now, HASH, Err(ErrorKind::ProviderUnavailable)));
    assert_eq!(service.get_project_timeline(2, 0, 10, None, None), vec![stored]);
    let again = handle_git_commit_timeline_with(&mut service, 1, now, 2, HASH, Ok("x".to_string()));
    assert_eq!(again, Err(ErrorKind::Storage));
    assert_eq!(service.len(), 1);
}

#[test]
fn commit_is_recorded_with_a_fresh_id() {
    let mut service = TimelineService::new();
    let first = handle_git_commit_timeline(&mut service, 2, HASH, Ok("one".to_string())).unwrap();
    let second = trigger_git_commit_timeline(
        &mut service,
        "00000000-0000-0000-0000-000000000002",
        HASH,
        Ok("two".to_string()),
    )
    .unwrap();
    assert_ne!(first.id, second.id);
    assert_eq!(second.project_id, 2);
    assert_eq!(second.description, Some("two".to_string()));
    assert_eq!(
        first,
        commit_event(first.id, 2, first.timestamp, HASH, Ok("one".to_string()))
    );
    assert_eq!(service.len(), 2);
}

#[test]
fn commit_of_a_malformed_project_id_is_a_parse_error() {
    let mut service = TimelineService::new();
    let r = trigger_git_commit_timeline(&mut service, "two", HASH, Ok("x".to_string()));
    assert_eq!(r, Err(ErrorKind::Parse));
    assert_eq!(service.len(), 0);
}

#[test]
fn the_tool_is_asked_for_revision_and_patch() {
    assert_eq!(rev_parse_arguments(), vec!["rev-parse", "HEAD"]);
    assert_eq!(diff_tree_arguments(HASH), vec!["diff-tree", "-p", HASH]);
}

#[test]
fn a_hash_is_shortened_to_seven_bytes() {
    assert_eq!(shorten_hash(HASH), "0123456");
    assert_eq!(shorten_hash("abcdefg"), "abcdefg");
    assert_eq!(shorten_hash("abcdefgh"), "abcdefg");
    assert_eq!(shorten_hash("äöü-xyz"), "äöü-");
}

#[test]
fn a_short_hash_stays_whole() {
    assert_eq!(shorten_hash(""), "");
    assert_eq!(shorten_hash("abc"), "abc");
    assert_eq!(shorten_hash("abcdef"), "abcdef");
    assert_eq!(shorten_hash("äb"), "äb");
}

#[test]
fn a_hash_is_cut_where_a_character_ends() {
    assert_eq!(shorten_hash("abcdefé"), "abcdef");
    assert_eq!(shorten_hash("abcde€f"), "abcde");
    assert_eq!(shorten_hash("abcd😀fg"), "abcd");
    assert_eq!(shorten_hash("😀😀"), "😀");
    assert_eq!(shorten_hash("€€€"), "€€");
    for hash in ["", "a", "abcdefé", "ééééé", "abc😀😀", "0123456789"] {
        let short = shorten_hash(hash);
        assert!(hash.starts_with(short));
        assert!(short.len() <= 7);
        let longer = hash[short.len()..].chars().next().map(|c| short.len() + c.len_utf8());
        assert!(longer.map_or(true, |n| n > 7));
    }
}

#[test]
fn every_hash_is_recorded() {
    let now = Timestamp { secs: 100, nanos: 0 };
    for (hash, title) in [("abc", "Commit abc"), ("", "Commit "), ("abcdefé", "Commit abcdef")] {
        let mut service = TimelineService::new();
        let stored = handle_git_commit_timeline_with(
            &mut service,
            1,
            now,
            2,
            hash,
            Err(ErrorKind::ProviderUnavailable),
        )
        .unwrap();
        assert_eq!(stored.title, title);
        assert_eq!(stored.description, Some("Commit summary unavailable".to_string()));
        assert_eq!(
            stored.event_type,
            TimelineEventType::GitCommit {
                hash: hash.to_string(),
                message: "Commit summary unavailable".to_string()
            }
        );
        assert_eq!(service.len(), 1);
    }
}

#[test]
fn a_commit_on_an_empty_log_is_recorded() {
    let mut service = TimelineService::new();
    let stored =
        handle_git_commit_timeline(&mut service, 2, "abc", Err(ErrorKind::ProviderUnavailable));
    let stored = stored.unwrap();
    assert_eq!(stored.project_id, 2);
    assert_eq!(stored.title, "Commit abc");
    assert_eq!(service.get_project_timeline(2, 0, 10, None, None), vec![stored]);
    let mut service = TimelineService::new();
    let stored = trigger_git_commit_timeline(
        &mut service,
        "00000000-0000-0000-0000-000000000002",
        HASH,
        Ok("s".to_string()),
    );
    assert_eq!(stored.unwrap().project_id, 2);
    assert_eq!(service.len(), 1);
}
