use project_manager::error::ErrorKind;
use project_manager::json::{decimal, encode_strings, encode_strings_pretty};
use project_manager::kanban::{KanbanTask, TaskPriority, TaskStatus};
use project_manager::rows::{EventRow, TaskRow};
use project_manager::time::Timestamp;
use project_manager::timeline::{TimelineEvent, TimelineEventType};

fn task() -> KanbanTask {
    KanbanTask {
        id: 0xa1a2a3a4b1b2c1c2d1d2d3d4d5d6d7d8,
        project_id: 1,
        title: "Title".to_string(),
        description: Some("Text".to_string()),
        status: TaskStatus::InProgress,
        priority: TaskPriority::Urgent,
        assignee: None,
        tags: vec!["a\"b".to_string(), "c".to_string()],
        created_at: Timestamp { secs: 1_431_648_000, nanos: 0 },
        updated_at: Timestamp { secs: 1_431_648_001, nanos: 250_000_000 },
        due_date: Some(Timestamp { secs: 0, nanos: 0 }),
        estimated_hours: Some(0.25f32.to_bits()),
        metadata: "{\"a\":[1,2]}".to_string(),
    }
}

fn task_row() -> TaskRow {
    TaskRow {
        id: "a1a2a3a4-b1b2-c1c2-d1d2-d3d4d5d6d7d8".to_string(),
        project_id: "00000000-0000-0000-0000-000000000001".to_string(),
        title: "Title".to_string(),
        description: Some("Text".to_string()),
        status: "in_progress".to_string(),
        priority: "urgent".to_string(),
        assignee: None,
        tags: "[\"a\\\"b\",\"c\"]".to_string(),
        created_at: "2015-05-15T00:00:00+00:00".to_string(),
        updated_at: "2015-05-15T00:00:01.250+00:00".to_string(),
        due_date: Some("1970-01-01T00:00:00+00:00".to_string()),
        estimated_hours: Some(0.25f32.to_bits()),
        metadata: "{\"a\":[1,2]}".to_string(),
    }
}

fn event() -> TimelineEvent {
    TimelineEvent {
        id: 2,
        project_id: 0x550e8400e29b41d4a716446655440000,
        timestamp: Timestamp { secs: 1_431_648_000, nanos: 1 },
        event_type: TimelineEventType::FileAdded { path: "a/b".to_string(), size: 9 },
        title: "Added".to_string(),
        description: None,
        metadata: "{}".to_string(),
        user_id: Some("ada".to_string()),
        tags: vec![],
    }
}

fn event_row() -> EventRow {
    EventRow {
        id: "00000000-0000-0000-0000-000000000002".to_string(),
        project_id: "550e8400-e29b-41d4-a716-446655440000".to_string(),
        timestamp: "2015-05-15T00:00:00.000000001+00:00".to_string(),
        event_type: "{\"FileAdded\":{\"path\":\"a/b\",\"size\":9}}".to_string(),
        title: "Added".to_string(),
        description: None,
        metadata: "{}".to_string(),
        user_id: Some("ada".to_string()),
        tags: "[]".to_string(),
    }
}

#[test]
fn task_is_written_as_a_row() {
    assert_eq!(task().to_row(), Some(task_row()));
}

#[test]
fn task_is_read_from_a_row() {
    assert_eq!(KanbanTask::from_row(&task_row()), Ok(task()));
    let mut row = task_row();
    row.id = "{A1A2A3A4-B1B2-C1C2-D1D2-D3D4D5D6D7D8}".to_string();
    row.updated_at = "2015-05-15T02:00:01.25+02:00".to_string();
    row.tags = " [ \"a\\u0022b\" , \"c\" ] ".to_string();
    row.due_date = Some("1970-01-01T00:00:00Z".to_string());
    assert_eq!(KanbanTask::from_row(&row), Ok(task()));
}

#[test]
fn task_row_round_trip() {
    let mut t = task();
    t.due_date = None;
    t.status = TaskStatus::Blocked;
    t.priority = TaskPriority::Low;
    let row = t.to_row().unwrap();
    assert_eq!(row.due_date, None);
    assert_eq!(KanbanTask::from_row(&row), Ok(t));
}

#[test]
fn task_with_an_instant_out_of_range_has_no_row() {
    let mut t = task();
    t.created_at = Timestamp { secs: i64::MAX, nanos: 0 };
    assert_eq!(t.to_row(), None);
    let mut t = task();
    t.updated_at = Timestamp { secs: 0, nanos: 2_000_000_000 };
    assert_eq!(t.to_row(), None);
    let mut t = task();
    t.due_date = Some(Timestamp { secs: i64::MIN, nanos: 0 });
    assert_eq!(t.to_row(), None);
}

#[test]
fn malformed_task_rows_are_parse_errors() {
    let broken: Vec<fn(&mut TaskRow)> = vec![
        |r| r.id = "a1a2a3a4".to_string(),
        |r| r.project_id = String::new(),
        |r| r.status = "doing".to_string(),
        |r| r.status = "Todo".to_string(),
        |r| r.priority = "highest".to_string(),
        |r| r.tags = "a,b".to_string(),
        |r| r.tags = "[1]".to_string(),
        |r| r.tags = String::new(),
        |r| r.created_at = "2015-05-15".to_string(),
        |r| r.updated_at = "yesterday".to_string(),
        |r| r.due_date = Some("2015-13-01T00:00:00Z".to_string()),
    ];
    for change in broken {
        let mut row = task_row();
        change(&mut row);
        assert_eq!(KanbanTask::from_row(&row), Err(ErrorKind::Parse));
    }
}

#[test]
fn event_is_written_as_a_row() {
    assert_eq!(event().to_row(), Some(event_row()));
    let mut e = event();
    e.timestamp = Timestamp { secs: i64::MAX, nanos: 0 };
    assert_eq!(e.to_row(), None);
}

#[test]
fn event_is_read_from_a_row() {
    assert_eq!(TimelineEvent::from_row(&event_row()), Ok(event()));
    let mut e = event();
    e.tags = vec!["commit".to_string(), "é".to_string()];
    e.description = Some("d".to_string());
    let row = e.to_row().unwrap();
    assert_eq!(row.tags, "[\"commit\",\"é\"]");
    assert_eq!(TimelineEvent::from_row(&row), Ok(e));
}

#[test]
fn malformed_event_rows_are_parse_errors() {
    let broken: Vec<fn(&mut EventRow)> = vec![
        |r| r.id = "2".to_string(),
        |r| r.project_id = "550e8400-e29b-41d4-a716-44665544000".to_string(),
        |r| r.timestamp = "1431648000".to_string(),
        |r| r.tags = "{}".to_string(),
        |r| r.event_type = "FileAdded".to_string(),
        |r| r.event_type = "{\"FileAdded\":{\"path\":\"a/b\"}}".to_string(),
    ];
    for change in broken {
        let mut row = event_row();
        change(&mut row);
        assert_eq!(TimelineEvent::from_row(&row), Err(ErrorKind::Parse));
    }
}

#[test]
fn string_lists_are_written_as_json_arrays() {
    let items = vec!["a".to_string(), "b \"c\"".to_string(), "\\d\n".to_string(), String::new()];
    assert_eq!(encode_strings(&items), "[\"a\",\"b \\\"c\\\"\",\"\\\\d\\n\",\"\"]");
    assert_eq!(encode_strings(&items), serde_json::to_string(&items).unwrap());
    assert_eq!(encode_strings_pretty(&items), serde_json::to_string_pretty(&items).unwrap());
    let one = vec!["x".to_string()];
    assert_eq!(encode_strings(&one), "[\"x\"]");
    assert_eq!(encode_strings_pretty(&one), "[\n  \"x\"\n]");
    assert_eq!(encode_strings(&vec![]), "[]");
    assert_eq!(encode_strings_pretty(&vec![]), "[]");
}

#[test]
fn numbers_are_written_in_decimal() {
    assert_eq!(decimal(0), "0");
    assert_eq!(decimal(7), "7");
    assert_eq!(decimal(10), "10");
    assert_eq!(decimal(1234567890), "1234567890");
    assert_eq!(decimal(1_000_000), "1000000");
    assert_eq!(decimal(u64::MAX), "18446744073709551615");
    for n in [9u64, 11, 99, 100, 101, 909, 4096, 65535, 1 << 40] {
        assert_eq!(decimal(n), n.to_string());
    }
}

fn kinds() -> Vec<(TimelineEventType, &'static str)> {
    vec![
        (TimelineEventType::ProjectCreated, "\"ProjectCreated\""),
        (TimelineEventType::ProjectModified, "\"ProjectModified\""),
        (
            TimelineEventType::FileAdded { path: "src/a \"b\".rs".to_string(), size: 1234 },
            "{\"FileAdded\":{\"path\":\"src/a \\\"b\\\".rs\",\"size\":1234}}",
        ),
        (
            TimelineEventType::FileAdded { path: String::new(), size: u64::MAX },
            "{\"FileAdded\":{\"path\":\"\",\"size\":18446744073709551615}}",
        ),
        (
            TimelineEventType::FileModified { path: "a".to_string() },
            "{\"FileModified\":{\"path\":\"a\"}}",
        ),
        (
            TimelineEventType::GitCommit { hash: "abc".to_string(), message: "m\nn".to_string() },
            "{\"GitCommit\":{\"hash\":\"abc\",\"message\":\"m\\nn\"}}",
        ),
        (
            TimelineEventType::BuildCompleted { status: "ok".to_string() },
            "{\"BuildCompleted\":{\"status\":\"ok\"}}",
        ),
        (
            TimelineEventType::Custom { event_name: "é".to_string() },
            "{\"Custom\":{\"event_name\":\"é\"}}",
        ),
    ]
}

#[test]
fn event_kinds_are_written_as_json() {
    for (kind, text) in kinds() {
        assert_eq!(kind.to_json(), text);
        let parsed: serde_json::Value = serde_json::from_str(text).unwrap();
        assert_eq!(serde_json::to_string(&parsed).unwrap(), text);
    }
}

#[test]
fn event_kinds_are_read_from_json() {
    for (kind, text) in kinds() {
        assert_eq!(TimelineEventType::from_json(text), Some(kind));
    }
    assert_eq!(
        TimelineEventType::from_json(" { \"GitCommit\" : { \"message\" : \"m\", \"hash\" : \"h\", \"more\": 1 } } "),
        Some(TimelineEventType::GitCommit { hash: "h".to_string(), message: "m".to_string() })
    );
}

#[test]
fn other_texts_give_no_event_kind() {
    for text in [
        "",
        "ProjectCreated",
        "\"projectcreated\"",
        "\"FileAdded\"",
        "\"GitCommit\"",
        "{}",
        "[]",
        "null",
        "{\"FileAdded\":{\"path\":\"a\"}}",
        "{\"FileAdded\":{\"path\":\"a\",\"size\":-1}}",
        "{\"FileAdded\":{\"path\":\"a\",\"size\":1.5}}",
        "{\"FileAdded\":{\"path\":\"a\",\"size\":\"1\"}}",
        "{\"FileAdded\":{\"path\":\"a\",\"size\":18446744073709551616}}",
        "{\"FileModified\":{\"path\":1}}",
        "{\"GitCommit\":{\"hash\":\"h\"}}",
        "{\"GitCommit\":{\"message\":\"m\"}}",
        "{\"BuildCompleted\":{}}",
        "{\"Custom\":{\"name\":\"n\"}}",
        "{\"Unknown\":{\"x\":\"y\"}}",
        "{\"Custom\":{\"event_name\":\"n\"}",
    ] {
        assert_eq!(TimelineEventType::from_json(text), None);
    }
}

#[test]
fn fields_of_two_variants_give_no_event_kind() {
    for text in [
        "{\"FileAdded\":{\"path\":\"a\",\"size\":1},\"GitCommit\":{\"hash\":\"h\",\"message\":\"m\"}}",
        "{\"GitCommit\":{\"hash\":\"h\",\"message\":\"m\"},\"FileAdded\":{\"path\":\"a\",\"size\":1}}",
        "{\"FileModified\":{\"path\":\"a\"},\"Custom\":{\"event_name\":\"n\"}}",
        "{\"BuildCompleted\":{\"status\":\"ok\"},\"FileModified\":{\"path\":\"a\"}}",
        "{\"GitCommit\":{\"hash\":\"h\",\"message\":\"m\"},\"FileAdded\":{\"size\":1}}",
        "{\"GitCommit\":{\"hash\":\"h\",\"message\":\"m\"},\"FileAdded\":{\"path\":\"a\"}}",
        "{\"Custom\":{\"event_name\":\"n\"},\"GitCommit\":{\"message\":\"m\"}}",
        "{\"FileAdded\":{\"path\":\"a\",\"size\":1},\"FileModified\":{\"path\":\"a\"},\"Custom\":{\"event_name\":\"n\"}}",
    ] {
        assert_eq!(TimelineEventType::from_json(text), None);
        let mut row = event_row();
        row.event_type = text.to_string();
        assert_eq!(TimelineEvent::from_row(&row), Err(ErrorKind::Parse));
    }
    assert_eq!(
        TimelineEventType::from_json("{\"Custom\":{\"event_name\":\"n\"},\"Other\":{\"x\":1}}"),
        Some(TimelineEventType::Custom { event_name: "n".to_string() })
    );
}
