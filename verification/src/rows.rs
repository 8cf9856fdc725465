//! Tasks and events as rows of text: identifiers in hyphenated form,
//! instants as RFC 3339 text, tags as a JSON array of strings, the status
//! and priority of a task as their tags, and the kind of an event as JSON
//! with the name of the variant in front.

use crate::error::ErrorKind;
use crate::ids::{format_uuid, parse_uuid, uuid_parse, uuid_text};
use crate::json::{
    decimal, decimal_text, encode_strings, json_array_parse, json_array_text, json_string_at,
    json_string_literal, json_u64_at, parse_strings, quote, string_at, u64_at,
};
use crate::kanban::{KanbanTask, KanbanTaskView, TaskPriority, TaskStatus};
use crate::text::{clone_optional, same_text};
use crate::time::{
    format_rfc3339, instant_of, parse_rfc3339, rfc3339_parse, rfc3339_text, Timestamp,
};
use crate::timeline::{TimelineEvent, TimelineEventType, TimelineEventTypeView, TimelineEventView};
use vstd::prelude::*;
use vstd::string::StringExecFns;

verus! {

/// A task as a row of the task table.
#[derive(Debug, PartialEq, Eq)]
pub struct TaskRow {
    pub id: String,
    pub project_id: String,
    pub title: String,
    pub description: Option<String>,
    pub status: String,
    pub priority: String,
    pub assignee: Option<String>,
    pub tags: String,
    pub created_at: String,
    pub updated_at: String,
    pub due_date: Option<String>,
    pub estimated_hours: Option<u32>,
    pub metadata: String,
}

/// The mathematical content of a `TaskRow`.
pub struct TaskRowView {
    pub id: Seq<char>,
    pub project_id: Seq<char>,
    pub title: Seq<char>,
    pub description: Option<Seq<char>>,
    pub status: Seq<char>,
    pub priority: Seq<char>,
    pub assignee: Option<Seq<char>>,
    pub tags: Seq<char>,
    pub created_at: Seq<char>,
    pub updated_at: Seq<char>,
    pub due_date: Option<Seq<char>>,
    pub estimated_hours: Option<u32>,
    pub metadata: Seq<char>,
}

impl View for TaskRow {
    type V = TaskRowView;

    open spec fn view(&self) -> TaskRowView {
        TaskRowView {
            id: self.id@,
            project_id: self.project_id@,
            title: self.title@,
            description: self.description.deep_view(),
            status: self.status@,
            priority: self.priority@,
            assignee: self.assignee.deep_view(),
            tags: self.tags@,
            created_at: self.created_at@,
            updated_at: self.updated_at@,
            due_date: self.due_date.deep_view(),
            estimated_hours: self.estimated_hours,
            metadata: self.metadata@,
        }
    }
}

/// An event as a row of the timeline table.
#[derive(Debug, PartialEq, Eq)]
pub struct EventRow {
    pub id: String,
    pub project_id: String,
    pub timestamp: String,
    pub event_type: String,
    pub title: String,
    pub description: Option<String>,
    pub metadata: String,
    pub user_id: Option<String>,
    pub tags: String,
}

/// The mathematical content of an `EventRow`.
pub struct EventRowView {
    pub id: Seq<char>,
    pub project_id: Seq<char>,
    pub timestamp: Seq<char>,
    pub event_type: Seq<char>,
    pub title: Seq<char>,
    pub description: Option<Seq<char>>,
    pub metadata: Seq<char>,
    pub user_id: Option<Seq<char>>,
    pub tags: Seq<char>,
}

impl View for EventRow {
    type V = EventRowView;

    open spec fn view(&self) -> EventRowView {
        EventRowView {
            id: self.id@,
            project_id: self.project_id@,
            timestamp: self.timestamp@,
            event_type: self.event_type@,
            title: self.title@,
            description: self.description.deep_view(),
            metadata: self.metadata@,
            user_id: self.user_id.deep_view(),
            tags: self.tags@,
        }
    }
}

/// The kind of an event as JSON: the name of a variant without fields as a
/// string; a variant with fields as an object with the name of the variant
/// as its one key and the fields, by name, as the value.
pub open spec fn event_type_text(kind: TimelineEventTypeView) -> Seq<char> {
    match kind {
        TimelineEventTypeView::ProjectCreated => "\"ProjectCreated\""@,
        TimelineEventTypeView::ProjectModified => "\"ProjectModified\""@,
        TimelineEventTypeView::FileAdded { path, size } => "{\"FileAdded\":{\"path\":"@
            + json_string_literal(path) + ",\"size\":"@ + decimal_text(size as nat) + "}}"@,
        TimelineEventTypeView::FileModified { path } => "{\"FileModified\":{\"path\":"@
            + json_string_literal(path) + "}}"@,
        TimelineEventTypeView::GitCommit { hash, message } => "{\"GitCommit\":{\"hash\":"@
            + json_string_literal(hash) + ",\"message\":"@ + json_string_literal(message) + "}}"@,
        TimelineEventTypeView::BuildCompleted { status } => "{\"BuildCompleted\":{\"status\":"@
            + json_string_literal(status) + "}}"@,
        TimelineEventTypeView::Custom { event_name } => "{\"Custom\":{\"event_name\":"@
            + json_string_literal(event_name) + "}}"@,
    }
}

/// The fields of the variants with fields, as a JSON text holds them under
/// the names of the variants.
pub struct EventFields {
    pub file_added_path: Option<Seq<char>>,
    pub file_added_size: Option<u64>,
    pub file_modified_path: Option<Seq<char>>,
    pub git_commit_hash: Option<Seq<char>>,
    pub git_commit_message: Option<Seq<char>>,
    pub build_completed_status: Option<Seq<char>>,
    pub custom_event_name: Option<Seq<char>>,
}

/// The fields that the JSON text `text` holds.
pub open spec fn event_fields_of(text: Seq<char>) -> EventFields {
    EventFields {
        file_added_path: json_string_at(text, "/FileAdded/path"@),
        file_added_size: json_u64_at(text, "/FileAdded/size"@),
        file_modified_path: json_string_at(text, "/FileModified/path"@),
        git_commit_hash: json_string_at(text, "/GitCommit/hash"@),
        git_commit_message: json_string_at(text, "/GitCommit/message"@),
        build_completed_status: json_string_at(text, "/BuildCompleted/status"@),
        custom_event_name: json_string_at(text, "/Custom/event_name"@),
    }
}

/// One where `present` holds, and zero where it does not.
pub open spec fn one_if(present: bool) -> nat {
    if present {
        1
    } else {
        0
    }
}

/// The number of variants of which `fields` holds a field.
pub open spec fn variants_present(fields: EventFields) -> nat {
    one_if(fields.file_added_path is Some || fields.file_added_size is Some) + one_if(
        fields.file_modified_path is Some,
    ) + one_if(fields.git_commit_hash is Some || fields.git_commit_message is Some) + one_if(
        fields.build_completed_status is Some,
    ) + one_if(fields.custom_event_name is Some)
}

/// The kind of an event with the fields `fields`: the one variant of which
/// `fields` holds a field, where it holds every field of that variant.
/// `None` where fields of two variants are present, or none, or not all of
/// the one.
pub open spec fn kind_of_fields(fields: EventFields) -> Option<TimelineEventTypeView> {
    if variants_present(fields) != 1 {
        None
    } else if fields.file_added_path is Some && fields.file_added_size is Some {
        Some(
            TimelineEventTypeView::FileAdded {
                path: fields.file_added_path->0,
                size: fields.file_added_size->0,
            },
        )
    } else if fields.file_modified_path is Some {
        Some(TimelineEventTypeView::FileModified { path: fields.file_modified_path->0 })
    } else if fields.git_commit_hash is Some && fields.git_commit_message is Some {
        Some(
            TimelineEventTypeView::GitCommit {
                hash: fields.git_commit_hash->0,
                message: fields.git_commit_message->0,
            },
        )
    } else if fields.build_completed_status is Some {
        Some(TimelineEventTypeView::BuildCompleted { status: fields.build_completed_status->0 })
    } else if fields.custom_event_name is Some {
        Some(TimelineEventTypeView::Custom { event_name: fields.custom_event_name->0 })
    } else {
        None
    }
}

/// The kind of an event that a JSON text gives: for a string, the variant
/// without fields of that name; else the kind of the fields that the text
/// holds under the names of the variants with fields. `None` for every
/// other text, and for one that holds fields of more than one variant.
pub open spec fn event_type_of_text(text: Seq<char>) -> Option<TimelineEventTypeView> {
    if json_string_at(text, ""@) is Some {
        if json_string_at(text, ""@)->0 == "ProjectCreated"@ {
            Some(TimelineEventTypeView::ProjectCreated)
        } else if json_string_at(text, ""@)->0 == "ProjectModified"@ {
            Some(TimelineEventTypeView::ProjectModified)
        } else {
            None
        }
    } else {
        kind_of_fields(event_fields_of(text))
    }
}

/// The RFC 3339 text of an instant, where it has one.
pub open spec fn instant_text(t: Timestamp) -> Option<Seq<char>> {
    rfc3339_text(t.secs, t.nanos)
}

/// The row of a task; `None` where one of its instants has no RFC 3339
/// text.
pub open spec fn task_row_of(task: KanbanTaskView) -> Option<TaskRowView> {
    if instant_text(task.created_at) is None || instant_text(task.updated_at) is None || (
    task.due_date matches Some(due) && instant_text(due) is None) {
        None
    } else {
        Some(
            TaskRowView {
                id: uuid_text(task.id),
                project_id: uuid_text(task.project_id),
                title: task.title,
                description: task.description,
                status: task.status.tag(),
                priority: task.priority.tag(),
                assignee: task.assignee,
                tags: json_array_text(task.tags),
                created_at: instant_text(task.created_at)->0,
                updated_at: instant_text(task.updated_at)->0,
                due_date: match task.due_date {
                    Some(due) => instant_text(due),
                    None => None,
                },
                estimated_hours: task.estimated_hours,
                metadata: task.metadata,
            },
        )
    }
}

/// The task of a row; `None` where an identifier is no UUID, an instant no
/// RFC 3339 date and time, the status or the priority no known tag, or the
/// tags no JSON array of strings.
pub open spec fn task_of_row(row: TaskRowView) -> Option<KanbanTaskView> {
    if uuid_parse(row.id) is None || uuid_parse(row.project_id) is None || TaskStatus::named(
        row.status,
    ) is None || TaskPriority::named(row.priority) is None || json_array_parse(row.tags) is None
        || rfc3339_parse(row.created_at) is None || rfc3339_parse(row.updated_at) is None || (
    row.due_date matches Some(due) && rfc3339_parse(due) is None) {
        None
    } else {
        Some(
            KanbanTaskView {
                id: uuid_parse(row.id)->0,
                project_id: uuid_parse(row.project_id)->0,
                title: row.title,
                description: row.description,
                status: TaskStatus::named(row.status)->0,
                priority: TaskPriority::named(row.priority)->0,
                assignee: row.assignee,
                tags: json_array_parse(row.tags)->0,
                created_at: instant_of(rfc3339_parse(row.created_at))->0,
                updated_at: instant_of(rfc3339_parse(row.updated_at))->0,
                due_date: match row.due_date {
                    Some(due) => instant_of(rfc3339_parse(due)),
                    None => None,
                },
                estimated_hours: row.estimated_hours,
                metadata: row.metadata,
            },
        )
    }
}

/// The row of an event; `None` where its instant has no RFC 3339 text.
pub open spec fn event_row_of(event: TimelineEventView) -> Option<EventRowView> {
    match instant_text(event.timestamp) {
        None => None,
        Some(timestamp) => Some(
            EventRowView {
                id: uuid_text(event.id),
                project_id: uuid_text(event.project_id),
                timestamp,
                event_type: event_type_text(event.event_type),
                title: event.title,
                description: event.description,
                metadata: event.metadata,
                user_id: event.user_id,
                tags: json_array_text(event.tags),
            },
        ),
    }
}

/// The event of a row; `None` where an identifier is no UUID, the instant
/// no RFC 3339 date and time, the kind no kind of event, or the tags no
/// JSON array of strings.
pub open spec fn event_of_row(row: EventRowView) -> Option<TimelineEventView> {
    if uuid_parse(row.id) is None || uuid_parse(row.project_id) is None || rfc3339_parse(
        row.timestamp,
    ) is None || event_type_of_text(row.event_type) is None || json_array_parse(row.tags)
        is None {
        None
    } else {
        Some(
            TimelineEventView {
                id: uuid_parse(row.id)->0,
                project_id: uuid_parse(row.project_id)->0,
                timestamp: instant_of(rfc3339_parse(row.timestamp))->0,
                event_type: event_type_of_text(row.event_type)->0,
                title: row.title,
                description: row.description,
                metadata: row.metadata,
                user_id: row.user_id,
                tags: json_array_parse(row.tags)->0,
            },
        )
    }
}

impl KanbanTask {
    /// Writes the task as a row.
    pub fn to_row(&self) -> (row: Option<TaskRow>)
        ensures
            match row {
                Some(r) => task_row_of(self@) == Some(r@),
                None => task_row_of(self@) is None,
            },
    {
        let created_at = match format_rfc3339(self.created_at) {
            Some(text) => text,
            None => {
                return None;
            },
        };
        let updated_at = match format_rfc3339(self.updated_at) {
            Some(text) => text,
            None => {
                return None;
            },
        };
        let due_date = match self.due_date {
            Some(due) => match format_rfc3339(due) {
                Some(text) => Some(text),
                None => {
                    return None;
                },
            },
            None => None,
        };
        Some(
            TaskRow {
                id: format_uuid(self.id),
                project_id: format_uuid(self.project_id),
                title: self.title.clone(),
                description: clone_optional(&self.description),
                status: self.status.to_string(),
                priority: self.priority.to_string(),
                assignee: clone_optional(&self.assignee),
                tags: encode_strings(&self.tags),
                created_at,
                updated_at,
                due_date,
                estimated_hours: self.estimated_hours,
                metadata: self.metadata.clone(),
            },
        )
    }

    /// Reads a task from a row. A row with a malformed identifier, instant,
    /// status, priority or list of tags gives `Parse`.
    pub fn from_row(row: &TaskRow) -> (r: Result<KanbanTask, ErrorKind>)
        ensures
            match r {
                Ok(task) => task_of_row(row@) == Some(task@),
                Err(e) => e == ErrorKind::Parse && task_of_row(row@) is None,
            },
    {
        let id = match parse_uuid(row.id.as_str()) {
            Some(v) => v,
            None => {
                return Err(ErrorKind::Parse);
            },
        };
        let project_id = match parse_uuid(row.project_id.as_str()) {
            Some(v) => v,
            None => {
                return Err(ErrorKind::Parse);
            },
        };
        let status = match TaskStatus::parse(row.status.as_str()) {
            Some(v) => v,
            None => {
                return Err(ErrorKind::Parse);
            },
        };
        let priority = match TaskPriority::parse(row.priority.as_str()) {
            Some(v) => v,
            None => {
                return Err(ErrorKind::Parse);
            },
        };
        let tags = match parse_strings(row.tags.as_str()) {
            Some(v) => v,
            None => {
                return Err(ErrorKind::Parse);
            },
        };
        let created_at = match parse_rfc3339(row.created_at.as_str()) {
            Some(v) => v,
            None => {
                return Err(ErrorKind::Parse);
            },
        };
        let updated_at = match parse_rfc3339(row.updated_at.as_str()) {
            Some(v) => v,
            None => {
                return Err(ErrorKind::Parse);
            },
        };
        let due_date = match &row.due_date {
            Some(text) => match parse_rfc3339(text.as_str()) {
                Some(v) => Some(v),
                None => {
                    return Err(ErrorKind::Parse);
                },
            },
            None => None,
        };
        Ok(
            KanbanTask {
                id,
                project_id,
                title: row.title.clone(),
                description: clone_optional(&row.description),
                status,
                priority,
                assignee: clone_optional(&row.assignee),
                tags,
                created_at,
                updated_at,
                due_date,
                estimated_hours: row.estimated_hours,
                metadata: row.metadata.clone(),
            },
        )
    }
}

impl TimelineEventType {
    /// Writes the kind of an event as JSON.
    pub fn to_json(&self) -> (text: String)
        ensures
            text@ == event_type_text(self@),
    {
        match self {
            TimelineEventType::ProjectCreated => "\"ProjectCreated\"".to_owned(),
            TimelineEventType::ProjectModified => "\"ProjectModified\"".to_owned(),
            TimelineEventType::FileAdded { path, size } => {
                let mut text = String::from_str("{\"FileAdded\":{\"path\":");
                text.append(quote(path.as_str()).as_str());
                text.append(",\"size\":");
                text.append(decimal(*size).as_str());
                text.append("}}");
                text
            },
            TimelineEventType::FileModified { path } => {
                let mut text = String::from_str("{\"FileModified\":{\"path\":");
                text.append(quote(path.as_str()).as_str());
                text.append("}}");
                text
            },
            TimelineEventType::GitCommit { hash, message } => {
                let mut text = String::from_str("{\"GitCommit\":{\"hash\":");
                text.append(quote(hash.as_str()).as_str());
                text.append(",\"message\":");
                text.append(quote(message.as_str()).as_str());
                text.append("}}");
                text
            },
            TimelineEventType::BuildCompleted { status } => {
                let mut text = String::from_str("{\"BuildCompleted\":{\"status\":");
                text.append(quote(status.as_str()).as_str());
                text.append("}}");
                text
            },
            TimelineEventType::Custom { event_name } => {
                let mut text = String::from_str("{\"Custom\":{\"event_name\":");
                text.append(quote(event_name.as_str()).as_str());
                text.append("}}");
                text
            },
        }
    }

    /// Reads the kind of an event from JSON; `None` for a text that gives
    /// none.
    pub fn from_json(text: &str) -> (kind: Option<TimelineEventType>)
        ensures
            match kind {
                Some(k) => event_type_of_text(text@) == Some(k@),
                None => event_type_of_text(text@) is None,
            },
    {
        match string_at(text, "") {
            Some(name) => {
                if same_text(name.as_str(), "ProjectCreated") {
                    return Some(TimelineEventType::ProjectCreated);
                }
                if same_text(name.as_str(), "ProjectModified") {
                    return Some(TimelineEventType::ProjectModified);
                }
                return None;
            },
            None => {},
        }
        let file_added_path = string_at(text, "/FileAdded/path");
        let file_added_size = u64_at(text, "/FileAdded/size");
        let file_modified_path = string_at(text, "/FileModified/path");
        let git_commit_hash = string_at(text, "/GitCommit/hash");
        let git_commit_message = string_at(text, "/GitCommit/message");
        let build_completed_status = string_at(text, "/BuildCompleted/status");
        let custom_event_name = string_at(text, "/Custom/event_name");
        let mut present: u8 = 0;
        if file_added_path.is_some() || file_added_size.is_some() {
            present = present + 1;
        }
        if file_modified_path.is_some() {
            present = present + 1;
        }
        if git_commit_hash.is_some() || git_commit_message.is_some() {
            present = present + 1;
        }
        if build_completed_status.is_some() {
            present = present + 1;
        }
        if custom_event_name.is_some() {
            present = present + 1;
        }
        if present != 1 {
            return None;
        }
        match (file_added_path, file_added_size) {
            (Some(path), Some(size)) => {
                return Some(TimelineEventType::FileAdded { path, size });
            },
            _ => {},
        }
        match file_modified_path {
            Some(path) => {
                return Some(TimelineEventType::FileModified { path });
            },
            None => {},
        }
        match (git_commit_hash, git_commit_message) {
            (Some(hash), Some(message)) => {
                return Some(TimelineEventType::GitCommit { hash, message });
            },
            _ => {},
        }
        match build_completed_status {
            Some(status) => {
                return Some(TimelineEventType::BuildCompleted { status });
            },
            None => {},
        }
        match custom_event_name {
            Some(event_name) => Some(TimelineEventType::Custom { event_name }),
            None => None,
        }
    }
}

impl TimelineEvent {
    /// Writes the event as a row.
    pub fn to_row(&self) -> (row: Option<EventRow>)
        ensures
            match row {
                Some(r) => event_row_of(self@) == Some(r@),
                None => event_row_of(self@) is None,
            },
    {
        let timestamp = match format_rfc3339(self.timestamp) {
            Some(text) => text,
            None => {
                return None;
            },
        };
        Some(
            EventRow {
                id: format_uuid(self.id),
                project_id: format_uuid(self.project_id),
                timestamp,
                event_type: self.event_type.to_json(),
                title: self.title.clone(),
                description: clone_optional(&self.description),
                metadata: self.metadata.clone(),
                user_id: clone_optional(&self.user_id),
                tags: encode_strings(&self.tags),
            },
        )
    }

    /// Reads an event from a row. A row with a malformed identifier,
    /// instant, kind or list of tags gives `Parse`.
    pub fn from_row(row: &EventRow) -> (r: Result<TimelineEvent, ErrorKind>)
        ensures
            match r {
                Ok(event) => event_of_row(row@) == Some(event@),
                Err(e) => e == ErrorKind::Parse && event_of_row(row@) is None,
            },
    {
        let id = match parse_uuid(row.id.as_str()) {
            Some(v) => v,
            None => {
                return Err(ErrorKind::Parse);
            },
        };
        let project_id = match parse_uuid(row.project_id.as_str()) {
            Some(v) => v,
            None => {
                return Err(ErrorKind::Parse);
            },
        };
        let timestamp = match parse_rfc3339(row.timestamp.as_str()) {
            Some(v) => v,
            None => {
                return Err(ErrorKind::Parse);
            },
        };
        let event_type = match TimelineEventType::from_json(row.event_type.as_str()) {
            Some(v) => v,
            None => {
                return Err(ErrorKind::Parse);
            },
        };
        let tags = match parse_strings(row.tags.as_str()) {
            Some(v) => v,
            None => {
                return Err(ErrorKind::Parse);
            },
        };
        Ok(
            TimelineEvent {
                id,
                project_id,
                timestamp,
                event_type,
                title: row.title.clone(),
                description: clone_optional(&row.description),
                metadata: row.metadata.clone(),
                user_id: clone_optional(&row.user_id),
                tags,
            },
        )
    }
}

} // verus!
