//! Timeline events: immutable, timestamped records of what happened to a
//! project.

use crate::text::{clone_optional, clone_strings};
use crate::time::Timestamp;
use vstd::prelude::*;

verus! {

/// What happened.
#[derive(Debug, PartialEq, Eq)]
pub enum TimelineEventType {
    ProjectCreated,
    ProjectModified,
    FileAdded { path: String, size: u64 },
    FileModified { path: String },
    GitCommit { hash: String, message: String },
    BuildCompleted { status: String },
    Custom { event_name: String },
}

/// The mathematical content of a `TimelineEventType`.
pub enum TimelineEventTypeView {
    ProjectCreated,
    ProjectModified,
    FileAdded { path: Seq<char>, size: u64 },
    FileModified { path: Seq<char> },
    GitCommit { hash: Seq<char>, message: Seq<char> },
    BuildCompleted { status: Seq<char> },
    Custom { event_name: Seq<char> },
}

impl View for TimelineEventType {
    type V = TimelineEventTypeView;

    open spec fn view(&self) -> TimelineEventTypeView {
        match self {
            TimelineEventType::ProjectCreated => TimelineEventTypeView::ProjectCreated,
            TimelineEventType::ProjectModified => TimelineEventTypeView::ProjectModified,
            TimelineEventType::FileAdded { path, size } => TimelineEventTypeView::FileAdded {
                path: path@,
                size: *size,
            },
            TimelineEventType::FileModified { path } => TimelineEventTypeView::FileModified {
                path: path@,
            },
            TimelineEventType::GitCommit { hash, message } => TimelineEventTypeView::GitCommit {
                hash: hash@,
                message: message@,
            },
            TimelineEventType::BuildCompleted { status } => TimelineEventTypeView::BuildCompleted {
                status: status@,
            },
            TimelineEventType::Custom { event_name } => TimelineEventTypeView::Custom {
                event_name: event_name@,
            },
        }
    }
}

impl TimelineEventTypeView {
    /// The name of the variant, by which events are selected and stored.
    pub open spec fn tag(self) -> Seq<char> {
        match self {
            TimelineEventTypeView::ProjectCreated => "ProjectCreated"@,
            TimelineEventTypeView::ProjectModified => "ProjectModified"@,
            TimelineEventTypeView::FileAdded { .. } => "FileAdded"@,
            TimelineEventTypeView::FileModified { .. } => "FileModified"@,
            TimelineEventTypeView::GitCommit { .. } => "GitCommit"@,
            TimelineEventTypeView::BuildCompleted { .. } => "BuildCompleted"@,
            TimelineEventTypeView::Custom { .. } => "Custom"@,
        }
    }
}

impl TimelineEventType {
    /// The name of the variant.
    pub fn tag(&self) -> (name: &'static str)
        ensures
            name@ == self@.tag(),
    {
        match self {
            TimelineEventType::ProjectCreated => "ProjectCreated",
            TimelineEventType::ProjectModified => "ProjectModified",
            TimelineEventType::FileAdded { .. } => "FileAdded",
            TimelineEventType::FileModified { .. } => "FileModified",
            TimelineEventType::GitCommit { .. } => "GitCommit",
            TimelineEventType::BuildCompleted { .. } => "BuildCompleted",
            TimelineEventType::Custom { .. } => "Custom",
        }
    }
}

impl Clone for TimelineEventType {
    fn clone(&self) -> (copy: TimelineEventType)
        ensures
            copy@ == self@,
    {
        match self {
            TimelineEventType::ProjectCreated => TimelineEventType::ProjectCreated,
            TimelineEventType::ProjectModified => TimelineEventType::ProjectModified,
            TimelineEventType::FileAdded { path, size } => TimelineEventType::FileAdded {
                path: path.clone(),
                size: *size,
            },
            TimelineEventType::FileModified { path } => TimelineEventType::FileModified {
                path: path.clone(),
            },
            TimelineEventType::GitCommit { hash, message } => TimelineEventType::GitCommit {
                hash: hash.clone(),
                message: message.clone(),
            },
            TimelineEventType::BuildCompleted { status } => TimelineEventType::BuildCompleted {
                status: status.clone(),
            },
            TimelineEventType::Custom { event_name } => TimelineEventType::Custom {
                event_name: event_name.clone(),
            },
        }
    }
}

/// One record of the timeline. Once stored, a record never changes.
#[derive(Debug, PartialEq, Eq)]
pub struct TimelineEvent {
    pub id: u128,
    pub project_id: u128,
    pub timestamp: Timestamp,
    pub event_type: TimelineEventType,
    pub title: String,
    pub description: Option<String>,
    /// A JSON object in text form, carried as given.
    pub metadata: String,
    pub user_id: Option<String>,
    pub tags: Vec<String>,
}

/// The mathematical content of a `TimelineEvent`.
pub struct TimelineEventView {
    pub id: u128,
    pub project_id: u128,
    pub timestamp: Timestamp,
    pub event_type: TimelineEventTypeView,
    pub title: Seq<char>,
    pub description: Option<Seq<char>>,
    pub metadata: Seq<char>,
    pub user_id: Option<Seq<char>>,
    pub tags: Seq<Seq<char>>,
}

impl View for TimelineEvent {
    type V = TimelineEventView;

    open spec fn view(&self) -> TimelineEventView {
        TimelineEventView {
            id: self.id,
            project_id: self.project_id,
            timestamp: self.timestamp,
            event_type: self.event_type@,
            title: self.title@,
            description: self.description.deep_view(),
            metadata: self.metadata@,
            user_id: self.user_id.deep_view(),
            tags: self.tags.deep_view(),
        }
    }
}

impl DeepView for TimelineEvent {
    type V = TimelineEventView;

    open spec fn deep_view(&self) -> TimelineEventView {
        self.view()
    }
}

impl Clone for TimelineEvent {
    fn clone(&self) -> (copy: TimelineEvent)
        ensures
            copy@ == self@,
    {
        TimelineEvent {
            id: self.id,
            project_id: self.project_id,
            timestamp: self.timestamp,
            event_type: self.event_type.clone(),
            title: self.title.clone(),
            description: clone_optional(&self.description),
            metadata: self.metadata.clone(),
            user_id: clone_optional(&self.user_id),
            tags: clone_strings(&self.tags),
        }
    }
}

} // verus!
