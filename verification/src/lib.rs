//! The core of a local developer-workspace manager, verified with Verus.
//!
//! The library indexes project folders, keeps a timeline of what happened
//! to each project and a Kanban board of its tasks. It does no input or
//! output: it is handed what was read from the disk, from the
//! version-control tool and from the text-generation providers, decides,
//! and hands back what to show, to store or to ask next.
//!
//! * `scanner`, `tree`, `git_status`, `starred`, `structure`: from a
//!   directory tree to project records.
//! * `timeline`, `timeline_service`, `timeline_ai`, `commits`: the event
//!   log, its filtered and paged reading, and commit summaries from
//!   providers tried in order.
//! * `kanban`, `kanban_service`: tasks, their store and the board of five
//!   columns.
//! * `rows`, `json`, `ids`, `time`: the persisted forms of tasks and events.
//! * `scaffold`, `launch`, `file_ops`, `app_state`: new projects, editors,
//!   the files of the workspace and the application's state.
//! * `order`, `text`, `error`: ordering by time, text search and the kinds
//!   of failure.

pub mod app_state;
pub mod commits;
pub mod error;
pub mod file_ops;
pub mod git_status;
pub mod ids;
pub mod json;
pub mod kanban;
pub mod kanban_service;
pub mod launch;
pub mod order;
pub mod rows;
pub mod scaffold;
pub mod scanner;
pub mod starred;
pub mod structure;
pub mod text;
pub mod time;
pub mod timeline;
pub mod timeline_ai;
pub mod timeline_service;
pub mod tree;
