//! The kinds of failure that the library reports.

use vstd::prelude::*;

verus! {

/// Why an operation was refused.
#[derive(Clone, Copy, Debug, PartialEq, Eq, Structural)]
pub enum ErrorKind {
    /// The store cannot take the record: it already holds one with that id.
    Storage,
    /// A persisted or supplied text is malformed: an identifier, a
    /// timestamp, a tag or a JSON document.
    Parse,
    /// No record has the given id.
    NotFound,
    /// The request conflicts with what exists, such as a project name that
    /// is already taken.
    Validation,
    /// Every summarization provider has failed.
    ProviderUnavailable,
}

impl ErrorKind {
    /// The message that describes the failure to a user.
    pub open spec fn message_text(self) -> Seq<char> {
        match self {
            ErrorKind::Storage => "storage error"@,
            ErrorKind::Parse => "parse error"@,
            ErrorKind::NotFound => "not found"@,
            ErrorKind::Validation => "validation error"@,
            ErrorKind::ProviderUnavailable => "summarization unavailable"@,
        }
    }

    /// The message that describes the failure to a user.
    pub fn message(&self) -> (text: String)
        ensures
            text@ == self.message_text(),
    {
        match self {
            ErrorKind::Storage => "storage error".to_owned(),
            ErrorKind::Parse => "parse error".to_owned(),
            ErrorKind::NotFound => "not found".to_owned(),
            ErrorKind::Validation => "validation error".to_owned(),
            ErrorKind::ProviderUnavailable => "summarization unavailable".to_owned(),
        }
    }
}

} // verus!
