//! The error taxonomy of the workspace engine. Every failure surfaced to
//! the caller is one of these variants; the text is assembled here so that
//! contracts can pin it down exactly.

use vstd::prelude::*;

verus! {

use crate::strings::str_concat;

/// The failure classes of the engine: filesystem trouble, malformed
/// persisted state, rejected caller input, an unknown workspace id, and
/// an external tool that ran and failed.
#[derive(Debug)]
pub enum WorkspaceError {
    Io(String),
    Serde(String),
    InvalidInput(String),
    NotFound(String),
    GitFailed(String),
}

impl Clone for WorkspaceError {
    fn clone(&self) -> (r: Self)
        ensures
            r == *self,
    {
        match self {
            WorkspaceError::Io(m) => WorkspaceError::Io(m.clone()),
            WorkspaceError::Serde(m) => WorkspaceError::Serde(m.clone()),
            WorkspaceError::InvalidInput(m) => WorkspaceError::InvalidInput(m.clone()),
            WorkspaceError::NotFound(m) => WorkspaceError::NotFound(m.clone()),
            WorkspaceError::GitFailed(m) => WorkspaceError::GitFailed(m.clone()),
        }
    }
}

/// The human-readable text of an error, as the surrounding application
/// shows it.
pub open spec fn spec_error_message(e: WorkspaceError) -> Seq<char> {
    match e {
        WorkspaceError::Io(m) => "IO error: "@ + m@,
        WorkspaceError::Serde(m) => "Serialization error: "@ + m@,
        WorkspaceError::InvalidInput(m) => m@,
        WorkspaceError::NotFound(m) => m@,
        WorkspaceError::GitFailed(m) => m@,
    }
}

impl WorkspaceError {
    /// Render the error as the single line of text handed to the caller.
    pub fn message(&self) -> (r: String)
        ensures
            r@ == spec_error_message(*self),
    {
        match self {
            WorkspaceError::Io(m) => str_concat("IO error: ", m.as_str()),
            WorkspaceError::Serde(m) => str_concat("Serialization error: ", m.as_str()),
            WorkspaceError::InvalidInput(m) => m.clone(),
            WorkspaceError::NotFound(m) => m.clone(),
            WorkspaceError::GitFailed(m) => m.clone(),
        }
    }
}

} // verus!
