//! Typed failures of the shell's commands, a closed set of variants so
//! that every failure is surfaced to the caller rather than aborting.

use vstd::prelude::*;
use vstd::string::StringExecFns;

verus! {

/// A failure of a shell command.
///
/// Each variant carries a human-readable detail string; `message` renders
/// the variant with its fixed prefix.
#[derive(Debug, Clone)]
pub enum CommandError {
    /// The expected window label did not resolve to a live window.
    WindowNotFound(String),
    /// A failure reported by the host GUI framework, passed through.
    TauriError(String),
    /// A failure while serializing a value for cross-boundary reporting.
    SerializationError(String),
    /// An internal fault of the shell itself.
    Internal(String),
}

impl CommandError {
    /// The rendered message of an error: a fixed prefix for the variant
    /// followed by its detail string.
    pub open spec fn spec_message(self) -> Seq<char> {
        match self {
            CommandError::WindowNotFound(s) => "Failed to acquire window: "@ + s@,
            CommandError::TauriError(s) => "Tauri error: "@ + s@,
            CommandError::SerializationError(s) => "Serialization error: "@ + s@,
            CommandError::Internal(s) => "Internal error: "@ + s@,
        }
    }

    /// Renders the error as a human-readable message.
    pub fn message(&self) -> (r: String)
        ensures
            r@ == self.spec_message(),
    {
        match self {
            CommandError::WindowNotFound(s) => String::from_str(
                "Failed to acquire window: ",
            ).concat(s.as_str()),
            CommandError::TauriError(s) => String::from_str("Tauri error: ").concat(s.as_str()),
            CommandError::SerializationError(s) => String::from_str(
                "Serialization error: ",
            ).concat(s.as_str()),
            CommandError::Internal(s) => String::from_str("Internal error: ").concat(s.as_str()),
        }
    }
}

} // verus!
