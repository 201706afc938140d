//! The one error type the domain can return.
//!
//! "I could not fully describe this one process" is not an error: a protected
//! process the OS refuses to detail is still listed (marked restricted). This
//! type is reserved for failures of a whole operation.

use vstd::prelude::*;

verus! {

/// A failure the domain considers unrecoverable for the whole operation.
#[derive(Debug)]
pub enum HightowerError {
    /// The process enumeration itself could not be started or completed. A
    /// single process that cannot be described does not produce this.
    ProcessEnumeration(String),
    /// The known-process database could not be loaded or parsed.
    KnowledgeDatabase(String),
}

impl HightowerError {
    /// The text shown to the user for this error.
    pub open spec fn message_text(&self) -> Seq<char> {
        match self {
            HightowerError::ProcessEnumeration(detail) => "failed to enumerate running processes: "@
                + detail@,
            HightowerError::KnowledgeDatabase(detail) => "could not load the known-process database: "@
                + detail@,
        }
    }

    /// The user-facing message: a fixed description of the failed operation
    /// followed by the underlying detail.
    pub fn message(&self) -> (text: String)
        ensures
            text@ == self.message_text(),
    {
        match self {
            HightowerError::ProcessEnumeration(detail) => {
                let text = String::from_str("failed to enumerate running processes: ");
                text.concat(detail.as_str())
            },
            HightowerError::KnowledgeDatabase(detail) => {
                let text = String::from_str("could not load the known-process database: ");
                text.concat(detail.as_str())
            },
        }
    }
}

} // verus!
