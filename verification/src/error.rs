use vstd::prelude::*;

verus! {

/// Why an operation on a terminal session failed.
///
/// Every variant but [`TerminalError::UnknownSession`] carries the operating system's own
/// description of what went wrong.
#[derive(Clone, Debug, PartialEq, Eq)]
pub enum TerminalError {
    /// The platform could not provide a pseudo-terminal pair.
    Allocation(String),
    /// The shell could not be launched.
    Spawn(String),
    /// A reader or a writer could not be had from the master side.
    Handle(String),
    /// The identifier names no live session.
    UnknownSession,
    /// A write or a resize failed at the operating system.
    Io(String),
}

/// What a caller is told when an identifier names no live session.
pub open spec fn unknown_session_text() -> Seq<char> {
    "unknown terminal id"@
}

impl TerminalError {
    /// The text handed to the caller: the operating system's description where there is one.
    pub open spec fn text(&self) -> Seq<char> {
        match self {
            TerminalError::Allocation(detail) => detail@,
            TerminalError::Spawn(detail) => detail@,
            TerminalError::Handle(detail) => detail@,
            TerminalError::UnknownSession => unknown_session_text(),
            TerminalError::Io(detail) => detail@,
        }
    }

    /// The message for the caller.
    pub fn message(&self) -> (text: String)
        ensures
            text@ == self.text(),
    {
        match self {
            TerminalError::Allocation(detail) => detail.clone(),
            TerminalError::Spawn(detail) => detail.clone(),
            TerminalError::Handle(detail) => detail.clone(),
            TerminalError::UnknownSession => "unknown terminal id".to_owned(),
            TerminalError::Io(detail) => detail.clone(),
        }
    }
}

} // verus!
