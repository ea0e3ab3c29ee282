//! The failures that the lifecycle reports.

use vstd::prelude::*;

verus! {

/// What went wrong, by kind.
#[derive(Clone, Copy, Debug, PartialEq, Eq, Structural)]
pub enum ErrorKind {
    /// The configuration is missing, unreadable, or not a configuration.
    Config,
    /// The version-control client is not installed.
    ToolMissing,
    /// Fetching the dotfiles tree failed.
    Fetch,
    /// There is no state record: nothing was initialized.
    NotInitialized,
    /// The state record is there and is not a state record.
    Corrupt,
    /// The state record could not be written or removed.
    Unwritable,
    /// Neither the requested profile nor `default` exists.
    ProfileResolution,
    /// Backing up failed.
    Backup,
    /// Making a symlink failed.
    Link,
}

/// A failure: its kind and the line shown to the user.
#[derive(Clone, Debug, PartialEq, Eq)]
pub struct Error {
    pub kind: ErrorKind,
    pub message: String,
}

/// `Error` as a mathematical value.
pub struct ErrorView {
    pub kind: ErrorKind,
    pub message: Seq<char>,
}

impl View for Error {
    type V = ErrorView;

    open spec fn view(&self) -> ErrorView {
        ErrorView { kind: self.kind, message: self.message@ }
    }
}

/// An error that may be absent, as a mathematical value.
pub open spec fn opt_error(e: Option<Error>) -> Option<ErrorView> {
    match e {
        Some(x) => Some(x@),
        None => None,
    }
}

impl Error {
    /// A copy.
    pub fn duplicate(&self) -> (r: Error)
        ensures
            r@ == self@,
    {
        Error { kind: self.kind, message: self.message.clone() }
    }
}

} // verus!
