//! The reasons for which an operation of a guarded handle fails.

use vstd::prelude::*;

verus! {

/// Why an operation on a guarded handle failed.
#[derive(Clone, Copy, Debug, PartialEq, Eq, Structural)]
pub enum Error {
    /// Creation was asked for and the path was already taken.
    AlreadyExists,
    /// The file could not be opened for any other reason.
    OpenFailed,
    /// The file could not be removed from the file system.
    DeleteFailed,
    /// The cursor could not be moved to the start of the file.
    SeekFailed,
    /// The position of the cursor could not be read.
    CursorFailed,
    /// The length of the file could not be set.
    TruncateFailed,
}

impl Error {
    /// The text that `message` returns for each reason.
    pub open spec fn text(self) -> Seq<char> {
        match self {
            Error::AlreadyExists => "file already exists"@,
            Error::OpenFailed => "failed to open file"@,
            Error::DeleteFailed => "failed to delete file"@,
            Error::SeekFailed => "failed to rewind file"@,
            Error::CursorFailed => "failed to get cursor position"@,
            Error::TruncateFailed => "failed to truncate file"@,
        }
    }

    /// A short description of the reason, fit to show to a user.
    pub fn message(&self) -> (s: &'static str)
        ensures
            s@ == self.text(),
    {
        match self {
            Error::AlreadyExists => "file already exists",
            Error::OpenFailed => "failed to open file",
            Error::DeleteFailed => "failed to delete file",
            Error::SeekFailed => "failed to rewind file",
            Error::CursorFailed => "failed to get cursor position",
            Error::TruncateFailed => "failed to truncate file",
        }
    }
}

} // verus!
