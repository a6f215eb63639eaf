//! The calls that a guarded handle asks of the file system, one at a time.
//!
//! The handle itself performs no input or output. An operation hands its
//! caller a `Step`: either a call to make on the file, or the result of the
//! operation. The caller makes the call and passes the file system's answer to
//! `Action::next`, which gives the step after it, until a result comes out.

use vstd::prelude::*;
use crate::error::Error;

verus! {

/// One call on the file that a handle guards.
#[derive(Clone, Copy, Debug, PartialEq, Eq, Structural)]
pub enum Action {
    /// Move the cursor of the open file to its start.
    Rewind,
    /// Read the position of the cursor of the open file.
    Position,
    /// Set the length of the open file, leaving the cursor where it is.
    SetLen(u64),
    /// Remove the file at the handle's path from the file system.
    Remove,
}

/// The answer of the file system to one call.
#[derive(Clone, Copy, Debug, PartialEq, Eq, Structural)]
pub enum Reply {
    /// The call succeeded and has nothing to report.
    Done,
    /// The call succeeded and reports a position in the file.
    At(u64),
    /// The call failed.
    Failed,
}

/// What the caller of an operation is to do next.
#[derive(Clone, Copy, Debug, PartialEq, Eq)]
pub enum Step {
    /// Make this call, then ask `Action::next` with its answer.
    Perform(Action),
    /// The operation is over, with this result.
    Return(Result<(), Error>),
}

impl Action {
    /// Whether `reply` reports that this call succeeded. Reading the position
    /// succeeds only with a position; any other call succeeds unless it is
    /// reported as failed.
    pub open spec fn accepts(self, reply: Reply) -> bool {
        match self {
            Action::Position => reply is At,
            _ => reply !is Failed,
        }
    }

    /// The reason that the operation fails for when this call does.
    pub open spec fn failure(self) -> Error {
        match self {
            Action::Rewind => Error::SeekFailed,
            Action::Position => Error::CursorFailed,
            Action::SetLen(_) => Error::TruncateFailed,
            Action::Remove => Error::DeleteFailed,
        }
    }

    /// The step that follows this call once the file system has answered it.
    ///
    /// A failed call ends the operation with the call's own reason. After a
    /// rewind the file is emptied; after the position was read the file is cut
    /// there; setting the length and removing the file are the last call of
    /// their operations.
    pub open spec fn spec_next(self, reply: Reply) -> Step {
        if !self.accepts(reply) {
            Step::Return(Err(self.failure()))
        } else {
            match self {
                Action::Rewind => Step::Perform(Action::SetLen(0)),
                Action::Position => Step::Perform(Action::SetLen(reply->At_0)),
                Action::SetLen(_) => Step::Return(Ok(())),
                Action::Remove => Step::Return(Ok(())),
            }
        }
    }

    /// The number of calls that can still follow this one in an operation.
    pub open spec fn rank(self) -> nat {
        match self {
            Action::Rewind => 1,
            Action::Position => 1,
            Action::SetLen(_) => 0,
            Action::Remove => 0,
        }
    }

    /// Gives the step that follows this call, from the answer that the file
    /// system gave to it.
    #[verifier::when_used_as_spec(spec_next)]
    pub fn next(self, reply: Reply) -> (step: Step)
        ensures
            step == self.spec_next(reply),
    {
        match (self, reply) {
            (Action::Rewind, Reply::Done) | (Action::Rewind, Reply::At(_)) => Step::Perform(
                Action::SetLen(0),
            ),
            (Action::Rewind, Reply::Failed) => Step::Return(Err(Error::SeekFailed)),
            (Action::Position, Reply::At(cursor)) => Step::Perform(Action::SetLen(cursor)),
            (Action::Position, _) => Step::Return(Err(Error::CursorFailed)),
            (Action::SetLen(_), Reply::Failed) => Step::Return(Err(Error::TruncateFailed)),
            (Action::SetLen(_), _) => Step::Return(Ok(())),
            (Action::Remove, Reply::Failed) => Step::Return(Err(Error::DeleteFailed)),
            (Action::Remove, _) => Step::Return(Ok(())),
        }
    }
}

impl Step {
    /// An upper bound on the number of calls that the operation still makes.
    pub open spec fn rank(self) -> nat {
        match self {
            Step::Perform(action) => action.rank() + 1,
            Step::Return(_) => 0,
        }
    }
}

} // verus!
