//! A file as the handle's operations assume it, and what an operation comes
//! to when its calls are made on such a file.
//!
//! Nothing here runs. The model says what each call does to a file when it
//! succeeds, so that the effect of a whole operation can be stated and proved.

use vstd::prelude::*;
use crate::error::Error;
use crate::plan::{Action, Reply, Step};

verus! {

/// The state of one file, as far as the calls of a handle touch it.
pub struct FileState {
    /// Whether the path names the file.
    pub present: bool,
    /// The bytes of the file.
    pub content: Seq<u8>,
    /// The position of the cursor of the open file. It may lie past the end.
    pub cursor: u64,
}

impl FileState {
    /// The length of the file.
    pub open spec fn len(self) -> nat {
        self.content.len()
    }

    /// The bytes of the file once its length is set to `len`: the bytes up to
    /// `len` are kept, and a file that was shorter is filled up with zeros.
    pub open spec fn resized(self, len: u64) -> Seq<u8> {
        Seq::new(
            len as nat,
            |i: int|
                if i < self.content.len() {
                    self.content[i]
                } else {
                    0u8
                },
        )
    }

    /// The answer to `action` when it succeeds on this file.
    pub open spec fn reply(self, action: Action) -> Reply {
        match action {
            Action::Position => Reply::At(self.cursor),
            _ => Reply::Done,
        }
    }

    /// The file after `action` has succeeded on it.
    pub open spec fn after(self, action: Action) -> FileState {
        match action {
            Action::Rewind => FileState { cursor: 0, ..self },
            Action::Position => self,
            Action::SetLen(len) => FileState { content: self.resized(len), ..self },
            Action::Remove => FileState { present: false, ..self },
        }
    }
}

/// The result of an operation, and the file that it leaves.
pub type Outcome = (Result<(), Error>, FileState);

/// The result of the operation that stands at `step`, and the file it leaves,
/// when its calls are made on `file` one after the other. A call in `failing`
/// fails and leaves the file as it is; every other call succeeds.
pub open spec fn settle(step: Step, file: FileState, failing: Set<Action>) -> Outcome
    decreases step.rank(),
{
    match step {
        Step::Return(result) => (result, file),
        Step::Perform(action) => if failing.contains(action) {
            settle(action.next(Reply::Failed), file, failing)
        } else {
            settle(action.next(file.reply(action)), file.after(action), failing)
        },
    }
}

/// What emptying `file` comes to. Where the cursor cannot be moved, it fails
/// with `SeekFailed` and the file is untouched. Where the length cannot be
/// set, it fails with `TruncateFailed`, with the cursor at the start already.
/// Otherwise the file is left without a byte and with the cursor at the start.
pub open spec fn emptying(file: FileState, failing: Set<Action>) -> Outcome {
    if failing.contains(Action::Rewind) {
        (Err(Error::SeekFailed), file)
    } else if failing.contains(Action::SetLen(0)) {
        (Err(Error::TruncateFailed), FileState { cursor: 0, ..file })
    } else {
        (Ok(()), FileState { content: Seq::empty(), cursor: 0, ..file })
    }
}

/// What cutting `file` at its cursor comes to. Where the position cannot be
/// read, it fails with `CursorFailed`; where the length cannot be set, with
/// `TruncateFailed`; the file is untouched in both cases. Otherwise the file
/// is left as long as the cursor is far from the start, and the cursor stays.
pub open spec fn cutting(file: FileState, failing: Set<Action>) -> Outcome {
    if failing.contains(Action::Position) {
        (Err(Error::CursorFailed), file)
    } else if failing.contains(Action::SetLen(file.cursor)) {
        (Err(Error::TruncateFailed), file)
    } else {
        (Ok(()), FileState { content: file.resized(file.cursor), ..file })
    }
}

/// What removing `file` comes to. Where the removal fails, the result is
/// `DeleteFailed` and the file is untouched. Otherwise the path names no file
/// any more.
pub open spec fn removing(file: FileState, failing: Set<Action>) -> Outcome {
    if failing.contains(Action::Remove) {
        (Err(Error::DeleteFailed), file)
    } else {
        (Ok(()), FileState { present: false, ..file })
    }
}

/// What an operation comes to that makes no call: it succeeds, and the file
/// is untouched.
pub open spec fn nothing(file: FileState) -> Outcome {
    (Ok(()), file)
}

} // verus!
