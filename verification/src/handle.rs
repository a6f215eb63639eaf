//! The guarded handle: what it holds, and what each of its operations decides.

use vstd::prelude::*;
use crate::error::Error;
use crate::laws::{
    delete_removes_the_file, release_removes_what_was_abandoned, trunc_empties_the_file,
    trunc_to_cursor_cuts_at_the_cursor,
};
use crate::model::{cutting, emptying, nothing, removing, settle, FileState, Outcome};
use crate::plan::{Action, Step};

verus! {

/// How the file behind a guarded handle is to be opened.
#[derive(Clone, Copy, Debug, PartialEq, Eq, Structural)]
pub struct OpenMode {
    /// Open for reading.
    pub read: bool,
    /// Open for writing.
    pub write: bool,
    /// Create the file, and fail if the path is already taken.
    pub create_new: bool,
}

/// Why the file system refused to open a file.
#[derive(Clone, Copy, Debug, PartialEq, Eq, Structural)]
pub enum OpenFailure {
    /// The path is already taken.
    AlreadyExists,
    /// Anything else: no such file, no permission, a directory in the way.
    Other,
}

/// A handle on the file at `path` that remembers whether it created the file
/// and whether anything was written through it.
///
/// `P` is the path and `F` the open file, in whatever form the caller's file
/// system has them. The handle owns both and looks into neither. Dropping the
/// `F` is what closes the file.
pub struct DropFile<P, F> {
    path: P,
    file: Option<F>,
    created: bool,
    written_to: bool,
}

/// What a guarded handle holds.
pub struct DropFileView<P, F> {
    /// The path that the handle was opened on.
    pub path: P,
    /// The open file, or `None` once the handle has given it up.
    pub file: Option<F>,
    /// Whether opening the handle created the file.
    pub created: bool,
    /// Whether a write or a flush through the handle has succeeded.
    pub written_to: bool,
}

impl<P, F> DropFileView<P, F> {
    /// A handle as `open` makes it.
    pub open spec fn fresh(path: P, file: F, create: bool) -> Self {
        DropFileView { path, file: Some(file), created: create, written_to: false }
    }

    /// Whether the handle still holds its file.
    pub open spec fn is_open(self) -> bool {
        self.file is Some
    }

    /// The handle after it has given up its file.
    pub open spec fn closed(self) -> Self {
        DropFileView { file: None, ..self }
    }

    /// The handle after a write or a flush that went as `succeeded` says.
    pub open spec fn written(self, succeeded: bool) -> Self {
        DropFileView { written_to: self.written_to || succeeded, ..self }
    }

    /// Whether releasing the handle removes the file: the handle holds a file
    /// that it created and that nothing was written to.
    pub open spec fn abandoned(self) -> bool {
        self.is_open() && self.created && !self.written_to
    }

    /// The first step of emptying the file.
    pub open spec fn trunc(self) -> Step {
        Step::Perform(Action::Rewind)
    }

    /// The first step of cutting the file at the cursor.
    pub open spec fn trunc_to_cursor(self) -> Step {
        Step::Perform(Action::Position)
    }

    /// The first step of deleting the file.
    pub open spec fn delete_file(self) -> Step {
        if self.is_open() {
            Step::Perform(Action::Remove)
        } else {
            Step::Return(Ok(()))
        }
    }

    /// The first step of releasing the handle.
    pub open spec fn release(self) -> Step {
        if self.abandoned() {
            Step::Perform(Action::Remove)
        } else {
            Step::Return(Ok(()))
        }
    }

    /// What deleting the file comes to on `file`: the file is removed if the
    /// handle still holds it, and nothing is done otherwise.
    pub open spec fn deleting(self, file: FileState, failing: Set<Action>) -> Outcome {
        if self.is_open() {
            removing(file, failing)
        } else {
            nothing(file)
        }
    }

    /// What releasing the handle comes to on `file`: the file is removed if
    /// the handle holds it, created it and has written nothing to it, and
    /// nothing is done otherwise.
    pub open spec fn releasing(self, file: FileState, failing: Set<Action>) -> Outcome {
        if self.abandoned() {
            removing(file, failing)
        } else {
            nothing(file)
        }
    }
}

impl<P, F> View for DropFile<P, F> {
    type V = DropFileView<P, F>;

    closed spec fn view(&self) -> DropFileView<P, F> {
        DropFileView {
            path: self.path,
            file: self.file,
            created: self.created,
            written_to: self.written_to,
        }
    }
}

/// The reason that `open` fails for.
pub open spec fn open_error(create: bool, failure: OpenFailure) -> Error {
    if create && failure is AlreadyExists {
        Error::AlreadyExists
    } else {
        Error::OpenFailed
    }
}

impl<P, F> DropFile<P, F> {
    /// How to open the file for a guarded handle: for reading and writing,
    /// and, where `create` is set, creating it and failing if it is already
    /// there. Without `create` the file is never created.
    pub fn open_mode(create: bool) -> (mode: OpenMode)
        ensures
            mode == (OpenMode { read: true, write: true, create_new: create }),
    {
        OpenMode { read: true, write: true, create_new: create }
    }

    /// Makes the handle on `path` from what came of opening the file with
    /// `open_mode(create)`.
    ///
    /// Where the file was opened, the handle holds it, has written nothing,
    /// and has created the file exactly if `create` is set. Where it was not,
    /// there is no handle: the error is `AlreadyExists` if creation was asked
    /// for and the path was taken, and `OpenFailed` for everything else.
    pub fn open(path: P, create: bool, outcome: Result<F, OpenFailure>) -> (r: Result<Self, Error>)
        ensures
            match outcome {
                Ok(file) => r matches Ok(handle) && handle@ == DropFileView::fresh(
                    path,
                    file,
                    create,
                ),
                Err(failure) => r matches Err(e) && e == open_error(create, failure),
            },
    {
        match outcome {
            Ok(file) => Ok(DropFile { path, file: Some(file), created: create, written_to: false }),
            Err(OpenFailure::AlreadyExists) => {
                if create {
                    Err(Error::AlreadyExists)
                } else {
                    Err(Error::OpenFailed)
                }
            },
            Err(OpenFailure::Other) => Err(Error::OpenFailed),
        }
    }

    /// The path that the handle was opened on.
    pub fn path(&self) -> (path: &P)
        ensures
            *path == self@.path,
    {
        &self.path
    }

    /// Whether opening the handle created the file.
    pub fn created(&self) -> (b: bool)
        ensures
            b == self@.created,
    {
        self.created
    }

    /// Whether a write or a flush through the handle has succeeded.
    pub fn written_to(&self) -> (b: bool)
        ensures
            b == self@.written_to,
    {
        self.written_to
    }

    /// Whether the handle still holds its file.
    pub fn is_open(&self) -> (b: bool)
        ensures
            b == self@.is_open(),
    {
        self.file.is_some()
    }

    /// The open file, for reading.
    pub fn file(&self) -> (file: &F)
        requires
            self@.is_open(),
        ensures
            Some(*file) == self@.file,
    {
        self.file.as_ref().unwrap()
    }

    /// The open file, for reading, writing and seeking. Whatever the caller
    /// does to the file, the handle's path and flags stay as they are.
    pub fn file_mut(&mut self) -> (file: &mut F)
        requires
            old(self)@.is_open(),
        ensures
            Some(*file) == old(self)@.file,
            final(self)@ == (DropFileView { file: Some(*final(file)), ..old(self)@ }),
    {
        self.file.as_mut().unwrap()
    }

    /// Starts emptying the file: the cursor goes to the start, then the
    /// length is set to zero. The operation fails with `SeekFailed` if the
    /// first call fails and with `TruncateFailed` if the second does. The
    /// handle stays as it is; in particular this counts as no write.
    pub fn trunc(&mut self) -> (step: Step)
        requires
            old(self)@.is_open(),
        ensures
            step == old(self)@.trunc(),
            final(self)@ == old(self)@,
            forall|file: FileState, failing: Set<Action>| #[trigger]
                settle(step, file, failing) == emptying(file, failing),
    {
        proof {
            assert forall|file: FileState, failing: Set<Action>| #[trigger]
                settle(self@.trunc(), file, failing) == emptying(file, failing) by {
                trunc_empties_the_file(self@, file, failing);
            }
        }
        Step::Perform(Action::Rewind)
    }

    /// Starts cutting the file at the cursor: the position of the cursor is
    /// read, then the length is set to it, and the cursor is not moved. The
    /// operation fails with `CursorFailed` if the first call fails and with
    /// `TruncateFailed` if the second does. The handle stays as it is; in
    /// particular this counts as no write.
    pub fn trunc_to_cursor(&mut self) -> (step: Step)
        requires
            old(self)@.is_open(),
        ensures
            step == old(self)@.trunc_to_cursor(),
            final(self)@ == old(self)@,
            forall|file: FileState, failing: Set<Action>| #[trigger]
                settle(step, file, failing) == cutting(file, failing),
    {
        proof {
            assert forall|file: FileState, failing: Set<Action>| #[trigger]
                settle(self@.trunc_to_cursor(), file, failing) == cutting(file, failing) by {
                trunc_to_cursor_cuts_at_the_cursor(self@, file, failing);
            }
        }
        Step::Perform(Action::Position)
    }

    /// Starts deleting the file. A handle that holds its file closes it here,
    /// before the file is removed, and asks for the removal; the operation
    /// fails with `DeleteFailed` if the removal fails, and the file stays
    /// closed even then. A handle that has given up its file already has
    /// nothing to do and succeeds at once.
    pub fn delete_file(&mut self) -> (step: Step)
        ensures
            step == old(self)@.delete_file(),
            final(self)@ == old(self)@.closed(),
            forall|file: FileState, failing: Set<Action>| #[trigger]
                settle(step, file, failing) == old(self)@.deleting(file, failing),
    {
        proof {
            assert forall|file: FileState, failing: Set<Action>| #[trigger]
                settle(self@.delete_file(), file, failing) == self@.deleting(file, failing) by {
                delete_removes_the_file(self@, file, failing);
            }
        }
        match self.file.take() {
            Some(_) => Step::Perform(Action::Remove),
            None => Step::Return(Ok(())),
        }
    }

    /// Uses the handle up and deletes the file as `delete_file` does. The
    /// path comes back for the removal.
    pub fn delete(self) -> (r: (P, Step))
        ensures
            r.0 == self@.path,
            r.1 == self@.delete_file(),
            forall|file: FileState, failing: Set<Action>| #[trigger]
                settle(r.1, file, failing) == self@.deleting(file, failing),
    {
        proof {
            assert forall|file: FileState, failing: Set<Action>| #[trigger]
                settle(self@.delete_file(), file, failing) == self@.deleting(file, failing) by {
                delete_removes_the_file(self@, file, failing);
            }
        }
        let DropFile { path, file, created: _, written_to: _ } = self;
        match file {
            Some(_) => (path, Step::Perform(Action::Remove)),
            None => (path, Step::Return(Ok(()))),
        }
    }

    /// Gives the handle up at the end of its life. The file is closed. It is
    /// then removed if the handle still held it, had created it and has
    /// written nothing to it; in every other case it is left in place. No
    /// caller is left to hear of a removal that fails: whoever performs the
    /// step must treat its failure as fatal.
    pub fn release(&mut self) -> (step: Step)
        ensures
            step == old(self)@.release(),
            final(self)@ == old(self)@.closed(),
            forall|file: FileState, failing: Set<Action>| #[trigger]
                settle(step, file, failing) == old(self)@.releasing(file, failing),
    {
        proof {
            assert forall|file: FileState, failing: Set<Action>| #[trigger]
                settle(self@.release(), file, failing) == self@.releasing(file, failing) by {
                release_removes_what_was_abandoned(self@, file, failing);
            }
        }
        let abandoned = self.file.is_some() && self.created && !self.written_to;
        self.file = None;
        if abandoned {
            Step::Perform(Action::Remove)
        } else {
            Step::Return(Ok(()))
        }
    }

    /// Records a write that was made through `file_mut` and hands its
    /// outcome on unchanged. A write that succeeded marks the handle as
    /// written to, however many bytes it took; one that failed leaves the
    /// mark as it was.
    pub fn write<E>(&mut self, outcome: Result<usize, E>) -> (r: Result<usize, E>)
        requires
            old(self)@.is_open(),
        ensures
            r == outcome,
            final(self)@ == old(self)@.written(outcome is Ok),
    {
        if outcome.is_ok() {
            self.written_to = true;
        }
        outcome
    }

    /// Records a write from several buffers, as `write` does for one.
    pub fn write_vectored<E>(&mut self, outcome: Result<usize, E>) -> (r: Result<usize, E>)
        requires
            old(self)@.is_open(),
        ensures
            r == outcome,
            final(self)@ == old(self)@.written(outcome is Ok),
    {
        if outcome.is_ok() {
            self.written_to = true;
        }
        outcome
    }

    /// Records a flush that was made through `file_mut` and hands its outcome
    /// on unchanged. A flush that succeeded marks the handle as written to;
    /// one that failed leaves the mark as it was.
    pub fn flush<E>(&mut self, outcome: Result<(), E>) -> (r: Result<(), E>)
        requires
            old(self)@.is_open(),
        ensures
            r == outcome,
            final(self)@ == old(self)@.written(outcome is Ok),
    {
        if outcome.is_ok() {
            self.written_to = true;
        }
        outcome
    }
}

} // verus!
