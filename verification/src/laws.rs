//! What holds of a guarded handle whatever it is used for.

use vstd::prelude::*;
use crate::error::Error;
use crate::handle::DropFileView;
use crate::model::{cutting, emptying, nothing, removing, settle, FileState};
use crate::plan::{Action, Reply, Step};

verus! {

/// Every call brings its operation nearer to its result, and no operation
/// makes more than two calls.
pub proof fn every_operation_ends(action: Action, reply: Reply)
    ensures
        action.next(reply).rank() < Step::Perform(action).rank(),
        Step::Perform(action).rank() <= 2,
{
}

/// Emptying a file, wherever its cursor stands, leaves it with no bytes and
/// with the cursor at the start. It fails with `SeekFailed` exactly if the
/// cursor cannot be moved, and with `TruncateFailed` exactly if the cursor
/// was moved and the length cannot be set.
pub proof fn trunc_empties_the_file<P, F>(
    handle: DropFileView<P, F>,
    file: FileState,
    failing: Set<Action>,
)
    ensures
        settle(handle.trunc(), file, failing) == emptying(file, failing),
        emptying(file, Set::empty()).0 is Ok,
        emptying(file, failing).0 is Ok ==> {
            &&& emptying(file, failing).1.len() == 0
            &&& emptying(file, failing).1.cursor == 0
            &&& emptying(file, failing).1.present == file.present
        },
{
    reveal_with_fuel(settle, 3);
    assert(file.resized(0) =~= Seq::<u8>::empty());
}

/// Cutting a file at its cursor leaves it as long as the cursor is far from
/// the start, and leaves the cursor where it was. Of a file that reached
/// to the cursor or past it, the bytes before the cursor stay and no others.
/// It fails with `CursorFailed` exactly if the position cannot be read, and
/// with `TruncateFailed` exactly if it was read and the length cannot be set.
pub proof fn trunc_to_cursor_cuts_at_the_cursor<P, F>(
    handle: DropFileView<P, F>,
    file: FileState,
    failing: Set<Action>,
)
    ensures
        settle(handle.trunc_to_cursor(), file, failing) == cutting(file, failing),
        cutting(file, Set::empty()).0 is Ok,
        cutting(file, failing).0 is Ok ==> {
            &&& cutting(file, failing).1.len() == file.cursor
            &&& cutting(file, failing).1.cursor == file.cursor
            &&& cutting(file, failing).1.present == file.present
            &&& file.cursor <= file.len() ==> cutting(file, failing).1.content
                == file.content.take(file.cursor as int)
        },
{
    reveal_with_fuel(settle, 3);
    if file.cursor <= file.len() {
        assert(file.resized(file.cursor) =~= file.content.take(file.cursor as int));
    }
}

/// Deleting removes the file of a handle that holds it, and fails with
/// `DeleteFailed` exactly if the removal fails. On a handle that holds no
/// file it does nothing and succeeds.
pub proof fn delete_removes_the_file<P, F>(
    handle: DropFileView<P, F>,
    file: FileState,
    failing: Set<Action>,
)
    ensures
        settle(handle.delete_file(), file, failing) == handle.deleting(file, failing),
        removing(file, Set::empty()).0 is Ok,
        removing(file, failing).0 is Ok ==> !removing(file, failing).1.present,
{
    reveal_with_fuel(settle, 2);
}

/// Releasing removes the file of a handle that holds it, created it and has
/// written nothing to it, and fails with `DeleteFailed` exactly if that
/// removal fails. On every other handle it does nothing and succeeds.
pub proof fn release_removes_what_was_abandoned<P, F>(
    handle: DropFileView<P, F>,
    file: FileState,
    failing: Set<Action>,
)
    ensures
        settle(handle.release(), file, failing) == handle.releasing(file, failing),
{
    reveal_with_fuel(settle, 2);
}

/// Once a write or a flush has succeeded, releasing the handle leaves the
/// file in place: no removal is asked for, and the file is as it was.
pub proof fn written_file_outlives_release<P, F>(
    handle: DropFileView<P, F>,
    file: FileState,
    failing: Set<Action>,
)
    ensures
        handle.written(true).release() == Step::Return(Ok(())),
        handle.written(true).releasing(file, failing) == nothing(file),
        nothing(file).1.present == file.present,
{
}

/// A handle that created its file and has written nothing to it removes the
/// file when it goes, whether it is deleted or released: the removal is asked
/// for, and once it has succeeded the path names no file. A write or a flush
/// that fails does not change this.
pub proof fn unwritten_creation_is_removed<P, F>(
    handle: DropFileView<P, F>,
    file: FileState,
    failing: Set<Action>,
)
    requires
        handle.is_open(),
        handle.created,
        !handle.written_to,
    ensures
        handle.written(false) == handle,
        handle.release() == Step::Perform(Action::Remove),
        handle.delete_file() == Step::Perform(Action::Remove),
        handle.releasing(file, failing) == removing(file, failing),
        handle.deleting(file, failing) == removing(file, failing),
        !failing.contains(Action::Remove) ==> removing(file, failing).0 is Ok && !removing(
            file,
            failing,
        ).1.present,
{
}

/// A handle straight from `open` with creation asked for is one that
/// `unwritten_creation_is_removed` speaks of.
pub proof fn fresh_creation_is_unwritten<P, F>(path: P, opened: F)
    ensures
        DropFileView::fresh(path, opened, true).is_open(),
        DropFileView::fresh(path, opened, true).created,
        !DropFileView::fresh(path, opened, true).written_to,
{
}

/// Deleting is idempotent. A handle that has given up its file, by an
/// earlier delete or by its release, deletes and releases with success, asks
/// for no call, leaves the file system alone and stays as it is.
pub proof fn delete_twice_succeeds<P, F>(
    handle: DropFileView<P, F>,
    file: FileState,
    failing: Set<Action>,
)
    ensures
        !handle.closed().is_open(),
        handle.closed().closed() == handle.closed(),
        handle.closed().delete_file() == Step::Return(Ok(())),
        handle.closed().release() == Step::Return(Ok(())),
        handle.closed().deleting(file, failing) == nothing(file),
        handle.closed().releasing(file, failing) == nothing(file),
        nothing(file) == (Ok::<(), Error>(()), file),
{
}

/// Whether a handle created its file is settled when it is opened, and so is
/// its path: no operation changes either. The mark of a write, once set,
/// stays set. A handle that gives up its file holds none afterwards.
pub proof fn flags_only_move_forward<P, F>(handle: DropFileView<P, F>, succeeded: bool)
    ensures
        handle.written(succeeded).created == handle.created,
        handle.written(succeeded).path == handle.path,
        handle.written(succeeded).file == handle.file,
        handle.written_to ==> handle.written(succeeded).written_to,
        handle.closed().created == handle.created,
        handle.closed().path == handle.path,
        handle.closed().written_to == handle.written_to,
        !handle.closed().is_open(),
{
}

} // verus!
