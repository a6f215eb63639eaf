use dropfile::{Action, DropFile, Error, OpenFailure, OpenMode, Reply, Step};

type Handle = DropFile<&'static str, u32>;

fn opened(create: bool) -> Handle {
    Handle::open("/tmp/dropfile", create, Ok(3)).unwrap()
}

#[test]
fn open_mode_ask_for_reading_and_writing() {
    assert_eq!(
        Handle::open_mode(true),
        OpenMode { read: true, write: true, create_new: true }
    );
    assert_eq!(
        Handle::open_mode(false),
        OpenMode { read: true, write: true, create_new: false }
    );
}

#[test]
fn open_with_creation_gives_a_created_unwritten_handle() {
    let handle = opened(true);
    assert!(handle.created());
    assert!(!handle.written_to());
    assert!(handle.is_open());
    assert_eq!(*handle.file(), 3);
    assert_eq!(*handle.path(), "/tmp/dropfile");
}

#[test]
fn open_without_creation_gives_an_uncreated_handle() {
    let handle = opened(false);
    assert!(!handle.created());
    assert!(!handle.written_to());
    assert!(handle.is_open());
}

#[test]
fn open_on_a_taken_path_fails_with_already_exists() {
    let r = Handle::open("/tmp/dropfile", true, Err(OpenFailure::AlreadyExists));
    assert_eq!(r.err(), Some(Error::AlreadyExists));
}

#[test]
fn open_collapses_every_other_failure() {
    let r = Handle::open("/tmp/dropfile", true, Err(OpenFailure::Other));
    assert_eq!(r.err(), Some(Error::OpenFailed));
    let r = Handle::open("/tmp/dropfile", false, Err(OpenFailure::Other));
    assert_eq!(r.err(), Some(Error::OpenFailed));
    let r = Handle::open("/tmp/dropfile", false, Err(OpenFailure::AlreadyExists));
    assert_eq!(r.err(), Some(Error::OpenFailed));
}

#[test]
fn messages_name_each_reason() {
    assert_eq!(Error::AlreadyExists.message(), "file already exists");
    assert_eq!(Error::OpenFailed.message(), "failed to open file");
    assert_eq!(Error::DeleteFailed.message(), "failed to delete file");
    assert_eq!(Error::SeekFailed.message(), "failed to rewind file");
    assert_eq!(Error::CursorFailed.message(), "failed to get cursor position");
    assert_eq!(Error::TruncateFailed.message(), "failed to truncate file");
}

#[test]
fn trunc_rewinds_then_sets_the_length_to_zero() {
    let mut handle = opened(false);
    assert_eq!(handle.trunc(), Step::Perform(Action::Rewind));
    assert_eq!(Action::Rewind.next(Reply::Done), Step::Perform(Action::SetLen(0)));
    assert_eq!(Action::SetLen(0).next(Reply::Done), Step::Return(Ok(())));
    assert!(!handle.written_to());
    assert!(handle.is_open());
}

#[test]
fn trunc_fails_with_the_step_that_failed() {
    assert_eq!(Action::Rewind.next(Reply::Failed), Step::Return(Err(Error::SeekFailed)));
    assert_eq!(Action::SetLen(0).next(Reply::Failed), Step::Return(Err(Error::TruncateFailed)));
}

#[test]
fn trunc_to_cursor_reads_the_position_then_sets_the_length_to_it() {
    let mut handle = opened(false);
    assert_eq!(handle.trunc_to_cursor(), Step::Perform(Action::Position));
    assert_eq!(Action::Position.next(Reply::At(17)), Step::Perform(Action::SetLen(17)));
    assert_eq!(Action::SetLen(17).next(Reply::Done), Step::Return(Ok(())));
    assert!(!handle.written_to());
}

#[test]
fn trunc_to_cursor_fails_with_the_step_that_failed() {
    assert_eq!(Action::Position.next(Reply::Failed), Step::Return(Err(Error::CursorFailed)));
    assert_eq!(Action::Position.next(Reply::Done), Step::Return(Err(Error::CursorFailed)));
    assert_eq!(Action::SetLen(17).next(Reply::Failed), Step::Return(Err(Error::TruncateFailed)));
}

#[test]
fn a_position_counts_as_success_where_none_is_needed() {
    assert_eq!(Action::Rewind.next(Reply::At(0)), Step::Perform(Action::SetLen(0)));
    assert_eq!(Action::SetLen(4).next(Reply::At(4)), Step::Return(Ok(())));
    assert_eq!(Action::Remove.next(Reply::At(0)), Step::Return(Ok(())));
}

#[test]
fn delete_file_closes_and_asks_for_the_removal() {
    let mut handle = opened(false);
    assert_eq!(handle.delete_file(), Step::Perform(Action::Remove));
    assert!(!handle.is_open());
    assert_eq!(Action::Remove.next(Reply::Done), Step::Return(Ok(())));
    assert_eq!(Action::Remove.next(Reply::Failed), Step::Return(Err(Error::DeleteFailed)));
}

#[test]
fn delete_file_twice_succeeds() {
    let mut handle = opened(true);
    assert_eq!(handle.delete_file(), Step::Perform(Action::Remove));
    assert_eq!(handle.delete_file(), Step::Return(Ok(())));
    assert_eq!(handle.delete_file(), Step::Return(Ok(())));
    assert!(!handle.is_open());
    assert!(handle.created());
}

#[test]
fn delete_after_release_succeeds() {
    let mut handle = opened(true);
    assert_eq!(handle.release(), Step::Perform(Action::Remove));
    assert_eq!(handle.delete_file(), Step::Return(Ok(())));
    let (path, step) = handle.delete();
    assert_eq!(path, "/tmp/dropfile");
    assert_eq!(step, Step::Return(Ok(())));
}

#[test]
fn delete_uses_the_handle_up_and_hands_back_the_path() {
    let (path, step) = opened(false).delete();
    assert_eq!(path, "/tmp/dropfile");
    assert_eq!(step, Step::Perform(Action::Remove));
}

#[test]
fn release_removes_a_created_file_that_was_never_written() {
    let mut handle = opened(true);
    assert_eq!(handle.release(), Step::Perform(Action::Remove));
    assert!(!handle.is_open());
    assert_eq!(handle.release(), Step::Return(Ok(())));
}

#[test]
fn release_keeps_a_file_that_was_not_created() {
    let mut handle = opened(false);
    assert_eq!(handle.release(), Step::Return(Ok(())));
    assert!(!handle.is_open());
}

#[test]
fn release_keeps_a_file_that_was_written() {
    let mut handle = opened(true);
    assert_eq!(handle.write::<()>(Ok(4)), Ok(4));
    assert!(handle.written_to());
    assert_eq!(handle.release(), Step::Return(Ok(())));
    assert!(!handle.is_open());
}

#[test]
fn a_write_of_no_bytes_counts_as_a_write() {
    let mut handle = opened(true);
    assert_eq!(handle.write::<()>(Ok(0)), Ok(0));
    assert!(handle.written_to());
}

#[test]
fn a_failed_write_does_not_protect_the_file() {
    let mut handle = opened(true);
    assert_eq!(handle.write(Err("disk full")), Err("disk full"));
    assert!(!handle.written_to());
    assert_eq!(handle.write_vectored(Err("disk full")), Err("disk full"));
    assert!(!handle.written_to());
    assert_eq!(handle.flush(Err("disk full")), Err("disk full"));
    assert!(!handle.written_to());
    assert_eq!(handle.release(), Step::Perform(Action::Remove));
}

#[test]
fn write_vectored_marks_the_handle() {
    let mut handle = opened(true);
    assert_eq!(handle.write_vectored::<()>(Ok(9)), Ok(9));
    assert!(handle.written_to());
    assert_eq!(handle.release(), Step::Return(Ok(())));
}

#[test]
fn flush_marks_the_handle() {
    let mut handle = opened(true);
    assert_eq!(handle.flush::<()>(Ok(())), Ok(()));
    assert!(handle.written_to());
    assert_eq!(handle.release(), Step::Return(Ok(())));
}

#[test]
fn the_mark_never_goes_back() {
    let mut handle = opened(true);
    assert_eq!(handle.write::<()>(Ok(1)), Ok(1));
    assert_eq!(handle.write(Err(5)), Err(5));
    assert_eq!(handle.flush(Err(5)), Err(5));
    handle.trunc();
    handle.trunc_to_cursor();
    assert!(handle.written_to());
    assert!(handle.created());
}

#[test]
fn file_mut_reaches_the_file_and_nothing_else() {
    let mut handle = opened(true);
    *handle.file_mut() = 11;
    assert_eq!(*handle.file(), 11);
    assert!(handle.created());
    assert!(!handle.written_to());
    assert_eq!(*handle.path(), "/tmp/dropfile");
}
