//! A guarded file handle: a handle that removes the file it created unless
//! something was written through it.
//!
//! A caller who creates a file, sets out to fill it and gives up half way
//! should leave no empty file behind; a caller who did write keeps the file.
//! `DropFile` holds the open file together with two marks, whether opening
//! created the file and whether a write has succeeded, and decides from them
//! what becomes of the file when the handle goes.
//!
//! The library makes every decision and no call on the file system. Opening
//! is split in two: `DropFile::open_mode` says how the file is to be
//! opened, and `DropFile::open` makes the handle from what came of it. Every
//! later operation returns a `Step`: a call for the caller to make, whose
//! answer goes to `Action::next` for the step after it, or the result of the
//! operation. Reads, writes and seeks go straight to the file, through
//! `DropFile::file_mut`; the outcome of a write or a flush is then shown to
//! the handle, which marks itself as written to if it succeeded.
//!
//! What an operation comes to, call by call, is stated against a small model
//! of a file in `model` and proved in `laws`.

pub mod error;
pub mod handle;
pub mod laws;
pub mod model;
pub mod plan;

pub use error::Error;
pub use handle::{DropFile, DropFileView, OpenFailure, OpenMode};
pub use plan::{Action, Reply, Step};
