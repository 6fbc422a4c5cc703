//! Expands annotations that name a file into documentation annotations that
//! carry the contents of that file.
//!
//! An item may carry `#[doc(file = "relative/path.md")]` or
//! `#[doc_file = "relative/path.md"]`. [`extract`] finds the path in such an
//! annotation, [`path`] resolves it against the directory of the source file,
//! and [`expand`] appends the contents of the file to the annotations of the
//! item, or turns what went wrong into one diagnostic. The library never
//! touches the file system itself: the caller hands in the function that
//! reads.

pub mod ast;
pub mod error;
pub mod expand;
pub mod extract;
pub mod path;
pub mod span;
