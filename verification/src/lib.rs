//! Inspection of uncommitted changes in a git working tree, line-level detail
//! for one path, and staging with undo and redo.
//!
//! The library holds the decisions: how a change record is classified, how one
//! path's lines are picked out of a traversal, and which step the staging
//! index is asked for next. Whoever owns the repository handle runs those
//! steps and hands the answers back as plain values.

pub mod diff;
pub mod error;
pub mod extract;
pub mod file;
pub mod history;
pub mod laws;
pub mod path;
pub mod repo;

pub use diff::{Details, DiffDelta, DiffLineType, Line, Meta, Status};
pub use error::{Error, ErrorCode, Git2Error};
pub use extract::{extract, DiffEvent, Extractor};
pub use file::{DiffFile, File, Oid};
pub use file::File as RepoFile;
pub use repo::{Change, DiffOptions, Internal, Repo, Step};
