//! What can go wrong.

use crate::file::File;
use vstd::prelude::*;

verus! {

/// The codes of a backend failure that the library tells apart.
#[derive(Clone, Copy, Debug, PartialEq, Eq, Structural)]
pub enum ErrorCode {
    /// The branch that `HEAD` names has no commit yet.
    UnbornBranch,
    /// A callback asked the traversal to stop.
    User,
    /// Any other failure.
    Other,
}

/// A failure reported by the backend, passed through as it came.
#[derive(Debug)]
pub struct Git2Error {
    pub code: ErrorCode,
    pub message: String,
}

impl Git2Error {
    pub fn new(code: ErrorCode, message: String) -> (r: Self)
        ensures
            r.code == code,
            r.message == message,
    {
        Git2Error { code, message }
    }

    pub fn code(&self) -> (r: ErrorCode)
        ensures
            r == self.code,
    {
        self.code
    }

    pub fn message(&self) -> (r: &str)
        ensures
            r@ == self.message@,
    {
        self.message.as_str()
    }
}

#[verifier::external_type_specification]
#[verifier::external_body]
pub struct ExIoError(std::io::Error);

#[derive(Debug)]
pub enum Error {
    /// The backend failed.
    Git2(Git2Error),
    /// The file system failed.
    Io(std::io::Error),
    /// The operation needs the file's path, and the file has none.
    MissingPath(File),
    /// The operation needs the file's content id, and the file has none.
    MissingId(File),
    /// The metadata of the file could not be read.
    GetFileMetadata(std::io::Error, File),
    /// Detail was asked for a path that is not among the changes.
    PathNotFound(String),
    /// There is nothing to undo.
    UndoEmpty,
    /// There is nothing to redo.
    RedoEmpty,
}

impl From<Git2Error> for Error {
    fn from(err: Git2Error) -> (r: Error) {
        Error::Git2(err)
    }
}

impl vstd::std_specs::convert::FromSpecImpl<Git2Error> for Error {
    open spec fn obeys_from_spec() -> bool {
        true
    }

    open spec fn from_spec(err: Git2Error) -> Error {
        Error::Git2(err)
    }
}

impl From<std::io::Error> for Error {
    fn from(err: std::io::Error) -> (r: Error) {
        Error::Io(err)
    }
}

impl vstd::std_specs::convert::FromSpecImpl<std::io::Error> for Error {
    open spec fn obeys_from_spec() -> bool {
        true
    }

    open spec fn from_spec(err: std::io::Error) -> Error {
        Error::Io(err)
    }
}

} // verus!
