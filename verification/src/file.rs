//! One side of a changed path.

use crate::error::Error;
use crate::path::{join, path_join};
use crate::repo::{Internal, Repo};
use vstd::prelude::*;

verus! {

/// A content id: the twenty bytes of a SHA-1 object name.
#[derive(Clone, Copy, Debug)]
pub struct Oid {
    raw: [u8; 20],
}

impl View for Oid {
    type V = Seq<u8>;

    closed spec fn view(&self) -> Seq<u8> {
        self.raw@
    }
}

/// Whether every byte of the id is zero, which is how the backend writes
/// "no content".
pub open spec fn all_zero(bytes: Seq<u8>) -> bool {
    forall|i: int| 0 <= i < bytes.len() ==> bytes[i] == 0
}

impl Oid {
    pub fn from_bytes(raw: [u8; 20]) -> (r: Oid)
        ensures
            r@ == raw@,
    {
        Oid { raw }
    }

    pub fn as_bytes(&self) -> (r: [u8; 20])
        ensures
            r@ == self@,
    {
        self.raw
    }

    pub fn is_zero(&self) -> (r: bool)
        ensures
            r == all_zero(self@),
    {
        let mut i: usize = 0;
        while i < 20
            invariant
                i <= 20,
                forall|j: int| 0 <= j < i ==> self.raw@[j] == 0,
            decreases 20 - i,
        {
            if self.raw[i] != 0 {
                return false;
            }
            i = i + 1;
        }
        true
    }
}

/// One side of a change record as the backend reports it: an id that is all
/// zeros where the side has no content, the path if there is one, and the size
/// in bytes.
#[derive(Debug)]
pub struct DiffFile {
    pub id: Oid,
    pub path: Option<String>,
    pub size: u64,
}

/// One side of a changed path: its content id, its path relative to the
/// working tree, and its size in bytes.
#[derive(Debug)]
pub struct File {
    id: Option<Oid>,
    rel_path: Option<String>,
    size: u64,
}

/// What a `File` holds.
pub ghost struct FileView {
    pub id: Option<Seq<u8>>,
    pub rel_path: Option<Seq<char>>,
    pub size: u64,
}

pub open spec fn id_view(id: Option<Oid>) -> Option<Seq<u8>> {
    match id {
        Some(oid) => Some(oid@),
        None => None,
    }
}

pub open spec fn text_view(text: Option<String>) -> Option<Seq<char>> {
    match text {
        Some(s) => Some(s@),
        None => None,
    }
}

impl View for File {
    type V = FileView;

    closed spec fn view(&self) -> FileView {
        FileView { id: id_view(self.id), rel_path: text_view(self.rel_path), size: self.size }
    }
}

impl Clone for File {
    fn clone(&self) -> (r: Self)
        ensures
            r == *self,
    {
        let rel_path = match &self.rel_path {
            Some(p) => Some(p.clone()),
            None => None,
        };
        File { id: self.id, rel_path, size: self.size }
    }
}

impl File {
    /// The file that a raw side stands for: the same path and size, and the
    /// id unless it is all zeros.
    pub closed spec fn spec_from_diff_file(from: DiffFile) -> File {
        File {
            id: if all_zero(from.id@) {
                None
            } else {
                Some(from.id)
            },
            rel_path: from.path,
            size: from.size,
        }
    }

    /// What `spec_from_diff_file` holds.
    pub proof fn lemma_from_diff_file(from: DiffFile)
        ensures
            Self::spec_from_diff_file(from)@ == (FileView {
                id: if all_zero(from.id@) {
                    None
                } else {
                    Some(from.id@)
                },
                rel_path: text_view(from.path),
                size: from.size,
            }),
    {
    }

    pub fn new(id: Option<Oid>, rel_path: Option<String>, size: u64) -> (r: Self)
        ensures
            r@ == (FileView { id: id_view(id), rel_path: text_view(rel_path), size }),
    {
        Self { id, rel_path, size }
    }

    pub fn from_diff_file(from: &DiffFile) -> (r: Self)
        ensures
            r == Self::spec_from_diff_file(*from),
            r@.id == (if all_zero(from.id@) {
                None
            } else {
                Some(from.id@)
            }),
            r@.rel_path == text_view(from.path),
            r@.size == from.size,
    {
        let id = if from.id.is_zero() {
            None
        } else {
            Some(from.id)
        };
        let rel_path = match &from.path {
            Some(p) => Some(p.clone()),
            None => None,
        };
        Self { id, rel_path, size: from.size }
    }

    pub fn id(&self) -> (r: Option<Oid>)
        ensures
            id_view(r) == self@.id,
    {
        self.id
    }

    pub fn size(&self) -> (r: u64)
        ensures
            r == self@.size,
    {
        self.size
    }

    pub fn rel_path(&self) -> (r: Option<&str>)
        ensures
            r is Some == self@.rel_path is Some,
            r is Some ==> r->0@ == self@.rel_path->0,
    {
        match &self.rel_path {
            Some(p) => Some(p.as_str()),
            None => None,
        }
    }

    /// Where the file lies on disk: its path taken below the working tree of
    /// the repository, if it has a path.
    pub fn abs_path(&self, repo: &Repo) -> (r: Option<String>)
        ensures
            r is Some == self@.rel_path is Some,
            r is Some ==> r->0@ == path_join(
                Internal::spec_root(repo.spec_git_dir()),
                self@.rel_path->0,
            ),
    {
        self.abs_path_int(repo.internal())
    }

    pub(crate) fn abs_path_int(&self, repo: &Internal) -> (r: Option<String>)
        ensures
            r is Some == self@.rel_path is Some,
            r is Some ==> r->0@ == path_join(
                Internal::spec_root(repo.spec_git_dir()),
                self@.rel_path->0,
            ),
    {
        match &self.rel_path {
            Some(rel) => {
                let root = repo.path();
                Some(join(root.as_str(), rel.as_str()))
            },
            None => None,
        }
    }

    /// The content id, or `MissingId` with a copy of the file where it has none.
    pub fn id_required(&self) -> (r: Result<Oid, Error>)
        ensures
            self@.id is Some ==> r is Ok && r->Ok_0@ == self@.id->0,
            self@.id is None ==> r == Err::<Oid, Error>(Error::MissingId(*self)),
    {
        match self.id {
            Some(id) => Ok(id),
            None => Err(Error::MissingId(self.clone())),
        }
    }

    /// The path as the file holds it, or `MissingPath` with the file where it
    /// has none.
    pub closed spec fn spec_path_required(&self) -> Result<String, Error> {
        match self.rel_path {
            Some(p) => Ok(p),
            None => Err(Error::MissingPath(*self)),
        }
    }

    /// What `spec_path_required` holds.
    pub proof fn lemma_path_required(&self)
        ensures
            self@.rel_path is Some ==> self.spec_path_required() is Ok
                && self.spec_path_required()->Ok_0@ == self@.rel_path->0,
            self@.rel_path is None ==> self.spec_path_required() == Err::<String, Error>(
                Error::MissingPath(*self),
            ),
    {
    }

    /// A copy of the path, or `MissingPath` with a copy of the file where it
    /// has none.
    pub fn path_required(&self) -> (r: Result<String, Error>)
        ensures
            r == self.spec_path_required(),
    {
        match &self.rel_path {
            Some(p) => Ok(p.clone()),
            None => Err(Error::MissingPath(self.clone())),
        }
    }

    /// The path, or `MissingPath` with a copy of the file where it has none.
    pub fn rel_path_required(&self) -> (r: Result<&str, Error>)
        ensures
            self@.rel_path is Some ==> r is Ok && r->Ok_0@ == self@.rel_path->0,
            self@.rel_path is None ==> r == Err::<&str, Error>(Error::MissingPath(*self)),
    {
        match &self.rel_path {
            Some(p) => Ok(p.as_str()),
            None => Err(Error::MissingPath(self.clone())),
        }
    }
}

} // verus!
