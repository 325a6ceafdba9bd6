//! Change records and their classification.

use crate::file::{text_view, DiffFile, File};
use vstd::prelude::*;
use vstd::slice::slice_to_vec;

verus! {

/// The status tag of a raw change record.
#[derive(Clone, Copy, Debug, PartialEq, Eq, Structural)]
pub enum Status {
    Unmodified,
    Added,
    Deleted,
    Modified,
    Renamed,
    Copied,
    Ignored,
    Untracked,
    Typechange,
    Unreadable,
    Conflicted,
}

impl Status {
    /// How many sides a record with this tag must offer. `Unmodified` records
    /// are filtered out before they reach the library, so no count fits them.
    pub open spec fn spec_sides(self) -> Option<u16> {
        match self {
            Status::Added | Status::Deleted | Status::Ignored | Status::Untracked
            | Status::Unreadable => Some(1u16),
            Status::Modified | Status::Renamed | Status::Copied | Status::Typechange
            | Status::Conflicted => Some(2u16),
            Status::Unmodified => None,
        }
    }

    #[verifier::when_used_as_spec(spec_sides)]
    pub fn sides(self) -> (r: Option<u16>)
        ensures
            r == self.spec_sides(),
    {
        match self {
            Status::Added | Status::Deleted | Status::Ignored | Status::Untracked
            | Status::Unreadable => Some(1),
            Status::Modified | Status::Renamed | Status::Copied | Status::Typechange
            | Status::Conflicted => Some(2),
            Status::Unmodified => None,
        }
    }
}

/// A raw change record: a status tag, the number of sides it offers, and the
/// two sides.
#[derive(Debug)]
pub struct DiffDelta {
    pub status: Status,
    pub nfiles: u16,
    pub old_file: DiffFile,
    pub new_file: DiffFile,
}

impl DiffDelta {
    /// The record can be classified: it is not `Unmodified`, and it offers as
    /// many sides as its tag asks for.
    pub open spec fn classifiable(self) -> bool {
        self.status.spec_sides() == Some(self.nfiles)
    }

    pub fn is_classifiable(&self) -> (r: bool)
        ensures
            r == self.classifiable(),
    {
        match self.status.sides() {
            Some(n) => n == self.nfiles,
            None => false,
        }
    }
}

/// How one path differs between the baseline and the working state.
#[derive(Clone, Debug)]
pub enum Meta {
    Added(File),
    Deleted(File),
    Modified { old: File, new: File },
    Renamed { old: File, new: File },
    Copied { old: File, new: File },
    Ignored(File),
    Untracked(File),
    Typechange { old: File, new: File },
    Unreadable(File),
    Conflicted { old: File, new: File },
}

impl Meta {
    /// The tag of the classification.
    pub open spec fn spec_status(&self) -> Status {
        match *self {
            Meta::Added(_) => Status::Added,
            Meta::Deleted(_) => Status::Deleted,
            Meta::Modified { .. } => Status::Modified,
            Meta::Renamed { .. } => Status::Renamed,
            Meta::Copied { .. } => Status::Copied,
            Meta::Ignored(_) => Status::Ignored,
            Meta::Untracked(_) => Status::Untracked,
            Meta::Typechange { .. } => Status::Typechange,
            Meta::Unreadable(_) => Status::Unreadable,
            Meta::Conflicted { .. } => Status::Conflicted,
        }
    }

    /// The side that stands for the path: the new side where there are two,
    /// else the only one.
    pub open spec fn spec_file(&self) -> File {
        match *self {
            Meta::Added(f) | Meta::Deleted(f) | Meta::Ignored(f) | Meta::Untracked(f)
            | Meta::Unreadable(f) => f,
            Meta::Modified { new, .. } | Meta::Renamed { new, .. } | Meta::Copied { new, .. }
            | Meta::Typechange { new, .. } | Meta::Conflicted { new, .. } => new,
        }
    }

    /// The classification of a record: the variant of its tag, holding the
    /// side or sides that the tag asks for. A deletion holds the old side,
    /// every other one-sided variant the new side.
    pub open spec fn spec_from_git2(from: DiffDelta) -> Meta {
        let old = File::spec_from_diff_file(from.old_file);
        let new = File::spec_from_diff_file(from.new_file);
        match from.status {
            Status::Deleted => Meta::Deleted(old),
            Status::Modified => Meta::Modified { old, new },
            Status::Renamed => Meta::Renamed { old, new },
            Status::Copied => Meta::Copied { old, new },
            Status::Ignored => Meta::Ignored(new),
            Status::Untracked => Meta::Untracked(new),
            Status::Typechange => Meta::Typechange { old, new },
            Status::Unreadable => Meta::Unreadable(new),
            Status::Conflicted => Meta::Conflicted { old, new },
            Status::Added | Status::Unmodified => Meta::Added(new),
        }
    }

    /// The file that stands for the path of a classified record is made of
    /// the record's new side, or of its old side for a deletion; and the
    /// classification carries the record's tag.
    pub proof fn lemma_file_of_record(from: DiffDelta)
        requires
            from.classifiable(),
        ensures
            Meta::spec_from_git2(from).spec_status() == from.status,
            Meta::spec_from_git2(from).spec_file() == File::spec_from_diff_file(
                if from.status == Status::Deleted {
                    from.old_file
                } else {
                    from.new_file
                },
            ),
            Meta::spec_from_git2(from).spec_file()@.rel_path == text_view(
                if from.status == Status::Deleted {
                    from.old_file.path
                } else {
                    from.new_file.path
                },
            ),
    {
        File::lemma_from_diff_file(from.old_file);
        File::lemma_from_diff_file(from.new_file);
    }

    /// No classification carries the tag `Unmodified`.
    pub proof fn lemma_never_unmodified(self)
        ensures
            self.spec_status() != Status::Unmodified,
    {
    }

    /// Classifies a raw change record.
    pub fn from_git2(from: &DiffDelta) -> (r: Meta)
        requires
            from.classifiable(),
        ensures
            r == Meta::spec_from_git2(*from),
            r.spec_status() == from.status,
            r.spec_status() != Status::Unmodified,
    {
        match from.status {
            Status::Added => Meta::Added(Self::get_new_file_only(from)),
            Status::Deleted => Meta::Deleted(Self::get_old_file_only(from)),
            Status::Modified => {
                let (old, new) = Self::get_both_files(from);
                Meta::Modified { old, new }
            },
            Status::Renamed => {
                let (old, new) = Self::get_both_files(from);
                Meta::Renamed { old, new }
            },
            Status::Copied => {
                let (old, new) = Self::get_both_files(from);
                Meta::Copied { old, new }
            },
            Status::Ignored => Meta::Ignored(Self::get_new_file_only(from)),
            Status::Untracked => Meta::Untracked(Self::get_new_file_only(from)),
            Status::Typechange => {
                let (old, new) = Self::get_both_files(from);
                Meta::Typechange { old, new }
            },
            Status::Unreadable => Meta::Unreadable(Self::get_new_file_only(from)),
            Status::Unmodified => {
                proof {
                    assert(false);
                }
                Meta::Added(Self::get_new_file_only(from))
            },
            Status::Conflicted => {
                let (old, new) = Self::get_both_files(from);
                Meta::Conflicted { old, new }
            },
        }
    }

    fn get_new_file_only(from: &DiffDelta) -> (r: File)
        requires
            from.nfiles == 1,
        ensures
            r == File::spec_from_diff_file(from.new_file),
    {
        File::from_diff_file(&from.new_file)
    }

    fn get_old_file_only(from: &DiffDelta) -> (r: File)
        requires
            from.nfiles == 1,
        ensures
            r == File::spec_from_diff_file(from.old_file),
    {
        File::from_diff_file(&from.old_file)
    }

    fn get_both_files(from: &DiffDelta) -> (r: (File, File))
        requires
            from.nfiles == 2,
        ensures
            r.0 == File::spec_from_diff_file(from.old_file),
            r.1 == File::spec_from_diff_file(from.new_file),
    {
        (File::from_diff_file(&from.old_file), File::from_diff_file(&from.new_file))
    }

    #[verifier::when_used_as_spec(spec_status)]
    pub fn status(&self) -> (r: Status)
        ensures
            r == self.spec_status(),
            r != Status::Unmodified,
    {
        match self {
            Meta::Added(_) => Status::Added,
            Meta::Deleted(_) => Status::Deleted,
            Meta::Modified { .. } => Status::Modified,
            Meta::Renamed { .. } => Status::Renamed,
            Meta::Copied { .. } => Status::Copied,
            Meta::Ignored(_) => Status::Ignored,
            Meta::Untracked(_) => Status::Untracked,
            Meta::Typechange { .. } => Status::Typechange,
            Meta::Unreadable(_) => Status::Unreadable,
            Meta::Conflicted { .. } => Status::Conflicted,
        }
    }

    pub fn file(&self) -> (r: &File)
        ensures
            *r == self.spec_file(),
    {
        match self {
            Meta::Added(f) => f,
            Meta::Deleted(f) => f,
            Meta::Ignored(f) => f,
            Meta::Untracked(f) => f,
            Meta::Unreadable(f) => f,
            Meta::Modified { new, .. } => new,
            Meta::Renamed { new, .. } => new,
            Meta::Copied { new, .. } => new,
            Meta::Typechange { new, .. } => new,
            Meta::Conflicted { new, .. } => new,
        }
    }
}

/// Where a line of a diff comes from.
#[derive(Clone, Copy, Debug, PartialEq, Eq, Structural)]
pub enum DiffLineType {
    Context,
    Addition,
    Deletion,
    ContextEOFNL,
    AddEOFNL,
    DeleteEOFNL,
    FileHeader,
    HunkHeader,
    Binary,
}

/// One line of a diff.
#[derive(Clone, Debug)]
pub struct Line {
    /// Line number in the old file, none for an added line.
    old_lineno: Option<u32>,
    /// Line number in the new file, none for a deleted line.
    new_lineno: Option<u32>,
    /// Number of newline characters in the content.
    num_lines: u32,
    /// Offset of the content in the file it was taken from.
    content_offset: i64,
    content: Vec<u8>,
    origin: DiffLineType,
}

/// What a `Line` holds.
pub ghost struct LineView {
    pub old_lineno: Option<u32>,
    pub new_lineno: Option<u32>,
    pub num_lines: u32,
    pub content_offset: i64,
    pub content: Seq<u8>,
    pub origin: DiffLineType,
}

impl View for Line {
    type V = LineView;

    closed spec fn view(&self) -> LineView {
        LineView {
            old_lineno: self.old_lineno,
            new_lineno: self.new_lineno,
            num_lines: self.num_lines,
            content_offset: self.content_offset,
            content: self.content@,
            origin: self.origin,
        }
    }
}

impl Line {
    /// A line from the values that the backend reports of it; the content is
    /// copied.
    pub fn from_git2(
        old_lineno: Option<u32>,
        new_lineno: Option<u32>,
        num_lines: u32,
        content_offset: i64,
        content: &[u8],
        origin: DiffLineType,
    ) -> (r: Line)
        ensures
            r@ == (LineView {
                old_lineno,
                new_lineno,
                num_lines,
                content_offset,
                content: content@,
                origin,
            }),
    {
        Line {
            old_lineno,
            new_lineno,
            num_lines,
            content_offset,
            content: slice_to_vec(content),
            origin,
        }
    }

    pub fn old_lineno(&self) -> (r: Option<u32>)
        ensures
            r == self@.old_lineno,
    {
        self.old_lineno
    }

    pub fn new_lineno(&self) -> (r: Option<u32>)
        ensures
            r == self@.new_lineno,
    {
        self.new_lineno
    }

    pub fn num_lines(&self) -> (r: u32)
        ensures
            r == self@.num_lines,
    {
        self.num_lines
    }

    pub fn content_offset(&self) -> (r: i64)
        ensures
            r == self@.content_offset,
    {
        self.content_offset
    }

    pub fn content(&self) -> (r: &[u8])
        ensures
            r@ == self@.content,
    {
        self.content.as_slice()
    }

    pub fn origin(&self) -> (r: DiffLineType)
        ensures
            r == self@.origin,
    {
        self.origin
    }
}

/// The classification of one path and the lines of its diff, in the order in
/// which the traversal gave them.
#[derive(Clone, Debug)]
pub struct Details {
    meta: Meta,
    lines: Vec<Line>,
}

impl Details {
    pub closed spec fn spec_meta(&self) -> Meta {
        self.meta
    }

    pub closed spec fn spec_lines(&self) -> Seq<Line> {
        self.lines@
    }

    pub fn new(meta: Meta, lines: Vec<Line>) -> (r: Self)
        ensures
            r.spec_meta() == meta,
            r.spec_lines() == lines@,
    {
        Self { meta, lines }
    }

    pub fn meta(&self) -> (r: &Meta)
        ensures
            *r == self.spec_meta(),
    {
        &self.meta
    }

    pub fn lines(&self) -> (r: &Vec<Line>)
        ensures
            r@ == self.spec_lines(),
    {
        &self.lines
    }
}

} // verus!
