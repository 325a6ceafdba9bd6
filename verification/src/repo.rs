//! The repository facade: queries over what the backend reports, and staging
//! with undo and redo.

use crate::diff::{DiffDelta, Meta, Status};
use crate::error::{Error, ErrorCode, Git2Error};
use crate::extract::{scan_start, Extractor};
use crate::file::File;
use crate::history::{
    history_can_redo, history_can_undo, history_edit, history_entries, history_head, history_new,
    history_redo, history_undo,
};
use crate::path::{ends_with, parent, path_ends_with, path_parent};
use vstd::prelude::*;
use vstd::string::StringExecFns;

verus! {

/// What the staging index is asked for next.
#[derive(Debug)]
pub enum Step {
    /// Ask whether the ignore rules match the path, and come back with the
    /// answer.
    CheckIgnore(String),
    /// Add the path to the index.
    AddPath(String),
    /// Remove the path from the index.
    RemovePath(String),
    /// Nothing is left to do.
    Done,
}

impl Step {
    /// The step that follows, once the backend has carried this one out. After
    /// the question about the ignore rules, an ignored path is left alone and
    /// any other is added; `ignored` is read for that step only. After every
    /// other step nothing is left to do.
    pub open spec fn spec_resume(self, ignored: bool) -> Step {
        match self {
            Step::CheckIgnore(path) => if ignored {
                Step::Done
            } else {
                Step::AddPath(path)
            },
            _ => Step::Done,
        }
    }

    pub fn resume(self, ignored: bool) -> (r: Step)
        ensures
            r == self.spec_resume(ignored),
    {
        match self {
            Step::CheckIgnore(path) => if ignored {
                Step::Done
            } else {
                Step::AddPath(path)
            },
            _ => Step::Done,
        }
    }

    /// The paths in the index after this step and those that follow it, where
    /// `staged` are the paths in it before and `ignored` says whether the
    /// ignore rules match the step's path.
    pub open spec fn staged_after(self, ignored: bool, staged: Set<Seq<char>>) -> Set<Seq<char>> {
        match self {
            Step::CheckIgnore(path) => if ignored {
                staged
            } else {
                staged.insert(path@)
            },
            Step::AddPath(path) => staged.insert(path@),
            Step::RemovePath(path) => staged.remove(path@),
            Step::Done => staged,
        }
    }
}

/// Whether `metas` are the classifications of `records`, one for one and in
/// order. None of them is `Unmodified`.
pub open spec fn classifies(records: Seq<DiffDelta>, metas: Seq<Meta>) -> bool {
    &&& metas.len() == records.len()
    &&& forall|i: int|
        0 <= i < records.len() ==> (#[trigger] metas[i]) == Meta::spec_from_git2(records[i])
            && metas[i].spec_status() == records[i].status && metas[i].spec_status()
            != Status::Unmodified
}

/// A staging command. Each is the other's inverse on the same file.
#[derive(Clone, Debug)]
pub enum Change {
    StageFile(File),
    UnstageFile(File),
}

/// What the library holds of the backend besides the history, so that a
/// command can be run on it while the history is borrowed.
#[derive(Debug)]
pub struct Internal {
    git_dir: String,
}

/// What a traversal is to include.
#[derive(Debug)]
pub struct DiffOptions {
    pub include_untracked: bool,
    pub include_typechange: bool,
    pub include_unmodified: bool,
    pub include_unreadable: bool,
    pub include_ignored: bool,
    /// The one path to which the traversal is held, if any.
    pub pathspec: Option<String>,
}

impl Internal {
    /// The directory of the working tree of a repository whose own directory
    /// is `git_dir`: the directory above a `.git`, and else the directory
    /// itself, which is then a bare repository.
    pub open spec fn spec_root(git_dir: Seq<char>) -> Seq<char> {
        if path_ends_with(git_dir, ".git"@) {
            match path_parent(git_dir) {
                Some(above) => above,
                None => git_dir,
            }
        } else {
            git_dir
        }
    }

    pub closed spec fn spec_git_dir(&self) -> Seq<char> {
        self.git_dir@
    }

    /// Takes what opening the repository gave: its directory, or the failure.
    pub fn open(opened: Result<String, Git2Error>) -> (r: Result<Self, Error>)
        ensures
            match opened {
                Ok(git_dir) => r is Ok && r->Ok_0.spec_git_dir() == git_dir@,
                Err(err) => r == Err::<Self, Error>(Error::Git2(err)),
            },
    {
        match opened {
            Ok(git_dir) => Ok(Self { git_dir }),
            Err(err) => Err(Error::Git2(err)),
        }
    }

    pub fn path(&self) -> (r: String)
        ensures
            r@ == Self::spec_root(self.spec_git_dir()),
    {
        if ends_with(self.git_dir.as_str(), ".git") {
            match parent(self.git_dir.as_str()) {
                Some(above) => above,
                None => self.git_dir.clone(),
            }
        } else {
            self.git_dir.clone()
        }
    }

    /// The baseline to compare against, from what resolving `HEAD` gave. A
    /// branch without a commit is no failure: there is no baseline then, and
    /// the comparison is made against an empty tree.
    pub fn head<T>(resolved: Result<T, Git2Error>) -> (r: Result<Option<T>, Error>)
        ensures
            match resolved {
                Ok(tree) => r == Ok::<Option<T>, Error>(Some(tree)),
                Err(err) => if err.code == ErrorCode::UnbornBranch {
                    r == Ok::<Option<T>, Error>(None)
                } else {
                    r == Err::<Option<T>, Error>(Error::Git2(err))
                },
            },
    {
        match resolved {
            Ok(tree) => Ok(Some(tree)),
            Err(err) => match err.code {
                ErrorCode::UnbornBranch => Ok(None),
                _ => Err(Error::Git2(err)),
            },
        }
    }

    /// What a traversal of the uncommitted changes includes: everything but
    /// unmodified paths, and no path filter.
    pub fn uncommitted_opts() -> (r: DiffOptions)
        ensures
            r.include_untracked,
            r.include_typechange,
            !r.include_unmodified,
            r.include_unreadable,
            r.include_ignored,
            r.pathspec is None,
    {
        DiffOptions {
            include_untracked: true,
            include_typechange: true,
            include_unmodified: false,
            include_unreadable: true,
            include_ignored: true,
            pathspec: None,
        }
    }

    /// The classifications of the records that a traversal of the uncommitted
    /// changes gave, in its order, or its failure.
    pub fn uncommitted_files(&self, deltas: Result<Vec<DiffDelta>, Git2Error>) -> (r: Result<
        Vec<Meta>,
        Error,
    >)
        requires
            deltas is Ok ==> forall|i: int|
                0 <= i < deltas->Ok_0.len() ==> (#[trigger] deltas->Ok_0[i]).classifiable(),
        ensures
            match deltas {
                Ok(records) => r is Ok && classifies(records@, r->Ok_0@),
                Err(err) => r == Err::<Vec<Meta>, Error>(Error::Git2(err)),
            },
    {
        match deltas {
            Ok(records) => {
                let mut metas: Vec<Meta> = Vec::new();
                let mut i: usize = 0;
                while i < records.len()
                    invariant
                        i <= records.len(),
                        classifies(records@.take(i as int), metas@),
                        forall|j: int|
                            0 <= j < records.len() ==> (#[trigger] records[j]).classifiable(),
                    decreases records.len() - i,
                {
                    metas.push(Meta::from_git2(&records[i]));
                    i = i + 1;
                }
                proof {
                    assert(records@.take(i as int) =~= records@);
                }
                Ok(metas)
            },
            Err(err) => Err(Error::Git2(err)),
        }
    }

    /// What a traversal for the diff of one path includes: what a traversal of
    /// the uncommitted changes does, held to that path.
    pub fn detail_opts(path: &str) -> (r: DiffOptions)
        ensures
            r.include_untracked,
            r.include_typechange,
            !r.include_unmodified,
            r.include_unreadable,
            r.include_ignored,
            r.pathspec is Some && r.pathspec->0@ == path@,
    {
        let mut opts = Self::uncommitted_opts();
        opts.pathspec = Some(path.to_owned());
        opts
    }

    /// The listener for the diff of the path that a classification stands for,
    /// or `MissingPath` where its file has no path.
    pub fn diff_details(&self, meta: &Meta) -> (r: Result<Extractor, Error>)
        ensures
            match meta.spec_file().spec_path_required() {
                Ok(path) => r is Ok && r->Ok_0.spec_path() == path@ && r->Ok_0.gathered()
                    == scan_start(),
                Err(err) => r is Err && r->Err_0 == err,
            },
    {
        match meta.file().path_required() {
            Ok(path) => Ok(Self::_diff_details(path.as_str())),
            Err(err) => Err(err),
        }
    }

    fn _diff_details(path: &str) -> (r: Extractor)
        ensures
            r.spec_path() == path@,
            r.gathered() == scan_start(),
    {
        Extractor::new(path)
    }

    /// The first step of staging a file: the question about the ignore rules
    /// for its path, or `MissingPath` where it has none.
    pub open spec fn spec_stage_file(file: File) -> Result<Step, Error> {
        match file.spec_path_required() {
            Ok(path) => Ok(Step::CheckIgnore(path)),
            Err(err) => Err(err),
        }
    }

    /// The first and only step of unstaging a file: the removal of its path,
    /// whatever the ignore rules say, or `MissingPath` where it has none.
    pub open spec fn spec_unstage_file(file: File) -> Result<Step, Error> {
        match file.spec_path_required() {
            Ok(path) => Ok(Step::RemovePath(path)),
            Err(err) => Err(err),
        }
    }

    pub fn stage_file(&self, file: &File) -> (r: Result<Step, Error>)
        ensures
            r == Self::spec_stage_file(*file),
    {
        match file.path_required() {
            Ok(path) => Ok(Step::CheckIgnore(path)),
            Err(err) => Err(err),
        }
    }

    pub fn unstage_file(&self, file: &File) -> (r: Result<Step, Error>)
        ensures
            r == Self::spec_unstage_file(*file),
    {
        match file.path_required() {
            Ok(path) => Ok(Step::RemovePath(path)),
            Err(err) => Err(err),
        }
    }
}

impl Change {
    /// The file that the command is about.
    pub open spec fn spec_file(&self) -> File {
        match *self {
            Change::StageFile(f) => f,
            Change::UnstageFile(f) => f,
        }
    }

    /// The command that takes this one back.
    pub open spec fn spec_inverse(&self) -> Change {
        match *self {
            Change::StageFile(f) => Change::UnstageFile(f),
            Change::UnstageFile(f) => Change::StageFile(f),
        }
    }

    /// The first step of the command's forward action.
    pub open spec fn spec_apply(&self) -> Result<Step, Error> {
        match *self {
            Change::StageFile(f) => Internal::spec_stage_file(f),
            Change::UnstageFile(f) => Internal::spec_unstage_file(f),
        }
    }

    /// The first step of the command's inverse action.
    pub open spec fn spec_undo(&self) -> Result<Step, Error> {
        match *self {
            Change::StageFile(f) => Internal::spec_unstage_file(f),
            Change::UnstageFile(f) => Internal::spec_stage_file(f),
        }
    }
}

impl Change {
    /// The text of the command: its name, and in brackets the path of its
    /// file, or nothing where the file has none.
    pub open spec fn spec_describe(&self) -> Seq<char> {
        let name = match *self {
            Change::StageFile(_) => "StageFile("@,
            Change::UnstageFile(_) => "UnstageFile("@,
        };
        let path = match self.spec_file()@.rel_path {
            Some(p) => p,
            None => Seq::<char>::empty(),
        };
        name + path + ")"@
    }

    /// The file that the command is about.
    pub fn file(&self) -> (r: &File)
        ensures
            *r == self.spec_file(),
    {
        match self {
            Change::StageFile(f) => f,
            Change::UnstageFile(f) => f,
        }
    }

    /// The text of the command, for a log or a list of the history.
    pub fn describe(&self) -> (r: String)
        ensures
            r@ == self.spec_describe(),
    {
        let mut text = match self {
            Change::StageFile(_) => String::from_str("StageFile("),
            Change::UnstageFile(_) => String::from_str("UnstageFile("),
        };
        match self.file().rel_path() {
            Some(p) => {
                text.append(p);
            },
            None => {
                assert(text@ + Seq::<char>::empty() =~= text@);
            },
        }
        text.append(")");
        text
    }

    /// The first step of the command's forward action.
    pub fn first_step(&self, target: &Internal) -> (r: Result<Step, Error>)
        ensures
            r == self.spec_apply(),
    {
        match self {
            Change::StageFile(file) => target.stage_file(file),
            Change::UnstageFile(file) => target.unstage_file(file),
        }
    }
}

impl undo::Edit for Change {
    type Target = Internal;

    type Output = Result<Step, Error>;

    fn edit(&mut self, target: &mut Internal) -> (r: Result<Step, Error>)
        ensures
            r == old(self).spec_apply(),
            *final(self) == *old(self),
            *final(target) == *old(target),
    {
        match self {
            Change::StageFile(file) => target.stage_file(file),
            Change::UnstageFile(file) => target.unstage_file(file),
        }
    }

    fn undo(&mut self, target: &mut Internal) -> (r: Result<Step, Error>)
        ensures
            r == old(self).spec_undo(),
            *final(self) == *old(self),
            *final(target) == *old(target),
    {
        match self {
            Change::StageFile(file) => target.unstage_file(file),
            Change::UnstageFile(file) => target.stage_file(file),
        }
    }
}

/// A repository: what is known of the backend, and the history of the staging
/// commands that the backend has carried out.
#[derive(Debug)]
pub struct Repo {
    internal: Internal,
    history: undo::History<Change>,
}

impl Repo {
    /// The commands in the history, oldest first.
    pub closed spec fn entries(&self) -> Seq<Change> {
        history_entries(self.history)
    }

    /// The cursor: the commands before it are applied, those from it on are
    /// undone and can be redone.
    pub closed spec fn position(&self) -> nat {
        history_head(self.history)
    }

    /// The directory of the repository.
    pub closed spec fn spec_git_dir(&self) -> Seq<char> {
        self.internal.spec_git_dir()
    }

    /// The cursor is within the history. Every repository that `open` gave
    /// keeps this.
    pub open spec fn wf(&self) -> bool {
        self.position() <= self.entries().len()
    }

    /// How `apply` takes the repository from `self` to `post` and answers `r`,
    /// when the backend answered `outcome` to the forward action of `change`.
    /// The backend's failure is passed on, and so is that of a command that has
    /// no forward action; the history is then as it was. Else the command is
    /// put at the cursor, in place of whatever could have been redone, and the
    /// cursor moves past it.
    pub open spec fn applies(
        &self,
        change: Change,
        outcome: Result<(), Error>,
        post: &Repo,
        r: Result<(), Error>,
    ) -> bool {
        &&& post.spec_git_dir() == self.spec_git_dir()
        &&& if outcome is Err {
            r == outcome && post.entries() == self.entries() && post.position()
                == self.position()
        } else if change.spec_apply() is Err {
            r == Err::<(), Error>(change.spec_apply()->Err_0) && post.entries() == self.entries()
                && post.position() == self.position()
        } else {
            r is Ok && (self.position() < usize::MAX ==> post.entries() == self.entries().take(
                self.position() as int,
            ).push(change) && post.position() == self.position() + 1)
        }
    }

    /// How `undo` takes the repository from `self` to `post` and answers `r`.
    /// With the cursor at the start it fails with `UndoEmpty`. Else the cursor
    /// steps back over one command, which stays in place, and the answer is the
    /// first step of that command's inverse action.
    pub open spec fn undoes(&self, post: &Repo, r: Result<Step, Error>) -> bool {
        &&& post.spec_git_dir() == self.spec_git_dir()
        &&& post.entries() == self.entries()
        &&& if self.position() == 0 {
            r == Err::<Step, Error>(Error::UndoEmpty) && post.position() == 0
        } else {
            r == self.entries()[self.position() - 1].spec_undo() && post.position()
                == self.position() - 1
        }
    }

    /// How `redo` takes the repository from `self` to `post` and answers `r`.
    /// With no command at the cursor it fails with `RedoEmpty`. Else the answer
    /// is the first step of the forward action of the command at the cursor,
    /// and the cursor moves past that command.
    pub open spec fn redoes(&self, post: &Repo, r: Result<Step, Error>) -> bool {
        &&& post.spec_git_dir() == self.spec_git_dir()
        &&& post.entries() == self.entries()
        &&& if self.position() >= self.entries().len() {
            r == Err::<Step, Error>(Error::RedoEmpty) && post.position() == self.position()
        } else {
            r == self.entries()[self.position() as int].spec_apply() && post.position()
                == self.position() + 1
        }
    }

    /// Takes what opening the repository gave, its directory or the failure,
    /// and starts with an empty history.
    pub fn open(opened: Result<String, Git2Error>) -> (r: Result<Self, Error>)
        ensures
            match opened {
                Ok(git_dir) => r is Ok && r->Ok_0.spec_git_dir() == git_dir@
                    && r->Ok_0.entries() == Seq::<Change>::empty() && r->Ok_0.position() == 0
                    && r->Ok_0.wf(),
                Err(err) => r == Err::<Self, Error>(Error::Git2(err)),
            },
    {
        match Internal::open(opened) {
            Ok(internal) => Ok(Self { internal, history: history_new() }),
            Err(err) => Err(err),
        }
    }

    /// What is known of the backend.
    pub fn internal(&self) -> (r: &Internal)
        ensures
            r.spec_git_dir() == self.spec_git_dir(),
    {
        &self.internal
    }

    pub fn can_undo(&self) -> (r: bool)
        ensures
            r == (self.position() > 0),
    {
        history_can_undo(&self.history)
    }

    pub fn can_redo(&self) -> (r: bool)
        ensures
            r == (self.position() < self.entries().len()),
    {
        history_can_redo(&self.history)
    }

    /// Steps back over one command and gives the first step of its inverse
    /// action, which the caller runs against the backend. A failure of the
    /// backend there is the caller's to pass on; the cursor stays where this
    /// call left it.
    pub fn undo(&mut self) -> (r: Result<Step, Error>)
        ensures
            old(self).undoes(final(self), r),
            final(self).wf(),
    {
        match history_undo(&mut self.history, &mut self.internal) {
            Some(step) => step,
            None => Err(Error::UndoEmpty),
        }
    }

    /// Gives the first step of the forward action of the command at the cursor,
    /// which the caller runs against the backend, and moves past that command.
    /// A failure of the backend there is the caller's to pass on; the cursor
    /// stays where this call left it.
    pub fn redo(&mut self) -> (r: Result<Step, Error>)
        ensures
            old(self).redoes(final(self), r),
            final(self).wf(),
    {
        match history_redo(&mut self.history, &mut self.internal) {
            Some(step) => step,
            None => Err(Error::RedoEmpty),
        }
    }

    /// The directory of the working tree.
    pub fn path(&self) -> (r: String)
        ensures
            r@ == Internal::spec_root(self.spec_git_dir()),
    {
        self.internal.path()
    }

    /// The classifications of the records that a traversal of the uncommitted
    /// changes gave, in its order, or its failure.
    pub fn uncommitted_files(&self, deltas: Result<Vec<DiffDelta>, Git2Error>) -> (r: Result<
        Vec<Meta>,
        Error,
    >)
        requires
            deltas is Ok ==> forall|i: int|
                0 <= i < deltas->Ok_0.len() ==> (#[trigger] deltas->Ok_0[i]).classifiable(),
        ensures
            match deltas {
                Ok(records) => r is Ok && classifies(records@, r->Ok_0@),
                Err(err) => r == Err::<Vec<Meta>, Error>(Error::Git2(err)),
            },
    {
        self.internal.uncommitted_files(deltas)
    }

    /// The listener for the diff of the path that a classification stands for,
    /// or `MissingPath` where its file has no path.
    pub fn diff_details(&self, meta: &Meta) -> (r: Result<Extractor, Error>)
        ensures
            match meta.spec_file().spec_path_required() {
                Ok(path) => r is Ok && r->Ok_0.spec_path() == path@ && r->Ok_0.gathered()
                    == scan_start(),
                Err(err) => r is Err && r->Err_0 == err,
            },
    {
        self.internal.diff_details(meta)
    }

    /// The first step of staging the file. The command enters the history
    /// through `apply`, once the backend has answered.
    pub fn stage_file(&self, file: &File) -> (r: Result<Step, Error>)
        ensures
            r == Change::StageFile(*file).spec_apply(),
    {
        self.internal.stage_file(file)
    }

    /// The first step of unstaging the file. The command enters the history
    /// through `apply`, once the backend has answered.
    pub fn unstage_file(&self, file: &File) -> (r: Result<Step, Error>)
        ensures
            r == Change::UnstageFile(*file).spec_apply(),
    {
        self.internal.unstage_file(file)
    }

    /// Records a command whose forward action the backend has answered with
    /// `outcome`, and passes the answer on. Only a command that the backend
    /// carried out enters the history.
    pub fn apply(&mut self, change: Change, outcome: Result<(), Error>) -> (r: Result<(), Error>)
        ensures
            old(self).applies(change, outcome, final(self), r),
            old(self).wf() && old(self).position() < usize::MAX ==> final(self).wf(),
    {
        match outcome {
            Ok(()) => {
                match change.first_step(&self.internal) {
                    Ok(_) => {
                        let _ = history_edit(&mut self.history, &mut self.internal, change);
                        Ok(())
                    },
                    Err(err) => Err(err),
                }
            },
            Err(err) => Err(err),
        }
    }
}

} // verus!
