//! What holds of staging, undo and redo taken together.
//!
//! The index is taken as the set of the paths in it: adding a path puts it in,
//! removing a path takes it out, and a path that the ignore rules match is
//! left alone when it is staged.

use crate::error::Error;
use crate::file::File;
use crate::repo::{Change, Internal, Repo, Step};
use vstd::prelude::*;

verus! {

/// The paths in the index once the backend has carried out the action that
/// starts with `first`; where that is a failure nothing was carried out.
pub open spec fn staged_after(
    first: Result<Step, Error>,
    ignored: bool,
    staged: Set<Seq<char>>,
) -> Set<Seq<char>> {
    match first {
        Ok(step) => step.staged_after(ignored, staged),
        Err(_) => staged,
    }
}

/// Staging a file and then unstaging it leaves the index as it was, where the
/// file's path was not in it; so does unstaging and then staging a file whose
/// path was in it and is not ignored.
pub proof fn lemma_stage_and_unstage_cancel(file: File, ignored: bool, staged: Set<Seq<char>>)
    requires
        file@.rel_path is Some,
    ensures
        !staged.contains(file@.rel_path->0) ==> staged_after(
            Internal::spec_unstage_file(file),
            ignored,
            staged_after(Internal::spec_stage_file(file), ignored, staged),
        ) == staged,
        staged.contains(file@.rel_path->0) && !ignored ==> staged_after(
            Internal::spec_stage_file(file),
            ignored,
            staged_after(Internal::spec_unstage_file(file), ignored, staged),
        ) == staged,
{
    file.lemma_path_required();
    let path = file@.rel_path->0;
    if !staged.contains(path) {
        assert(staged.insert(path).remove(path) =~= staged);
        assert(staged.remove(path) =~= staged);
    }
    if staged.contains(path) {
        assert(staged.remove(path).insert(path) =~= staged);
    }
}

/// Staging a file whose path the ignore rules match leaves the index as it
/// was: after the question nothing is left to do.
pub proof fn lemma_ignored_is_left_alone(file: File, staged: Set<Seq<char>>)
    ensures
        staged_after(Internal::spec_stage_file(file), true, staged) == staged,
        Internal::spec_stage_file(file) is Ok ==> Internal::spec_stage_file(
            file,
        )->Ok_0.spec_resume(true) == Step::Done,
{
}

/// The inverse action of a command takes back its forward action: the index
/// is as before, where the forward action changed it. That is the case for a
/// staged file whose path was not in the index, and for an unstaged file whose
/// path was in it and is not ignored.
pub proof fn lemma_inverse_takes_back(change: Change, ignored: bool, staged: Set<Seq<char>>)
    requires
        change.spec_file()@.rel_path is Some,
        match change {
            Change::StageFile(f) => !staged.contains(f@.rel_path->0),
            Change::UnstageFile(f) => staged.contains(f@.rel_path->0) && !ignored,
        },
    ensures
        staged_after(
            change.spec_undo(),
            ignored,
            staged_after(change.spec_apply(), ignored, staged),
        ) == staged,
{
    lemma_stage_and_unstage_cancel(change.spec_file(), ignored, staged);
}

/// An undo right after a command was applied answers with the inverse action
/// of that command and puts the cursor back where it was, before the same
/// commands; the command stays in the history.
pub proof fn lemma_undo_after_apply(
    pre: Repo,
    change: Change,
    mid: Repo,
    applied: Result<(), Error>,
    post: Repo,
    undone: Result<Step, Error>,
)
    requires
        pre.wf(),
        pre.position() < usize::MAX,
        pre.applies(change, Ok(()), &mid, applied),
        applied is Ok,
        mid.undoes(&post, undone),
    ensures
        undone == change.spec_undo(),
        post.position() == pre.position(),
        post.entries().take(post.position() as int) == pre.entries().take(pre.position() as int),
        post.entries() == mid.entries(),
        post.entries()[post.position() as int] == change,
{
    assert(mid.entries().take(pre.position() as int) =~= pre.entries().take(
        pre.position() as int,
    ));
}

/// A redo right after an undo answers with the forward action of the command
/// that was undone, and puts the history back as it was before the undo.
pub proof fn lemma_redo_after_undo(
    mid: Repo,
    post: Repo,
    undone: Result<Step, Error>,
    again: Repo,
    redone: Result<Step, Error>,
)
    requires
        mid.wf(),
        mid.position() > 0,
        mid.undoes(&post, undone),
        post.redoes(&again, redone),
    ensures
        redone == mid.entries()[mid.position() - 1].spec_apply(),
        again.entries() == mid.entries(),
        again.position() == mid.position(),
{
}

/// An undo fails with `UndoEmpty` exactly on a history whose cursor is at the
/// start, and a redo with `RedoEmpty` exactly where nothing has been undone,
/// as long as the commands in the history have a path.
pub proof fn lemma_empty_undo_and_redo(
    pre: Repo,
    post: Repo,
    undone: Result<Step, Error>,
    redone: Result<Step, Error>,
)
    requires
        pre.wf(),
        forall|i: int|
            0 <= i < pre.entries().len() ==> (#[trigger] pre.entries()[i]).spec_file()@.rel_path
                is Some,
    ensures
        pre.undoes(&post, undone) ==> (undone == Err::<Step, Error>(Error::UndoEmpty)
            <==> pre.position() == 0),
        pre.redoes(&post, redone) ==> (redone == Err::<Step, Error>(Error::RedoEmpty)
            <==> pre.position() == pre.entries().len()),
{
    if pre.position() > 0 {
        pre.entries()[pre.position() - 1].spec_file().lemma_path_required();
    }
    if pre.position() < pre.entries().len() {
        pre.entries()[pre.position() as int].spec_file().lemma_path_required();
    }
}

} // verus!
