//! The command history, kept by `undo::History`.
//!
//! Nothing here is proved: each function states of one method of
//! `undo::History` what its source shows, over the commands that the history
//! holds on its current branch and the place of its cursor among them.

use crate::error::Error;
use crate::repo::{Change, Internal, Step};
use vstd::prelude::*;

verus! {

#[verifier::external_type_specification]
#[verifier::external_body]
#[verifier::reject_recursive_types(E)]
#[verifier::reject_recursive_types(S)]
pub struct ExHistory<E, S>(undo::History<E, S>);

/// The commands on the current branch of the history, oldest first.
pub uninterp spec fn history_entries(h: undo::History<Change>) -> Seq<Change>;

/// The cursor: how many of the commands are applied. Those before it can be
/// undone, those from it on can be redone.
pub uninterp spec fn history_head(h: undo::History<Change>) -> nat;

/// Calls `undo::History::new`: a history with no command and the cursor at the
/// start.
#[verifier::external_body]
pub(crate) fn history_new() -> (h: undo::History<Change>)
    ensures
        history_entries(h) == Seq::<Change>::empty(),
        history_head(h) == 0,
{
    undo::History::new()
}

/// Calls `undo::History::can_undo`: whether the cursor is past the start.
#[verifier::external_body]
pub(crate) fn history_can_undo(h: &undo::History<Change>) -> (r: bool)
    ensures
        r == (history_head(*h) > 0),
{
    h.can_undo()
}

/// Calls `undo::History::can_redo`: whether a command stands at the cursor.
#[verifier::external_body]
pub(crate) fn history_can_redo(h: &undo::History<Change>) -> (r: bool)
    ensures
        r == (history_head(*h) < history_entries(*h).len()),
{
    h.can_redo()
}

/// Calls `undo::History::edit`, which runs `Edit::edit` of the command on the
/// target and returns what that gave. The commands from the cursor on leave the
/// current branch, the new command is put at the cursor, and the cursor moves
/// past it. (A history made by `new` holds up to `usize::MAX` commands; the
/// contract says nothing of a cursor that has reached that limit.)
#[verifier::external_body]
pub(crate) fn history_edit(
    h: &mut undo::History<Change>,
    target: &mut Internal,
    change: Change,
) -> (r: Result<Step, Error>)
    ensures
        r == change.spec_apply(),
        *final(target) == *old(target),
        history_head(*old(h)) <= history_entries(*old(h)).len(),
        history_head(*old(h)) < usize::MAX ==> history_entries(*final(h)) == history_entries(
            *old(h),
        ).take(history_head(*old(h)) as int).push(change) && history_head(*final(h))
            == history_head(*old(h)) + 1,
{
    h.edit(target, change)
}

/// Calls `undo::History::undo`. With the cursor at the start it does nothing
/// and returns `None`. Else it runs `Edit::undo` of the command before the
/// cursor on the target, moves the cursor back over that command, which stays
/// in place, and returns what the command gave.
#[verifier::external_body]
pub(crate) fn history_undo(h: &mut undo::History<Change>, target: &mut Internal) -> (r: Option<
    Result<Step, Error>,
>)
    ensures
        *final(target) == *old(target),
        history_entries(*final(h)) == history_entries(*old(h)),
        history_head(*old(h)) <= history_entries(*old(h)).len(),
        history_head(*old(h)) == 0 ==> r is None && history_head(*final(h)) == 0,
        history_head(*old(h)) > 0 ==> r == Some(
            history_entries(*old(h))[history_head(*old(h)) - 1].spec_undo(),
        ) && history_head(*final(h)) == history_head(*old(h)) - 1,
{
    h.undo(target)
}

/// Calls `undo::History::redo`. With no command at the cursor it does nothing
/// and returns `None`. Else it runs `Edit::redo` of the command at the cursor
/// on the target, moves the cursor past that command, and returns what the
/// command gave.
#[verifier::external_body]
pub(crate) fn history_redo(h: &mut undo::History<Change>, target: &mut Internal) -> (r: Option<
    Result<Step, Error>,
>)
    ensures
        *final(target) == *old(target),
        history_entries(*final(h)) == history_entries(*old(h)),
        history_head(*old(h)) <= history_entries(*old(h)).len(),
        history_head(*old(h)) >= history_entries(*old(h)).len() ==> r is None && history_head(
            *final(h),
        ) == history_head(*old(h)),
        history_head(*old(h)) < history_entries(*old(h)).len() ==> r == Some(
            history_entries(*old(h))[history_head(*old(h)) as int].spec_apply(),
        ) && history_head(*final(h)) == history_head(*old(h)) + 1,
{
    h.redo(target)
}

} // verus!
