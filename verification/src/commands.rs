//! Command arguments the session layer sends, and the move operation's
//! fallback plan when the atomic move extension is unsupported.
use vstd::prelude::*;
use crate::text::{dec_str, u32_to_string, u64_to_string};

verus! {

/// The UID SEARCH range for messages above a watermark: `<last_uid+1>:*`.
/// The watermark must leave room for its successor UID.
pub fn new_uid_query(last_uid: u32) -> (r: String)
    requires
        last_uid < 0xFFFF_FFFFu32,
    ensures
        r@ == dec_str((last_uid + 1) as nat) + ":*"@,
{
    let mut r = u32_to_string(last_uid + 1);
    r.append(":*");
    r
}

/// A UID STORE argument: the operator and the flag set, space separated.
pub fn store_query(flag_op: &str, flags: &str) -> (r: String)
    ensures
        r@ == flag_op@ + " "@ + flags@,
{
    let mut r = flag_op.to_owned();
    r.append(" ");
    r.append(flags);
    r
}

/// The UID FETCH item for one MIME part's contents.
pub fn body_peek_query(part_id: &str) -> (r: String)
    ensures
        r@ == "BODY.PEEK["@ + part_id@ + "]"@,
{
    let mut r = "BODY.PEEK[".to_owned();
    r.append(part_id);
    r.append("]");
    r
}

/// The connectivity probe's summary line for a folder count.
pub fn connection_summary(count: usize) -> (r: String)
    ensures
        r@ == "Connected successfully. Found "@ + dec_str(count as nat) + " folder(s)."@,
{
    let mut r = "Connected successfully. Found ".to_owned();
    let n = u64_to_string(count as u64);
    r.append(n.as_str());
    r.append(" folder(s).");
    r
}

/// Where a move operation stands.
#[derive(Clone, Copy, PartialEq, Eq, Structural, Debug)]
pub enum MoveProgress {
    /// Selecting the source folder.
    SelectingSource,
    /// The atomic move extension was attempted.
    TryingMove,
    /// Fallback: copying to the destination.
    Copying,
    /// Fallback: marking the source copies deleted.
    MarkingDeleted,
    /// Fallback: expunging the source folder.
    Expunging,
    /// The messages moved.
    Done,
    /// A required command failed.
    Failed,
}

/// The next command a move operation issues.
#[derive(Clone, Copy, PartialEq, Eq, Structural, Debug)]
pub enum MoveCmd {
    SelectSource,
    TryMove,
    CopyToDest,
    MarkDeleted,
    Expunge,
}

/// The move operation's transition function: given where it stands and
/// whether the last command succeeded, where it goes and what to issue
/// next. A failed atomic move is treated as "extension unsupported" and
/// enters the copy fallback; a failure of any fallback command is fatal.
pub open spec fn spec_move_step(state: MoveProgress, ok: bool) -> (MoveProgress, Option<MoveCmd>) {
    match state {
        MoveProgress::SelectingSource => if ok {
            (MoveProgress::TryingMove, Some(MoveCmd::TryMove))
        } else {
            (MoveProgress::Failed, None)
        },
        MoveProgress::TryingMove => if ok {
            (MoveProgress::Done, None)
        } else {
            (MoveProgress::Copying, Some(MoveCmd::CopyToDest))
        },
        MoveProgress::Copying => if ok {
            (MoveProgress::MarkingDeleted, Some(MoveCmd::MarkDeleted))
        } else {
            (MoveProgress::Failed, None)
        },
        MoveProgress::MarkingDeleted => if ok {
            (MoveProgress::Expunging, Some(MoveCmd::Expunge))
        } else {
            (MoveProgress::Failed, None)
        },
        MoveProgress::Expunging => if ok {
            (MoveProgress::Done, None)
        } else {
            (MoveProgress::Failed, None)
        },
        MoveProgress::Done => (MoveProgress::Done, None),
        MoveProgress::Failed => (MoveProgress::Failed, None),
    }
}

/// A move operation starts by selecting the source folder.
pub fn move_begin() -> (r: (MoveProgress, MoveCmd))
    ensures
        r == (MoveProgress::SelectingSource, MoveCmd::SelectSource),
{
    (MoveProgress::SelectingSource, MoveCmd::SelectSource)
}

/// Advance a move operation after one command's outcome.
pub fn move_step(state: MoveProgress, ok: bool) -> (r: (MoveProgress, Option<MoveCmd>))
    ensures
        r == spec_move_step(state, ok),
{
    match state {
        MoveProgress::SelectingSource => if ok {
            (MoveProgress::TryingMove, Some(MoveCmd::TryMove))
        } else {
            (MoveProgress::Failed, None)
        },
        MoveProgress::TryingMove => if ok {
            (MoveProgress::Done, None)
        } else {
            (MoveProgress::Copying, Some(MoveCmd::CopyToDest))
        },
        MoveProgress::Copying => if ok {
            (MoveProgress::MarkingDeleted, Some(MoveCmd::MarkDeleted))
        } else {
            (MoveProgress::Failed, None)
        },
        MoveProgress::MarkingDeleted => if ok {
            (MoveProgress::Expunging, Some(MoveCmd::Expunge))
        } else {
            (MoveProgress::Failed, None)
        },
        MoveProgress::Expunging => if ok {
            (MoveProgress::Done, None)
        } else {
            (MoveProgress::Failed, None)
        },
        MoveProgress::Done => (MoveProgress::Done, None),
        MoveProgress::Failed => (MoveProgress::Failed, None),
    }
}

/// Law: when the atomic move extension fails, the operation issues exactly
/// copy, then mark-deleted, then expunge, and only then reports done; and
/// the fallback is never entered while the extension succeeds.
pub proof fn lemma_move_fallback_order()
    ensures
        spec_move_step(MoveProgress::TryingMove, false) == (
            MoveProgress::Copying,
            Some(MoveCmd::CopyToDest),
        ),
        spec_move_step(MoveProgress::Copying, true) == (
            MoveProgress::MarkingDeleted,
            Some(MoveCmd::MarkDeleted),
        ),
        spec_move_step(MoveProgress::MarkingDeleted, true) == (
            MoveProgress::Expunging,
            Some(MoveCmd::Expunge),
        ),
        spec_move_step(MoveProgress::Expunging, true) == (
            MoveProgress::Done,
            None::<MoveCmd>,
        ),
        spec_move_step(MoveProgress::TryingMove, true) == (
            MoveProgress::Done,
            None::<MoveCmd>,
        ),
{
}

} // verus!
