use imap_core::commands::{
    body_peek_query, connection_summary, move_begin, move_step, new_uid_query, store_query,
    MoveCmd, MoveProgress,
};

#[test]
fn new_uid_query_starts_after_the_watermark() {
    assert_eq!(new_uid_query(41), "42:*");
    assert_eq!(new_uid_query(0), "1:*");
}

#[test]
fn store_query_is_operator_space_flags() {
    assert_eq!(store_query("+FLAGS", "(\\Seen)"), "+FLAGS (\\Seen)");
    assert_eq!(store_query("-FLAGS", "(\\Flagged)"), "-FLAGS (\\Flagged)");
    assert_eq!(store_query("+FLAGS", "(\\Deleted)"), "+FLAGS (\\Deleted)");
}

#[test]
fn body_peek_query_wraps_the_part_id() {
    assert_eq!(body_peek_query("2.1"), "BODY.PEEK[2.1]");
    assert_eq!(body_peek_query(""), "BODY.PEEK[]");
}

#[test]
fn connection_summary_counts_folders() {
    assert_eq!(connection_summary(3), "Connected successfully. Found 3 folder(s).");
    assert_eq!(connection_summary(0), "Connected successfully. Found 0 folder(s).");
}

#[test]
fn failed_move_extension_runs_copy_mark_expunge() {
    let (state, first) = move_begin();
    assert_eq!(state, MoveProgress::SelectingSource);
    assert_eq!(first, MoveCmd::SelectSource);
    let (state, cmd) = move_step(state, true);
    assert_eq!((state, cmd), (MoveProgress::TryingMove, Some(MoveCmd::TryMove)));
    // The atomic move extension is unsupported: its failure enters the
    // copy fallback rather than failing the operation.
    let (state, cmd) = move_step(state, false);
    assert_eq!((state, cmd), (MoveProgress::Copying, Some(MoveCmd::CopyToDest)));
    let (state, cmd) = move_step(state, true);
    assert_eq!((state, cmd), (MoveProgress::MarkingDeleted, Some(MoveCmd::MarkDeleted)));
    let (state, cmd) = move_step(state, true);
    assert_eq!((state, cmd), (MoveProgress::Expunging, Some(MoveCmd::Expunge)));
    let (state, cmd) = move_step(state, true);
    assert_eq!((state, cmd), (MoveProgress::Done, None));
}

#[test]
fn successful_move_extension_finishes_at_once() {
    let (state, _) = move_step(MoveProgress::SelectingSource, true);
    let (state, cmd) = move_step(state, true);
    assert_eq!((state, cmd), (MoveProgress::Done, None));
}

#[test]
fn failed_fallback_command_is_fatal() {
    assert_eq!(move_step(MoveProgress::Copying, false), (MoveProgress::Failed, None));
    assert_eq!(move_step(MoveProgress::MarkingDeleted, false), (MoveProgress::Failed, None));
    assert_eq!(move_step(MoveProgress::SelectingSource, false), (MoveProgress::Failed, None));
}
