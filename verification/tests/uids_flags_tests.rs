use imap_core::flags::{is_draft, is_read, is_starred, MailFlag};
use imap_core::uids::{filter_new_uids, sort_uids};

#[test]
fn new_uids_exclude_watermark_and_come_back_ascending() {
    let r = filter_new_uids(vec![10, 7, 5, 12, 8], 7);
    assert_eq!(r, vec![8, 10, 12]);
}

#[test]
fn watermark_as_highest_uid_yields_nothing_new() {
    // A UID SEARCH range starting at the watermark echoes it back when it
    // is the folder's highest UID; it must not be reported as new.
    let r = filter_new_uids(vec![42], 42);
    assert_eq!(r, Vec::<u32>::new());
}

#[test]
fn zero_watermark_keeps_everything() {
    let r = filter_new_uids(vec![3, 1, 2], 0);
    assert_eq!(r, vec![1, 2, 3]);
}

#[test]
fn sorting_is_ascending_and_keeps_duplicates() {
    assert_eq!(sort_uids(vec![5, 3, 9, 3, 1]), vec![1, 3, 3, 5, 9]);
    assert_eq!(sort_uids(Vec::new()), Vec::<u32>::new());
}

#[test]
fn read_flag_is_exactly_seen() {
    assert!(is_read(&vec![MailFlag::Seen]));
    assert!(is_read(&vec![MailFlag::Other, MailFlag::Seen, MailFlag::Deleted]));
    assert!(!is_read(&vec![]));
    assert!(!is_read(&vec![MailFlag::Flagged, MailFlag::Draft]));
}

#[test]
fn starred_flag_is_exactly_flagged() {
    assert!(is_starred(&vec![MailFlag::Flagged]));
    assert!(!is_starred(&vec![MailFlag::Seen, MailFlag::Draft, MailFlag::Answered]));
}

#[test]
fn draft_flag_is_exactly_draft() {
    assert!(is_draft(&vec![MailFlag::Draft]));
    assert!(!is_draft(&vec![MailFlag::Seen, MailFlag::Flagged, MailFlag::Recent]));
}
