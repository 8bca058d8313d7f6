use imap_core::classify::{FolderAttr, SpecialUse};
use imap_core::flags::MailFlag;
use imap_core::session::{
    assemble_fetch_result, build_folder, build_folder_status, decode_fetched,
    encode_attachment_part, split_leaf, FetchItem, MailboxSnapshot,
};
use imap_core::types::ImapError;

fn snapshot() -> MailboxSnapshot {
    MailboxSnapshot {
        uid_validity: Some(777),
        uid_next: Some(101),
        exists: 5,
        unseen: Some(2),
        highest_modseq: Some(99),
    }
}

const RAW: &[u8] = b"From: a@example.com\r\nSubject: s\r\n\r\nbody";

#[test]
fn folder_status_defaults_absent_counters_to_zero() {
    let s = MailboxSnapshot {
        uid_validity: None,
        uid_next: None,
        exists: 3,
        unseen: None,
        highest_modseq: None,
    };
    let r = build_folder_status(&s);
    assert_eq!(r.uidvalidity, 0);
    assert_eq!(r.uidnext, 0);
    assert_eq!(r.exists, 3);
    assert_eq!(r.unseen, 0);
    assert_eq!(r.highest_modseq, None);
}

#[test]
fn folder_status_carries_reported_values() {
    let r = build_folder_status(&snapshot());
    assert_eq!(r.uidvalidity, 777);
    assert_eq!(r.uidnext, 101);
    assert_eq!(r.exists, 5);
    assert_eq!(r.unseen, 2);
    assert_eq!(r.highest_modseq, Some(99));
}

#[test]
fn leaf_splitting_takes_the_last_segment() {
    assert_eq!(split_leaf("INBOX/Work/2024", "/"), "2024");
    assert_eq!(split_leaf("INBOX", "/"), "INBOX");
    assert_eq!(split_leaf("a.b.c", "."), "c");
    assert_eq!(split_leaf("", "/"), "");
}

#[test]
fn listed_folder_is_assembled_with_counts_and_tag() {
    let status = Some(snapshot());
    let f = build_folder("[Gmail]/Trash", &Some(String::from("/")), &Vec::new(), &status);
    assert_eq!(f.raw_path, "[Gmail]/Trash");
    assert_eq!(f.path, "[Gmail]/Trash");
    assert_eq!(f.name, "Trash");
    assert_eq!(f.delimiter, "/");
    assert_eq!(f.special_use, Some(SpecialUse::Trash));
    assert_eq!(f.exists, 5);
    assert_eq!(f.unseen, 2);
}

#[test]
fn failed_status_degrades_counts_to_zero() {
    let f = build_folder("INBOX", &Some(String::from("/")), &Vec::new(), &None);
    assert_eq!(f.exists, 0);
    assert_eq!(f.unseen, 0);
}

#[test]
fn missing_delimiter_defaults_to_slash() {
    let f = build_folder("A/B", &None, &Vec::new(), &None);
    assert_eq!(f.delimiter, "/");
    assert_eq!(f.name, "B");
}

#[test]
fn utf7_folder_names_are_decoded_for_display() {
    let f = build_folder("Entw&APw-rfe", &Some(String::from("/")), &vec![FolderAttr::Drafts], &None);
    assert_eq!(f.path, "Entwürfe");
    assert_eq!(f.name, "Entwürfe");
    assert_eq!(f.raw_path, "Entw&APw-rfe");
    assert_eq!(f.special_use, Some(SpecialUse::Drafts));
}

#[test]
fn fetch_batch_skips_items_without_uid_or_body() {
    let items = vec![
        FetchItem { uid: None, flags: vec![], body: Some(RAW.to_vec()) },
        FetchItem { uid: Some(11), flags: vec![MailFlag::Seen], body: Some(RAW.to_vec()) },
        FetchItem { uid: Some(12), flags: vec![], body: None },
        FetchItem { uid: Some(13), flags: vec![], body: Some(Vec::new()) },
    ];
    let r = assemble_fetch_result("INBOX", &snapshot(), &items);
    // Only UID 11 carries a UID and a parseable body; the headerless empty
    // body of UID 13 is a per-message parse failure and is skipped too.
    assert_eq!(r.messages.len(), 1);
    assert_eq!(r.messages[0].uid, 11);
    assert!(r.messages[0].is_read);
    assert_eq!(r.messages[0].subject.as_deref(), Some("s"));
    assert_eq!(r.folder_status.uidvalidity, 777);
}

#[test]
fn single_fetch_with_no_response_is_not_found() {
    let r = decode_fetched("INBOX", 44, &Vec::new());
    match r {
        Err(ImapError::NotFound { folder, uid, part }) => {
            assert_eq!(folder, "INBOX");
            assert_eq!(uid, 44);
            assert_eq!(part, None);
        },
        other => panic!("expected a not-found error, got {:?}", other.map(|m| m.uid)),
    }
}

#[test]
fn single_fetch_without_body_is_not_found() {
    let items = vec![FetchItem { uid: Some(44), flags: vec![], body: None }];
    assert!(matches!(
        decode_fetched("INBOX", 44, &items),
        Err(ImapError::NotFound { .. })
    ));
}

#[test]
fn single_fetch_decodes_under_the_requested_uid() {
    let items = vec![FetchItem {
        uid: Some(44),
        flags: vec![MailFlag::Flagged],
        body: Some(RAW.to_vec()),
    }];
    let m = decode_fetched("INBOX", 44, &items).unwrap();
    assert_eq!(m.uid, 44);
    assert!(m.is_starred);
    assert!(!m.is_read);
    assert_eq!(m.body_text.as_deref(), Some("body"));
}

#[test]
fn attachment_part_is_returned_base64_encoded() {
    let items = vec![FetchItem { uid: Some(7), flags: vec![], body: Some(b"hi!".to_vec()) }];
    let r = encode_attachment_part("INBOX", 7, "2", &items).unwrap();
    assert_eq!(r, "aGkh");
    let empty = vec![FetchItem { uid: Some(7), flags: vec![], body: Some(Vec::new()) }];
    assert_eq!(encode_attachment_part("INBOX", 7, "2", &empty).unwrap(), "");
}

#[test]
fn missing_attachment_part_names_uid_folder_and_part() {
    let r = encode_attachment_part("Archive", 9, "2.1", &Vec::new());
    match r {
        Err(ImapError::NotFound { folder, uid, part }) => {
            assert_eq!(folder, "Archive");
            assert_eq!(uid, 9);
            assert_eq!(part.as_deref(), Some("2.1"));
        },
        _ => panic!("expected a not-found error"),
    }
}

#[test]
fn malformed_utf7_names_keep_their_raw_spelling() {
    // Encoded sections the decoder's base64 step would reject must not
    // abort the listing: the display path degrades to the raw name.
    for raw in ["&*-", "&A-", "&AB-", "&====-", "&ab&cd-", "Spam&!-box"] {
        let f = build_folder(raw, &Some(String::from("/")), &Vec::new(), &None);
        assert_eq!(f.path, raw);
        assert_eq!(f.raw_path, raw);
    }
}

#[test]
fn wellformed_utf7_names_still_decode() {
    let f = build_folder("th&AOkA4g-tre", &Some(String::from("/")), &Vec::new(), &None);
    assert_eq!(f.path, "théâtre");
    // An empty section stands for a literal ampersand.
    let f = build_folder("A&-B", &Some(String::from("/")), &Vec::new(), &None);
    assert_eq!(f.path, "A&B");
    // A lone ampersand with no closing dash is left verbatim.
    let f = build_folder("Odd&Name", &Some(String::from("/")), &Vec::new(), &None);
    assert_eq!(f.path, "Odd&Name");
}
