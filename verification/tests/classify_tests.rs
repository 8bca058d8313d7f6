use imap_core::classify::{detect_special_use, FolderAttr, SpecialUse};

#[test]
fn gmail_trash_name_classifies_as_trash() {
    let attrs: Vec<FolderAttr> = Vec::new();
    let r = detect_special_use(&attrs, "[Gmail]/Trash");
    assert_eq!(r, Some(SpecialUse::Trash));
    assert_eq!(r.unwrap().tag(), "\\Trash");
}

#[test]
fn classifying_twice_yields_same_tag() {
    let attrs = vec![FolderAttr::Other, FolderAttr::Junk];
    let first = detect_special_use(&attrs, "Oddly Named");
    let second = detect_special_use(&attrs, "Oddly Named");
    assert_eq!(first, second);
    assert_eq!(first, Some(SpecialUse::Junk));
}

#[test]
fn attribute_wins_over_name() {
    let attrs = vec![FolderAttr::Sent];
    assert_eq!(detect_special_use(&attrs, "Trash"), Some(SpecialUse::Sent));
}

#[test]
fn first_declared_attribute_wins() {
    let attrs = vec![FolderAttr::Other, FolderAttr::Drafts, FolderAttr::Sent];
    assert_eq!(detect_special_use(&attrs, "x"), Some(SpecialUse::Drafts));
}

#[test]
fn name_matching_ignores_ascii_case() {
    let attrs: Vec<FolderAttr> = Vec::new();
    assert_eq!(detect_special_use(&attrs, "SPAM"), Some(SpecialUse::Junk));
    assert_eq!(detect_special_use(&attrs, "Sent Items"), Some(SpecialUse::Sent));
    assert_eq!(detect_special_use(&attrs, "Deleted Messages"), Some(SpecialUse::Trash));
    assert_eq!(detect_special_use(&attrs, "[GMAIL]/All Mail"), Some(SpecialUse::Archive));
}

#[test]
fn unknown_folder_gets_no_tag() {
    let attrs: Vec<FolderAttr> = Vec::new();
    assert_eq!(detect_special_use(&attrs, "Receipts"), None);
    assert_eq!(detect_special_use(&attrs, ""), None);
}

#[test]
fn tags_render_as_imap_attributes() {
    assert_eq!(SpecialUse::Sent.tag(), "\\Sent");
    assert_eq!(SpecialUse::Drafts.tag(), "\\Drafts");
    assert_eq!(SpecialUse::Archive.tag(), "\\Archive");
    assert_eq!(SpecialUse::All.tag(), "\\All");
    assert_eq!(SpecialUse::Flagged.tag(), "\\Flagged");
    assert_eq!(SpecialUse::Junk.tag(), "\\Junk");
}
