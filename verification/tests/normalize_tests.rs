use imap_core::mime::{HeaderVal, MailAddr, RawPart};
use imap_core::normalize::{
    build_attachments, extract_first_address, extract_header_text, extract_references,
    extract_reply_first, format_address_list, parse_message,
};
use imap_core::types::ImapError;

fn addr(a: Option<&str>, n: Option<&str>) -> MailAddr {
    MailAddr { address: a.map(String::from), name: n.map(String::from) }
}

#[test]
fn appended_message_decodes_back_to_its_content() {
    // The decode half of the append/fetch round trip: the MIME content
    // handed to APPEND, fetched under its new UID, yields the same
    // From/To/Subject.
    let raw = b"From: Alice Example <alice@example.com>\r\n\
To: Bob <bob@example.com>\r\n\
Subject: Hello there\r\n\
Message-ID: <msg-1@example.com>\r\n\
Content-Type: text/plain; charset=utf-8\r\n\
\r\n\
Greetings from the test.\r\n";
    let m = parse_message(raw, 57, "INBOX", raw.len() as u32, true, false, false).unwrap();
    assert_eq!(m.uid, 57);
    assert_eq!(m.folder, "INBOX");
    assert_eq!(m.from_address.as_deref(), Some("alice@example.com"));
    assert_eq!(m.from_name.as_deref(), Some("Alice Example"));
    assert_eq!(m.to_addresses.as_deref(), Some("Bob <bob@example.com>"));
    assert_eq!(m.subject.as_deref(), Some("Hello there"));
    assert_eq!(m.message_id.as_deref(), Some("msg-1@example.com"));
    assert!(m.is_read);
    assert!(!m.is_starred);
    assert!(!m.is_draft);
    assert_eq!(m.body_text.as_deref(), Some("Greetings from the test.\r\n"));
    assert_eq!(m.snippet.as_deref(), Some("Greetings from the test."));
    assert_eq!(m.raw_size, raw.len() as u32);
    assert!(m.attachments.is_empty());
}

#[test]
fn unparseable_bytes_are_a_per_message_parse_error() {
    let r = parse_message(b"", 9, "INBOX", 0, false, false, false);
    assert!(matches!(r, Err(ImapError::Parse { uid: 9 })));
}

#[test]
fn missing_date_yields_timestamp_zero() {
    let raw = b"From: a@example.com\r\nSubject: no date\r\n\r\nx";
    let m = parse_message(raw, 1, "INBOX", 1, false, false, false).unwrap();
    assert_eq!(m.date, 0);
}

#[test]
fn date_header_becomes_epoch_seconds() {
    let raw = b"From: a@example.com\r\nDate: Thu, 1 Jan 2015 00:00:00 +0000\r\n\r\nx";
    let m = parse_message(raw, 1, "INBOX", 1, false, false, false).unwrap();
    assert_eq!(m.date, 1420070400);
}

#[test]
fn header_text_joins_lists_with_commas() {
    assert_eq!(extract_header_text(&HeaderVal::Absent), None);
    assert_eq!(
        extract_header_text(&HeaderVal::Text(String::from("<mailto:u@x>"))),
        Some(String::from("<mailto:u@x>"))
    );
    let l = HeaderVal::TextList(vec![String::from("<mailto:u@x>"), String::from("<https://x>")]);
    assert_eq!(extract_header_text(&l), Some(String::from("<mailto:u@x>, <https://x>")));
}

#[test]
fn in_reply_to_list_keeps_its_first_entry() {
    let l = HeaderVal::TextList(vec![String::from("a@x"), String::from("b@x")]);
    assert_eq!(extract_reply_first(&l), Some(String::from("a@x")));
    assert_eq!(extract_reply_first(&HeaderVal::TextList(Vec::new())), None);
    assert_eq!(extract_reply_first(&HeaderVal::Absent), None);
}

#[test]
fn references_list_joins_with_spaces_and_empty_list_is_absent() {
    let l = HeaderVal::TextList(vec![String::from("a@x"), String::from("b@x")]);
    assert_eq!(extract_references(&l), Some(String::from("a@x b@x")));
    assert_eq!(extract_references(&HeaderVal::TextList(Vec::new())), None);
    assert_eq!(
        extract_references(&HeaderVal::Text(String::from("c@x"))),
        Some(String::from("c@x"))
    );
}

#[test]
fn first_address_takes_email_and_name_separately() {
    let list = Some(vec![addr(Some("a@x"), Some("Ann")), addr(Some("b@x"), None)]);
    let (email, name) = extract_first_address(&list);
    assert_eq!(email.as_deref(), Some("a@x"));
    assert_eq!(name.as_deref(), Some("Ann"));
    let (email, name) = extract_first_address(&None);
    assert_eq!(email, None);
    assert_eq!(name, None);
    let (email, name) = extract_first_address(&Some(Vec::new()));
    assert_eq!(email, None);
    assert_eq!(name, None);
}

#[test]
fn address_lists_render_names_and_bare_emails() {
    let list = Some(vec![
        addr(Some("a@x"), Some("Ann A")),
        addr(Some("b@x"), None),
        addr(Some("c@x"), Some("")),
    ]);
    assert_eq!(
        format_address_list(&list),
        Some(String::from("Ann A <a@x>, b@x, c@x"))
    );
    assert_eq!(format_address_list(&None), None);
    assert_eq!(format_address_list(&Some(Vec::new())), None);
    let nameless = Some(vec![addr(None, Some("Ghost"))]);
    assert_eq!(format_address_list(&nameless), Some(String::from("Ghost <>")));
}

#[test]
fn attachments_get_sequential_ids_and_fallbacks() {
    let parts = vec![
        RawPart {
            name: Some(String::from("report.pdf")),
            ctype: Some(String::from("application")),
            subtype: Some(String::from("pdf")),
            size: 1024,
            content_id: Some(String::from("cid-1")),
            inline: Some(true),
        },
        RawPart { name: None, ctype: None, subtype: None, size: 5, content_id: None, inline: None },
        RawPart {
            name: Some(String::from("x")),
            ctype: Some(String::from("image")),
            subtype: None,
            size: 9,
            content_id: None,
            inline: Some(false),
        },
    ];
    let r = build_attachments(&parts);
    assert_eq!(r.len(), 3);
    assert_eq!(r[0].part_id, "1");
    assert_eq!(r[0].filename, "report.pdf");
    assert_eq!(r[0].mime_type, "application/pdf");
    assert_eq!(r[0].size, 1024);
    assert_eq!(r[0].content_id.as_deref(), Some("cid-1"));
    assert!(r[0].is_inline);
    assert_eq!(r[1].part_id, "2");
    assert_eq!(r[1].filename, "attachment");
    assert_eq!(r[1].mime_type, "application/octet-stream");
    assert!(!r[1].is_inline);
    assert_eq!(r[2].part_id, "3");
    assert_eq!(r[2].mime_type, "image/octet-stream");
    assert!(!r[2].is_inline);
}

#[test]
fn attached_file_is_listed_with_its_name_and_type() {
    let raw = b"From: a@example.com\r\n\
Subject: with attachment\r\n\
Content-Type: multipart/mixed; boundary=\"XX\"\r\n\
\r\n\
--XX\r\n\
Content-Type: text/plain\r\n\
\r\n\
See attached.\r\n\
--XX\r\n\
Content-Type: application/pdf\r\n\
Content-Disposition: attachment; filename=\"report.pdf\"\r\n\
Content-Transfer-Encoding: base64\r\n\
\r\n\
aGVsbG8=\r\n\
--XX--\r\n";
    let m = parse_message(raw, 3, "INBOX", raw.len() as u32, false, false, false).unwrap();
    assert_eq!(m.body_text.as_deref(), Some("See attached."));
    assert_eq!(m.attachments.len(), 1);
    assert_eq!(m.attachments[0].part_id, "1");
    assert_eq!(m.attachments[0].filename, "report.pdf");
    assert_eq!(m.attachments[0].mime_type, "application/pdf");
    assert!(!m.attachments[0].is_inline);
}

#[test]
fn list_unsubscribe_header_is_surfaced() {
    let raw = b"From: a@example.com\r\n\
List-Unsubscribe: <mailto:leave@example.com>\r\n\
List-Unsubscribe-Post: List-Unsubscribe=One-Click\r\n\
\r\n\
x";
    let m = parse_message(raw, 4, "INBOX", raw.len() as u32, false, false, false).unwrap();
    assert_eq!(m.list_unsubscribe.as_deref(), Some("mailto:leave@example.com"));
    assert_eq!(m.list_unsubscribe_post.as_deref(), Some("List-Unsubscribe=One-Click"));
}
