//! Turn one raw MIME message, with its server-reported UID, folder, flags
//! and size, into the application's message record.
use vstd::prelude::*;
use crate::mime::{
    AddrView, HeaderVal, HeaderValView, MailAddr, RawPart, RawPartView, attachments_of, bcc_of,
    body_html_of, body_text_of, cc_of, date_of, from_of, header_of, in_reply_to_of, mail_attachments,
    mail_bcc, mail_body_html, mail_body_text, mail_cc, mail_date_seconds, mail_from, mail_header,
    mail_in_reply_to, mail_message_id, mail_parse_ok, mail_references, mail_reply_to, mail_subject,
    mail_to, message_id_of, mime_parses, references_of, reply_to_of, subject_of, to_of,
};
use crate::text::{dec_str, join_strings, join_with, make_snippet, snippet_of, u64_to_string};
use crate::types::{ImapAttachment, ImapError, ImapMessage};

verus! {

/// A header flattened to display text: a list is joined with `", "`.
pub open spec fn header_text_model(h: HeaderValView) -> Option<Seq<char>> {
    match h {
        HeaderValView::Absent => None,
        HeaderValView::Text(t) => Some(t),
        HeaderValView::TextList(l) => Some(join_with(l, ", "@)),
    }
}

/// Flatten a header value to display text.
pub fn extract_header_text(hv: &HeaderVal) -> (r: Option<String>)
    ensures
        r.deep_view() == header_text_model(hv@),
{
    match hv {
        HeaderVal::Absent => None,
        HeaderVal::Text(t) => Some(t.clone()),
        HeaderVal::TextList(l) => Some(join_strings(l, ", ")),
    }
}

/// An In-Reply-To header reduced to one message id: a list form keeps its
/// first entry.
pub open spec fn reply_first_model(h: HeaderValView) -> Option<Seq<char>> {
    match h {
        HeaderValView::Absent => None,
        HeaderValView::Text(t) => Some(t),
        HeaderValView::TextList(l) => if l.len() > 0 {
            Some(l[0])
        } else {
            None
        },
    }
}

/// Reduce an In-Reply-To header value to one message id.
pub fn extract_reply_first(hv: &HeaderVal) -> (r: Option<String>)
    ensures
        r.deep_view() == reply_first_model(hv@),
{
    match hv {
        HeaderVal::Absent => None,
        HeaderVal::Text(t) => Some(t.clone()),
        HeaderVal::TextList(l) => if l.len() > 0 {
            Some(l[0].clone())
        } else {
            None
        },
    }
}

/// A References header flattened to space-separated message ids; an empty
/// list yields nothing.
pub open spec fn references_model(h: HeaderValView) -> Option<Seq<char>> {
    match h {
        HeaderValView::Absent => None,
        HeaderValView::Text(t) => Some(t),
        HeaderValView::TextList(l) => if l.len() > 0 {
            Some(join_with(l, " "@))
        } else {
            None
        },
    }
}

/// Flatten a References header value to space-separated message ids.
pub fn extract_references(hv: &HeaderVal) -> (r: Option<String>)
    ensures
        r.deep_view() == references_model(hv@),
{
    match hv {
        HeaderVal::Absent => None,
        HeaderVal::Text(t) => Some(t.clone()),
        HeaderVal::TextList(l) => if l.len() > 0 {
            Some(join_strings(l, " "))
        } else {
            None
        },
    }
}

/// The bare email of an address list's first entry.
pub open spec fn first_address_model(a: Option<Seq<AddrView>>) -> Option<Seq<char>> {
    match a {
        Some(l) => if l.len() > 0 {
            l[0].address
        } else {
            None
        },
        None => None,
    }
}

/// The display name of an address list's first entry.
pub open spec fn first_name_model(a: Option<Seq<AddrView>>) -> Option<Seq<char>> {
    match a {
        Some(l) => if l.len() > 0 {
            l[0].name
        } else {
            None
        },
        None => None,
    }
}

/// Extract the first entry's email and display name from an address field.
pub fn extract_first_address(addr: &Option<Vec<MailAddr>>) -> (r: (Option<String>, Option<String>))
    ensures
        r.0.deep_view() == first_address_model(addr.deep_view()),
        r.1.deep_view() == first_name_model(addr.deep_view()),
{
    match addr {
        None => (None, None),
        Some(l) => {
            if l.len() > 0 {
                let first = &l[0];
                (
                    match &first.address {
                        Some(a) => Some(a.clone()),
                        None => None,
                    },
                    match &first.name {
                        Some(n) => Some(n.clone()),
                        None => None,
                    },
                )
            } else {
                (None, None)
            }
        },
    }
}

/// One address rendered for display: `Name <email>` when a non-empty
/// display name is present, the bare email otherwise; a missing email is
/// rendered as the empty string.
pub open spec fn addr_entry(a: AddrView) -> Seq<char> {
    let email = match a.address {
        Some(e) => e,
        None => Seq::empty(),
    };
    match a.name {
        Some(n) => if n.len() > 0 {
            n + " <"@ + email + ">"@
        } else {
            email
        },
        None => email,
    }
}

/// An address field rendered as one comma-joined display string; an absent
/// or empty field yields nothing.
pub open spec fn address_list_model(a: Option<Seq<AddrView>>) -> Option<Seq<char>> {
    match a {
        None => None,
        Some(l) => if l.len() == 0 {
            None
        } else {
            Some(join_with(l.map_values(|x: AddrView| addr_entry(x)), ", "@))
        },
    }
}

/// Render an address field as one comma-joined display string.
pub fn format_address_list(addr: &Option<Vec<MailAddr>>) -> (r: Option<String>)
    ensures
        r.deep_view() == address_list_model(addr.deep_view()),
{
    let l = match addr {
        None => {
            return None;
        },
        Some(l) => l,
    };
    if l.len() == 0 {
        return None;
    }
    let mut parts: Vec<String> = Vec::new();
    let mut i: usize = 0;
    while i < l.len()
        invariant
            i <= l@.len(),
            parts.deep_view() == l.deep_view().take(i as int).map_values(
                |x: AddrView| addr_entry(x),
            ),
        decreases l.len() - i,
    {
        let a = &l[i];
        let mut entry = String::new();
        let mut named = false;
        if let Some(n) = &a.name {
            if !n.as_str().is_empty() {
                entry.append(n.as_str());
                entry.append(" <");
                named = true;
            }
        }
        if let Some(e) = &a.address {
            entry.append(e.as_str());
        }
        if named {
            entry.append(">");
        }
        proof {
            assert(entry@ == addr_entry(l.deep_view()[i as int]));
            assert(parts.deep_view().push(entry@) =~= l.deep_view().take(i + 1 as int).map_values(
                |x: AddrView| addr_entry(x),
            ));
        }
        parts.push(entry);
        i = i + 1;
    }
    proof {
        assert(l.deep_view().take(l@.len() as int) =~= l.deep_view());
    }
    Some(join_strings(&parts, ", "))
}

/// A part's MIME type rendered as `type/subtype`, with the conventional
/// fallbacks for missing pieces.
pub open spec fn mime_type_model(p: RawPartView) -> Seq<char> {
    match p.ctype {
        None => "application/octet-stream"@,
        Some(ct) => ct + "/"@ + match p.subtype {
            Some(st) => st,
            None => "octet-stream"@,
        },
    }
}

/// A byte count reduced to the 32-bit field the record carries.
pub open spec fn size_u32(n: usize) -> u32 {
    (((n as u64) % 0x1_0000_0000) as u32)
}

/// How one attachment record must relate to the parser's part at 1-based
/// position `pos`.
pub open spec fn attachment_matches(a: ImapAttachment, p: RawPartView, pos: nat) -> bool {
    &&& a.part_id@ == dec_str(pos)
    &&& a.filename@ == match p.name {
        Some(n) => n,
        None => "attachment"@,
    }
    &&& a.mime_type@ == mime_type_model(p)
    &&& a.size == size_u32(p.size)
    &&& a.content_id.deep_view() == p.content_id
    &&& a.is_inline == (p.inline == Some(true))
}

/// Build the attachment records, numbering parts from one in the order the
/// parser yielded them.
pub fn build_attachments(parts: &Vec<RawPart>) -> (r: Vec<ImapAttachment>)
    ensures
        r@.len() == parts.deep_view().len(),
        forall|i: int|
            0 <= i < r@.len() ==> attachment_matches(
                #[trigger] r@[i],
                parts.deep_view()[i],
                (i + 1) as nat,
            ),
{
    let mut r: Vec<ImapAttachment> = Vec::new();
    let mut i: usize = 0;
    while i < parts.len()
        invariant
            i <= parts@.len(),
            r@.len() == i,
            forall|j: int|
                0 <= j < i ==> attachment_matches(
                    #[trigger] r@[j],
                    parts.deep_view()[j],
                    (j + 1) as nat,
                ),
        decreases parts.len() - i,
    {
        let p = &parts[i];
        let filename = match &p.name {
            Some(n) => n.clone(),
            None => "attachment".to_owned(),
        };
        let mime_type = match &p.ctype {
            Some(ct) => {
                let mut t = ct.clone();
                t.append("/");
                match &p.subtype {
                    Some(st) => t.append(st.as_str()),
                    None => t.append("octet-stream"),
                }
                t
            },
            None => "application/octet-stream".to_owned(),
        };
        let content_id = match &p.content_id {
            Some(c) => Some(c.clone()),
            None => None,
        };
        let is_inline = match p.inline {
            Some(b) => b,
            None => false,
        };
        let size = ((p.size as u64) % 0x1_0000_0000) as u32;
        let a = ImapAttachment {
            part_id: u64_to_string((i as u64) + 1),
            filename,
            mime_type,
            size,
            content_id,
            is_inline,
        };
        proof {
            assert(attachment_matches(a, parts.deep_view()[i as int], (i + 1) as nat));
        }
        r.push(a);
        i = i + 1;
    }
    r
}

/// How a normalized message must relate to the raw bytes and the fetch
/// metadata it was built from.
pub open spec fn is_message_for(
    m: ImapMessage,
    raw: Seq<u8>,
    uid: u32,
    folder: Seq<char>,
    raw_size: u32,
    read: bool,
    starred: bool,
    draft: bool,
) -> bool {
    &&& m.uid == uid
    &&& m.folder@ == folder
    &&& m.message_id.deep_view() == message_id_of(raw)
    &&& m.in_reply_to.deep_view() == reply_first_model(in_reply_to_of(raw))
    &&& m.references.deep_view() == references_model(references_of(raw))
    &&& m.from_address.deep_view() == first_address_model(from_of(raw))
    &&& m.from_name.deep_view() == first_name_model(from_of(raw))
    &&& m.to_addresses.deep_view() == address_list_model(to_of(raw))
    &&& m.cc_addresses.deep_view() == address_list_model(cc_of(raw))
    &&& m.bcc_addresses.deep_view() == address_list_model(bcc_of(raw))
    &&& m.reply_to.deep_view() == address_list_model(reply_to_of(raw))
    &&& m.subject.deep_view() == subject_of(raw)
    &&& m.date == match date_of(raw) {
        Some(d) => d,
        None => 0,
    }
    &&& m.is_read == read
    &&& m.is_starred == starred
    &&& m.is_draft == draft
    &&& m.body_html.deep_view() == body_html_of(raw)
    &&& m.body_text.deep_view() == body_text_of(raw)
    &&& m.snippet.deep_view() == match body_text_of(raw) {
        Some(t) => Some(snippet_of(t)),
        None => None,
    }
    &&& m.raw_size == raw_size
    &&& m.list_unsubscribe.deep_view() == header_text_model(header_of(raw, "List-Unsubscribe"@))
    &&& m.list_unsubscribe_post.deep_view() == header_text_model(
        header_of(raw, "List-Unsubscribe-Post"@),
    )
    &&& m.auth_results.deep_view() == header_text_model(header_of(raw, "Authentication-Results"@))
    &&& m.attachments@.len() == attachments_of(raw).len()
    &&& forall|i: int|
        0 <= i < m.attachments@.len() ==> attachment_matches(
            #[trigger] m.attachments@[i],
            attachments_of(raw)[i],
            (i + 1) as nat,
        )
}

/// Normalize one raw MIME message into the application's record; bytes that
/// do not parse as MIME are a per-message parse error.
pub fn parse_message(
    raw: &[u8],
    uid: u32,
    folder: &str,
    raw_size: u32,
    is_read: bool,
    is_starred: bool,
    is_draft: bool,
) -> (r: Result<ImapMessage, ImapError>)
    ensures
        r is Ok <==> mime_parses(raw@),
        r matches Err(e) ==> e matches ImapError::Parse { uid: u } && u == uid,
        r matches Ok(m) ==> is_message_for(
            m,
            raw@,
            uid,
            folder@,
            raw_size,
            is_read,
            is_starred,
            is_draft,
        ),
{
    if !mail_parse_ok(raw) {
        return Err(ImapError::Parse { uid });
    }
    let message_id = mail_message_id(raw);
    let subject = mail_subject(raw);
    let date = match mail_date_seconds(raw) {
        Some(d) => d,
        None => 0,
    };
    let in_reply_to = extract_reply_first(&mail_in_reply_to(raw));
    let references = extract_references(&mail_references(raw));
    let from = mail_from(raw);
    let (from_address, from_name) = extract_first_address(&from);
    let to_addresses = format_address_list(&mail_to(raw));
    let cc_addresses = format_address_list(&mail_cc(raw));
    let bcc_addresses = format_address_list(&mail_bcc(raw));
    let reply_to = format_address_list(&mail_reply_to(raw));
    let body_text = mail_body_text(raw);
    let body_html = mail_body_html(raw);
    let snippet = match &body_text {
        Some(t) => Some(make_snippet(t.as_str())),
        None => None,
    };
    let list_unsubscribe = extract_header_text(&mail_header(raw, "List-Unsubscribe"));
    let list_unsubscribe_post = extract_header_text(&mail_header(raw, "List-Unsubscribe-Post"));
    let auth_results = extract_header_text(&mail_header(raw, "Authentication-Results"));
    let attachments = build_attachments(&mail_attachments(raw));
    Ok(
        ImapMessage {
            uid,
            folder: folder.to_owned(),
            message_id,
            in_reply_to,
            references,
            from_address,
            from_name,
            to_addresses,
            cc_addresses,
            bcc_addresses,
            reply_to,
            subject,
            date,
            is_read,
            is_starred,
            is_draft,
            body_html,
            body_text,
            snippet,
            raw_size,
            list_unsubscribe,
            list_unsubscribe_post,
            auth_results,
            attachments,
        },
    )
}

} // verus!
