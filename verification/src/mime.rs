//! The library's view of one raw MIME message. Every accessor here parses
//! the raw bytes with mail_parser and hands back plain values; each result
//! is a function of the raw bytes alone, so it carries a name that the
//! normalizer's contracts are stated over.
use vstd::prelude::*;
use mail_parser::{MessageParser, MimeHeaders};

verus! {

/// One mailbox entry of an address header: the bare address and the
/// display name, each optional.
pub struct MailAddr {
    pub address: Option<String>,
    pub name: Option<String>,
}

/// The mathematical value of a `MailAddr`.
pub struct AddrView {
    pub address: Option<Seq<char>>,
    pub name: Option<Seq<char>>,
}

impl View for MailAddr {
    type V = AddrView;

    open spec fn view(&self) -> AddrView {
        AddrView { address: self.address.deep_view(), name: self.name.deep_view() }
    }
}

impl DeepView for MailAddr {
    type V = AddrView;

    open spec fn deep_view(&self) -> AddrView {
        self.view()
    }
}

/// A header's textual value: absent, one string, or a list of strings.
pub enum HeaderVal {
    Absent,
    Text(String),
    TextList(Vec<String>),
}

/// The mathematical value of a `HeaderVal`.
pub enum HeaderValView {
    Absent,
    Text(Seq<char>),
    TextList(Seq<Seq<char>>),
}

impl View for HeaderVal {
    type V = HeaderValView;

    open spec fn view(&self) -> HeaderValView {
        match self {
            HeaderVal::Absent => HeaderValView::Absent,
            HeaderVal::Text(t) => HeaderValView::Text(t@),
            HeaderVal::TextList(l) => HeaderValView::TextList(l.deep_view()),
        }
    }
}

/// One attachment part as the parser reports it, before the library applies
/// its fallbacks.
pub struct RawPart {
    /// Declared file name, when one was declared.
    pub name: Option<String>,
    /// Declared content type, when one was declared.
    pub ctype: Option<String>,
    /// Declared content subtype, when one was declared.
    pub subtype: Option<String>,
    /// Size of the part's contents in bytes.
    pub size: usize,
    /// Content-ID header value, when present.
    pub content_id: Option<String>,
    /// Whether the Content-Disposition header marks the part inline;
    /// `None` when the header is absent.
    pub inline: Option<bool>,
}

/// The mathematical value of a `RawPart`.
pub struct RawPartView {
    pub name: Option<Seq<char>>,
    pub ctype: Option<Seq<char>>,
    pub subtype: Option<Seq<char>>,
    pub size: usize,
    pub content_id: Option<Seq<char>>,
    pub inline: Option<bool>,
}

impl View for RawPart {
    type V = RawPartView;

    open spec fn view(&self) -> RawPartView {
        RawPartView {
            name: self.name.deep_view(),
            ctype: self.ctype.deep_view(),
            subtype: self.subtype.deep_view(),
            size: self.size,
            content_id: self.content_id.deep_view(),
            inline: self.inline,
        }
    }
}

impl DeepView for RawPart {
    type V = RawPartView;

    open spec fn deep_view(&self) -> RawPartView {
        self.view()
    }
}

/// Whether the bytes parse as a MIME message at all.
pub uninterp spec fn mime_parses(raw: Seq<u8>) -> bool;

/// The parsed message's Message-ID header.
pub uninterp spec fn message_id_of(raw: Seq<u8>) -> Option<Seq<char>>;

/// The parsed message's Subject header.
pub uninterp spec fn subject_of(raw: Seq<u8>) -> Option<Seq<char>>;

/// The parsed message's Date header as Unix epoch seconds.
pub uninterp spec fn date_of(raw: Seq<u8>) -> Option<i64>;

/// The parsed message's In-Reply-To header value.
pub uninterp spec fn in_reply_to_of(raw: Seq<u8>) -> HeaderValView;

/// The parsed message's References header value.
pub uninterp spec fn references_of(raw: Seq<u8>) -> HeaderValView;

/// The parsed message's From address list.
pub uninterp spec fn from_of(raw: Seq<u8>) -> Option<Seq<AddrView>>;

/// The parsed message's To address list.
pub uninterp spec fn to_of(raw: Seq<u8>) -> Option<Seq<AddrView>>;

/// The parsed message's Cc address list.
pub uninterp spec fn cc_of(raw: Seq<u8>) -> Option<Seq<AddrView>>;

/// The parsed message's Bcc address list.
pub uninterp spec fn bcc_of(raw: Seq<u8>) -> Option<Seq<AddrView>>;

/// The parsed message's Reply-To address list.
pub uninterp spec fn reply_to_of(raw: Seq<u8>) -> Option<Seq<AddrView>>;

/// The parsed message's first plain-text body.
pub uninterp spec fn body_text_of(raw: Seq<u8>) -> Option<Seq<char>>;

/// The parsed message's first HTML body.
pub uninterp spec fn body_html_of(raw: Seq<u8>) -> Option<Seq<char>>;

/// The parsed message's header of the given name, as text.
pub uninterp spec fn header_of(raw: Seq<u8>, name: Seq<char>) -> HeaderValView;

/// The parsed message's attachment parts, in traversal order.
pub uninterp spec fn attachments_of(raw: Seq<u8>) -> Seq<RawPartView>;

/// Relies on mail_parser::MessageParser::parse: `None` exactly when the
/// bytes are not a parseable MIME message.
#[verifier::external_body]
pub(crate) fn mail_parse_ok(raw: &[u8]) -> (r: bool)
    ensures
        r == mime_parses(raw@),
{
    MessageParser::default().parse(raw).is_some()
}

/// Relies on mail_parser::Message::message_id.
#[verifier::external_body]
pub(crate) fn mail_message_id(raw: &[u8]) -> (r: Option<String>)
    ensures
        r.deep_view() == message_id_of(raw@),
{
    MessageParser::default().parse(raw).and_then(|m| m.message_id().map(|s| s.to_string()))
}

/// Relies on mail_parser::Message::subject.
#[verifier::external_body]
pub(crate) fn mail_subject(raw: &[u8]) -> (r: Option<String>)
    ensures
        r.deep_view() == subject_of(raw@),
{
    MessageParser::default().parse(raw).and_then(|m| m.subject().map(|s| s.to_string()))
}

/// Relies on mail_parser::Message::date and DateTime::to_timestamp.
#[verifier::external_body]
pub(crate) fn mail_date_seconds(raw: &[u8]) -> (r: Option<i64>)
    ensures
        r == date_of(raw@),
{
    MessageParser::default().parse(raw).and_then(|m| m.date().map(|d| d.to_timestamp()))
}

/// Relies on mail_parser::Message::in_reply_to.
#[verifier::external_body]
pub(crate) fn mail_in_reply_to(raw: &[u8]) -> (r: HeaderVal)
    ensures
        r@ == in_reply_to_of(raw@),
{
    match MessageParser::default().parse(raw) {
        None => HeaderVal::Absent,
        Some(m) => match m.in_reply_to() {
            mail_parser::HeaderValue::Text(t) => HeaderVal::Text(t.to_string()),
            mail_parser::HeaderValue::TextList(l) => HeaderVal::TextList(
                l.iter().map(|s| s.to_string()).collect(),
            ),
            _ => HeaderVal::Absent,
        },
    }
}

/// Relies on mail_parser::Message::references.
#[verifier::external_body]
pub(crate) fn mail_references(raw: &[u8]) -> (r: HeaderVal)
    ensures
        r@ == references_of(raw@),
{
    match MessageParser::default().parse(raw) {
        None => HeaderVal::Absent,
        Some(m) => match m.references() {
            mail_parser::HeaderValue::Text(t) => HeaderVal::Text(t.to_string()),
            mail_parser::HeaderValue::TextList(l) => HeaderVal::TextList(
                l.iter().map(|s| s.to_string()).collect(),
            ),
            _ => HeaderVal::Absent,
        },
    }
}

/// Relies on mail_parser::Message::from and Address::iter.
#[verifier::external_body]
pub(crate) fn mail_from(raw: &[u8]) -> (r: Option<Vec<MailAddr>>)
    ensures
        r.deep_view() == from_of(raw@),
{
    MessageParser::default().parse(raw).and_then(|m| m.from().map(|a| a.iter().map(|x| MailAddr {
        address: x.address.as_ref().map(|s| s.to_string()),
        name: x.name.as_ref().map(|s| s.to_string()),
    }).collect()))
}

/// Relies on mail_parser::Message::to and Address::iter.
#[verifier::external_body]
pub(crate) fn mail_to(raw: &[u8]) -> (r: Option<Vec<MailAddr>>)
    ensures
        r.deep_view() == to_of(raw@),
{
    MessageParser::default().parse(raw).and_then(|m| m.to().map(|a| a.iter().map(|x| MailAddr {
        address: x.address.as_ref().map(|s| s.to_string()),
        name: x.name.as_ref().map(|s| s.to_string()),
    }).collect()))
}

/// Relies on mail_parser::Message::cc and Address::iter.
#[verifier::external_body]
pub(crate) fn mail_cc(raw: &[u8]) -> (r: Option<Vec<MailAddr>>)
    ensures
        r.deep_view() == cc_of(raw@),
{
    MessageParser::default().parse(raw).and_then(|m| m.cc().map(|a| a.iter().map(|x| MailAddr {
        address: x.address.as_ref().map(|s| s.to_string()),
        name: x.name.as_ref().map(|s| s.to_string()),
    }).collect()))
}

/// Relies on mail_parser::Message::bcc and Address::iter.
#[verifier::external_body]
pub(crate) fn mail_bcc(raw: &[u8]) -> (r: Option<Vec<MailAddr>>)
    ensures
        r.deep_view() == bcc_of(raw@),
{
    MessageParser::default().parse(raw).and_then(|m| m.bcc().map(|a| a.iter().map(|x| MailAddr {
        address: x.address.as_ref().map(|s| s.to_string()),
        name: x.name.as_ref().map(|s| s.to_string()),
    }).collect()))
}

/// Relies on mail_parser::Message::reply_to and Address::iter.
#[verifier::external_body]
pub(crate) fn mail_reply_to(raw: &[u8]) -> (r: Option<Vec<MailAddr>>)
    ensures
        r.deep_view() == reply_to_of(raw@),
{
    MessageParser::default().parse(raw).and_then(|m| m.reply_to().map(|a| a.iter().map(
        |x| MailAddr {
            address: x.address.as_ref().map(|s| s.to_string()),
            name: x.name.as_ref().map(|s| s.to_string()),
        },
    ).collect()))
}

/// Relies on mail_parser::Message::body_text for the first text body.
#[verifier::external_body]
pub(crate) fn mail_body_text(raw: &[u8]) -> (r: Option<String>)
    ensures
        r.deep_view() == body_text_of(raw@),
{
    MessageParser::default().parse(raw).and_then(|m| m.body_text(0).map(|s| s.to_string()))
}

/// Relies on mail_parser::Message::body_html for the first HTML body.
#[verifier::external_body]
pub(crate) fn mail_body_html(raw: &[u8]) -> (r: Option<String>)
    ensures
        r.deep_view() == body_html_of(raw@),
{
    MessageParser::default().parse(raw).and_then(|m| m.body_html(0).map(|s| s.to_string()))
}

/// Relies on mail_parser::Message::header looked up by header name; a
/// header the parser reads as addresses (such as List-Unsubscribe) is
/// reduced to the list of its address strings.
#[verifier::external_body]
pub(crate) fn mail_header<'a>(raw: &'a [u8], name: &'a str) -> (r: HeaderVal)
    ensures
        r@ == header_of(raw@, name@),
{
    match MessageParser::default().parse(raw) {
        None => HeaderVal::Absent,
        Some(m) => match m.header(name) {
            Some(mail_parser::HeaderValue::Text(t)) => HeaderVal::Text(t.to_string()),
            Some(mail_parser::HeaderValue::TextList(l)) => HeaderVal::TextList(
                l.iter().map(|s| s.to_string()).collect(),
            ),
            Some(mail_parser::HeaderValue::Address(a)) => HeaderVal::TextList(
                a.iter().map(|x| x.address.as_deref().unwrap_or("").to_string()).collect(),
            ),
            _ => HeaderVal::Absent,
        },
    }
}

/// Relies on mail_parser::Message::attachments and the MimeHeaders
/// accessors of each part: declared name, content type, content id,
/// disposition, and the part's byte length.
#[verifier::external_body]
pub(crate) fn mail_attachments(raw: &[u8]) -> (r: Vec<RawPart>)
    ensures
        r.deep_view() == attachments_of(raw@),
{
    match MessageParser::default().parse(raw) {
        None => Vec::new(),
        Some(m) => m.attachments().map(|a| RawPart {
            name: a.attachment_name().map(|s| s.to_string()),
            ctype: a.content_type().map(|c| c.ctype().to_string()),
            subtype: a.content_type().and_then(|c| c.subtype().map(|s| s.to_string())),
            size: a.len(),
            content_id: a.content_id().map(|s| s.to_string()),
            inline: a.content_disposition().map(|d| d.is_inline()),
        }).collect(),
    }
}

} // verus!
