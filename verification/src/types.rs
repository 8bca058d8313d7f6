//! The plain data records this library produces and consumes: connection
//! configuration, folders, folder status, messages, attachments, fetch
//! results, and the closed error taxonomy.
use vstd::prelude::*;
use crate::classify::SpecialUse;

verus! {

/// One connection attempt's settings, supplied once by the caller.
pub struct ImapConfig {
    pub host: String,
    pub port: u16,
    /// `"tls"`, `"starttls"` or `"none"`.
    pub security: String,
    /// `"password"` or `"oauth2"`.
    pub auth_method: String,
    pub username: String,
    /// The password, or the OAuth2 access token.
    pub password: String,
}

/// The closed error taxonomy: callers branch on the kind, not on text.
#[derive(Debug)]
pub enum ImapError {
    /// An invalid configuration value, such as an unknown security mode.
    Config { detail: String },
    /// TCP, TLS or STARTTLS negotiation failure, with the failing stage.
    Transport { stage: String, host: String, detail: String },
    /// LOGIN or XOAUTH2 rejection.
    Auth { method: String, detail: String },
    /// An IMAP command returned a negative response.
    Protocol { command: String, detail: String },
    /// A requested UID or MIME part was absent from the server's response.
    NotFound { folder: String, uid: u32, part: Option<String> },
    /// One message's MIME structure could not be parsed.
    Parse { uid: u32 },
}

/// One mailbox as reported by LIST, with its STATUS counts.
pub struct ImapFolder {
    /// Display path, decoded from the server's modified UTF-7.
    pub path: String,
    /// Server-native path, used verbatim in IMAP commands.
    pub raw_path: String,
    /// Last segment of the display path.
    pub name: String,
    /// Hierarchy delimiter reported by the server.
    pub delimiter: String,
    /// Canonical special-use tag, when one applies.
    pub special_use: Option<SpecialUse>,
    /// Number of messages in the mailbox.
    pub exists: u32,
    /// Number of unseen messages.
    pub unseen: u32,
}

/// A folder's STATUS/SELECT snapshot.
pub struct ImapFolderStatus {
    pub uidvalidity: u32,
    pub uidnext: u32,
    pub exists: u32,
    pub unseen: u32,
    pub highest_modseq: Option<u64>,
}

/// One attachment's metadata inside a fetched message.
pub struct ImapAttachment {
    /// 1-based position among the message's attachments.
    pub part_id: String,
    pub filename: String,
    pub mime_type: String,
    pub size: u32,
    pub content_id: Option<String>,
    pub is_inline: bool,
}

/// One fetched message, normalized into plain application data.
pub struct ImapMessage {
    pub uid: u32,
    pub folder: String,
    pub message_id: Option<String>,
    pub in_reply_to: Option<String>,
    pub references: Option<String>,
    pub from_address: Option<String>,
    pub from_name: Option<String>,
    pub to_addresses: Option<String>,
    pub cc_addresses: Option<String>,
    pub bcc_addresses: Option<String>,
    pub reply_to: Option<String>,
    pub subject: Option<String>,
    /// Unix epoch seconds; zero when the date is absent or unparseable.
    pub date: i64,
    pub is_read: bool,
    pub is_starred: bool,
    pub is_draft: bool,
    pub body_html: Option<String>,
    pub body_text: Option<String>,
    pub snippet: Option<String>,
    pub raw_size: u32,
    pub list_unsubscribe: Option<String>,
    pub list_unsubscribe_post: Option<String>,
    pub auth_results: Option<String>,
    pub attachments: Vec<ImapAttachment>,
}

/// The messages of one UID FETCH together with the folder status observed
/// at selection time.
pub struct ImapFetchResult {
    pub messages: Vec<ImapMessage>,
    pub folder_status: ImapFolderStatus,
}

impl ImapError {
    /// Build a protocol-command error.
    pub fn protocol(command: &str, detail: &str) -> (r: ImapError)
        ensures
            r matches ImapError::Protocol { command: c, detail: d } && c@ == command@ && d@
                == detail@,
    {
        ImapError::Protocol { command: command.to_owned(), detail: detail.to_owned() }
    }

    /// Build a transport-stage error.
    pub fn transport(stage: &str, host: &str, detail: &str) -> (r: ImapError)
        ensures
            r matches ImapError::Transport { stage: s, host: h, detail: d } && s@ == stage@ && h@
                == host@ && d@ == detail@,
    {
        ImapError::Transport {
            stage: stage.to_owned(),
            host: host.to_owned(),
            detail: detail.to_owned(),
        }
    }

    /// Build an authentication error.
    pub fn auth(method: &str, detail: &str) -> (r: ImapError)
        ensures
            r matches ImapError::Auth { method: m, detail: d } && m@ == method@ && d@ == detail@,
    {
        ImapError::Auth { method: method.to_owned(), detail: detail.to_owned() }
    }
}

} // verus!
