//! Assembly of command responses into the records the caller receives:
//! folder listings, folder status snapshots, fetched message batches, a
//! single fetched message, and a fetched MIME part.
use vstd::prelude::*;
use crate::classify::{FolderAttr, detect_special_use, spec_classify};
use crate::codec::{
    base64_encode, base64_of, utf7_decode, utf7_decoded, utf7_name_wellformed, utf7_wellformed,
};
use crate::flags::{MailFlag, is_draft, is_read, is_starred};
use crate::mime::mime_parses;
use crate::normalize::{is_message_for, parse_message};
use crate::types::{ImapError, ImapFetchResult, ImapFolder, ImapFolderStatus, ImapMessage};

verus! {

/// The fields a SELECT or STATUS response reports; absent counters are
/// reported as zero to the caller.
pub struct MailboxSnapshot {
    pub uid_validity: Option<u32>,
    pub uid_next: Option<u32>,
    pub exists: u32,
    pub unseen: Option<u32>,
    pub highest_modseq: Option<u64>,
}

/// One response of a UID FETCH: the UID and body when the server sent
/// them, and the reported flags.
pub struct FetchItem {
    pub uid: Option<u32>,
    pub flags: Vec<MailFlag>,
    pub body: Option<Vec<u8>>,
}

/// The mathematical value of a `FetchItem`.
pub struct FetchItemView {
    pub uid: Option<u32>,
    pub flags: Seq<MailFlag>,
    pub body: Option<Seq<u8>>,
}

impl View for FetchItem {
    type V = FetchItemView;

    open spec fn view(&self) -> FetchItemView {
        FetchItemView { uid: self.uid, flags: self.flags@, body: self.body.deep_view() }
    }
}

impl DeepView for FetchItem {
    type V = FetchItemView;

    open spec fn deep_view(&self) -> FetchItemView {
        self.view()
    }
}

/// An optional counter reduced to the zero-defaulted field.
pub open spec fn or_zero_u32(v: Option<u32>) -> u32 {
    match v {
        Some(x) => x,
        None => 0,
    }
}

/// How a folder status record must relate to the server's response fields.
pub open spec fn status_matches(r: ImapFolderStatus, s: MailboxSnapshot) -> bool {
    &&& r.uidvalidity == or_zero_u32(s.uid_validity)
    &&& r.uidnext == or_zero_u32(s.uid_next)
    &&& r.exists == s.exists
    &&& r.unseen == or_zero_u32(s.unseen)
    &&& r.highest_modseq == s.highest_modseq
}

/// Build the folder status record from a SELECT or STATUS response.
pub fn build_folder_status(s: &MailboxSnapshot) -> (r: ImapFolderStatus)
    ensures
        status_matches(r, *s),
{
    ImapFolderStatus {
        uidvalidity: match s.uid_validity {
            Some(x) => x,
            None => 0,
        },
        uidnext: match s.uid_next {
            Some(x) => x,
            None => 0,
        },
        exists: s.exists,
        unseen: match s.unseen {
            Some(x) => x,
            None => 0,
        },
        highest_modseq: s.highest_modseq,
    }
}

/// Whether a delimiter-sized window of the path starting at `i` equals the
/// delimiter.
pub open spec fn match_at(path: Seq<char>, delim: Seq<char>, i: int) -> bool {
    0 <= i && i + delim.len() <= path.len() && path.subrange(i, i + delim.len()) == delim
}

/// The last delimiter match at or below `from`, when there is one.
pub open spec fn last_match_from(path: Seq<char>, delim: Seq<char>, from: int) -> Option<int>
    decreases from + 1,
{
    if from < 0 {
        None
    } else if match_at(path, delim, from) {
        Some(from)
    } else {
        last_match_from(path, delim, from - 1)
    }
}

/// The segment after the last delimiter occurrence; the whole path when
/// the delimiter does not occur.
pub open spec fn leaf_of(path: Seq<char>, delim: Seq<char>) -> Seq<char> {
    match last_match_from(path, delim, path.len() - delim.len()) {
        Some(i) => path.skip(i + delim.len()),
        None => path,
    }
}

proof fn lemma_last_match_none(path: Seq<char>, delim: Seq<char>, from: int)
    requires
        forall|j: int| 0 <= j <= from ==> !match_at(path, delim, j),
    ensures
        last_match_from(path, delim, from) is None,
    decreases from + 1,
{
    if from >= 0 {
        lemma_last_match_none(path, delim, from - 1);
    }
}

proof fn lemma_last_match_some(path: Seq<char>, delim: Seq<char>, from: int, i: int)
    requires
        0 <= i <= from,
        match_at(path, delim, i),
        forall|j: int| i < j <= from ==> !match_at(path, delim, j),
    ensures
        last_match_from(path, delim, from) == Some(i),
    decreases from + 1,
{
    if from > i {
        lemma_last_match_some(path, delim, from - 1, i);
    }
}

/// Whether the delimiter occurs in the path at character position `i`.
fn matches_at(path: &str, delim: &str, i: usize) -> (r: bool)
    requires
        i + delim@.len() <= path@.len(),
        path@.len() <= usize::MAX,
    ensures
        r == match_at(path@, delim@, i as int),
{
    let d = delim.unicode_len();
    let mut k: usize = 0;
    while k < d
        invariant
            k <= d,
            d == delim@.len(),
            i + d <= path@.len(),
            path@.len() <= usize::MAX,
            path@.subrange(i as int, i + k as int) == delim@.subrange(0, k as int),
        decreases d - k,
    {
        if path.get_char(i + k) != delim.get_char(k) {
            proof {
                assert(path@[i + k] != delim@[k as int]);
                if path@.subrange(i as int, i + d as int) == delim@ {
                    assert(path@.subrange(i as int, i + d as int)[k as int] == delim@[k as int]);
                }
            }
            return false;
        }
        proof {
            assert(path@.subrange(i as int, i + (k + 1) as int) =~= delim@.subrange(
                0,
                (k + 1) as int,
            ));
        }
        k = k + 1;
    }
    proof {
        assert(delim@.subrange(0, d as int) =~= delim@);
        assert(path@.subrange(i as int, i + d as int) =~= delim@);
    }
    true
}

/// The display leaf of a folder path: what follows the last occurrence of
/// the delimiter, or the whole path when the delimiter does not occur.
pub fn split_leaf(path: &str, delim: &str) -> (r: String)
    ensures
        r@ == leaf_of(path@, delim@),
{
    let n = path.unicode_len();
    let d = delim.unicode_len();
    if d > n {
        proof {
            lemma_last_match_none(path@, delim@, n as int - d as int);
        }
        return path.to_owned();
    }
    if d == 0 {
        // An empty delimiter matches at the very end; the leaf is empty.
        proof {
            assert(path@.subrange(n as int, n as int) =~= delim@);
            assert(match_at(path@, delim@, n as int));
            lemma_last_match_some(path@, delim@, n as int, n as int);
            assert(path@.skip(n as int) =~= Seq::<char>::empty());
        }
        return String::new();
    }
    let mut i: usize = n - d + 1;
    while i > 0
        invariant
            i <= n - d + 1,
            d <= n,
            n == path@.len(),
            d == delim@.len(),
            forall|j: int| i <= j <= n - d ==> !match_at(path@, delim@, j),
        decreases i,
    {
        let k = i - 1;
        if matches_at(path, delim, k) {
            proof {
                lemma_last_match_some(path@, delim@, n as int - d as int, k as int);
            }
            return path.substring_char(k + d, n).to_owned();
        }
        i = k;
    }
    proof {
        lemma_last_match_none(path@, delim@, n as int - d as int);
    }
    path.to_owned()
}

/// The hierarchy delimiter to use: the reported one, or `/` when the
/// server reported none.
pub open spec fn delim_or_default(d: Option<Seq<char>>) -> Seq<char> {
    match d {
        Some(x) => x,
        None => "/"@,
    }
}

/// The display text of a server-native path: its modified UTF-7 decoding
/// when every encoded section is well formed, the path itself otherwise —
/// a malformed name degrades to its raw spelling rather than failing the
/// listing.
pub open spec fn display_path(raw: Seq<char>) -> Seq<char> {
    if utf7_wellformed(raw) {
        utf7_decoded(raw)
    } else {
        raw
    }
}

/// Assemble one listed folder: decode its server-native path for display
/// (keeping the raw spelling when the name is not well-formed modified
/// UTF-7), split off the leaf name, classify its special use, and take the
/// STATUS counts — zero when the STATUS query failed.
pub fn build_folder(
    raw_path: &str,
    delimiter: &Option<String>,
    attrs: &Vec<FolderAttr>,
    status: &Option<MailboxSnapshot>,
) -> (r: ImapFolder)
    ensures
        r.raw_path@ == raw_path@,
        r.path@ == display_path(raw_path@),
        r.delimiter@ == delim_or_default(delimiter.deep_view()),
        r.name@ == leaf_of(display_path(raw_path@), delim_or_default(delimiter.deep_view())),
        r.special_use == spec_classify(attrs@, raw_path@),
        r.exists == match *status {
            Some(s) => s.exists,
            None => 0,
        },
        r.unseen == match *status {
            Some(s) => or_zero_u32(s.unseen),
            None => 0,
        },
{
    let delim = match delimiter {
        Some(d) => d.clone(),
        None => "/".to_owned(),
    };
    let path = if utf7_name_wellformed(raw_path) {
        utf7_decode(raw_path)
    } else {
        raw_path.to_owned()
    };
    let name = split_leaf(path.as_str(), delim.as_str());
    let special_use = detect_special_use(attrs, raw_path);
    let (exists, unseen) = match status {
        Some(s) => (
            s.exists,
            match s.unseen {
                Some(u) => u,
                None => 0,
            },
        ),
        None => (0, 0),
    };
    ImapFolder {
        path,
        raw_path: raw_path.to_owned(),
        name,
        delimiter: delim,
        special_use,
        exists,
        unseen,
    }
}

/// A byte sequence's length reduced to the 32-bit size field.
pub open spec fn len_u32(b: Seq<u8>) -> u32 {
    ((b.len() % 0x1_0000_0000) as u32)
}

/// Whether a fetch response carries everything a message record needs: a
/// UID, a body, and a body that parses as MIME.
pub open spec fn item_kept(it: FetchItemView) -> bool {
    &&& it.uid is Some
    &&& it.body is Some
    &&& mime_parses(it.body->Some_0)
}

/// The fetch responses that yield message records, in order.
pub open spec fn kept_items(items: Seq<FetchItemView>) -> Seq<FetchItemView> {
    items.filter(|it: FetchItemView| item_kept(it))
}

/// How one message record must relate to the fetch response it came from.
pub open spec fn msg_matches_item(m: ImapMessage, it: FetchItemView, folder: Seq<char>) -> bool {
    match (it.uid, it.body) {
        (Some(uid), Some(b)) => is_message_for(
            m,
            b,
            uid,
            folder,
            len_u32(b),
            it.flags.contains(MailFlag::Seen),
            it.flags.contains(MailFlag::Flagged),
            it.flags.contains(MailFlag::Draft),
        ),
        _ => false,
    }
}

/// Assemble a UID FETCH batch: every response that carries a UID and a
/// parseable body becomes a message record, in order; the rest are
/// skipped, never failing the batch.
pub fn assemble_fetch_result(folder: &str, snap: &MailboxSnapshot, items: &Vec<FetchItem>) -> (r:
    ImapFetchResult)
    ensures
        status_matches(r.folder_status, *snap),
        r.messages@.len() == kept_items(items.deep_view()).len(),
        forall|i: int|
            0 <= i < r.messages@.len() ==> msg_matches_item(
                #[trigger] r.messages@[i],
                kept_items(items.deep_view())[i],
                folder@,
            ),
{
    let folder_status = build_folder_status(snap);
    let mut messages: Vec<ImapMessage> = Vec::new();
    let mut i: usize = 0;
    proof {
        reveal(Seq::filter);
        assert(kept_items(items.deep_view().take(0)) =~= Seq::<FetchItemView>::empty());
    }
    while i < items.len()
        invariant
            i <= items@.len(),
            messages@.len() == kept_items(items.deep_view().take(i as int)).len(),
            forall|j: int|
                0 <= j < messages@.len() ==> msg_matches_item(
                    #[trigger] messages@[j],
                    kept_items(items.deep_view().take(i as int))[j],
                    folder@,
                ),
        decreases items.len() - i,
    {
        let ghost dv = items.deep_view();
        proof {
            reveal(Seq::filter);
            assert(dv.take(i + 1 as int).drop_last() =~= dv.take(i as int));
            assert(dv.take(i + 1 as int).last() == dv[i as int]);
            assert(items.deep_view()[i as int] == items@[i as int]@);
        }
        let it = &items[i];
        if let Some(uid) = it.uid {
            if let Some(body) = &it.body {
                let read = is_read(&it.flags);
                let starred = is_starred(&it.flags);
                let draft = is_draft(&it.flags);
                let size = (((body.len() as u64) % 0x1_0000_0000) as u32);
                proof {
                    assert(body.deep_view() =~= body@);
                    assert(dv[i as int].body == Some(body@));
                }
                match parse_message(body.as_slice(), uid, folder, size, read, starred, draft) {
                    Ok(m) => {
                        proof {
                            assert(item_kept(dv[i as int]));
                            assert(kept_items(dv.take(i + 1 as int)) =~= kept_items(
                                dv.take(i as int),
                            ).push(dv[i as int]));
                            assert(msg_matches_item(m, dv[i as int], folder@));
                        }
                        messages.push(m);
                    },
                    Err(_) => {
                        proof {
                            assert(!item_kept(dv[i as int]));
                            assert(kept_items(dv.take(i + 1 as int)) =~= kept_items(
                                dv.take(i as int),
                            ));
                        }
                    },
                }
            } else {
                proof {
                    assert(!item_kept(dv[i as int]));
                    assert(kept_items(dv.take(i + 1 as int)) =~= kept_items(dv.take(i as int)));
                }
            }
        } else {
            proof {
                assert(!item_kept(dv[i as int]));
                assert(kept_items(dv.take(i + 1 as int)) =~= kept_items(dv.take(i as int)));
            }
        }
        i = i + 1;
    }
    proof {
        assert(items.deep_view().take(items@.len() as int) =~= items.deep_view());
    }
    ImapFetchResult { messages, folder_status }
}

/// Decode a single-UID fetch: no response or no body is a not-found error
/// naming the UID and folder; otherwise the first response's body is
/// normalized under the requested UID.
pub fn decode_fetched(folder: &str, uid: u32, items: &Vec<FetchItem>) -> (r: Result<
    ImapMessage,
    ImapError,
>)
    ensures
        items@.len() == 0 ==> (r matches Err(e) && e matches ImapError::NotFound {
            folder: f,
            uid: u,
            part,
        } && f@ == folder@ && u == uid && part is None),
        items@.len() > 0 && items@[0]@.body is None ==> (r matches Err(e)
            && e matches ImapError::NotFound { folder: f, uid: u, part } && f@ == folder@ && u
            == uid && part is None),
        items@.len() > 0 && items@[0]@.body is Some ==> {
            let b = items@[0]@.body->Some_0;
            &&& (r is Ok <==> mime_parses(b))
            &&& (r matches Err(e) ==> (e matches ImapError::Parse { uid: u } && u == uid))
            &&& (r matches Ok(m) ==> is_message_for(
                m,
                b,
                uid,
                folder@,
                len_u32(b),
                items@[0]@.flags.contains(MailFlag::Seen),
                items@[0]@.flags.contains(MailFlag::Flagged),
                items@[0]@.flags.contains(MailFlag::Draft),
            ))
        },
{
    if items.len() == 0 {
        return Err(
            ImapError::NotFound { folder: folder.to_owned(), uid, part: None },
        );
    }
    let it = &items[0];
    let body = match &it.body {
        Some(b) => b,
        None => {
            return Err(
                ImapError::NotFound { folder: folder.to_owned(), uid, part: None },
            );
        },
    };
    let read = is_read(&it.flags);
    let starred = is_starred(&it.flags);
    let draft = is_draft(&it.flags);
    let size = (((body.len() as u64) % 0x1_0000_0000) as u32);
    proof {
        assert(body.deep_view() =~= body@);
        assert(items@[0]@.body == Some(body@));
    }
    parse_message(body.as_slice(), uid, folder, size, read, starred, draft)
}

/// Encode a fetched MIME part for the caller: no response or no body data
/// is a not-found error naming the UID, folder and part; otherwise the
/// first response's body, base64 encoded.
pub fn encode_attachment_part(folder: &str, uid: u32, part_id: &str, items: &Vec<FetchItem>) -> (r:
    Result<String, ImapError>)
    ensures
        r is Ok <==> items@.len() > 0 && items@[0]@.body is Some,
        r matches Ok(s) ==> s@ == base64_of(items@[0]@.body->Some_0),
        r matches Err(e) ==> (e matches ImapError::NotFound { folder: f, uid: u, part } && f@
            == folder@ && u == uid && (part matches Some(p) && p@ == part_id@)),
{
    if items.len() == 0 {
        return Err(
            ImapError::NotFound { folder: folder.to_owned(), uid, part: Some(part_id.to_owned()) },
        );
    }
    match &items[0].body {
        Some(b) => {
            proof {
                assert(b.deep_view() =~= b@);
                assert(items@[0]@.body == Some(b@));
            }
            Ok(base64_encode(b.as_slice()))
        },
        None => Err(
            ImapError::NotFound { folder: folder.to_owned(), uid, part: Some(part_id.to_owned()) },
        ),
    }
}

} // verus!
