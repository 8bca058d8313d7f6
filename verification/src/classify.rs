//! Folder classification: map a folder's server-declared attributes, and
//! failing those a fixed table of well-known names, to a canonical
//! special-use tag.
use vstd::prelude::*;
use crate::text::{ascii_lower, lower_ascii, str_eq};

verus! {

/// A folder attribute reported by LIST, reduced to the special-use set;
/// every other attribute is `Other`.
#[derive(Clone, Copy, PartialEq, Eq, Structural, Debug)]
pub enum FolderAttr {
    Sent,
    Trash,
    Drafts,
    Junk,
    Archive,
    All,
    Flagged,
    Other,
}

/// A canonical special-use tag.
#[derive(Clone, Copy, PartialEq, Eq, Structural, Debug)]
pub enum SpecialUse {
    Sent,
    Trash,
    Drafts,
    Junk,
    Archive,
    All,
    Flagged,
}

/// The tag an attribute declares, when it declares one.
pub open spec fn attr_tag(a: FolderAttr) -> Option<SpecialUse> {
    match a {
        FolderAttr::Sent => Some(SpecialUse::Sent),
        FolderAttr::Trash => Some(SpecialUse::Trash),
        FolderAttr::Drafts => Some(SpecialUse::Drafts),
        FolderAttr::Junk => Some(SpecialUse::Junk),
        FolderAttr::Archive => Some(SpecialUse::Archive),
        FolderAttr::All => Some(SpecialUse::All),
        FolderAttr::Flagged => Some(SpecialUse::Flagged),
        FolderAttr::Other => None,
    }
}

/// The first attribute-declared tag, in the order the server listed them.
pub open spec fn first_attr_tag(attrs: Seq<FolderAttr>) -> Option<SpecialUse>
    decreases attrs.len(),
{
    if attrs.len() == 0 {
        None
    } else if attr_tag(attrs[0]) is Some {
        attr_tag(attrs[0])
    } else {
        first_attr_tag(attrs.drop_first())
    }
}

/// The tag the fixed name table assigns to a lowercased folder name.
pub open spec fn name_tag(lower: Seq<char>) -> Option<SpecialUse> {
    if lower == "sent"@ || lower == "sent messages"@ || lower == "sent items"@ || lower
        == "[gmail]/sent mail"@ {
        Some(SpecialUse::Sent)
    } else if lower == "trash"@ || lower == "deleted"@ || lower == "deleted items"@ || lower
        == "deleted messages"@ || lower == "[gmail]/trash"@ {
        Some(SpecialUse::Trash)
    } else if lower == "drafts"@ || lower == "draft"@ || lower == "[gmail]/drafts"@ {
        Some(SpecialUse::Drafts)
    } else if lower == "junk"@ || lower == "spam"@ || lower == "junk e-mail"@ || lower
        == "[gmail]/spam"@ {
        Some(SpecialUse::Junk)
    } else if lower == "archive"@ || lower == "archives"@ || lower == "[gmail]/all mail"@ {
        Some(SpecialUse::Archive)
    } else {
        None
    }
}

/// What classification yields: the first attribute-declared tag, and when
/// no attribute declares one, the name-table match on the ASCII-lowercased
/// server-native name.
pub open spec fn spec_classify(attrs: Seq<FolderAttr>, raw_name: Seq<char>) -> Option<SpecialUse> {
    if first_attr_tag(attrs) is Some {
        first_attr_tag(attrs)
    } else {
        name_tag(ascii_lower(raw_name))
    }
}

proof fn lemma_first_attr_skip(attrs: Seq<FolderAttr>, k: int)
    requires
        0 <= k <= attrs.len(),
        forall|j: int| 0 <= j < k ==> attr_tag(attrs[j]) is None,
    ensures
        first_attr_tag(attrs) == first_attr_tag(attrs.skip(k)),
    decreases k,
{
    if k > 0 {
        lemma_first_attr_skip(attrs.drop_first(), k - 1);
        assert(attrs.drop_first().skip(k - 1) =~= attrs.skip(k));
    } else {
        assert(attrs.skip(0) =~= attrs);
    }
}

/// Tag an attribute, when it declares a special use.
pub fn attr_special_use(a: FolderAttr) -> (r: Option<SpecialUse>)
    ensures
        r == attr_tag(a),
{
    match a {
        FolderAttr::Sent => Some(SpecialUse::Sent),
        FolderAttr::Trash => Some(SpecialUse::Trash),
        FolderAttr::Drafts => Some(SpecialUse::Drafts),
        FolderAttr::Junk => Some(SpecialUse::Junk),
        FolderAttr::Archive => Some(SpecialUse::Archive),
        FolderAttr::All => Some(SpecialUse::All),
        FolderAttr::Flagged => Some(SpecialUse::Flagged),
        FolderAttr::Other => None,
    }
}

/// Classify a folder: server-declared attributes first, then the fixed
/// table of common display names, matched without regard to ASCII case.
pub fn detect_special_use(attrs: &Vec<FolderAttr>, raw_name: &str) -> (r: Option<SpecialUse>)
    ensures
        r == spec_classify(attrs@, raw_name@),
{
    let mut i: usize = 0;
    while i < attrs.len()
        invariant
            i <= attrs.len(),
            forall|j: int| 0 <= j < i ==> attr_tag(attrs@[j]) is None,
        decreases attrs.len() - i,
    {
        let t = attr_special_use(attrs[i]);
        if t.is_some() {
            proof {
                lemma_first_attr_skip(attrs@, i as int);
                assert(attrs@.skip(i as int)[0] == attrs@[i as int]);
            }
            return t;
        }
        i = i + 1;
    }
    proof {
        lemma_first_attr_skip(attrs@, attrs@.len() as int);
        assert(attrs@.skip(attrs@.len() as int) =~= Seq::<FolderAttr>::empty());
    }
    let lower = lower_ascii(raw_name);
    let l = lower.as_str();
    if str_eq(l, "sent") || str_eq(l, "sent messages") || str_eq(l, "sent items") || str_eq(
        l,
        "[gmail]/sent mail",
    ) {
        Some(SpecialUse::Sent)
    } else if str_eq(l, "trash") || str_eq(l, "deleted") || str_eq(l, "deleted items") || str_eq(
        l,
        "deleted messages",
    ) || str_eq(l, "[gmail]/trash") {
        Some(SpecialUse::Trash)
    } else if str_eq(l, "drafts") || str_eq(l, "draft") || str_eq(l, "[gmail]/drafts") {
        Some(SpecialUse::Drafts)
    } else if str_eq(l, "junk") || str_eq(l, "spam") || str_eq(l, "junk e-mail") || str_eq(
        l,
        "[gmail]/spam",
    ) {
        Some(SpecialUse::Junk)
    } else if str_eq(l, "archive") || str_eq(l, "archives") || str_eq(l, "[gmail]/all mail") {
        Some(SpecialUse::Archive)
    } else {
        None
    }
}

/// Law: classification is a function of the attribute list and the name
/// alone — two classifications of the same folder always agree.
pub proof fn lemma_classify_idempotent(
    attrs: Seq<FolderAttr>,
    raw_name: Seq<char>,
    r1: Option<SpecialUse>,
    r2: Option<SpecialUse>,
)
    requires
        r1 == spec_classify(attrs, raw_name),
        r2 == spec_classify(attrs, raw_name),
    ensures
        r1 == r2,
{
}

impl SpecialUse {
    /// The tag's IMAP attribute spelling.
    pub open spec fn spec_tag(self) -> Seq<char> {
        match self {
            SpecialUse::Sent => "\\Sent"@,
            SpecialUse::Trash => "\\Trash"@,
            SpecialUse::Drafts => "\\Drafts"@,
            SpecialUse::Junk => "\\Junk"@,
            SpecialUse::Archive => "\\Archive"@,
            SpecialUse::All => "\\All"@,
            SpecialUse::Flagged => "\\Flagged"@,
        }
    }

    /// Render the tag as its IMAP attribute spelling.
    pub fn tag(&self) -> (r: String)
        ensures
            r@ == self.spec_tag(),
    {
        match self {
            SpecialUse::Sent => "\\Sent".to_owned(),
            SpecialUse::Trash => "\\Trash".to_owned(),
            SpecialUse::Drafts => "\\Drafts".to_owned(),
            SpecialUse::Junk => "\\Junk".to_owned(),
            SpecialUse::Archive => "\\Archive".to_owned(),
            SpecialUse::All => "\\All".to_owned(),
            SpecialUse::Flagged => "\\Flagged".to_owned(),
        }
    }
}

} // verus!
