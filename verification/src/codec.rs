//! Encoding calls the command layer leans on: standard base64 for binary
//! part payloads, and modified UTF-7 decoding for folder display names.
//! The decoder is only called on names the library has first checked, so a
//! malformed or adversarial mailbox name can never abort a listing.
use vstd::prelude::*;
use base64::Engine;

verus! {

/// The standard, padded base64 rendering of a byte sequence.
pub uninterp spec fn base64_of(data: Seq<u8>) -> Seq<char>;

/// The display text a modified UTF-7 mailbox name decodes to.
pub uninterp spec fn utf7_decoded(raw: Seq<char>) -> Seq<char>;

/// Relies on base64::engine::general_purpose::STANDARD.encode: the padded
/// standard base64 alphabet, four output characters for every three input
/// bytes.
#[verifier::external_body]
pub(crate) fn base64_encode(data: &[u8]) -> (r: String)
    ensures
        r@ == base64_of(data@),
        r@.len() == 4 * ((data@.len() + 2) / 3),
{
    base64::engine::general_purpose::STANDARD.encode(data)
}

/// The value of a character in the base64 alphabet the decoder accepts
/// inside a `&`-section; a comma stands for a slash in the mailbox naming
/// convention. Characters outside the alphabet get a negative value.
pub open spec fn b64_char_val(c: char) -> int {
    let u = c as u32;
    if 65 <= u && u <= 90 {
        u - 65
    } else if 97 <= u && u <= 122 {
        u - 97 + 26
    } else if 48 <= u && u <= 57 {
        u - 48 + 52
    } else if u == 43 {
        62
    } else if u == 47 || u == 44 {
        63
    } else {
        -1
    }
}

/// Whether one encoded section between `&` and `-` decodes cleanly: every
/// character from the accepted alphabet, a length the padding rules allow,
/// and no stray bits in the final symbol.
pub open spec fn section_ok(t: Seq<char>) -> bool {
    t.len() == 0 || {
        &&& forall|i: int| 0 <= i < t.len() ==> b64_char_val(#[trigger] t[i]) >= 0
        &&& t.len() % 4 != 1
        &&& (t.len() % 4 == 2 ==> b64_char_val(t[t.len() - 1]) % 16 == 0)
        &&& (t.len() % 4 == 3 ==> b64_char_val(t[t.len() - 1]) % 4 == 0)
    }
}

/// The position of the first dash in the sequence, when there is one.
pub open spec fn first_dash(s: Seq<char>) -> Option<int>
    decreases s.len(),
{
    if s.len() == 0 {
        None
    } else if s[0] == '-' {
        Some(0int)
    } else {
        match first_dash(s.drop_first()) {
            None => None,
            Some(j) => Some(j + 1),
        }
    }
}

proof fn lemma_first_dash_bounds(s: Seq<char>)
    ensures
        first_dash(s) matches Some(j) ==> 0 <= j < s.len() && s[j] == '-',
    decreases s.len(),
{
    if s.len() > 0 && s[0] != '-' {
        lemma_first_dash_bounds(s.drop_first());
    }
}

proof fn lemma_first_dash_none(s: Seq<char>)
    requires
        forall|k: int| 0 <= k < s.len() ==> s[k] != '-',
    ensures
        first_dash(s) is None,
    decreases s.len(),
{
    if s.len() > 0 {
        assert(forall|k: int| 0 <= k < s.drop_first().len() ==> s.drop_first()[k] == s[k + 1]);
        lemma_first_dash_none(s.drop_first());
    }
}

proof fn lemma_first_dash_at(s: Seq<char>, j: int)
    requires
        0 <= j < s.len(),
        s[j] == '-',
        forall|k: int| 0 <= k < j ==> s[k] != '-',
    ensures
        first_dash(s) == Some(j),
    decreases j,
{
    if j > 0 {
        assert(s[0] != '-');
        let t = s.drop_first();
        assert(forall|k: int| 0 <= k < j - 1 ==> t[k] == s[k + 1]);
        assert(t[j - 1] == s[j]);
        lemma_first_dash_at(t, j - 1);
    }
}

/// Whether every encoded section of a server-native mailbox name decodes
/// cleanly: scanning left to right, each `&` opens a section that the next
/// `-` closes, and each closed section must satisfy `section_ok`. A `&`
/// with no closing `-` is left verbatim by the decoder and is harmless.
pub open spec fn utf7_wellformed(s: Seq<char>) -> bool
    decreases s.len() via utf7_wellformed_decreases
{
    if s.len() == 0 {
        true
    } else if s[0] != '&' {
        utf7_wellformed(s.drop_first())
    } else {
        let t = s.drop_first();
        match first_dash(t) {
            None => true,
            Some(j) => section_ok(t.take(j)) && utf7_wellformed(t.skip(j + 1)),
        }
    }
}

#[via_fn]
proof fn utf7_wellformed_decreases(s: Seq<char>) {
    if s.len() > 0 && s[0] == '&' {
        lemma_first_dash_bounds(s.drop_first());
    }
}

/// Check whether the decoder accepts every encoded section of a name.
pub fn utf7_name_wellformed(s: &str) -> (r: bool)
    ensures
        r == utf7_wellformed(s@),
{
    let n = s.unicode_len();
    let mut i: usize = 0;
    proof {
        assert(s@.skip(0) =~= s@);
    }
    while i < n
        invariant
            i <= n,
            n == s@.len(),
            utf7_wellformed(s@) == utf7_wellformed(s@.skip(i as int)),
        decreases n - i,
    {
        if s.get_char(i) != '&' {
            proof {
                assert(s@.skip(i as int).drop_first() =~= s@.skip(i + 1 as int));
            }
            i = i + 1;
            continue;
        }
        // A section opens at `i`; look for the dash that closes it.
        let mut k: usize = i + 1;
        while k < n && s.get_char(k) != '-'
            invariant
                i + 1 <= k <= n,
                n == s@.len(),
                forall|p: int| i + 1 <= p < k ==> s@[p] != '-',
            decreases n - k,
        {
            k = k + 1;
        }
        let ghost t = s@.skip(i + 1 as int);
        proof {
            assert(s@.skip(i as int).drop_first() =~= t);
            assert(s@.skip(i as int)[0] == s@[i as int]);
            assert(forall|p: int| 0 <= p < t.len() ==> t[p] == s@[#[trigger] (p + i + 1)]);
        }
        if k == n {
            // No closing dash: the decoder leaves the rest verbatim.
            proof {
                lemma_first_dash_none(t);
            }
            return true;
        }
        let ghost sec = s@.subrange(i + 1 as int, k as int);
        proof {
            lemma_first_dash_at(t, k - i - 1);
            assert(t.take(k - i - 1) =~= sec);
            assert(t.skip(k - i) =~= s@.skip(k + 1 as int));
            assert(utf7_wellformed(s@.skip(i as int)) == (section_ok(sec) && utf7_wellformed(
                s@.skip(k + 1 as int),
            )));
        }
        // The section's characters sit strictly between `i` and `k`.
        let len = k - i - 1;
        if len > 0 {
            if len % 4 == 1 {
                proof {
                    assert(!section_ok(sec));
                }
                return false;
            }
            let mut p: usize = i + 1;
            while p < k
                invariant
                    i + 1 <= p <= k < n,
                    n == s@.len(),
                    sec == s@.subrange(i + 1 as int, k as int),
                    forall|q: int| i + 1 <= q < p ==> b64_char_val(#[trigger] s@[q]) >= 0,
                    utf7_wellformed(s@) == (section_ok(sec) && utf7_wellformed(
                        s@.skip(k + 1 as int),
                    )),
                decreases k - p,
            {
                if b64_sym_val(s.get_char(p)) < 0 {
                    proof {
                        assert(sec[p - i - 1] == s@[p as int]);
                        assert(!section_ok(sec));
                    }
                    return false;
                }
                p = p + 1;
            }
            let last_val = b64_sym_val(s.get_char(k - 1));
            proof {
                assert(sec[len - 1] == s@[k - 1]);
            }
            if len % 4 == 2 && last_val % 16 != 0 {
                proof {
                    assert(!section_ok(sec));
                }
                return false;
            }
            if len % 4 == 3 && last_val % 4 != 0 {
                proof {
                    assert(!section_ok(sec));
                }
                return false;
            }
            proof {
                assert forall|q: int| 0 <= q < sec.len() implies b64_char_val(
                    #[trigger] sec[q],
                ) >= 0 by {
                    assert(sec[q] == s@[q + i + 1]);
                }
                assert(section_ok(sec));
            }
        } else {
            proof {
                assert(sec =~= Seq::<char>::empty());
                assert(section_ok(sec));
            }
        }
        i = k + 1;
    }
    proof {
        assert(s@.skip(n as int) =~= Seq::<char>::empty());
    }
    true
}

/// The value of a character in the decoder's base64 alphabet; negative for
/// characters outside it.
fn b64_sym_val(c: char) -> (r: i32)
    ensures
        r == b64_char_val(c),
{
    let u = c as u32;
    if 65 <= u && u <= 90 {
        (u - 65) as i32
    } else if 97 <= u && u <= 122 {
        (u - 97 + 26) as i32
    } else if 48 <= u && u <= 57 {
        (u - 48 + 52) as i32
    } else if u == 43 {
        62
    } else if u == 47 || u == 44 {
        63
    } else {
        -1
    }
}

/// Relies on utf7_imap::decode_utf7_imap: modified UTF-7 (the mailbox
/// naming convention) decoded to display text. The decoder aborts on a
/// section its base64 step rejects, so it is only called on names that
/// `utf7_name_wellformed` accepts.
#[verifier::external_body]
pub(crate) fn utf7_decode(raw: &str) -> (r: String)
    requires
        utf7_wellformed(raw@),
    ensures
        r@ == utf7_decoded(raw@),
{
    utf7_imap::decode_utf7_imap(raw.to_owned())
}

} // verus!
