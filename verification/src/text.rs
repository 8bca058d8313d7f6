//! Character and string helpers shared by the rest of the library:
//! whitespace classification, ASCII lowercasing, string equality, joining,
//! snippet derivation, and decimal formatting of integers.
use vstd::prelude::*;

verus! {

/// Relies on alloc::string::String::push: appends the character to the end
/// of the string.
pub assume_specification[ String::push ](s: &mut String, c: char)
    ensures
        final(s)@ == old(s)@.push(c),
;

/// The characters that count as whitespace (the Unicode White_Space set).
pub open spec fn is_space(c: char) -> bool {
    let u = c as u32;
    u == 9 || u == 10 || u == 11 || u == 12 || u == 13 || u == 32 || u == 0x85 || u == 0xA0
        || u == 0x1680 || (0x2000 <= u && u <= 0x200A) || u == 0x2028 || u == 0x2029
        || u == 0x202F || u == 0x205F || u == 0x3000
}

pub fn is_space_char(c: char) -> (r: bool)
    ensures
        r == is_space(c),
{
    let u = c as u32;
    u == 9 || u == 10 || u == 11 || u == 12 || u == 13 || u == 32 || u == 0x85 || u == 0xA0
        || u == 0x1680 || (0x2000 <= u && u <= 0x200A) || u == 0x2028 || u == 0x2029
        || u == 0x202F || u == 0x205F || u == 0x3000
}

/// ASCII lowercase of one character; other characters are unchanged.
pub open spec fn lower_char(c: char) -> char {
    if 65 <= c as u32 && c as u32 <= 90 {
        ((c as u32 + 32) as u8) as char
    } else {
        c
    }
}

pub fn to_lower_char(c: char) -> (r: char)
    ensures
        r == lower_char(c),
{
    let u = c as u32;
    if 65 <= u && u <= 90 {
        ((u + 32) as u8) as char
    } else {
        c
    }
}

/// ASCII lowercase of a character sequence.
pub open spec fn ascii_lower(s: Seq<char>) -> Seq<char> {
    s.map_values(|c: char| lower_char(c))
}

/// Lowercase the ASCII letters of a string, leaving other characters alone.
pub fn lower_ascii(s: &str) -> (r: String)
    ensures
        r@ == ascii_lower(s@),
{
    let n = s.unicode_len();
    let mut r = String::new();
    let mut i: usize = 0;
    while i < n
        invariant
            i <= n,
            n == s@.len(),
            r@ == ascii_lower(s@.take(i as int)),
        decreases n - i,
    {
        r.push(to_lower_char(s.get_char(i)));
        i = i + 1;
        proof {
            assert(r@ =~= ascii_lower(s@.take(i as int)));
        }
    }
    proof {
        assert(s@.take(n as int) =~= s@);
    }
    r
}

/// Character-wise string equality.
pub fn str_eq(a: &str, b: &str) -> (r: bool)
    ensures
        r == (a@ == b@),
{
    let na = a.unicode_len();
    let nb = b.unicode_len();
    if na != nb {
        proof {
            assert(a@ != b@);
        }
        return false;
    }
    let mut i: usize = 0;
    while i < na
        invariant
            i <= na,
            na == a@.len(),
            na == b@.len(),
            a@.take(i as int) == b@.take(i as int),
        decreases na - i,
    {
        if a.get_char(i) != b.get_char(i) {
            proof {
                assert(a@[i as int] != b@[i as int]);
            }
            return false;
        }
        proof {
            assert(a@.take(i + 1 as int) =~= b@.take(i + 1 as int));
        }
        i = i + 1;
    }
    proof {
        assert(a@ =~= a@.take(na as int));
        assert(b@ =~= b@.take(na as int));
    }
    true
}

/// The parts joined with the separator between consecutive parts.
pub open spec fn join_with(parts: Seq<Seq<char>>, sep: Seq<char>) -> Seq<char>
    decreases parts.len(),
{
    if parts.len() == 0 {
        Seq::empty()
    } else if parts.len() == 1 {
        parts[0]
    } else {
        parts[0] + sep + join_with(parts.drop_first(), sep)
    }
}

proof fn lemma_join_push(parts: Seq<Seq<char>>, sep: Seq<char>, x: Seq<char>)
    ensures
        join_with(parts.push(x), sep) == if parts.len() == 0 {
            x
        } else {
            join_with(parts, sep) + sep + x
        },
    decreases parts.len(),
{
    if parts.len() == 0 {
        assert(parts.push(x).len() == 1);
        assert(join_with(parts.push(x), sep) == parts.push(x)[0]);
    } else if parts.len() == 1 {
        assert(parts.push(x).drop_first() =~= seq![x]);
        assert(join_with(seq![x], sep) == seq![x][0]);
        assert(seq![x][0] == x);
        assert(parts.push(x)[0] == parts[0]);
        assert(join_with(parts.push(x), sep) == parts[0] + sep + x);
        assert(join_with(parts, sep) + sep + x == parts[0] + sep + x);
    } else {
        lemma_join_push(parts.drop_first(), sep, x);
        assert(parts.push(x).drop_first() =~= parts.drop_first().push(x));
        assert(join_with(parts, sep) + sep + x =~= parts[0] + sep + (join_with(
            parts.drop_first(),
            sep,
        ) + sep + x));
    }
}

/// Join the strings with the separator between consecutive entries.
pub fn join_strings(parts: &Vec<String>, sep: &str) -> (r: String)
    ensures
        r@ == join_with(parts.deep_view(), sep@),
{
    let mut r = String::new();
    let mut i: usize = 0;
    while i < parts.len()
        invariant
            i <= parts.len(),
            r@ == join_with(parts.deep_view().take(i as int), sep@),
        decreases parts.len() - i,
    {
        if i > 0 {
            r.append(sep);
        }
        r.append(parts[i].as_str());
        proof {
            let pv = parts.deep_view();
            assert(pv.take(i + 1 as int) =~= pv.take(i as int).push(pv[i as int]));
            lemma_join_push(pv.take(i as int), sep@, pv[i as int]);
            assert(pv[i as int] == parts[i as int]@);
        }
        i = i + 1;
    }
    proof {
        assert(parts.deep_view().take(parts.len() as int) =~= parts.deep_view());
    }
    r
}

/// The decimal digit character for a value below ten.
pub open spec fn digit_char(d: int) -> char {
    ((48 + d) as u8) as char
}

/// The decimal representation of a natural number, most significant digit
/// first, with no leading zeros (a single `'0'` for zero).
pub open spec fn dec_str(n: nat) -> Seq<char>
    decreases n,
{
    if n < 10 {
        seq![digit_char(n as int)]
    } else {
        dec_str(n / 10).push(digit_char((n % 10) as int))
    }
}

/// Format a number in decimal.
pub fn u64_to_string(n: u64) -> (r: String)
    ensures
        r@ == dec_str(n as nat),
    decreases n,
{
    if n < 10 {
        let mut r = String::new();
        r.push(((48 + n) as u8) as char);
        proof {
            assert(r@ =~= seq![digit_char(n as int)]);
        }
        r
    } else {
        let mut r = u64_to_string(n / 10);
        r.push(((48 + (n % 10)) as u8) as char);
        r
    }
}

/// Whitespace characters replaced by plain spaces, other characters kept.
pub open spec fn clean_char(c: char) -> char {
    if is_space(c) {
        ' '
    } else {
        c
    }
}

/// Every whitespace character of the sequence replaced by a plain space.
pub open spec fn cleaned(s: Seq<char>) -> Seq<char> {
    s.map_values(|c: char| clean_char(c))
}

/// Every run of consecutive spaces reduced to a single space (the run's
/// last one).
pub open spec fn collapse_spaces(s: Seq<char>) -> Seq<char>
    decreases s.len(),
{
    if s.len() <= 1 {
        s
    } else if s[0] == ' ' && s[1] == ' ' {
        collapse_spaces(s.drop_first())
    } else {
        seq![s[0]] + collapse_spaces(s.drop_first())
    }
}

proof fn lemma_collapse_push(s: Seq<char>, x: char)
    ensures
        collapse_spaces(s.push(x)) == if s.len() > 0 && s.last() == ' ' && x == ' ' {
            collapse_spaces(s)
        } else {
            collapse_spaces(s).push(x)
        },
    decreases s.len(),
{
    let p = s.push(x);
    if s.len() == 0 {
        assert(p =~= seq![x]);
        assert(collapse_spaces(s).push(x) =~= seq![x]);
    } else if s.len() == 1 {
        assert(p.len() == 2);
        assert(p.drop_first() =~= seq![x]);
        assert(collapse_spaces(seq![x]) == seq![x]);
        if s[0] == ' ' && x == ' ' {
            assert(collapse_spaces(p) =~= seq![x]);
            assert(collapse_spaces(s) =~= seq![x]);
        } else {
            assert(collapse_spaces(p) =~= seq![s[0]] + seq![x]);
            assert(collapse_spaces(s).push(x) =~= seq![s[0]] + seq![x]);
        }
    } else {
        assert(p.drop_first() =~= s.drop_first().push(x));
        lemma_collapse_push(s.drop_first(), x);
        assert(s.drop_first().last() == s.last());
        assert(p[0] == s[0]);
        assert(p[1] == s[1]);
        if s.last() == ' ' && x == ' ' {
            assert(collapse_spaces(p.drop_first()) == collapse_spaces(s.drop_first()));
        } else {
            assert(collapse_spaces(p.drop_first()) == collapse_spaces(s.drop_first()).push(x));
            if !(s[0] == ' ' && s[1] == ' ') {
                assert(seq![s[0]] + collapse_spaces(s.drop_first()).push(x) =~= (seq![s[0]]
                    + collapse_spaces(s.drop_first())).push(x));
            }
        }
    }
}

proof fn lemma_collapse_space_chars(s: Seq<char>)
    requires
        forall|i: int| 0 <= i < s.len() && is_space(#[trigger] s[i]) ==> s[i] == ' ',
    ensures
        forall|i: int|
            0 <= i < collapse_spaces(s).len() && is_space(#[trigger] collapse_spaces(s)[i])
                ==> collapse_spaces(s)[i] == ' ',
    decreases s.len(),
{
    let r = collapse_spaces(s);
    if s.len() <= 1 {
        assert forall|i: int| 0 <= i < r.len() && is_space(#[trigger] r[i]) implies r[i]
            == ' ' by {
            assert(r[i] == s[i]);
        }
    } else {
        let d = s.drop_first();
        assert(forall|i: int| 0 <= i < d.len() ==> #[trigger] d[i] == s[i + 1]);
        lemma_collapse_space_chars(d);
        let rd = collapse_spaces(d);
        assert forall|i: int| 0 <= i < r.len() && is_space(#[trigger] r[i]) implies r[i]
            == ' ' by {
            if s[0] == ' ' && s[1] == ' ' {
                assert(r[i] == rd[i]);
            } else if i == 0 {
                assert(r[0] == s[0]);
            } else {
                assert(r[i] == rd[i - 1]);
            }
        }
    }
}

/// The sequence with its leading spaces removed.
pub open spec fn ltrim(s: Seq<char>) -> Seq<char>
    decreases s.len(),
{
    if s.len() > 0 && s[0] == ' ' {
        ltrim(s.drop_first())
    } else {
        s
    }
}

/// The sequence with its trailing spaces removed.
pub open spec fn rtrim(s: Seq<char>) -> Seq<char>
    decreases s.len(),
{
    if s.len() > 0 && s[s.len() - 1] == ' ' {
        rtrim(s.drop_last())
    } else {
        s
    }
}

/// The sequence with leading and trailing spaces removed.
pub open spec fn trim_spaces(s: Seq<char>) -> Seq<char> {
    rtrim(ltrim(s))
}

proof fn lemma_ltrim_skip(s: Seq<char>, k: int)
    requires
        0 <= k <= s.len(),
        forall|j: int| 0 <= j < k ==> s[j] == ' ',
        k == s.len() || s[k] != ' ',
    ensures
        ltrim(s) =~= s.skip(k),
    decreases k,
{
    if k == 0 {
        assert(s.skip(0) =~= s);
    } else {
        assert(s[0] == ' ');
        let t = s.drop_first();
        assert(forall|j: int| 0 <= j < k - 1 ==> t[j] == ' ');
        lemma_ltrim_skip(t, k - 1);
        assert(t.skip(k - 1) =~= s.skip(k));
    }
}

proof fn lemma_rtrim_take(s: Seq<char>, k: int)
    requires
        0 <= k <= s.len(),
        forall|j: int| k <= j < s.len() ==> s[j] == ' ',
        k == 0 || s[k - 1] != ' ',
    ensures
        rtrim(s) =~= s.take(k),
    decreases s.len() - k,
{
    if k == s.len() {
        assert(s.take(k) =~= s);
    } else {
        assert(s[s.len() - 1] == ' ');
        let t = s.drop_last();
        lemma_rtrim_take(t, k);
        assert(t.take(k) =~= s.take(k));
    }
}

/// How many characters a snippet may hold before it is cut short.
pub open spec fn snippet_limit() -> int {
    200
}

/// The snippet of a plain-text body: each run of whitespace collapsed to a
/// single space, surrounding whitespace removed, and the result cut to the
/// first 200 characters with a trailing ellipsis when it was longer.
pub open spec fn snippet_of(s: Seq<char>) -> Seq<char> {
    let t = trim_spaces(collapse_spaces(cleaned(s)));
    if t.len() > snippet_limit() {
        t.take(snippet_limit()) + "..."@
    } else {
        t
    }
}

/// Derive the snippet of a plain-text body.
pub fn make_snippet(text: &str) -> (r: String)
    ensures
        r@ == snippet_of(text@),
{
    let n = text.unicode_len();
    let mut c = String::new();
    let mut last_space = false;
    let mut i: usize = 0;
    proof {
        assert(cleaned(text@.take(0)) =~= Seq::<char>::empty());
    }
    while i < n
        invariant
            i <= n,
            n == text@.len(),
            c@ == collapse_spaces(cleaned(text@.take(i as int))),
            last_space == (i > 0 && is_space(text@[i - 1])),
        decreases n - i,
    {
        let ch = text.get_char(i);
        let sp = is_space_char(ch);
        proof {
            assert(cleaned(text@.take(i + 1 as int)) =~= cleaned(text@.take(i as int)).push(
                clean_char(text@[i as int]),
            ));
            lemma_collapse_push(cleaned(text@.take(i as int)), clean_char(text@[i as int]));
            assert(' ' as u32 == 32);
            assert(is_space(' '));
        }
        if sp && last_space {
            // The run already produced its space.
            proof {
                let s0 = cleaned(text@.take(i as int));
                assert(s0.last() == clean_char(text@[i - 1]));
                assert(s0.last() == ' ');
                assert(clean_char(text@[i as int]) == ' ');
            }
        } else if sp {
            proof {
                let s0 = cleaned(text@.take(i as int));
                if i > 0 {
                    assert(s0.last() == clean_char(text@[i - 1]));
                    assert(s0.last() != ' ');
                }
                assert(clean_char(text@[i as int]) == ' ');
            }
            c.push(' ');
        } else {
            proof {
                assert(ch != ' ');
                assert(clean_char(text@[i as int]) == ch);
            }
            c.push(ch);
        }
        last_space = sp;
        i = i + 1;
    }
    proof {
        assert(text@.take(n as int) =~= text@);
    }
    // c now holds the cleaned, run-collapsed text; trim it at both ends.
    let m = c.as_str().unicode_len();
    let mut lo: usize = 0;
    while lo < m && c.as_str().get_char(lo) == ' '
        invariant
            lo <= m,
            m == c@.len(),
            c@ == collapse_spaces(cleaned(text@)),
            forall|j: int| 0 <= j < lo ==> c@[j] == ' ',
        decreases m - lo,
    {
        lo = lo + 1;
    }
    proof {
        lemma_ltrim_skip(c@, lo as int);
    }
    if lo == m {
        proof {
            assert(c@.skip(lo as int) =~= Seq::<char>::empty());
            assert(rtrim(Seq::<char>::empty()) =~= Seq::<char>::empty());
        }
        let r = String::new();
        proof {
            assert(r@ =~= snippet_of(text@));
        }
        return r;
    }
    let mut hi: usize = m;
    while hi > lo && c.as_str().get_char(hi - 1) == ' '
        invariant
            lo <= hi <= m,
            m == c@.len(),
            c@ == collapse_spaces(cleaned(text@)),
            lo < m,
            c@[lo as int] != ' ',
            forall|j: int| hi <= j < m ==> c@[j] == ' ',
        decreases hi,
    {
        hi = hi - 1;
    }
    proof {
        let t = c@.skip(lo as int);
        assert(hi > lo);
        assert(t[hi - lo - 1] == c@[hi - 1]);
        assert(forall|j: int| hi - lo <= j < t.len() ==> t[j] == c@[#[trigger] (j + lo)]);
        lemma_rtrim_take(t, hi - lo);
        assert(t.take(hi - lo) =~= c@.subrange(lo as int, hi as int));
        assert(trim_spaces(collapse_spaces(cleaned(text@))) == c@.subrange(lo as int, hi as int));
    }
    if hi - lo > 200 {
        let cut = c.as_str().substring_char(lo, lo + 200);
        let mut r = cut.to_owned();
        r.append("...");
        proof {
            let t = trim_spaces(collapse_spaces(cleaned(text@)));
            assert(c@.subrange(lo as int, lo + 200 as int) =~= t.take(200));
        }
        r
    } else {
        let r = c.as_str().substring_char(lo, hi).to_owned();
        r
    }
}

proof fn lemma_ltrim_members(s: Seq<char>)
    ensures
        ltrim(s).len() <= s.len(),
        forall|i: int|
            0 <= i < ltrim(s).len() ==> ltrim(s)[i] == s[s.len() - ltrim(s).len() + i],
    decreases s.len(),
{
    if s.len() > 0 && s[0] == ' ' {
        lemma_ltrim_members(s.drop_first());
    }
}

proof fn lemma_rtrim_members(s: Seq<char>)
    ensures
        rtrim(s).len() <= s.len(),
        forall|i: int| 0 <= i < rtrim(s).len() ==> rtrim(s)[i] == s[i],
    decreases s.len(),
{
    if s.len() > 0 && s[s.len() - 1] == ' ' {
        lemma_rtrim_members(s.drop_last());
        assert forall|i: int| 0 <= i < rtrim(s).len() implies rtrim(s)[i] == s[i] by {
            assert(rtrim(s)[i] == s.drop_last()[i]);
            assert(s.drop_last()[i] == s[i]);
        }
    }
}

/// Law: a snippet never holds control whitespace — every whitespace
/// character in it is a plain space — and it is never longer than the
/// snippet limit plus the three characters of the ellipsis.
pub proof fn lemma_snippet_no_control_whitespace(s: Seq<char>)
    ensures
        forall|i: int|
            0 <= i < snippet_of(s).len() && is_space(#[trigger] snippet_of(s)[i])
                ==> snippet_of(s)[i] == ' ',
        snippet_of(s).len() <= snippet_limit() + 3,
{
    reveal_strlit("...");
    let c = cleaned(s);
    let cl = collapse_spaces(c);
    let t = trim_spaces(cl);
    lemma_ltrim_members(cl);
    lemma_rtrim_members(ltrim(cl));
    assert(forall|i: int|
        0 <= i < c.len() && is_space(#[trigger] c[i]) ==> c[i] == ' ') by {
        assert(forall|i: int| 0 <= i < c.len() ==> c[i] == clean_char(s[i]));
    }
    lemma_collapse_space_chars(c);
    assert forall|i: int| 0 <= i < t.len() && is_space(#[trigger] t[i]) implies t[i] == ' ' by {
        assert(t[i] == ltrim(cl)[i]);
        assert(ltrim(cl)[i] == cl[cl.len() - ltrim(cl).len() + i]);
    }
    assert('.' as u32 == 46);
    assert(!is_space('.'));
    if t.len() > snippet_limit() {
        let r = t.take(snippet_limit()) + "..."@;
        assert(forall|i: int|
            0 <= i < r.len() && is_space(#[trigger] r[i]) ==> r[i] == ' ') by {
            assert(forall|i: int|
                snippet_limit() <= i < r.len() ==> #[trigger] r[i] == '.');
        }
    }
}

/// Format a 32-bit number in decimal.
pub fn u32_to_string(n: u32) -> (r: String)
    ensures
        r@ == dec_str(n as nat),
{
    u64_to_string(n as u64)
}

} // verus!
