//! Verified text utilities: UTF-8 aware truncation, substring search,
//! trimming, and string equality over character sequences.

use vstd::prelude::*;
use vstd::string::StrSliceExecFns;

verus! {

/// Number of bytes the UTF-8 encoding of `c` occupies.
pub open spec fn char_bytes(c: char) -> nat {
    if (c as u32) < 0x80 {
        1
    } else if (c as u32) < 0x800 {
        2
    } else if (c as u32) < 0x10000 {
        3
    } else {
        4
    }
}

/// Total UTF-8 byte length of a character sequence.
pub open spec fn utf8_len(s: Seq<char>) -> nat
    decreases s.len(),
{
    if s.len() == 0 {
        0
    } else {
        utf8_len(s.drop_last()) + char_bytes(s.last())
    }
}

/// UTF-8 byte length of one character, computed from its code point.
pub fn char_utf8_len(c: char) -> (r: usize)
    ensures
        r == char_bytes(c),
        1 <= r <= 4,
{
    let u = c as u32;
    if u < 0x80 {
        1
    } else if u < 0x800 {
        2
    } else if u < 0x10000 {
        3
    } else {
        4
    }
}

proof fn lemma_utf8_len_push(s: Seq<char>, i: int)
    requires
        0 <= i < s.len(),
    ensures
        utf8_len(s.take(i + 1)) == utf8_len(s.take(i)) + char_bytes(s[i]),
{
    assert(s.take(i + 1).drop_last() =~= s.take(i));
    assert(s.take(i + 1).last() == s[i]);
}

proof fn lemma_utf8_len_prefix_mono(s: Seq<char>, i: int, j: int)
    requires
        0 <= i <= j <= s.len(),
    ensures
        utf8_len(s.take(i)) <= utf8_len(s.take(j)),
    decreases j - i,
{
    if i < j {
        lemma_utf8_len_prefix_mono(s, i, j - 1);
        lemma_utf8_len_push(s, j - 1);
    }
}

/// Truncate `s` to at most `max` bytes without splitting a character:
/// the longest character-aligned prefix whose UTF-8 encoding fits in `max`
/// bytes. A string that already fits is returned unchanged.
pub fn truncate(s: &str, max: usize) -> (r: String)
    ensures
        utf8_len(r@) <= max,
        r@ == s@.take(r@.len() as int),
        r@.len() <= s@.len(),
        utf8_len(s@) <= max ==> r@ == s@,
        r@.len() < s@.len() ==> utf8_len(s@.take(r@.len() as int + 1)) > max,
{
    let n = s.unicode_len();
    let mut bytes: usize = 0;
    let mut i: usize = 0;
    let mut fits = true;
    while i < n && fits
        invariant
            0 <= i <= n,
            n == s@.len(),
            bytes == utf8_len(s@.take(i as int)),
            bytes <= max,
            !fits ==> i < n && utf8_len(s@.take(i + 1)) > max,
        decreases n - i + (if fits { 1int } else { 0int }),
    {
        let c = s.get_char(i);
        let cb = char_utf8_len(c);
        proof {
            lemma_utf8_len_push(s@, i as int);
        }
        if cb > max - bytes {
            fits = false;
        } else {
            bytes = bytes + cb;
            i = i + 1;
        }
    }
    proof {
        assert(s@.take(s@.len() as int) =~= s@);
        if !fits {
            lemma_utf8_len_prefix_mono(s@, i as int + 1, s@.len() as int);
        }
    }
    let r = s.substring_char(0, i).to_owned();
    proof {
        assert(r@ == s@.take(i as int));
        assert(r@.len() == i);
    }
    r
}

/// First index `k >= i` at which `pat` occurs in `s`, if any.
pub open spec fn find_at(s: Seq<char>, pat: Seq<char>, i: int) -> Option<int>
    decreases s.len() - i + 1,
{
    if i < 0 || i + pat.len() > s.len() {
        None
    } else if s.subrange(i, i + pat.len() as int) == pat {
        Some(i)
    } else {
        find_at(s, pat, i + 1)
    }
}

pub proof fn lemma_find_at_some(s: Seq<char>, pat: Seq<char>, i: int, k: int)
    requires
        find_at(s, pat, i) == Some(k),
    ensures
        0 <= i <= k,
        k + pat.len() <= s.len(),
        s.subrange(k, k + pat.len() as int) == pat,
    decreases s.len() - i + 1,
{
    if !(i < 0 || i + pat.len() > s.len()) && s.subrange(i, i + pat.len() as int) != pat {
        lemma_find_at_some(s, pat, i + 1, k);
    }
}

/// Whether `pat` occurs in `s` at index `i` or later.
pub open spec fn contains_at(s: Seq<char>, pat: Seq<char>) -> bool {
    find_at(s, pat, 0) is Some
}

/// Whether the character range `[i, i + pat.len())` of `s` equals `pat`.
fn range_matches(s: &str, pat: &str, i: usize) -> (r: bool)
    requires
        i + pat@.len() <= s@.len(),
    ensures
        r == (s@.subrange(i as int, i as int + pat@.len() as int) == pat@),
{
    let n = s.unicode_len();
    let m = pat.unicode_len();
    proof {
        assert(i + m <= n);
    }
    let mut j: usize = 0;
    while j < m
        invariant
            0 <= j <= m,
            m == pat@.len(),
            n == s@.len(),
            i + m <= n,
            forall|x: int| 0 <= x < j ==> s@[i + x] == pat@[x],
        decreases m - j,
    {
        if s.get_char(i + j) != pat.get_char(j) {
            proof {
                assert(s@.subrange(i as int, i as int + m as int)[j as int] == s@[i + j]);
            }
            return false;
        }
        j = j + 1;
    }
    proof {
        assert(s@.subrange(i as int, i as int + m as int) =~= pat@);
    }
    true
}

/// First occurrence of `pat` in `s` at character index `from` or later.
pub fn find_from(s: &str, pat: &str, from: usize) -> (r: Option<usize>)
    ensures
        r matches Some(k) ==> find_at(s@, pat@, from as int) == Some(k as int),
        r is None ==> find_at(s@, pat@, from as int) is None,
{
    let n = s.unicode_len();
    let m = pat.unicode_len();
    if m > n || from > n - m {
        proof {
            assert(find_at(s@, pat@, from as int) is None);
        }
        return None;
    }
    if m == 0 {
        proof {
            assert(s@.subrange(from as int, from as int) =~= pat@);
        }
        return Some(from);
    }
    let mut i: usize = from;
    while i <= n - m
        invariant
            from <= i <= n - m + 1,
            1 <= m <= n,
            n == s@.len(),
            m == pat@.len(),
            find_at(s@, pat@, from as int) == find_at(s@, pat@, i as int),
        decreases n - m + 1 - i,
    {
        if range_matches(s, pat, i) {
            return Some(i);
        }
        proof {
            assert(find_at(s@, pat@, i as int) == find_at(s@, pat@, i as int + 1));
        }
        i = i + 1;
    }
    proof {
        assert(find_at(s@, pat@, i as int) is None);
    }
    None
}

/// Last index at which the character `c` occurs in `s`, if any.
pub open spec fn rfind_char_at(s: Seq<char>, c: char) -> Option<int>
    decreases s.len(),
{
    if s.len() == 0 {
        None
    } else if s.last() == c {
        Some(s.len() - 1)
    } else {
        rfind_char_at(s.drop_last(), c)
    }
}

pub proof fn lemma_rfind_char_some(s: Seq<char>, c: char, k: int)
    requires
        rfind_char_at(s, c) == Some(k),
    ensures
        0 <= k < s.len(),
        s[k] == c,
    decreases s.len(),
{
    if s.len() > 0 && s.last() != c {
        lemma_rfind_char_some(s.drop_last(), c, k);
    }
}

/// Last occurrence of the character `c` in `s`.
pub fn rfind_char(s: &str, c: char) -> (r: Option<usize>)
    ensures
        r matches Some(k) ==> rfind_char_at(s@, c) == Some(k as int),
        r is None ==> rfind_char_at(s@, c) is None,
{
    let n = s.unicode_len();
    proof {
        assert(s@.take(n as int) =~= s@);
    }
    let mut i: usize = n;
    while i > 0
        invariant
            0 <= i <= n,
            n == s@.len(),
            rfind_char_at(s@, c) == rfind_char_at(s@.take(i as int), c),
        decreases i,
    {
        proof {
            assert(s@.take(i as int).drop_last() =~= s@.take(i as int - 1));
        }
        if s.get_char(i - 1) == c {
            return Some(i - 1);
        }
        i = i - 1;
    }
    None
}

/// Whether `c` counts as whitespace: the Unicode `White_Space` set, which is
/// what `str::trim` strips.
pub open spec fn is_space(c: char) -> bool {
    c == ' ' || c == '\t' || c == '\n' || c == '\r' || c == '\u{000B}' || c == '\u{000C}' || c
        == '\u{0085}' || c == '\u{00A0}' || c == '\u{1680}' || ((c as u32) >= 0x2000 && (c as u32)
        <= 0x200A) || c == '\u{2028}' || c == '\u{2029}' || c == '\u{202F}' || c == '\u{205F}' || c
        == '\u{3000}'
}

/// Runtime test for [`is_space`].
pub fn is_space_char(c: char) -> (r: bool)
    ensures
        r == is_space(c),
{
    let u = c as u32;
    u == 0x20 || u == 0x09 || u == 0x0A || u == 0x0D || u == 0x0B || u == 0x0C || u == 0x85 || u
        == 0xA0 || u == 0x1680 || (u >= 0x2000 && u <= 0x200A) || u == 0x2028 || u == 0x2029 || u
        == 0x202F || u == 0x205F || u == 0x3000
}

/// `s` with leading whitespace removed.
pub open spec fn trim_start_rec(s: Seq<char>) -> Seq<char>
    decreases s.len(),
{
    if s.len() > 0 && is_space(s[0]) {
        trim_start_rec(s.drop_first())
    } else {
        s
    }
}

/// `s` with trailing whitespace removed.
pub open spec fn trim_end_rec(s: Seq<char>) -> Seq<char>
    decreases s.len(),
{
    if s.len() > 0 && is_space(s.last()) {
        trim_end_rec(s.drop_last())
    } else {
        s
    }
}

/// `s` with whitespace removed from both ends.
pub open spec fn trim_spec(s: Seq<char>) -> Seq<char> {
    trim_end_rec(trim_start_rec(s))
}

/// The slice of `s` between `from` and `to`, with surrounding whitespace
/// stripped.
pub fn trim_range<'a>(s: &'a str, from: usize, to: usize) -> (r: &'a str)
    requires
        from <= to <= s@.len(),
    ensures
        r@ == trim_spec(s@.subrange(from as int, to as int)),
{
    let mut a = from;
    while a < to && is_space_char(s.get_char(a))
        invariant
            from <= a <= to <= s@.len(),
            trim_start_rec(s@.subrange(from as int, to as int)) == trim_start_rec(
                s@.subrange(a as int, to as int),
            ),
        decreases to - a,
    {
        proof {
            assert(s@.subrange(a as int, to as int).drop_first() =~= s@.subrange(
                a as int + 1,
                to as int,
            ));
        }
        a = a + 1;
    }
    proof {
        assert(trim_start_rec(s@.subrange(a as int, to as int)) == s@.subrange(a as int, to as int));
    }
    let mut b = to;
    while b > a && is_space_char(s.get_char(b - 1))
        invariant
            from <= a <= b <= to <= s@.len(),
            trim_start_rec(s@.subrange(from as int, to as int)) == s@.subrange(a as int, to as int),
            trim_end_rec(s@.subrange(a as int, to as int)) == trim_end_rec(
                s@.subrange(a as int, b as int),
            ),
        decreases b,
    {
        proof {
            assert(s@.subrange(a as int, b as int).drop_last() =~= s@.subrange(
                a as int,
                b as int - 1,
            ));
        }
        b = b - 1;
    }
    proof {
        assert(trim_end_rec(s@.subrange(a as int, b as int)) == s@.subrange(a as int, b as int));
    }
    s.substring_char(a, b)
}

/// Whether `pat` occurs anywhere in `s`.
pub fn contains_sub(s: &str, pat: &str) -> (r: bool)
    ensures
        r == contains_at(s@, pat@),
{
    find_from(s, pat, 0).is_some()
}

/// The Unicode lowercase form of a string, named: it is a function of the
/// characters alone.
pub uninterp spec fn lower_of(s: Seq<char>) -> Seq<char>;

/// Relies on str::to_lowercase: the Unicode lowercase mapping of the string,
/// determined by its characters alone.
#[verifier::external_body]
pub(crate) fn lowercase(s: &str) -> (r: String)
    ensures
        r@ == lower_of(s@),
{
    s.to_lowercase()
}

/// The opening of a JSON-labelled Markdown code fence.
pub open spec fn fence_json_pat() -> Seq<char> {
    seq!['`', '`', '`', 'j', 's', 'o', 'n']
}

/// A bare Markdown code fence.
pub open spec fn fence_pat() -> Seq<char> {
    seq!['`', '`', '`']
}

/// Third stage of extraction: the region between the first `{` and the last
/// `}`, or the input unchanged when no such region exists.
pub open spec fn extract_braces_spec(s: Seq<char>) -> Seq<char> {
    let ob = find_at(s, seq!['{'], 0);
    let cb = rfind_char_at(s, '}');
    if ob is Some && cb is Some && ob->0 <= cb->0 + 1 {
        s.subrange(ob->0, cb->0 + 1)
    } else {
        s
    }
}

/// Second stage of extraction: the trimmed interior of the first bare code
/// fence, when it looks like a JSON object; otherwise the brace heuristic.
pub open spec fn extract_fence_spec(s: Seq<char>) -> Seq<char> {
    let gf = find_at(s, fence_pat(), 0);
    if gf is Some && find_at(s, fence_pat(), gf->0 + 3) is Some && {
        let inner = trim_spec(s.subrange(gf->0 + 3, find_at(s, fence_pat(), gf->0 + 3)->0));
        inner.len() > 0 && inner[0] == '{'
    } {
        trim_spec(s.subrange(gf->0 + 3, find_at(s, fence_pat(), gf->0 + 3)->0))
    } else {
        extract_braces_spec(s)
    }
}

/// What [`extract_json`] returns: the trimmed interior of a ```` ```json ````
/// fence if one is closed, else of a bare fence whose interior starts with
/// `{`, else the span from the first `{` to the last `}`, else the input
/// unchanged.
pub open spec fn extract_json_spec(s: Seq<char>) -> Seq<char> {
    let jf = find_at(s, fence_json_pat(), 0);
    if jf is Some && find_at(s, fence_pat(), jf->0 + 7) is Some {
        trim_spec(s.subrange(jf->0 + 7, find_at(s, fence_pat(), jf->0 + 7)->0))
    } else {
        extract_fence_spec(s)
    }
}

/// Pull the most plausible JSON object out of free-form model output.
/// Markdown fences are stripped if present; otherwise the outermost brace
/// pair is taken; text with no JSON-looking content is returned unchanged.
pub fn extract_json(content: &str) -> (r: String)
    ensures
        r@ == extract_json_spec(content@),
{
    proof {
        reveal_strlit("```json");
        reveal_strlit("```");
        reveal_strlit("{");
        assert("```json"@ =~= fence_json_pat());
        assert("```"@ =~= fence_pat());
        assert("{"@ =~= seq!['{']);
    }
    let n = content.unicode_len();
    if let Some(jf) = find_from(content, "```json", 0) {
        proof {
            lemma_find_at_some(content@, fence_json_pat(), 0, jf as int);
        }
        if let Some(e) = find_from(content, "```", jf + 7) {
            proof {
                lemma_find_at_some(content@, fence_pat(), jf as int + 7, e as int);
            }
            let inner = trim_range(content, jf + 7, e);
            return inner.to_owned();
        }
    }
    if let Some(gf) = find_from(content, "```", 0) {
        proof {
            lemma_find_at_some(content@, fence_pat(), 0, gf as int);
        }
        if let Some(e) = find_from(content, "```", gf + 3) {
            proof {
                lemma_find_at_some(content@, fence_pat(), gf as int + 3, e as int);
            }
            let inner = trim_range(content, gf + 3, e);
            if inner.unicode_len() > 0 && inner.get_char(0) == '{' {
                return inner.to_owned();
            }
        }
    }
    if let Some(ob) = find_from(content, "{", 0) {
        proof {
            lemma_find_at_some(content@, seq!['{'], 0, ob as int);
        }
        if let Some(cb) = rfind_char(content, '}') {
            proof {
                lemma_rfind_char_some(content@, '}', cb as int);
            }
            if ob <= cb + 1 {
                return content.substring_char(ob, cb + 1).to_owned();
            }
        }
    }
    content.to_owned()
}

proof fn lemma_find_at_skip_range(s: Seq<char>, pat: Seq<char>, from: int, to: int)
    requires
        0 <= from <= to,
        pat.len() > 0,
        forall|p: int|
            from <= p < to ==> !(p + pat.len() <= s.len() && #[trigger] s.subrange(
                p,
                p + pat.len() as int,
            ) == pat),
    ensures
        find_at(s, pat, from) == find_at(s, pat, to),
    decreases to - from,
{
    if from < to {
        if from + pat.len() > s.len() {
            assert(to + pat.len() > s.len());
            assert(find_at(s, pat, from) is None);
            assert(find_at(s, pat, to) is None);
        } else {
            assert(!(from + pat.len() <= s.len() && s.subrange(from, from + pat.len() as int)
                == pat));
            assert(find_at(s, pat, from) == find_at(s, pat, from + 1));
            lemma_find_at_skip_range(s, pat, from + 1, to);
        }
    }
}

proof fn lemma_rfind_char_last(s: Seq<char>, c: char, k: int)
    requires
        0 <= k < s.len(),
        s[k] == c,
        forall|i: int| k < i < s.len() ==> s[i] != c,
    ensures
        rfind_char_at(s, c) == Some(k),
    decreases s.len(),
{
    if k == s.len() - 1 {
    } else {
        assert(s.last() != c);
        lemma_rfind_char_last(s.drop_last(), c, k);
    }
}

/// Whatever prose stands around it, a brace-delimited object embedded in
/// backtick-free, brace-free text comes back exactly: the prose may not hold
/// a backtick (no fence is seen) nor braces of its own.
pub proof fn lemma_extract_json_embedded(p: Seq<char>, j: Seq<char>, q: Seq<char>)
    requires
        j.len() >= 2,
        j[0] == '{',
        j.last() == '}',
        forall|i: int| 0 <= i < j.len() ==> j[i] != '`',
        forall|i: int| 0 <= i < p.len() ==> p[i] != '`' && p[i] != '{' && p[i] != '}',
        forall|i: int| 0 <= i < q.len() ==> q[i] != '`' && q[i] != '{' && q[i] != '}',
    ensures
        extract_json_spec(p + j + q) == j,
{
    let s = p + j + q;
    let n = s.len() as int;
    assert forall|i: int| 0 <= i < n implies s[i] != '`' by {
        if i < p.len() {
            assert(s[i] == p[i]);
        } else if i < p.len() + j.len() {
            assert(s[i] == j[i - p.len()]);
        } else {
            assert(s[i] == q[i - p.len() - j.len()]);
        }
    }
    lemma_no_backtick_no_fence(s, fence_json_pat());
    lemma_no_backtick_no_fence(s, fence_pat());
    // The first brace is where j starts.
    let ob = p.len() as int;
    assert forall|x: int|
        0 <= x < ob implies !(x + 1 <= n && #[trigger] s.subrange(x, x + 1) == seq!['{']) by {
        assert(s[x] == p[x]);
        if x + 1 <= n && s.subrange(x, x + 1) == seq!['{'] {
            assert(s.subrange(x, x + 1)[0] == s[x]);
        }
    }
    lemma_find_at_skip_range(s, seq!['{'], 0, ob);
    assert(s.subrange(ob, ob + 1) =~= seq!['{']);
    assert(find_at(s, seq!['{'], ob) == Some(ob));
    // The last closing brace is where j ends.
    let cb = p.len() + j.len() - 1;
    assert(s[cb] == j[j.len() - 1]);
    assert forall|i: int| cb < i < n implies s[i] != '}' by {
        assert(s[i] == q[i - p.len() - j.len()]);
    }
    lemma_rfind_char_last(s, '}', cb);
    assert(s.subrange(ob, cb + 1) =~= j);
}

proof fn lemma_no_backtick_no_fence(s: Seq<char>, pat: Seq<char>)
    requires
        pat.len() > 0,
        pat[0] == '`',
        forall|i: int| 0 <= i < s.len() ==> s[i] != '`',
    ensures
        find_at(s, pat, 0) is None,
{
    let n = s.len() as int;
    assert forall|p: int|
        0 <= p < n implies !(p + pat.len() <= n && #[trigger] s.subrange(p, p + pat.len() as int)
        == pat) by {
        if p + pat.len() <= n && s.subrange(p, p + pat.len() as int) == pat {
            assert(s.subrange(p, p + pat.len() as int)[0] == s[p]);
        }
    }
    lemma_find_at_skip_range(s, pat, 0, n);
    assert(find_at(s, pat, n) is None);
}

/// Text with no backtick and no opening brace holds nothing JSON-looking:
/// extraction returns it unchanged.
pub proof fn lemma_extract_json_no_json(s: Seq<char>)
    requires
        forall|i: int| 0 <= i < s.len() ==> s[i] != '`' && s[i] != '{',
    ensures
        extract_json_spec(s) == s,
{
    lemma_no_backtick_no_fence(s, fence_json_pat());
    lemma_no_backtick_no_fence(s, fence_pat());
    let n = s.len() as int;
    assert forall|p: int|
        0 <= p < n implies !(p + 1 <= n && #[trigger] s.subrange(p, p + 1) == seq!['{']) by {
        if p + 1 <= n && s.subrange(p, p + 1) == seq!['{'] {
            assert(s.subrange(p, p + 1)[0] == s[p]);
        }
    }
    lemma_find_at_skip_range(s, seq!['{'], 0, n);
    assert(find_at(s, seq!['{'], 0) is None);
}

/// A brace-delimited, backtick-free object inside a ```` ```json ```` fence
/// comes back exactly.
pub proof fn lemma_extract_json_fenced_json(j: Seq<char>)
    requires
        j.len() >= 2,
        j[0] == '{',
        j.last() == '}',
        forall|i: int| 0 <= i < j.len() ==> j[i] != '`',
    ensures
        extract_json_spec(fence_json_pat() + seq!['\n'] + j + seq!['\n'] + fence_pat()) == j,
{
    let inner = seq!['\n'] + j + seq!['\n'];
    let s = fence_json_pat() + seq!['\n'] + j + seq!['\n'] + fence_pat();
    let n = s.len() as int;
    assert(s =~= fence_json_pat() + inner + fence_pat());
    assert(s.subrange(0, 7) =~= fence_json_pat());
    assert(find_at(s, fence_json_pat(), 0) == Some(0int));
    lemma_fence_close_found(s, j, 7);
    assert(find_at(s, fence_pat(), 7) == Some(7 + inner.len() as int));
    assert(s.subrange(7, 7 + inner.len() as int) =~= inner);
    lemma_trim_newline_wrapped(j);
    assert(extract_json_spec(s) == trim_spec(inner));
}

/// A brace-delimited, backtick-free object inside a bare fence comes back
/// exactly (its first character shows it is a JSON object).
pub proof fn lemma_extract_json_fenced_plain(j: Seq<char>)
    requires
        j.len() >= 2,
        j[0] == '{',
        j.last() == '}',
        forall|i: int| 0 <= i < j.len() ==> j[i] != '`',
    ensures
        extract_json_spec(fence_pat() + seq!['\n'] + j + seq!['\n'] + fence_pat()) == j,
{
    let inner = seq!['\n'] + j + seq!['\n'];
    let s = fence_pat() + seq!['\n'] + j + seq!['\n'] + fence_pat();
    let n = s.len() as int;
    assert(s =~= fence_pat() + inner + fence_pat());
    // No ```json opening anywhere: every backtick is in one of the two bare
    // fences, and neither is followed by the json label.
    assert forall|p: int|
        0 <= p < n implies !(p + fence_json_pat().len() <= n && #[trigger] s.subrange(
        p,
        p + fence_json_pat().len() as int,
    ) == fence_json_pat()) by {
        if p + 7 <= n && s.subrange(p, p + 7) == fence_json_pat() {
            assert(s.subrange(p, p + 7)[0] == s[p]);
            assert(s.subrange(p, p + 7)[2] == s[p + 2]);
            assert(s.subrange(p, p + 7)[3] == s[p + 3]);
            assert(s[p] == '`' && s[p + 2] == '`' && s[p + 3] == 'j');
            // p + 7 <= n rules the closing fence out, so p lies in the
            // opening fence; but the characters after it are a newline and
            // the object's brace, not the label.
            assert(s[3] == inner[0] && inner[0] == '\n');
            assert(s[4] == inner[1] && inner[1] == j[0]);
            if p >= 3 && p < 3 + inner.len() {
                assert(s[p] == inner[p - 3]);
                lemma_inner_no_backtick(j, p - 3);
            } else if p >= 3 + inner.len() {
                assert(p + 7 > n);
            } else {
                assert(p <= 2);
                if p == 0 {
                    assert(s[3] == 'j');
                } else if p == 1 {
                    assert(s[p + 3] == s[4]);
                    assert(j[0] == 'j' && j[0] == '{');
                } else {
                    assert(s[p + 2] == s[4]);
                    assert(j[0] == '`');
                    lemma_inner_no_backtick(j, 1);
                }
            }
        }
    }
    lemma_find_at_skip_range(s, fence_json_pat(), 0, n);
    assert(find_at(s, fence_json_pat(), 0) is None);
    assert(s.subrange(0, 3) =~= fence_pat());
    assert(find_at(s, fence_pat(), 0) == Some(0int));
    lemma_fence_close_found(s, j, 3);
    assert(find_at(s, fence_pat(), 3) == Some(3 + inner.len() as int));
    assert(s.subrange(3, 3 + inner.len() as int) =~= inner);
    lemma_trim_newline_wrapped(j);
    assert(trim_spec(inner)[0] == '{');
    assert(extract_json_spec(s) == trim_spec(inner));
}

proof fn lemma_inner_no_backtick(j: Seq<char>, k: int)
    requires
        0 <= k < j.len() + 2,
        forall|i: int| 0 <= i < j.len() ==> j[i] != '`',
    ensures
        (seq!['\n'] + j + seq!['\n'])[k] != '`',
{
    let inner = seq!['\n'] + j + seq!['\n'];
    if k == 0 {
        assert(inner[0] == '\n');
    } else if k <= j.len() {
        assert(inner[k] == j[k - 1]);
    } else {
        assert(inner[k] == '\n');
    }
}

// The closing fence of `opener_len + inner + fence` is the first fence at or
// after `opener_len`, the interior being backtick-free.
proof fn lemma_fence_close_found(s: Seq<char>, j: Seq<char>, opener_len: int)
    requires
        opener_len >= 0,
        forall|i: int| 0 <= i < j.len() ==> j[i] != '`',
        s.len() == opener_len + j.len() + 5,
        s.subrange(opener_len, s.len() as int) =~= seq!['\n'] + j + seq!['\n'] + fence_pat(),
    ensures
        find_at(s, fence_pat(), opener_len) == Some(opener_len + j.len() + 2),
{
    let inner = seq!['\n'] + j + seq!['\n'];
    let close = opener_len + j.len() + 2;
    let n = s.len() as int;
    assert forall|p: int|
        opener_len <= p < close implies !(p + fence_pat().len() <= n && #[trigger] s.subrange(
        p,
        p + fence_pat().len() as int,
    ) == fence_pat()) by {
        if p + 3 <= n && s.subrange(p, p + 3) == fence_pat() {
            assert(s.subrange(p, p + 3)[0] == s[p]);
            assert(s[p] == s.subrange(opener_len, n)[p - opener_len]);
            lemma_inner_no_backtick(j, p - opener_len);
        }
    }
    lemma_find_at_skip_range(s, fence_pat(), opener_len, close);
    assert(s.subrange(close, close + 3) =~= fence_pat()) by {
        assert forall|i: int| 0 <= i < 3 implies s.subrange(close, close + 3)[i] == fence_pat()[i] by {
            assert(s.subrange(close, close + 3)[i] == s[close + i]);
            assert(s[close + i] == s.subrange(opener_len, n)[close + i - opener_len]);
        }
    }
    assert(find_at(s, fence_pat(), close) == Some(close));
}

proof fn lemma_trim_newline_wrapped(j: Seq<char>)
    requires
        j.len() >= 1,
        !is_space(j[0]),
        !is_space(j.last()),
    ensures
        trim_spec(seq!['\n'] + j + seq!['\n']) == j,
{
    let inner = seq!['\n'] + j + seq!['\n'];
    assert(is_space(inner[0]));
    assert(inner.drop_first() =~= j + seq!['\n']);
    assert((j + seq!['\n'])[0] == j[0]);
    assert(trim_start_rec(inner) == trim_start_rec(j + seq!['\n']));
    assert(trim_start_rec(j + seq!['\n']) == j + seq!['\n']);
    assert(is_space((j + seq!['\n']).last()));
    assert((j + seq!['\n']).drop_last() =~= j);
    assert(trim_end_rec(j + seq!['\n']) == trim_end_rec(j));
    assert(trim_end_rec(j) == j);
}

/// Character-wise equality of two string slices.
pub fn str_eq(a: &str, b: &str) -> (r: bool)
    ensures
        r == (a@ == b@),
{
    let alen = a.unicode_len();
    let blen = b.unicode_len();
    if alen != blen {
        return false;
    }
    let mut i: usize = 0;
    while i < alen
        invariant
            0 <= i <= alen,
            alen == a@.len(),
            alen == b@.len(),
            forall|j: int| 0 <= j < i ==> a@[j] == b@[j],
        decreases alen - i,
    {
        if a.get_char(i) != b.get_char(i) {
            return false;
        }
        i = i + 1;
    }
    proof {
        assert(a@ =~= b@);
    }
    true
}

} // verus!
