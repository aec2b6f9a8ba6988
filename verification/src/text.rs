//! Character-level text toolkit: character classes, searching, trimming,
//! line splitting, decimal formatting and parsing, all over `Seq<char>` views.

use vstd::prelude::*;

verus! {

// ---------------------------------------------------------------------------
// Character classes
// ---------------------------------------------------------------------------

pub open spec fn is_ascii_upper(c: char) -> bool {
    'A' <= c && c <= 'Z'
}

pub open spec fn is_ascii_lower(c: char) -> bool {
    'a' <= c && c <= 'z'
}

pub open spec fn is_ascii_alpha(c: char) -> bool {
    is_ascii_upper(c) || is_ascii_lower(c)
}

pub open spec fn is_ascii_digit(c: char) -> bool {
    '0' <= c && c <= '9'
}

pub open spec fn is_ascii_alnum(c: char) -> bool {
    is_ascii_alpha(c) || is_ascii_digit(c)
}

/// `_` or an ASCII letter or digit.
pub open spec fn is_ident_char(c: char) -> bool {
    c == '_' || is_ascii_alnum(c)
}

/// The Unicode `White_Space` property (what `char::is_whitespace` tests).
pub open spec fn is_white_space(c: char) -> bool {
    ||| ('\u{9}' <= c && c <= '\u{d}')
    ||| c == ' '
    ||| c == '\u{85}'
    ||| c == '\u{a0}'
    ||| c == '\u{1680}'
    ||| ('\u{2000}' <= c && c <= '\u{200a}')
    ||| c == '\u{2028}'
    ||| c == '\u{2029}'
    ||| c == '\u{202f}'
    ||| c == '\u{205f}'
    ||| c == '\u{3000}'
}

pub fn ascii_alpha(c: char) -> (b: bool)
    ensures
        b == is_ascii_alpha(c),
{
    ('A' <= c && c <= 'Z') || ('a' <= c && c <= 'z')
}

pub fn ascii_digit(c: char) -> (b: bool)
    ensures
        b == is_ascii_digit(c),
{
    '0' <= c && c <= '9'
}

pub fn ident_char(c: char) -> (b: bool)
    ensures
        b == is_ident_char(c),
{
    c == '_' || ascii_alpha(c) || ascii_digit(c)
}

pub fn white_space(c: char) -> (b: bool)
    ensures
        b == is_white_space(c),
{
    ('\u{9}' <= c && c <= '\u{d}') || c == ' ' || c == '\u{85}' || c == '\u{a0}' || c
        == '\u{1680}' || ('\u{2000}' <= c && c <= '\u{200a}') || c == '\u{2028}' || c
        == '\u{2029}' || c == '\u{202f}' || c == '\u{205f}' || c == '\u{3000}'
}

pub open spec fn ascii_lower_char(c: char) -> char {
    if is_ascii_upper(c) {
        ((c as u32) + 32) as char
    } else {
        c
    }
}

pub fn to_ascii_lower_char(c: char) -> (r: char)
    ensures
        r == ascii_lower_char(c),
{
    if 'A' <= c && c <= 'Z' {
        ((c as u8) + 32) as char
    } else {
        c
    }
}

} // verus!

verus! {

// ---------------------------------------------------------------------------
// Conversions between `str`, `String` and character vectors
// ---------------------------------------------------------------------------

/// Appends one character to a string (`String::push`).
#[verifier::external_body]
pub(crate) fn push_char(s: &mut String, c: char)
    ensures
        final(s)@ == old(s)@.push(c),
{
    s.push(c);
}

/// The characters of a string slice, in order.
pub fn chars_of(s: &str) -> (v: Vec<char>)
    ensures
        v@ == s@,
{
    let mut v: Vec<char> = Vec::new();
    for c in it: s.chars()
        invariant
            v@ == it.seq().take(it.index() as int),
    {
        v.push(c);
    }
    v
}

/// The string made of `v[from..to]`.
pub fn string_of_range(v: &Vec<char>, from: usize, to: usize) -> (s: String)
    requires
        from <= to <= v@.len(),
    ensures
        s@ == v@.subrange(from as int, to as int),
{
    let mut s = String::new();
    let mut i = from;
    while i < to
        invariant
            from <= i <= to <= v@.len(),
            s@ == v@.subrange(from as int, i as int),
        decreases to - i,
    {
        push_char(&mut s, v[i]);
        assert(v@.subrange(from as int, i + 1) == v@.subrange(from as int, i as int).push(v@[i as int]));
        i += 1;
    }
    s
}

/// The string made of all of `v`.
pub fn string_of(v: &Vec<char>) -> (s: String)
    ensures
        s@ == v@,
{
    let s = string_of_range(v, 0, v.len());
    assert(v@.subrange(0, v@.len() as int) == v@);
    s
}

/// An owned copy of `s`.
pub fn owned(s: &str) -> (r: String)
    ensures
        r@ == s@,
{
    s.to_owned()
}

/// `a` followed by `b`.
pub fn concat2(a: &str, b: &str) -> (r: String)
    ensures
        r@ == a@ + b@,
{
    let mut r = a.to_owned();
    r.append(b);
    r
}

/// `a` followed by `b` followed by `c`.
pub fn concat3(a: &str, b: &str, c: &str) -> (r: String)
    ensures
        r@ == a@ + b@ + c@,
{
    let mut r = a.to_owned();
    r.append(b);
    r.append(c);
    r
}

// ---------------------------------------------------------------------------
// Searching
// ---------------------------------------------------------------------------

/// `p` occurs in `s` starting at index `i`.
pub open spec fn occurs_at(s: Seq<char>, p: Seq<char>, i: int) -> bool {
    0 <= i && i + p.len() <= s.len() && s.subrange(i, i + p.len()) == p
}

/// `p` is a contiguous part of `s` (`str::contains`).
pub open spec fn contains_seq(s: Seq<char>, p: Seq<char>) -> bool {
    exists|i: int| occurs_at(s, p, i)
}

pub open spec fn starts_with_seq(s: Seq<char>, p: Seq<char>) -> bool {
    p.len() <= s.len() && s.take(p.len() as int) == p
}

pub open spec fn ends_with_seq(s: Seq<char>, p: Seq<char>) -> bool {
    p.len() <= s.len() && s.skip(s.len() - p.len()) == p
}

/// Whether `p` occurs in `s` at index `i`.
pub fn chars_occur_at(s: &Vec<char>, p: &Vec<char>, i: usize) -> (b: bool)
    requires
        i <= s@.len(),
    ensures
        b == occurs_at(s@, p@, i as int),
{
    if p.len() > s.len() - i {
        return false;
    }
    let mut k: usize = 0;
    while k < p.len()
        invariant
            i + p@.len() <= s@.len(),
            s@.len() == s.len(),
            k <= p@.len(),
            forall|j: int| 0 <= j < k ==> s@[i + j] == p@[j],
        decreases p@.len() - k,
    {
        if s[i + k] != p[k] {
            assert(s@.subrange(i as int, i + p@.len())[k as int] != p@[k as int]);
            return false;
        }
        k += 1;
    }
    assert(s@.subrange(i as int, i + p@.len()) =~= p@);
    true
}

/// The first index at which `p` occurs in `s` at or after `from`, if any.
pub fn chars_find_from(s: &Vec<char>, p: &Vec<char>, from: usize) -> (r: Option<usize>)
    requires
        from <= s@.len(),
    ensures
        r matches Some(i) ==> from <= i && occurs_at(s@, p@, i as int) && forall|j: int|
            from <= j < i ==> !occurs_at(s@, p@, j),
        r is None ==> forall|j: int| from <= j ==> !occurs_at(s@, p@, j),
{
    let mut i = from;
    loop
        invariant
            from <= i <= s@.len(),
            forall|j: int| from <= j < i ==> !occurs_at(s@, p@, j),
        decreases s@.len() - i,
    {
        if chars_occur_at(s, p, i) {
            return Some(i);
        }
        if i == s.len() {
            assert forall|j: int| from <= j implies !occurs_at(s@, p@, j) by {
                if j > i {
                    assert(!occurs_at(s@, p@, j));
                }
            }
            return None;
        }
        i += 1;
    }
}

/// Whether `p` occurs anywhere in `s`.
pub fn chars_contain(s: &Vec<char>, p: &Vec<char>) -> (b: bool)
    ensures
        b == contains_seq(s@, p@),
{
    match chars_find_from(s, p, 0) {
        Some(i) => true,
        None => false,
    }
}

/// `str::contains` for a string pattern.
pub fn str_contains(s: &str, p: &str) -> (b: bool)
    ensures
        b == contains_seq(s@, p@),
{
    let sv = chars_of(s);
    let pv = chars_of(p);
    chars_contain(&sv, &pv)
}

/// Whether the character `c` occurs in `s`.
pub fn str_contains_char(s: &str, c: char) -> (b: bool)
    ensures
        b == s@.contains(c),
{
    let sv = chars_of(s);
    let mut i: usize = 0;
    while i < sv.len()
        invariant
            sv@ == s@,
            i <= sv@.len(),
            forall|j: int| 0 <= j < i ==> sv@[j] != c,
        decreases sv@.len() - i,
    {
        if sv[i] == c {
            return true;
        }
        i += 1;
    }
    false
}

pub fn chars_start_with(s: &Vec<char>, p: &Vec<char>) -> (b: bool)
    ensures
        b == starts_with_seq(s@, p@),
{
    let b = chars_occur_at(s, p, 0);
    assert(b ==> s@.take(p@.len() as int) == s@.subrange(0, p@.len() as int));
    assert(starts_with_seq(s@, p@) ==> s@.subrange(0, p@.len() as int) == s@.take(
        p@.len() as int,
    ));
    b
}

pub fn chars_end_with(s: &Vec<char>, p: &Vec<char>) -> (b: bool)
    ensures
        b == ends_with_seq(s@, p@),
{
    if p.len() > s.len() {
        return false;
    }
    let i = s.len() - p.len();
    let b = chars_occur_at(s, p, i);
    assert(s@.subrange(i as int, i + p@.len()) == s@.skip(i as int));
    b
}

pub fn str_starts_with(s: &str, p: &str) -> (b: bool)
    ensures
        b == starts_with_seq(s@, p@),
{
    let sv = chars_of(s);
    let pv = chars_of(p);
    chars_start_with(&sv, &pv)
}

pub fn str_ends_with(s: &str, p: &str) -> (b: bool)
    ensures
        b == ends_with_seq(s@, p@),
{
    let sv = chars_of(s);
    let pv = chars_of(p);
    chars_end_with(&sv, &pv)
}

/// Equality of two strings by their characters.
pub fn str_eq(a: &str, b: &str) -> (r: bool)
    ensures
        r == (a@ == b@),
{
    let av = chars_of(a);
    let bv = chars_of(b);
    if av.len() != bv.len() {
        return false;
    }
    let r = chars_occur_at(&av, &bv, 0);
    assert(r ==> av@.subrange(0, bv@.len() as int) == av@);
    assert(av@ == bv@ ==> av@.subrange(0, bv@.len() as int) == av@);
    r
}

} // verus!

verus! {

// ---------------------------------------------------------------------------
// Trimming
// ---------------------------------------------------------------------------

/// First index at or after `i` that does not hold white space (or `s.len()`).
pub open spec fn ws_skip_from(s: Seq<char>, i: int) -> int
    decreases s.len() - i,
{
    if 0 <= i < s.len() && is_white_space(s[i]) {
        ws_skip_from(s, i + 1)
    } else {
        i
    }
}

/// Going back from `j` (not below `lo`), the end of the last non-white-space run.
pub open spec fn ws_back_from(s: Seq<char>, lo: int, j: int) -> int
    decreases j - lo,
{
    if lo < j && j <= s.len() && is_white_space(s[j - 1]) {
        ws_back_from(s, lo, j - 1)
    } else {
        j
    }
}

/// `str::trim_start`.
pub open spec fn trim_start_seq(s: Seq<char>) -> Seq<char> {
    s.skip(ws_skip_from(s, 0))
}

/// `str::trim_end`.
pub open spec fn trim_end_seq(s: Seq<char>) -> Seq<char> {
    s.take(ws_back_from(s, 0, s.len() as int))
}

/// `str::trim`: white space removed from both ends.
pub open spec fn trim_seq(s: Seq<char>) -> Seq<char> {
    let a = ws_skip_from(s, 0);
    s.subrange(a, ws_back_from(s, a, s.len() as int))
}

pub proof fn lemma_ws_skip_bounds(s: Seq<char>, i: int)
    requires
        0 <= i <= s.len(),
    ensures
        i <= ws_skip_from(s, i) <= s.len(),
    decreases s.len() - i,
{
    if 0 <= i < s.len() && is_white_space(s[i]) {
        lemma_ws_skip_bounds(s, i + 1);
    }
}

pub proof fn lemma_ws_back_bounds(s: Seq<char>, lo: int, j: int)
    requires
        0 <= lo <= j <= s.len(),
    ensures
        lo <= ws_back_from(s, lo, j) <= j,
    decreases j - lo,
{
    if lo < j && j <= s.len() && is_white_space(s[j - 1]) {
        lemma_ws_back_bounds(s, lo, j - 1);
    }
}

/// A string that neither starts nor ends with white space is its own
/// trimmed form.
pub proof fn lemma_trim_of_plain(s: Seq<char>)
    requires
        s.len() > 0 ==> !is_white_space(s[0]) && !is_white_space(s[s.len() - 1]),
    ensures
        trim_seq(s) == s,
{
    assert(ws_skip_from(s, 0) == 0);
    assert(ws_back_from(s, 0, s.len() as int) == s.len());
    assert(s.subrange(0, s.len() as int) =~= s);
}

/// What the trimmed string contains, the string contains.
pub proof fn lemma_trim_contains(s: Seq<char>, p: Seq<char>)
    requires
        contains_seq(trim_seq(s), p),
    ensures
        contains_seq(s, p),
{
    let a = ws_skip_from(s, 0);
    lemma_ws_skip_bounds(s, 0);
    lemma_ws_back_bounds(s, a, s.len() as int);
    let t = trim_seq(s);
    let i = choose|i: int| occurs_at(t, p, i);
    assert(t.subrange(i, i + p.len()) =~= s.subrange(a + i, a + i + p.len()));
    assert(occurs_at(s, p, a + i));
}

/// Index of the first non-white-space character at or after `i`.
fn skip_ws(v: &Vec<char>, i: usize) -> (r: usize)
    requires
        i <= v@.len(),
    ensures
        r as int == ws_skip_from(v@, i as int),
        i <= r <= v@.len(),
{
    let mut k = i;
    while k < v.len() && white_space(v[k])
        invariant
            i <= k <= v@.len(),
            ws_skip_from(v@, i as int) == ws_skip_from(v@, k as int),
        decreases v@.len() - k,
    {
        k += 1;
    }
    k
}

/// End of the last non-white-space run in `v[lo..j]`.
fn back_ws(v: &Vec<char>, lo: usize, j: usize) -> (r: usize)
    requires
        lo <= j <= v@.len(),
    ensures
        r as int == ws_back_from(v@, lo as int, j as int),
        lo <= r <= j,
{
    let mut k = j;
    while k > lo && white_space(v[k - 1])
        invariant
            lo <= k <= j <= v@.len(),
            ws_back_from(v@, lo as int, j as int) == ws_back_from(v@, lo as int, k as int),
        decreases k - lo,
    {
        k -= 1;
    }
    k
}

/// The bounds `(a, b)` with `v[a..b]` the trimmed characters.
pub fn trim_bounds(v: &Vec<char>) -> (r: (usize, usize))
    ensures
        r.0 <= r.1 <= v@.len(),
        v@.subrange(r.0 as int, r.1 as int) == trim_seq(v@),
{
    let a = skip_ws(v, 0);
    let b = back_ws(v, a, v.len());
    (a, b)
}

/// `str::trim`.
pub fn trim_str(s: &str) -> (r: String)
    ensures
        r@ == trim_seq(s@),
{
    let v = chars_of(s);
    let (a, b) = trim_bounds(&v);
    string_of_range(&v, a, b)
}

/// `str::trim_end`.
pub fn trim_end_str(s: &str) -> (r: String)
    ensures
        r@ == trim_end_seq(s@),
{
    let v = chars_of(s);
    let b = back_ws(&v, 0, v.len());
    let r = string_of_range(&v, 0, b);
    assert(v@.subrange(0, b as int) == v@.take(b as int));
    r
}

/// `str::trim_start`.
pub fn trim_start_str(s: &str) -> (r: String)
    ensures
        r@ == trim_start_seq(s@),
{
    let v = chars_of(s);
    let a = skip_ws(&v, 0);
    let r = string_of_range(&v, a, v.len());
    assert(v@.subrange(a as int, v@.len() as int) == v@.skip(a as int));
    r
}

// ---------------------------------------------------------------------------
// Case mapping
// ---------------------------------------------------------------------------

/// `str::to_ascii_lowercase`.
pub open spec fn ascii_lower_seq(s: Seq<char>) -> Seq<char> {
    s.map_values(|c: char| ascii_lower_char(c))
}

pub fn ascii_lowercase(s: &str) -> (r: String)
    ensures
        r@ == ascii_lower_seq(s@),
{
    let v = chars_of(s);
    let mut r = String::new();
    let mut i: usize = 0;
    while i < v.len()
        invariant
            v@ == s@,
            i <= v@.len(),
            r@ == ascii_lower_seq(v@.take(i as int)),
        decreases v@.len() - i,
    {
        let c = to_ascii_lower_char(v[i]);
        push_char(&mut r, c);
        assert(v@.take(i + 1) == v@.take(i as int).push(v@[i as int]));
        assert(ascii_lower_seq(v@.take(i + 1)) =~= ascii_lower_seq(v@.take(i as int)).push(c));
        i += 1;
    }
    assert(v@.take(v@.len() as int) == v@);
    r
}

/// A name made of `a`..=`z`, `-` and `:` is ASCII and its own lowercase.
pub proof fn lemma_lowercase_name_fixed(s: Seq<char>)
    requires
        forall|i: int| 0 <= i < s.len() ==> ('a' <= #[trigger] s[i] && s[i] <= 'z') || s[i] == '-' || s[i] == ':',
    ensures
        all_ascii(s),
        ascii_lower_seq(s) == s,
{
    assert(ascii_lower_seq(s) =~= s);
}

/// What `str::to_lowercase` returns (full Unicode case mapping).
pub uninterp spec fn unicode_lowercase(s: Seq<char>) -> Seq<char>;

/// All characters of `s` are ASCII.
pub open spec fn all_ascii(s: Seq<char>) -> bool {
    forall|i: int| 0 <= i < s.len() ==> (#[trigger] s[i] as u32) < 128
}

/// `str::to_lowercase`. The result is the name `unicode_lowercase` of the
/// input's characters; Unicode case tables are not spelled out here. On an
/// ASCII string it lowers the ASCII letters and keeps the rest, as std
/// documents.
#[verifier::external_body]
pub(crate) fn to_lowercase_str(s: &str) -> (r: String)
    ensures
        r@ == unicode_lowercase(s@),
        all_ascii(s@) ==> r@ == ascii_lower_seq(s@),
{
    s.to_lowercase()
}

// ---------------------------------------------------------------------------
// Prefixes
// ---------------------------------------------------------------------------

/// `str::strip_prefix`.
pub open spec fn strip_prefix_seq(s: Seq<char>, p: Seq<char>) -> Option<Seq<char>> {
    if starts_with_seq(s, p) {
        Some(s.skip(p.len() as int))
    } else {
        None
    }
}

/// `str::strip_suffix`.
pub open spec fn strip_suffix_seq(s: Seq<char>, p: Seq<char>) -> Option<Seq<char>> {
    if ends_with_seq(s, p) {
        Some(s.take(s.len() - p.len()))
    } else {
        None
    }
}

/// `str::trim_start_matches` with a string pattern: the prefix `p` removed
/// as many times as it occurs.
pub open spec fn trim_start_matches_seq(s: Seq<char>, p: Seq<char>) -> Seq<char>
    decreases s.len(),
{
    if p.len() > 0 && starts_with_seq(s, p) {
        trim_start_matches_seq(s.skip(p.len() as int), p)
    } else {
        s
    }
}

pub fn strip_prefix_str(s: &str, p: &str) -> (r: Option<String>)
    ensures
        r.deep_view() == strip_prefix_seq(s@, p@),
{
    let sv = chars_of(s);
    let pv = chars_of(p);
    if chars_start_with(&sv, &pv) {
        let r = string_of_range(&sv, pv.len(), sv.len());
        assert(sv@.subrange(pv@.len() as int, sv@.len() as int) == sv@.skip(pv@.len() as int));
        Some(r)
    } else {
        None
    }
}

pub fn strip_suffix_str(s: &str, p: &str) -> (r: Option<String>)
    ensures
        r.deep_view() == strip_suffix_seq(s@, p@),
{
    let sv = chars_of(s);
    let pv = chars_of(p);
    if chars_end_with(&sv, &pv) {
        let r = string_of_range(&sv, 0, sv.len() - pv.len());
        assert(sv@.subrange(0, sv@.len() - pv@.len()) == sv@.take(sv@.len() - pv@.len()));
        Some(r)
    } else {
        None
    }
}

pub fn trim_start_matches_str(s: &str, p: &str) -> (r: String)
    ensures
        r@ == trim_start_matches_seq(s@, p@),
{
    let sv = chars_of(s);
    let pv = chars_of(p);
    if pv.len() == 0 {
        return s.to_owned();
    }
    let mut i: usize = 0;
    assert(sv@.skip(0) == sv@);
    while i < sv.len() && chars_occur_at(&sv, &pv, i)
        invariant
            0 < pv@.len(),
            i <= sv@.len(),
            trim_start_matches_seq(sv@, pv@) == trim_start_matches_seq(sv@.skip(i as int), pv@),
        decreases sv@.len() - i,
    {
        assert(sv@.skip(i as int).take(pv@.len() as int) == sv@.subrange(i as int, i + pv@.len()));
        assert(sv@.skip(i as int).skip(pv@.len() as int) == sv@.skip(i + pv@.len()));
        i += pv.len();
    }
    if i < sv.len() {
        assert(!starts_with_seq(sv@.skip(i as int), pv@)) by {
            if starts_with_seq(sv@.skip(i as int), pv@) {
                assert(sv@.skip(i as int).take(pv@.len() as int) == sv@.subrange(
                    i as int,
                    i + pv@.len(),
                ));
            }
        }
    } else {
        assert(sv@.skip(i as int).len() == 0);
    }
    let r = string_of_range(&sv, i, sv.len());
    assert(sv@.subrange(i as int, sv@.len() as int) == sv@.skip(i as int));
    r
}

} // verus!

verus! {

// ---------------------------------------------------------------------------
// Lines
// ---------------------------------------------------------------------------

/// Index of the first `\n` at or after `i`, or `s.len()`.
pub open spec fn next_newline(s: Seq<char>, i: int) -> int
    decreases s.len() - i,
{
    if i < 0 || i >= s.len() {
        s.len() as int
    } else if s[i] == '\n' {
        i
    } else {
        next_newline(s, i + 1)
    }
}

pub proof fn lemma_next_newline_bounds(s: Seq<char>, i: int)
    requires
        0 <= i <= s.len(),
    ensures
        i <= next_newline(s, i) <= s.len(),
        next_newline(s, i) < s.len() ==> s[next_newline(s, i)] == '\n',
    decreases s.len() - i,
{
    if i < s.len() && s[i] != '\n' {
        lemma_next_newline_bounds(s, i + 1);
    }
}

/// A line ended by `\n` loses one `\r` just before it.
pub open spec fn strip_cr(line: Seq<char>) -> Seq<char> {
    if line.len() > 0 && line.last() == '\r' {
        line.drop_last()
    } else {
        line
    }
}

/// The lines of `s[start..]` as `str::lines` yields them: split at `\n` or
/// `\r\n`, the final line ending optional.
pub open spec fn lines_from(s: Seq<char>, start: int) -> Seq<Seq<char>>
    decreases s.len() - start,
{
    if start < 0 || start >= s.len() {
        Seq::empty()
    } else {
        let k = next_newline(s, start);
        if k >= s.len() {
            seq![s.subrange(start, s.len() as int)]
        } else {
            proof {
                lemma_next_newline_bounds(s, start);
            }
            seq![strip_cr(s.subrange(start, k))] + lines_from(s, k + 1)
        }
    }
}

/// `str::lines`.
pub open spec fn lines_seq(s: Seq<char>) -> Seq<Seq<char>> {
    lines_from(s, 0)
}

/// The lines of `s`, as `str::lines` splits them.
pub fn split_lines(s: &str) -> (r: Vec<String>)
    ensures
        r.deep_view() == lines_seq(s@),
{
    let v = chars_of(s);
    let mut out: Vec<String> = Vec::new();
    let mut start: usize = 0;
    while start < v.len()
        invariant
            v@ == s@,
            start <= v@.len(),
            out.deep_view() + lines_from(v@, start as int) == lines_seq(v@),
        decreases v@.len() - start,
    {
        let mut k = start;
        while k < v.len() && v[k] != '\n'
            invariant
                start <= k <= v@.len(),
                next_newline(v@, start as int) == next_newline(v@, k as int),
            decreases v@.len() - k,
        {
            k += 1;
        }
        proof {
            lemma_next_newline_bounds(v@, start as int);
        }
        let ghost before = out.deep_view();
        if k >= v.len() {
            let line = string_of_range(&v, start, k);
            out.push(line);
            assert(out.deep_view() == before.push(line@));
            assert(lines_from(v@, k as int) == Seq::<Seq<char>>::empty());
            assert(out.deep_view() + lines_from(v@, k as int) =~= before + lines_from(
                v@,
                start as int,
            ));
            start = k;
        } else {
            let end = if k > start && v[k - 1] == '\r' {
                k - 1
            } else {
                k
            };
            let line = string_of_range(&v, start, end);
            assert(line@ == strip_cr(v@.subrange(start as int, k as int))) by {
                if k > start && v@[k - 1] == '\r' {
                    assert(v@.subrange(start as int, k as int).drop_last() =~= v@.subrange(
                        start as int,
                        k - 1,
                    ));
                }
            }
            out.push(line);
            assert(out.deep_view() == before.push(line@));
            assert(out.deep_view() + lines_from(v@, k + 1) =~= before + lines_from(
                v@,
                start as int,
            ));
            start = k + 1;
        }
    }
    assert(lines_from(v@, start as int) == Seq::<Seq<char>>::empty());
    assert(out.deep_view() == out.deep_view() + Seq::<Seq<char>>::empty());
    out
}

// ---------------------------------------------------------------------------
// Decimal numbers
// ---------------------------------------------------------------------------

pub open spec fn digit_char(d: nat) -> char {
    ((48 + d) as u32) as char
}

/// The decimal digits of `n`, most significant first, without leading zeros.
pub open spec fn decimal_seq(n: nat) -> Seq<char>
    decreases n,
{
    if n < 10 {
        seq![digit_char(n)]
    } else {
        decimal_seq(n / 10).push(digit_char(n % 10))
    }
}

/// `n` written in decimal (`u64::to_string`).
pub fn decimal_string(n: u64) -> (s: String)
    ensures
        s@ == decimal_seq(n as nat),
    decreases n,
{
    let d = ((n % 10) as u8 + 48) as char;
    if n < 10 {
        let mut s = String::new();
        push_char(&mut s, d);
        s
    } else {
        let mut s = decimal_string(n / 10);
        push_char(&mut s, d);
        s
    }
}

/// `n` written in decimal (`usize::to_string`).
pub fn decimal_string_usize(n: usize) -> (s: String)
    ensures
        s@ == decimal_seq(n as nat),
{
    decimal_string(n as u64)
}

pub open spec fn all_ascii_digits(s: Seq<char>) -> bool {
    forall|i: int| 0 <= i < s.len() ==> is_ascii_digit(#[trigger] s[i])
}

/// Value of a run of decimal digits.
pub open spec fn digits_value(s: Seq<char>) -> nat
    decreases s.len(),
{
    if s.len() == 0 {
        0
    } else {
        digits_value(s.drop_last()) * 10 + ((s.last() as u32) - 48) as nat
    }
}

/// Digits of an unsigned literal: one leading `+` is allowed.
pub open spec fn unsigned_digits(s: Seq<char>) -> Seq<char> {
    if s.len() > 0 && s[0] == '+' {
        s.drop_first()
    } else {
        s
    }
}

/// `str::parse` for an unsigned integer type whose largest value is `max`.
pub open spec fn parse_unsigned(s: Seq<char>, max: nat) -> Option<nat> {
    let d = unsigned_digits(s);
    if d.len() > 0 && all_ascii_digits(d) && digits_value(d) <= max {
        Some(digits_value(d))
    } else {
        None
    }
}

/// `str::parse::<u64>`.
pub open spec fn parse_u64_seq(s: Seq<char>) -> Option<u64> {
    match parse_unsigned(s, u64::MAX as nat) {
        Some(v) => Some(v as u64),
        None => None,
    }
}

/// `str::parse::<u32>`.
pub open spec fn parse_u32_seq(s: Seq<char>) -> Option<u32> {
    match parse_unsigned(s, u32::MAX as nat) {
        Some(v) => Some(v as u32),
        None => None,
    }
}

pub proof fn lemma_digits_value_prefix(s: Seq<char>, k: int)
    requires
        0 <= k <= s.len(),
        all_ascii_digits(s),
    ensures
        digits_value(s.take(k)) <= digits_value(s),
    decreases s.len(),
{
    if k < s.len() {
        let t = s.drop_last();
        assert(all_ascii_digits(t)) by {
            assert forall|i: int| 0 <= i < t.len() implies is_ascii_digit(#[trigger] t[i]) by {
                assert(t[i] == s[i]);
            }
        }
        lemma_digits_value_prefix(t, k);
        assert(t.take(k) == s.take(k));
    } else {
        assert(s.take(k) == s);
    }
}

/// `str::parse::<u64>`.
pub fn parse_u64(s: &str) -> (r: Option<u64>)
    ensures
        r == parse_u64_seq(s@),
{
    let v = chars_of(s);
    let start: usize = if v.len() > 0 && v[0] == '+' {
        1
    } else {
        0
    };
    let ghost d = unsigned_digits(v@);
    assert(d == v@.skip(start as int));
    if start >= v.len() {
        return None;
    }
    let mut acc: u64 = 0;
    let mut i = start;
    while i < v.len()
        invariant
            v@ == s@,
            d == unsigned_digits(v@),
            d == v@.skip(start as int),
            start <= i <= v@.len(),
            all_ascii_digits(d.take(i - start)),
            acc as nat == digits_value(d.take(i - start)),
        decreases v@.len() - i,
    {
        let c = v[i];
        assert(d.take(i + 1 - start) == d.take(i - start).push(c));
        if !ascii_digit(c) {
            assert(!all_ascii_digits(d)) by {
                assert(d[i - start] == c);
            }
            return None;
        }
        let dig = (c as u32 - 48) as u64;
        assert(all_ascii_digits(d.take(i + 1 - start)));
        if acc > (u64::MAX - dig) / 10 {
            proof {
                assert(d.take(i + 1 - start).drop_last() == d.take(i - start));
                assert(acc * 10 + dig > u64::MAX) by (nonlinear_arith)
                    requires
                        acc > (u64::MAX - dig) / 10,
                        dig <= 9,
                ;
                assert(digits_value(d.take(i + 1 - start)) > u64::MAX);
                if all_ascii_digits(d) {
                    lemma_digits_value_prefix(d, i + 1 - start);
                }
            }
            return None;
        }
        assert(d.take(i + 1 - start).drop_last() == d.take(i - start));
        assert(d.take(i + 1 - start).last() == c);
        acc = acc * 10 + dig;
        i += 1;
    }
    assert(d.take(i - start) == d);
    Some(acc)
}

/// `str::parse::<u32>`.
pub fn parse_u32(s: &str) -> (r: Option<u32>)
    ensures
        r == parse_u32_seq(s@),
{
    match parse_u64(s) {
        Some(v) => {
            if v <= u32::MAX as u64 {
                Some(v as u32)
            } else {
                None
            }
        },
        None => None,
    }
}

// ---------------------------------------------------------------------------
// Identifiers
// ---------------------------------------------------------------------------

/// A non-empty run of `_` and ASCII letters and digits that does not start
/// with a digit.
pub open spec fn is_identifier_seq(s: Seq<char>) -> bool {
    &&& s.len() > 0
    &&& (s[0] == '_' || is_ascii_alpha(s[0]))
    &&& forall|i: int| 0 <= i < s.len() ==> is_ident_char(#[trigger] s[i])
}

pub fn identifier(s: &str) -> (b: bool)
    ensures
        b == is_identifier_seq(s@),
{
    let v = chars_of(s);
    if v.len() == 0 {
        return false;
    }
    if !(v[0] == '_' || ascii_alpha(v[0])) {
        return false;
    }
    let mut i: usize = 0;
    while i < v.len()
        invariant
            v@ == s@,
            i <= v@.len(),
            forall|j: int| 0 <= j < i ==> is_ident_char(#[trigger] v@[j]),
        decreases v@.len() - i,
    {
        if !ident_char(v[i]) {
            return false;
        }
        i += 1;
    }
    true
}

// ---------------------------------------------------------------------------
// Joining lines
// ---------------------------------------------------------------------------

/// Lines joined with `\n`.
pub open spec fn join_lines(ls: Seq<Seq<char>>) -> Seq<char>
    decreases ls.len(),
{
    if ls.len() == 0 {
        Seq::empty()
    } else if ls.len() == 1 {
        ls[0]
    } else {
        join_lines(ls.drop_last()) + seq!['\n'] + ls.last()
    }
}

/// Lines joined with `\n`.
pub fn join_with_newlines(ls: &Vec<String>) -> (r: String)
    ensures
        r@ == join_lines(ls.deep_view()),
{
    let mut s = String::new();
    let mut i: usize = 0;
    while i < ls.len()
        invariant
            i <= ls@.len(),
            s@ == join_lines(ls.deep_view().take(i as int)),
        decreases ls.len() - i,
    {
        let ghost before = s@;
        if i > 0 {
            s.append("\n");
            proof {
                reveal_strlit("\n");
            }
        }
        s.append(ls[i].as_str());
        assert(ls.deep_view().take(i + 1).drop_last() =~= ls.deep_view().take(i as int));
        assert(s@ =~= join_lines(ls.deep_view().take(i + 1)));
        i += 1;
    }
    assert(ls.deep_view().take(i as int) =~= ls.deep_view());
    s
}

} // verus!
