//! Query/document tokenization: camelCase / snake_case split, light stemming, stopwords.

use crate::text::{
    ascii_digit, chars_of, ends_with_seq, is_ascii_digit, str_ends_with, str_eq, string_of_range,
    to_lowercase_str, unicode_lowercase,
};
use crate::unicode::{
    alphabetic_property, alphanumeric_property, byte_len, char_byte_width, char_width,
    is_alphabetic, is_alphanumeric, is_lowercase, is_uppercase, lemma_utf8_len_concat, lemma_utf8_len_take,
    lowercase_property, uppercase_property, utf8_len,
};
use vstd::prelude::*;

verus! {

// ---------------------------------------------------------------------------
// Splitting into runs
// ---------------------------------------------------------------------------

/// Which characters separate the pieces of a split.
#[derive(Clone, Copy)]
pub enum Separators {
    /// Everything but alphanumerics, `_` and `/` (the first split of free text).
    Raw,
    /// `_`, `/`, `-` and `.` (the segments of an identifier or path).
    Ident,
}

pub open spec fn is_separator(kind: Separators, c: char) -> bool {
    match kind {
        Separators::Raw => !alphanumeric_property(c) && c != '_' && c != '/',
        Separators::Ident => c == '_' || c == '/' || c == '-' || c == '.',
    }
}

/// The run in progress, as a list of zero or one piece.
pub open spec fn pending(cur: Seq<char>) -> Seq<Seq<char>> {
    if cur.len() > 0 {
        seq![cur]
    } else {
        Seq::empty()
    }
}

/// Pieces of `s` from index `i` on, given the unfinished piece `cur`.
pub open spec fn runs_from(s: Seq<char>, kind: Separators, i: int, cur: Seq<char>) -> Seq<Seq<char>>
    decreases s.len() - i,
{
    if i >= s.len() {
        pending(cur)
    } else if is_separator(kind, s[i]) {
        pending(cur) + runs_from(s, kind, i + 1, Seq::empty())
    } else {
        runs_from(s, kind, i + 1, cur.push(s[i]))
    }
}

/// The maximal runs of non-separator characters of `s`, in order: what
/// `str::split` yields once its empty pieces are dropped.
pub open spec fn runs(s: Seq<char>, kind: Separators) -> Seq<Seq<char>> {
    runs_from(s, kind, 0, Seq::empty())
}

fn separates(kind: Separators, c: char) -> (b: bool)
    ensures
        b == is_separator(kind, c),
{
    match kind {
        Separators::Raw => !is_alphanumeric(c) && c != '_' && c != '/',
        Separators::Ident => c == '_' || c == '/' || c == '-' || c == '.',
    }
}

fn split_runs(s: &str, kind: Separators) -> (r: Vec<String>)
    ensures
        r.deep_view() == runs(s@, kind),
{
    let chars = chars_of(s);
    let mut out: Vec<String> = Vec::new();
    let mut start: usize = 0;
    let mut i: usize = 0;
    assert(chars@.subrange(0, 0) =~= Seq::<char>::empty());
    assert(out.deep_view() + runs(s@, kind) =~= runs(s@, kind));
    while i < chars.len()
        invariant
            chars@ == s@,
            start <= i <= chars@.len(),
            out.deep_view() + runs_from(chars@, kind, i as int, chars@.subrange(start as int, i as int))
                == runs(s@, kind),
        decreases chars.len() - i,
    {
        let c = chars[i];
        let ghost cur = chars@.subrange(start as int, i as int);
        if separates(kind, c) {
            let ghost before = out.deep_view();
            if start < i {
                let piece = string_of_range(&chars, start, i);
                out.push(piece);
                assert(out.deep_view() =~= before + pending(cur));
            } else {
                assert(out.deep_view() =~= before + pending(cur));
            }
            assert(chars@.subrange(i + 1, i + 1) =~= Seq::<char>::empty());
            assert(before + pending(cur) + runs_from(chars@, kind, i + 1, Seq::empty())
                =~= before + (pending(cur) + runs_from(chars@, kind, i + 1, Seq::empty())));
            start = i + 1;
        } else {
            assert(chars@.subrange(start as int, i + 1) =~= cur.push(c));
        }
        i += 1;
    }
    if start < i {
        let ghost before = out.deep_view();
        let piece = string_of_range(&chars, start, i);
        out.push(piece);
        assert(out.deep_view() =~= before + pending(chars@.subrange(start as int, i as int)));
    } else {
        assert(out.deep_view() =~= out.deep_view() + pending(
            chars@.subrange(start as int, i as int),
        ));
    }
    out
}

// ---------------------------------------------------------------------------
// camelCase splitting
// ---------------------------------------------------------------------------

/// A new part starts at `i` (for `1 <= i < s.len()`): lower→Upper,
/// the last capital of an acronym before a lowercase letter, or a switch
/// between digits and letters.
pub open spec fn camel_boundary(s: Seq<char>, i: int) -> bool {
    let prev = s[i - 1];
    let cur = s[i];
    let next_lower = i + 1 < s.len() && lowercase_property(s[i + 1]);
    ||| lowercase_property(prev) && uppercase_property(cur)
    ||| uppercase_property(prev) && uppercase_property(cur) && next_lower
    ||| is_ascii_digit(prev) != is_ascii_digit(cur) && alphabetic_property(cur)
}

/// Parts of `s` when the current part began at `start` and index `i` is next.
pub open spec fn camel_from(s: Seq<char>, start: int, i: int) -> Seq<Seq<char>>
    decreases s.len() - i,
{
    if i >= s.len() {
        seq![s.subrange(start, s.len() as int)]
    } else if camel_boundary(s, i) {
        seq![s.subrange(start, i)] + camel_from(s, i, i + 1)
    } else {
        camel_from(s, start, i + 1)
    }
}

/// `s` cut at every camel-case boundary.
pub open spec fn camel_parts(s: Seq<char>) -> Seq<Seq<char>> {
    if s.len() == 0 {
        Seq::empty()
    } else {
        camel_from(s, 0, 1)
    }
}

fn is_camel_boundary(chars: &Vec<char>, i: usize) -> (b: bool)
    requires
        1 <= i < chars@.len(),
    ensures
        b == camel_boundary(chars@, i as int),
{
    let n = chars.len();
    let prev = chars[i - 1];
    let cur = chars[i];
    let next_lower = i + 1 < n && is_lowercase(chars[i + 1]);
    (is_lowercase(prev) && is_uppercase(cur)) || (is_uppercase(prev) && is_uppercase(cur)
        && next_lower) || (ascii_digit(prev) != ascii_digit(cur) && is_alphabetic(cur))
}

fn split_camel(s: &str) -> (r: Vec<String>)
    ensures
        r.deep_view() == camel_parts(s@),
{
    let chars = chars_of(s);
    let mut parts: Vec<String> = Vec::new();
    if chars.len() == 0 {
        assert(parts.deep_view() =~= camel_parts(s@));
        return parts;
    }
    let mut start: usize = 0;
    let mut i: usize = 1;
    while i < chars.len()
        invariant
            chars@ == s@,
            chars@.len() > 0,
            start < i <= chars@.len(),
            parts.deep_view() + camel_from(chars@, start as int, i as int) == camel_parts(s@),
        decreases chars.len() - i,
    {
        if is_camel_boundary(&chars, i) {
            let ghost before = parts.deep_view();
            let piece = string_of_range(&chars, start, i);
            parts.push(piece);
            assert(parts.deep_view() =~= before + seq![chars@.subrange(start as int, i as int)]);
            assert(before + camel_from(chars@, start as int, i as int) =~= parts.deep_view()
                + camel_from(chars@, i as int, i + 1));
            start = i;
        }
        i += 1;
    }
    let ghost before = parts.deep_view();
    let piece = string_of_range(&chars, start, chars.len());
    parts.push(piece);
    assert(parts.deep_view() =~= before + camel_from(chars@, start as int, i as int));
    parts
}

// ---------------------------------------------------------------------------
// Identifier splitting
// ---------------------------------------------------------------------------

/// Camel-case parts of each segment, in order.
pub open spec fn camel_all(segs: Seq<Seq<char>>) -> Seq<Seq<char>>
    decreases segs.len(),
{
    if segs.len() == 0 {
        Seq::empty()
    } else {
        camel_all(segs.drop_last()) + camel_parts(segs.last())
    }
}

/// Parts of an identifier or path: segments between `_ / - .`, each cut at
/// camel-case boundaries; the whole input when that leaves nothing.
pub open spec fn split_ident_seq(s: Seq<char>) -> Seq<Seq<char>> {
    let parts = camel_all(runs(s, Separators::Ident));
    if parts.len() == 0 && s.len() > 0 {
        seq![s]
    } else {
        parts
    }
}

/// Split `userLogin` / `user_login` / `USER_LOGIN` / path segments into parts.
pub fn split_ident(s: &str) -> (r: Vec<String>)
    ensures
        r.deep_view() == split_ident_seq(s@),
{
    let segs = split_runs(s, Separators::Ident);
    let mut parts: Vec<String> = Vec::new();
    let mut k: usize = 0;
    while k < segs.len()
        invariant
            k <= segs@.len(),
            parts.deep_view() == camel_all(segs.deep_view().take(k as int)),
        decreases segs.len() - k,
    {
        let mut more = split_camel(segs[k].as_str());
        let ghost before = parts.deep_view();
        let ghost extra = more.deep_view();
        parts.append(&mut more);
        assert(parts.deep_view() =~= before + extra);
        assert(segs.deep_view().take(k + 1).drop_last() =~= segs.deep_view().take(k as int));
        k += 1;
    }
    assert(segs.deep_view().take(k as int) =~= segs.deep_view());
    if parts.len() == 0 && !s.is_empty() {
        parts.push(s.to_owned());
        assert(parts.deep_view() =~= seq![s@]);
    }
    parts
}

// ---------------------------------------------------------------------------
// Stemming
// ---------------------------------------------------------------------------

/// The suffixes that the stemmer tries, in order.
pub open spec fn stem_suffix(k: int) -> Seq<char> {
    if k == 0 {
        "ational"@
    } else if k == 1 {
        "ation"@
    } else if k == 2 {
        "ations"@
    } else if k == 3 {
        "eness"@
    } else if k == 4 {
        "ingly"@
    } else if k == 5 {
        "edly"@
    } else if k == 6 {
        "ing"@
    } else if k == 7 {
        "ies"@
    } else if k == 8 {
        "ied"@
    } else if k == 9 {
        "ies"@
    } else if k == 10 {
        "es"@
    } else if k == 11 {
        "s"@
    } else if k == 12 {
        "ment"@
    } else if k == 13 {
        "ness"@
    } else if k == 14 {
        "ful"@
    } else if k == 15 {
        "less"@
    } else if k == 16 {
        "ize"@
    } else if k == 17 {
        "ise"@
    } else if k == 18 {
        "ity"@
    } else if k == 19 {
        "ive"@
    } else if k == 20 {
        "ous"@
    } else if k == 21 {
        "al"@
    } else if k == 22 {
        "er"@
    } else if k == 23 {
        "est"@
    } else if k == 24 {
        "ly"@
    } else {
        "ed"@
    }
}

pub const N_STEM_SUFFIXES: usize = 26;

fn suffix_at(k: usize) -> (s: &'static str)
    ensures
        s@ == stem_suffix(k as int),
{
    match k {
        0 => "ational",
        1 => "ation",
        2 => "ations",
        3 => "eness",
        4 => "ingly",
        5 => "edly",
        6 => "ing",
        7 => "ies",
        8 => "ied",
        9 => "ies",
        10 => "es",
        11 => "s",
        12 => "ment",
        13 => "ness",
        14 => "ful",
        15 => "less",
        16 => "ize",
        17 => "ise",
        18 => "ity",
        19 => "ive",
        20 => "ous",
        21 => "al",
        22 => "er",
        23 => "est",
        24 => "ly",
        _ => "ed",
    }
}

/// `w` without the suffix `suf` (whose characters it ends with).
pub open spec fn cut_suffix(w: Seq<char>, suf: Seq<char>) -> Seq<char> {
    w.take(w.len() - suf.len())
}

/// Suffix `k` applies to `w`: `w` is over two bytes longer, ends with it, and
/// at least two bytes remain once it is cut.
pub open spec fn suffix_applies(w: Seq<char>, k: int) -> bool {
    let suf = stem_suffix(k);
    &&& utf8_len(w) > utf8_len(suf) + 2
    &&& ends_with_seq(w, suf)
    &&& utf8_len(cut_suffix(w, suf)) >= 2
}

/// The first applicable suffix from `k` on is cut; `w` when none applies.
pub open spec fn stem_from(w: Seq<char>, k: int) -> Seq<char>
    decreases N_STEM_SUFFIXES - k,
{
    if k >= N_STEM_SUFFIXES {
        w
    } else if suffix_applies(w, k) {
        cut_suffix(w, stem_suffix(k))
    } else {
        stem_from(w, k + 1)
    }
}

/// Light English stemmer: words of at most three bytes are kept; otherwise the
/// first applicable suffix of the list is cut.
pub open spec fn light_stem_seq(w: Seq<char>) -> Seq<char> {
    if utf8_len(w) <= 3 {
        w
    } else {
        stem_from(w, 0)
    }
}

/// Very light English stemmer (suffix stripping) — enough for auth/authentication.
pub fn light_stem(word: &str) -> (r: String)
    ensures
        r@ == light_stem_seq(word@),
{
    let n = byte_len(word);
    if n <= 3 {
        return word.to_owned();
    }
    let chars = chars_of(word);
    let mut k: usize = 0;
    while k < N_STEM_SUFFIXES
        invariant
            chars@ == word@,
            n == utf8_len(word@),
            n > 3,
            k <= N_STEM_SUFFIXES,
            stem_from(word@, 0) == stem_from(word@, k as int),
        decreases N_STEM_SUFFIXES - k,
    {
        let suf = suffix_at(k);
        let suf_len = byte_len(suf);
        if n - 2 > suf_len && str_ends_with(word, suf) {
            let suf_chars = chars_of(suf);
            let stem = string_of_range(&chars, 0, chars.len() - suf_chars.len());
            assert(stem@ =~= cut_suffix(word@, suf@));
            if byte_len(stem.as_str()) >= 2 {
                return stem;
            }
        }
        k += 1;
    }
    word.to_owned()
}

// ---------------------------------------------------------------------------
// Laws of the stemmer
// ---------------------------------------------------------------------------

/// The English suffixes the stemmer strips.
pub open spec fn english_suffix(s: Seq<char>) -> bool {
    ||| s == "ational"@
    ||| s == "ation"@
    ||| s == "ations"@
    ||| s == "eness"@
    ||| s == "ingly"@
    ||| s == "edly"@
    ||| s == "ing"@
    ||| s == "ies"@
    ||| s == "ied"@
    ||| s == "es"@
    ||| s == "s"@
    ||| s == "ment"@
    ||| s == "ness"@
    ||| s == "ful"@
    ||| s == "less"@
    ||| s == "ize"@
    ||| s == "ise"@
    ||| s == "ity"@
    ||| s == "ive"@
    ||| s == "ous"@
    ||| s == "al"@
    ||| s == "er"@
    ||| s == "est"@
    ||| s == "ly"@
    ||| s == "ed"@
}

/// `w` ends with `suf`, and `suf` is one the stemmer cuts from it: the first
/// suffix of the list with its ending, or a shorter one that `w` does not
/// end in a longer form of.
pub open spec fn cut_by_stemmer(w: Seq<char>, suf: Seq<char>) -> bool {
    &&& ends_with_seq(w, suf)
    &&& {
        ||| suf == "ational"@ || suf == "ation"@ || suf == "ations"@ || suf == "eness"@
        ||| suf == "ingly"@ || suf == "edly"@ || suf == "ing"@ || suf == "ies"@ || suf == "ied"@
        ||| suf == "ment"@ || suf == "ful"@ || suf == "ize"@ || suf == "ise"@ || suf == "ity"@
        ||| suf == "ive"@ || suf == "er"@ || suf == "est"@
        ||| suf == "es"@ && !ends_with_seq(w, "ies"@)
        ||| suf == "s"@ && !ends_with_seq(w, "ations"@) && !ends_with_seq(w, "eness"@)
            && !ends_with_seq(w, "es"@)
        ||| suf == "al"@ && !ends_with_seq(w, "ational"@)
        ||| suf == "ly"@ && !ends_with_seq(w, "ingly"@) && !ends_with_seq(w, "edly"@)
        ||| suf == "ed"@ && !ends_with_seq(w, "ied"@)
    }
}

/// The last three characters of what `w` ends with are its own.
proof fn lemma_tail3(w: Seq<char>, x: Seq<char>)
    requires
        ends_with_seq(w, x),
    ensures
        x.len() > 0 ==> w[w.len() - 1] == x[x.len() - 1],
        x.len() > 1 ==> w[w.len() - 2] == x[x.len() - 2],
        x.len() > 2 ==> w[w.len() - 3] == x[x.len() - 3],
{
    let t = w.skip(w.len() - x.len());
    if x.len() > 0 {
        assert(t[x.len() - 1] == w[w.len() - 1]);
    }
    if x.len() > 1 {
        assert(t[x.len() - 2] == w[w.len() - 2]);
    }
    if x.len() > 2 {
        assert(t[x.len() - 3] == w[w.len() - 3]);
    }
}

/// ASCII text has one byte per character.
proof fn lemma_utf8_len_ascii(s: Seq<char>)
    requires
        forall|i: int| 0 <= i < s.len() ==> (#[trigger] s[i] as u32) < 128,
    ensures
        utf8_len(s) == s.len(),
    decreases s.len(),
{
    if s.len() > 0 {
        lemma_utf8_len_ascii(s.drop_first());
    }
}

proof fn lemma_stem_skips(w: Seq<char>, j: int, k: int)
    requires
        0 <= j <= k <= N_STEM_SUFFIXES,
        forall|i: int| j <= i < k ==> !ends_with_seq(w, #[trigger] stem_suffix(i)),
    ensures
        stem_from(w, j) == stem_from(w, k),
    decreases k - j,
{
    if j < k {
        lemma_stem_skips(w, j + 1, k);
    }
}

/// Suffix `k` is cut when no earlier one ends the word and the word is long enough.
proof fn lemma_stem_cuts_at(w: Seq<char>, k: int)
    requires
        0 <= k < N_STEM_SUFFIXES,
        forall|i: int| 0 <= i < k ==> !ends_with_seq(w, #[trigger] stem_suffix(i)),
        ends_with_seq(w, stem_suffix(k)),
        forall|i: int| 0 <= i < stem_suffix(k).len() ==> (#[trigger] stem_suffix(k)[i] as u32) < 128,
        utf8_len(w) > stem_suffix(k).len() + 2,
    ensures
        light_stem_seq(w) == cut_suffix(w, stem_suffix(k)),
{
    let suf = stem_suffix(k);
    lemma_stem_skips(w, 0, k);
    lemma_utf8_len_ascii(suf);
    let cut = cut_suffix(w, suf);
    assert(w =~= cut + suf);
    lemma_utf8_len_concat(cut, suf);
    assert(suffix_applies(w, k));
}

/// Each entry of the stemmer's list is an English suffix it strips.
proof fn lemma_listed(k: int)
    requires
        0 <= k < N_STEM_SUFFIXES,
    ensures
        english_suffix(stem_suffix(k)),
{
}

proof fn lemma_stem_from_listed(w: Seq<char>, k: int)
    requires
        0 <= k <= N_STEM_SUFFIXES,
    ensures
        stem_from(w, k) == w || exists|s: Seq<char>|
            english_suffix(s) && ends_with_seq(w, s) && stem_from(w, k) == cut_suffix(w, s),
    decreases N_STEM_SUFFIXES - k,
{
    if k < N_STEM_SUFFIXES {
        if suffix_applies(w, k) {
            lemma_listed(k);
        } else {
            lemma_stem_from_listed(w, k + 1);
        }
    }
}

/// The stemmer only ever removes one English suffix from the end of a word:
/// its result is the word itself, or the word less one of those suffixes.
pub proof fn law_stem_removes_only_english_suffixes(w: Seq<char>)
    ensures
        light_stem_seq(w) == w || exists|s: Seq<char>|
            english_suffix(s) && w == light_stem_seq(w) + s,
{
    if utf8_len(w) > 3 {
        lemma_stem_from_listed(w, 0);
        if light_stem_seq(w) != w {
            let s = choose|s: Seq<char>|
                english_suffix(s) && ends_with_seq(w, s) && stem_from(w, 0) == cut_suffix(w, s);
            assert(w =~= cut_suffix(w, s) + s);
        }
    }
}

/// A word that ends in a suffix the stemmer cuts (`cut_by_stemmer`) and is
/// over two bytes longer than it loses exactly that suffix: `deployment`
/// stems to `deploy`, `authentication` to `authentic`.
#[verifier::rlimit(60)]
pub proof fn law_stem_cuts_suffix(w: Seq<char>, suf: Seq<char>)
    requires
        cut_by_stemmer(w, suf),
        utf8_len(w) > suf.len() + 2,
    ensures
        light_stem_seq(w) == w.take(w.len() - suf.len()),
{
    reveal_strlit("ational");
    reveal_strlit("ation");
    reveal_strlit("ations");
    reveal_strlit("eness");
    reveal_strlit("ingly");
    reveal_strlit("edly");
    reveal_strlit("ing");
    reveal_strlit("ies");
    reveal_strlit("ied");
    reveal_strlit("es");
    reveal_strlit("s");
    reveal_strlit("ment");
    reveal_strlit("ness");
    reveal_strlit("ful");
    reveal_strlit("less");
    reveal_strlit("ize");
    reveal_strlit("ise");
    reveal_strlit("ity");
    reveal_strlit("ive");
    reveal_strlit("ous");
    reveal_strlit("al");
    reveal_strlit("er");
    reveal_strlit("est");
    reveal_strlit("ly");
    reveal_strlit("ed");
    lemma_tail3(w, suf);
    if suf == "ational"@ {
        assert(stem_suffix(0) == suf);
        assert forall|i: int| 0 <= i < 0 implies !ends_with_seq(w, #[trigger] stem_suffix(i)) by {
        }
        lemma_stem_cuts_at(w, 0);
    } else if suf == "ation"@ {
        assert(stem_suffix(1) == suf);
        assert forall|i: int| 0 <= i < 1 implies !ends_with_seq(w, #[trigger] stem_suffix(i)) by {
            if ends_with_seq(w, stem_suffix(i)) {
                if i == 0 {
                    lemma_tail3(w, stem_suffix(i));
                }
            }
        }
        lemma_stem_cuts_at(w, 1);
    } else if suf == "ations"@ {
        assert(stem_suffix(2) == suf);
        assert forall|i: int| 0 <= i < 2 implies !ends_with_seq(w, #[trigger] stem_suffix(i)) by {
            if ends_with_seq(w, stem_suffix(i)) {
                if i == 0 {
                    lemma_tail3(w, stem_suffix(i));
                } else if i == 1 {
                    lemma_tail3(w, stem_suffix(i));
                }
            }
        }
        lemma_stem_cuts_at(w, 2);
    } else if suf == "eness"@ {
        assert(stem_suffix(3) == suf);
        assert forall|i: int| 0 <= i < 3 implies !ends_with_seq(w, #[trigger] stem_suffix(i)) by {
            if ends_with_seq(w, stem_suffix(i)) {
                if i == 0 {
                    lemma_tail3(w, stem_suffix(i));
                } else if i == 1 {
                    lemma_tail3(w, stem_suffix(i));
                } else if i == 2 {
                    lemma_tail3(w, stem_suffix(i));
                }
            }
        }
        lemma_stem_cuts_at(w, 3);
    } else if suf == "ingly"@ {
        assert(stem_suffix(4) == suf);
        assert forall|i: int| 0 <= i < 4 implies !ends_with_seq(w, #[trigger] stem_suffix(i)) by {
            if ends_with_seq(w, stem_suffix(i)) {
                if i == 0 {
                    lemma_tail3(w, stem_suffix(i));
                } else if i == 1 {
                    lemma_tail3(w, stem_suffix(i));
                } else if i == 2 {
                    lemma_tail3(w, stem_suffix(i));
                } else if i == 3 {
                    lemma_tail3(w, stem_suffix(i));
                }
            }
        }
        lemma_stem_cuts_at(w, 4);
    } else if suf == "edly"@ {
        assert(stem_suffix(5) == suf);
        assert forall|i: int| 0 <= i < 5 implies !ends_with_seq(w, #[trigger] stem_suffix(i)) by {
            if ends_with_seq(w, stem_suffix(i)) {
                if i == 0 {
                    lemma_tail3(w, stem_suffix(i));
                } else if i == 1 {
                    lemma_tail3(w, stem_suffix(i));
                } else if i == 2 {
                    lemma_tail3(w, stem_suffix(i));
                } else if i == 3 {
                    lemma_tail3(w, stem_suffix(i));
                } else if i == 4 {
                    lemma_tail3(w, stem_suffix(i));
                }
            }
        }
        lemma_stem_cuts_at(w, 5);
    } else if suf == "ing"@ {
        assert(stem_suffix(6) == suf);
        assert forall|i: int| 0 <= i < 6 implies !ends_with_seq(w, #[trigger] stem_suffix(i)) by {
            if ends_with_seq(w, stem_suffix(i)) {
                if i == 0 {
                    lemma_tail3(w, stem_suffix(i));
                } else if i == 1 {
                    lemma_tail3(w, stem_suffix(i));
                } else if i == 2 {
                    lemma_tail3(w, stem_suffix(i));
                } else if i == 3 {
                    lemma_tail3(w, stem_suffix(i));
                } else if i == 4 {
                    lemma_tail3(w, stem_suffix(i));
                } else if i == 5 {
                    lemma_tail3(w, stem_suffix(i));
                }
            }
        }
        lemma_stem_cuts_at(w, 6);
    } else if suf == "ies"@ {
        assert(stem_suffix(7) == suf);
        assert forall|i: int| 0 <= i < 7 implies !ends_with_seq(w, #[trigger] stem_suffix(i)) by {
            if ends_with_seq(w, stem_suffix(i)) {
                if i == 0 {
                    lemma_tail3(w, stem_suffix(i));
                } else if i == 1 {
                    lemma_tail3(w, stem_suffix(i));
                } else if i == 2 {
                    lemma_tail3(w, stem_suffix(i));
                } else if i == 3 {
                    lemma_tail3(w, stem_suffix(i));
                } else if i == 4 {
                    lemma_tail3(w, stem_suffix(i));
                } else if i == 5 {
                    lemma_tail3(w, stem_suffix(i));
                } else if i == 6 {
                    lemma_tail3(w, stem_suffix(i));
                }
            }
        }
        lemma_stem_cuts_at(w, 7);
    } else if suf == "ied"@ {
        assert(stem_suffix(8) == suf);
        assert forall|i: int| 0 <= i < 8 implies !ends_with_seq(w, #[trigger] stem_suffix(i)) by {
            if ends_with_seq(w, stem_suffix(i)) {
                if i == 0 {
                    lemma_tail3(w, stem_suffix(i));
                } else if i == 1 {
                    lemma_tail3(w, stem_suffix(i));
                } else if i == 2 {
                    lemma_tail3(w, stem_suffix(i));
                } else if i == 3 {
                    lemma_tail3(w, stem_suffix(i));
                } else if i == 4 {
                    lemma_tail3(w, stem_suffix(i));
                } else if i == 5 {
                    lemma_tail3(w, stem_suffix(i));
                } else if i == 6 {
                    lemma_tail3(w, stem_suffix(i));
                } else if i == 7 {
                    lemma_tail3(w, stem_suffix(i));
                }
            }
        }
        lemma_stem_cuts_at(w, 8);
    } else if suf == "es"@ {
        assert(stem_suffix(10) == suf);
        assert forall|i: int| 0 <= i < 10 implies !ends_with_seq(w, #[trigger] stem_suffix(i)) by {
            if ends_with_seq(w, stem_suffix(i)) {
                if i == 0 {
                    lemma_tail3(w, stem_suffix(i));
                } else if i == 1 {
                    lemma_tail3(w, stem_suffix(i));
                } else if i == 2 {
                    lemma_tail3(w, stem_suffix(i));
                } else if i == 3 {
                    lemma_tail3(w, stem_suffix(i));
                } else if i == 4 {
                    lemma_tail3(w, stem_suffix(i));
                } else if i == 5 {
                    lemma_tail3(w, stem_suffix(i));
                } else if i == 6 {
                    lemma_tail3(w, stem_suffix(i));
                } else if i == 7 {
                    lemma_tail3(w, stem_suffix(i));
                } else if i == 8 {
                    lemma_tail3(w, stem_suffix(i));
                } else if i == 9 {
                    lemma_tail3(w, stem_suffix(i));
                }
            }
        }
        lemma_stem_cuts_at(w, 10);
    } else if suf == "s"@ {
        assert(stem_suffix(11) == suf);
        assert forall|i: int| 0 <= i < 11 implies !ends_with_seq(w, #[trigger] stem_suffix(i)) by {
            if ends_with_seq(w, stem_suffix(i)) {
                if i == 0 {
                    lemma_tail3(w, stem_suffix(i));
                } else if i == 1 {
                    lemma_tail3(w, stem_suffix(i));
                } else if i == 2 {
                    lemma_tail3(w, stem_suffix(i));
                } else if i == 3 {
                    lemma_tail3(w, stem_suffix(i));
                } else if i == 4 {
                    lemma_tail3(w, stem_suffix(i));
                } else if i == 5 {
                    lemma_tail3(w, stem_suffix(i));
                } else if i == 6 {
                    lemma_tail3(w, stem_suffix(i));
                } else if i == 7 {
                    lemma_tail3(w, stem_suffix(i));
                    assert(w.skip(w.len() - 2) =~= "es"@);
                } else if i == 8 {
                    lemma_tail3(w, stem_suffix(i));
                } else if i == 9 {
                    lemma_tail3(w, stem_suffix(i));
                    assert(w.skip(w.len() - 2) =~= "es"@);
                } else if i == 10 {
                    lemma_tail3(w, stem_suffix(i));
                }
            }
        }
        lemma_stem_cuts_at(w, 11);
    } else if suf == "ment"@ {
        assert(stem_suffix(12) == suf);
        assert forall|i: int| 0 <= i < 12 implies !ends_with_seq(w, #[trigger] stem_suffix(i)) by {
            if ends_with_seq(w, stem_suffix(i)) {
                if i == 0 {
                    lemma_tail3(w, stem_suffix(i));
                } else if i == 1 {
                    lemma_tail3(w, stem_suffix(i));
                } else if i == 2 {
                    lemma_tail3(w, stem_suffix(i));
                } else if i == 3 {
                    lemma_tail3(w, stem_suffix(i));
                } else if i == 4 {
                    lemma_tail3(w, stem_suffix(i));
                } else if i == 5 {
                    lemma_tail3(w, stem_suffix(i));
                } else if i == 6 {
                    lemma_tail3(w, stem_suffix(i));
                } else if i == 7 {
                    lemma_tail3(w, stem_suffix(i));
                } else if i == 8 {
                    lemma_tail3(w, stem_suffix(i));
                } else if i == 9 {
                    lemma_tail3(w, stem_suffix(i));
                } else if i == 10 {
                    lemma_tail3(w, stem_suffix(i));
                } else if i == 11 {
                    lemma_tail3(w, stem_suffix(i));
                }
            }
        }
        lemma_stem_cuts_at(w, 12);
    } else if suf == "ful"@ {
        assert(stem_suffix(14) == suf);
        assert forall|i: int| 0 <= i < 14 implies !ends_with_seq(w, #[trigger] stem_suffix(i)) by {
            if ends_with_seq(w, stem_suffix(i)) {
                if i == 0 {
                    lemma_tail3(w, stem_suffix(i));
                } else if i == 1 {
                    lemma_tail3(w, stem_suffix(i));
                } else if i == 2 {
                    lemma_tail3(w, stem_suffix(i));
                } else if i == 3 {
                    lemma_tail3(w, stem_suffix(i));
                } else if i == 4 {
                    lemma_tail3(w, stem_suffix(i));
                } else if i == 5 {
                    lemma_tail3(w, stem_suffix(i));
                } else if i == 6 {
                    lemma_tail3(w, stem_suffix(i));
                } else if i == 7 {
                    lemma_tail3(w, stem_suffix(i));
                } else if i == 8 {
                    lemma_tail3(w, stem_suffix(i));
                } else if i == 9 {
                    lemma_tail3(w, stem_suffix(i));
                } else if i == 10 {
                    lemma_tail3(w, stem_suffix(i));
                } else if i == 11 {
                    lemma_tail3(w, stem_suffix(i));
                } else if i == 12 {
                    lemma_tail3(w, stem_suffix(i));
                } else if i == 13 {
                    lemma_tail3(w, stem_suffix(i));
                }
            }
        }
        lemma_stem_cuts_at(w, 14);
    } else if suf == "ize"@ {
        assert(stem_suffix(16) == suf);
        assert forall|i: int| 0 <= i < 16 implies !ends_with_seq(w, #[trigger] stem_suffix(i)) by {
            if ends_with_seq(w, stem_suffix(i)) {
                if i == 0 {
                    lemma_tail3(w, stem_suffix(i));
                } else if i == 1 {
                    lemma_tail3(w, stem_suffix(i));
                } else if i == 2 {
                    lemma_tail3(w, stem_suffix(i));
                } else if i == 3 {
                    lemma_tail3(w, stem_suffix(i));
                } else if i == 4 {
                    lemma_tail3(w, stem_suffix(i));
                } else if i == 5 {
                    lemma_tail3(w, stem_suffix(i));
                } else if i == 6 {
                    lemma_tail3(w, stem_suffix(i));
                } else if i == 7 {
                    lemma_tail3(w, stem_suffix(i));
                } else if i == 8 {
                    lemma_tail3(w, stem_suffix(i));
                } else if i == 9 {
                    lemma_tail3(w, stem_suffix(i));
                } else if i == 10 {
                    lemma_tail3(w, stem_suffix(i));
                } else if i == 11 {
                    lemma_tail3(w, stem_suffix(i));
                } else if i == 12 {
                    lemma_tail3(w, stem_suffix(i));
                } else if i == 13 {
                    lemma_tail3(w, stem_suffix(i));
                } else if i == 14 {
                    lemma_tail3(w, stem_suffix(i));
                } else if i == 15 {
                    lemma_tail3(w, stem_suffix(i));
                }
            }
        }
        lemma_stem_cuts_at(w, 16);
    } else if suf == "ise"@ {
        assert(stem_suffix(17) == suf);
        assert forall|i: int| 0 <= i < 17 implies !ends_with_seq(w, #[trigger] stem_suffix(i)) by {
            if ends_with_seq(w, stem_suffix(i)) {
                if i == 0 {
                    lemma_tail3(w, stem_suffix(i));
                } else if i == 1 {
                    lemma_tail3(w, stem_suffix(i));
                } else if i == 2 {
                    lemma_tail3(w, stem_suffix(i));
                } else if i == 3 {
                    lemma_tail3(w, stem_suffix(i));
                } else if i == 4 {
                    lemma_tail3(w, stem_suffix(i));
                } else if i == 5 {
                    lemma_tail3(w, stem_suffix(i));
                } else if i == 6 {
                    lemma_tail3(w, stem_suffix(i));
                } else if i == 7 {
                    lemma_tail3(w, stem_suffix(i));
                } else if i == 8 {
                    lemma_tail3(w, stem_suffix(i));
                } else if i == 9 {
                    lemma_tail3(w, stem_suffix(i));
                } else if i == 10 {
                    lemma_tail3(w, stem_suffix(i));
                } else if i == 11 {
                    lemma_tail3(w, stem_suffix(i));
                } else if i == 12 {
                    lemma_tail3(w, stem_suffix(i));
                } else if i == 13 {
                    lemma_tail3(w, stem_suffix(i));
                } else if i == 14 {
                    lemma_tail3(w, stem_suffix(i));
                } else if i == 15 {
                    lemma_tail3(w, stem_suffix(i));
                } else if i == 16 {
                    lemma_tail3(w, stem_suffix(i));
                }
            }
        }
        lemma_stem_cuts_at(w, 17);
    } else if suf == "ity"@ {
        assert(stem_suffix(18) == suf);
        assert forall|i: int| 0 <= i < 18 implies !ends_with_seq(w, #[trigger] stem_suffix(i)) by {
            if ends_with_seq(w, stem_suffix(i)) {
                if i == 0 {
                    lemma_tail3(w, stem_suffix(i));
                } else if i == 1 {
                    lemma_tail3(w, stem_suffix(i));
                } else if i == 2 {
                    lemma_tail3(w, stem_suffix(i));
                } else if i == 3 {
                    lemma_tail3(w, stem_suffix(i));
                } else if i == 4 {
                    lemma_tail3(w, stem_suffix(i));
                } else if i == 5 {
                    lemma_tail3(w, stem_suffix(i));
                } else if i == 6 {
                    lemma_tail3(w, stem_suffix(i));
                } else if i == 7 {
                    lemma_tail3(w, stem_suffix(i));
                } else if i == 8 {
                    lemma_tail3(w, stem_suffix(i));
                } else if i == 9 {
                    lemma_tail3(w, stem_suffix(i));
                } else if i == 10 {
                    lemma_tail3(w, stem_suffix(i));
                } else if i == 11 {
                    lemma_tail3(w, stem_suffix(i));
                } else if i == 12 {
                    lemma_tail3(w, stem_suffix(i));
                } else if i == 13 {
                    lemma_tail3(w, stem_suffix(i));
                } else if i == 14 {
                    lemma_tail3(w, stem_suffix(i));
                } else if i == 15 {
                    lemma_tail3(w, stem_suffix(i));
                } else if i == 16 {
                    lemma_tail3(w, stem_suffix(i));
                } else if i == 17 {
                    lemma_tail3(w, stem_suffix(i));
                }
            }
        }
        lemma_stem_cuts_at(w, 18);
    } else if suf == "ive"@ {
        assert(stem_suffix(19) == suf);
        assert forall|i: int| 0 <= i < 19 implies !ends_with_seq(w, #[trigger] stem_suffix(i)) by {
            if ends_with_seq(w, stem_suffix(i)) {
                if i == 0 {
                    lemma_tail3(w, stem_suffix(i));
                } else if i == 1 {
                    lemma_tail3(w, stem_suffix(i));
                } else if i == 2 {
                    lemma_tail3(w, stem_suffix(i));
                } else if i == 3 {
                    lemma_tail3(w, stem_suffix(i));
                } else if i == 4 {
                    lemma_tail3(w, stem_suffix(i));
                } else if i == 5 {
                    lemma_tail3(w, stem_suffix(i));
                } else if i == 6 {
                    lemma_tail3(w, stem_suffix(i));
                } else if i == 7 {
                    lemma_tail3(w, stem_suffix(i));
                } else if i == 8 {
                    lemma_tail3(w, stem_suffix(i));
                } else if i == 9 {
                    lemma_tail3(w, stem_suffix(i));
                } else if i == 10 {
                    lemma_tail3(w, stem_suffix(i));
                } else if i == 11 {
                    lemma_tail3(w, stem_suffix(i));
                } else if i == 12 {
                    lemma_tail3(w, stem_suffix(i));
                } else if i == 13 {
                    lemma_tail3(w, stem_suffix(i));
                } else if i == 14 {
                    lemma_tail3(w, stem_suffix(i));
                } else if i == 15 {
                    lemma_tail3(w, stem_suffix(i));
                } else if i == 16 {
                    lemma_tail3(w, stem_suffix(i));
                } else if i == 17 {
                    lemma_tail3(w, stem_suffix(i));
                } else if i == 18 {
                    lemma_tail3(w, stem_suffix(i));
                }
            }
        }
        lemma_stem_cuts_at(w, 19);
    } else if suf == "al"@ {
        assert(stem_suffix(21) == suf);
        assert forall|i: int| 0 <= i < 21 implies !ends_with_seq(w, #[trigger] stem_suffix(i)) by {
            if ends_with_seq(w, stem_suffix(i)) {
                if i == 0 {
                    lemma_tail3(w, stem_suffix(i));
                } else if i == 1 {
                    lemma_tail3(w, stem_suffix(i));
                } else if i == 2 {
                    lemma_tail3(w, stem_suffix(i));
                } else if i == 3 {
                    lemma_tail3(w, stem_suffix(i));
                } else if i == 4 {
                    lemma_tail3(w, stem_suffix(i));
                } else if i == 5 {
                    lemma_tail3(w, stem_suffix(i));
                } else if i == 6 {
                    lemma_tail3(w, stem_suffix(i));
                } else if i == 7 {
                    lemma_tail3(w, stem_suffix(i));
                } else if i == 8 {
                    lemma_tail3(w, stem_suffix(i));
                } else if i == 9 {
                    lemma_tail3(w, stem_suffix(i));
                } else if i == 10 {
                    lemma_tail3(w, stem_suffix(i));
                } else if i == 11 {
                    lemma_tail3(w, stem_suffix(i));
                } else if i == 12 {
                    lemma_tail3(w, stem_suffix(i));
                } else if i == 13 {
                    lemma_tail3(w, stem_suffix(i));
                } else if i == 14 {
                    lemma_tail3(w, stem_suffix(i));
                } else if i == 15 {
                    lemma_tail3(w, stem_suffix(i));
                } else if i == 16 {
                    lemma_tail3(w, stem_suffix(i));
                } else if i == 17 {
                    lemma_tail3(w, stem_suffix(i));
                } else if i == 18 {
                    lemma_tail3(w, stem_suffix(i));
                } else if i == 19 {
                    lemma_tail3(w, stem_suffix(i));
                } else if i == 20 {
                    lemma_tail3(w, stem_suffix(i));
                }
            }
        }
        lemma_stem_cuts_at(w, 21);
    } else if suf == "er"@ {
        assert(stem_suffix(22) == suf);
        assert forall|i: int| 0 <= i < 22 implies !ends_with_seq(w, #[trigger] stem_suffix(i)) by {
            if ends_with_seq(w, stem_suffix(i)) {
                if i == 0 {
                    lemma_tail3(w, stem_suffix(i));
                } else if i == 1 {
                    lemma_tail3(w, stem_suffix(i));
                } else if i == 2 {
                    lemma_tail3(w, stem_suffix(i));
                } else if i == 3 {
                    lemma_tail3(w, stem_suffix(i));
                } else if i == 4 {
                    lemma_tail3(w, stem_suffix(i));
                } else if i == 5 {
                    lemma_tail3(w, stem_suffix(i));
                } else if i == 6 {
                    lemma_tail3(w, stem_suffix(i));
                } else if i == 7 {
                    lemma_tail3(w, stem_suffix(i));
                } else if i == 8 {
                    lemma_tail3(w, stem_suffix(i));
                } else if i == 9 {
                    lemma_tail3(w, stem_suffix(i));
                } else if i == 10 {
                    lemma_tail3(w, stem_suffix(i));
                } else if i == 11 {
                    lemma_tail3(w, stem_suffix(i));
                } else if i == 12 {
                    lemma_tail3(w, stem_suffix(i));
                } else if i == 13 {
                    lemma_tail3(w, stem_suffix(i));
                } else if i == 14 {
                    lemma_tail3(w, stem_suffix(i));
                } else if i == 15 {
                    lemma_tail3(w, stem_suffix(i));
                } else if i == 16 {
                    lemma_tail3(w, stem_suffix(i));
                } else if i == 17 {
                    lemma_tail3(w, stem_suffix(i));
                } else if i == 18 {
                    lemma_tail3(w, stem_suffix(i));
                } else if i == 19 {
                    lemma_tail3(w, stem_suffix(i));
                } else if i == 20 {
                    lemma_tail3(w, stem_suffix(i));
                } else if i == 21 {
                    lemma_tail3(w, stem_suffix(i));
                }
            }
        }
        lemma_stem_cuts_at(w, 22);
    } else if suf == "est"@ {
        assert(stem_suffix(23) == suf);
        assert forall|i: int| 0 <= i < 23 implies !ends_with_seq(w, #[trigger] stem_suffix(i)) by {
            if ends_with_seq(w, stem_suffix(i)) {
                if i == 0 {
                    lemma_tail3(w, stem_suffix(i));
                } else if i == 1 {
                    lemma_tail3(w, stem_suffix(i));
                } else if i == 2 {
                    lemma_tail3(w, stem_suffix(i));
                } else if i == 3 {
                    lemma_tail3(w, stem_suffix(i));
                } else if i == 4 {
                    lemma_tail3(w, stem_suffix(i));
                } else if i == 5 {
                    lemma_tail3(w, stem_suffix(i));
                } else if i == 6 {
                    lemma_tail3(w, stem_suffix(i));
                } else if i == 7 {
                    lemma_tail3(w, stem_suffix(i));
                } else if i == 8 {
                    lemma_tail3(w, stem_suffix(i));
                } else if i == 9 {
                    lemma_tail3(w, stem_suffix(i));
                } else if i == 10 {
                    lemma_tail3(w, stem_suffix(i));
                } else if i == 11 {
                    lemma_tail3(w, stem_suffix(i));
                } else if i == 12 {
                    lemma_tail3(w, stem_suffix(i));
                } else if i == 13 {
                    lemma_tail3(w, stem_suffix(i));
                } else if i == 14 {
                    lemma_tail3(w, stem_suffix(i));
                } else if i == 15 {
                    lemma_tail3(w, stem_suffix(i));
                } else if i == 16 {
                    lemma_tail3(w, stem_suffix(i));
                } else if i == 17 {
                    lemma_tail3(w, stem_suffix(i));
                } else if i == 18 {
                    lemma_tail3(w, stem_suffix(i));
                } else if i == 19 {
                    lemma_tail3(w, stem_suffix(i));
                } else if i == 20 {
                    lemma_tail3(w, stem_suffix(i));
                } else if i == 21 {
                    lemma_tail3(w, stem_suffix(i));
                } else if i == 22 {
                    lemma_tail3(w, stem_suffix(i));
                }
            }
        }
        lemma_stem_cuts_at(w, 23);
    } else if suf == "ly"@ {
        assert(stem_suffix(24) == suf);
        assert forall|i: int| 0 <= i < 24 implies !ends_with_seq(w, #[trigger] stem_suffix(i)) by {
            if ends_with_seq(w, stem_suffix(i)) {
                if i == 0 {
                    lemma_tail3(w, stem_suffix(i));
                } else if i == 1 {
                    lemma_tail3(w, stem_suffix(i));
                } else if i == 2 {
                    lemma_tail3(w, stem_suffix(i));
                } else if i == 3 {
                    lemma_tail3(w, stem_suffix(i));
                } else if i == 4 {
                    lemma_tail3(w, stem_suffix(i));
                } else if i == 5 {
                    lemma_tail3(w, stem_suffix(i));
                } else if i == 6 {
                    lemma_tail3(w, stem_suffix(i));
                } else if i == 7 {
                    lemma_tail3(w, stem_suffix(i));
                } else if i == 8 {
                    lemma_tail3(w, stem_suffix(i));
                } else if i == 9 {
                    lemma_tail3(w, stem_suffix(i));
                } else if i == 10 {
                    lemma_tail3(w, stem_suffix(i));
                } else if i == 11 {
                    lemma_tail3(w, stem_suffix(i));
                } else if i == 12 {
                    lemma_tail3(w, stem_suffix(i));
                } else if i == 13 {
                    lemma_tail3(w, stem_suffix(i));
                } else if i == 14 {
                    lemma_tail3(w, stem_suffix(i));
                } else if i == 15 {
                    lemma_tail3(w, stem_suffix(i));
                } else if i == 16 {
                    lemma_tail3(w, stem_suffix(i));
                } else if i == 17 {
                    lemma_tail3(w, stem_suffix(i));
                } else if i == 18 {
                    lemma_tail3(w, stem_suffix(i));
                } else if i == 19 {
                    lemma_tail3(w, stem_suffix(i));
                } else if i == 20 {
                    lemma_tail3(w, stem_suffix(i));
                } else if i == 21 {
                    lemma_tail3(w, stem_suffix(i));
                } else if i == 22 {
                    lemma_tail3(w, stem_suffix(i));
                } else if i == 23 {
                    lemma_tail3(w, stem_suffix(i));
                }
            }
        }
        lemma_stem_cuts_at(w, 24);
    } else if suf == "ed"@ {
        assert(stem_suffix(25) == suf);
        assert forall|i: int| 0 <= i < 25 implies !ends_with_seq(w, #[trigger] stem_suffix(i)) by {
            if ends_with_seq(w, stem_suffix(i)) {
                if i == 0 {
                    lemma_tail3(w, stem_suffix(i));
                } else if i == 1 {
                    lemma_tail3(w, stem_suffix(i));
                } else if i == 2 {
                    lemma_tail3(w, stem_suffix(i));
                } else if i == 3 {
                    lemma_tail3(w, stem_suffix(i));
                } else if i == 4 {
                    lemma_tail3(w, stem_suffix(i));
                } else if i == 5 {
                    lemma_tail3(w, stem_suffix(i));
                } else if i == 6 {
                    lemma_tail3(w, stem_suffix(i));
                } else if i == 7 {
                    lemma_tail3(w, stem_suffix(i));
                } else if i == 8 {
                    lemma_tail3(w, stem_suffix(i));
                } else if i == 9 {
                    lemma_tail3(w, stem_suffix(i));
                } else if i == 10 {
                    lemma_tail3(w, stem_suffix(i));
                } else if i == 11 {
                    lemma_tail3(w, stem_suffix(i));
                } else if i == 12 {
                    lemma_tail3(w, stem_suffix(i));
                } else if i == 13 {
                    lemma_tail3(w, stem_suffix(i));
                } else if i == 14 {
                    lemma_tail3(w, stem_suffix(i));
                } else if i == 15 {
                    lemma_tail3(w, stem_suffix(i));
                } else if i == 16 {
                    lemma_tail3(w, stem_suffix(i));
                } else if i == 17 {
                    lemma_tail3(w, stem_suffix(i));
                } else if i == 18 {
                    lemma_tail3(w, stem_suffix(i));
                } else if i == 19 {
                    lemma_tail3(w, stem_suffix(i));
                } else if i == 20 {
                    lemma_tail3(w, stem_suffix(i));
                } else if i == 21 {
                    lemma_tail3(w, stem_suffix(i));
                } else if i == 22 {
                    lemma_tail3(w, stem_suffix(i));
                } else if i == 23 {
                    lemma_tail3(w, stem_suffix(i));
                } else if i == 24 {
                    lemma_tail3(w, stem_suffix(i));
                }
            }
        }
        lemma_stem_cuts_at(w, 25);
    }
}

/// The English function words that search ignores.
pub open spec fn function_words() -> Seq<Seq<char>> {
    seq!["the"@, "a"@, "an"@, "and"@, "or"@, "of"@, "to"@, "in"@, "for"@, "on"@, "is"@, "are"@, "be"@, "this"@, "that"@, "with"@, "from"@, "by"@, "as"@, "at"@, "it"@, "its"@]
}

/// A part whose lowercase form is an English function word contributes no
/// term; any other part of two bytes or more contributes its stem, last.
pub proof fn law_function_words_are_ignored(part: Seq<char>)
    ensures
        function_words().contains(unicode_lowercase(part)) ==> part_terms(part).len() == 0,
        !function_words().contains(unicode_lowercase(part)) && utf8_len(unicode_lowercase(part))
            >= 2 ==> part_terms(part).len() > 0 && part_terms(part).last() == light_stem_seq(
            unicode_lowercase(part),
        ),
{
    reveal_strlit("the");
    reveal_strlit("a");
    reveal_strlit("an");
    reveal_strlit("and");
    reveal_strlit("or");
    reveal_strlit("of");
    reveal_strlit("to");
    reveal_strlit("in");
    reveal_strlit("for");
    reveal_strlit("on");
    reveal_strlit("is");
    reveal_strlit("are");
    reveal_strlit("be");
    reveal_strlit("this");
    reveal_strlit("that");
    reveal_strlit("with");
    reveal_strlit("from");
    reveal_strlit("by");
    reveal_strlit("as");
    reveal_strlit("at");
    reveal_strlit("it");
    reveal_strlit("its");
    let l = unicode_lowercase(part);
    if function_words().contains(l) {
        let i = choose|i: int| 0 <= i < function_words().len() && function_words()[i] == l;
        assert(is_stopword_seq(l));
    } else {
        if is_stopword_seq(l) {
            assert(false) by {
                if l == "the"@ {
                    assert(function_words()[0] == l);
                }
                if l == "a"@ {
                    assert(function_words()[1] == l);
                }
                if l == "an"@ {
                    assert(function_words()[2] == l);
                }
                if l == "and"@ {
                    assert(function_words()[3] == l);
                }
                if l == "or"@ {
                    assert(function_words()[4] == l);
                }
                if l == "of"@ {
                    assert(function_words()[5] == l);
                }
                if l == "to"@ {
                    assert(function_words()[6] == l);
                }
                if l == "in"@ {
                    assert(function_words()[7] == l);
                }
                if l == "for"@ {
                    assert(function_words()[8] == l);
                }
                if l == "on"@ {
                    assert(function_words()[9] == l);
                }
                if l == "is"@ {
                    assert(function_words()[10] == l);
                }
                if l == "are"@ {
                    assert(function_words()[11] == l);
                }
                if l == "be"@ {
                    assert(function_words()[12] == l);
                }
                if l == "this"@ {
                    assert(function_words()[13] == l);
                }
                if l == "that"@ {
                    assert(function_words()[14] == l);
                }
                if l == "with"@ {
                    assert(function_words()[15] == l);
                }
                if l == "from"@ {
                    assert(function_words()[16] == l);
                }
                if l == "by"@ {
                    assert(function_words()[17] == l);
                }
                if l == "as"@ {
                    assert(function_words()[18] == l);
                }
                if l == "at"@ {
                    assert(function_words()[19] == l);
                }
                if l == "it"@ {
                    assert(function_words()[20] == l);
                }
                if l == "its"@ {
                    assert(function_words()[21] == l);
                }
            }
        }
    }
}

// ---------------------------------------------------------------------------
// Tokenizing
// ---------------------------------------------------------------------------

pub open spec fn is_stopword_seq(t: Seq<char>) -> bool {
    ||| t == "the"@
    ||| t == "a"@
    ||| t == "an"@
    ||| t == "and"@
    ||| t == "or"@
    ||| t == "of"@
    ||| t == "to"@
    ||| t == "in"@
    ||| t == "for"@
    ||| t == "on"@
    ||| t == "is"@
    ||| t == "are"@
    ||| t == "be"@
    ||| t == "this"@
    ||| t == "that"@
    ||| t == "with"@
    ||| t == "from"@
    ||| t == "by"@
    ||| t == "as"@
    ||| t == "at"@
    ||| t == "it"@
    ||| t == "its"@
}

fn is_stopword(t: &str) -> (b: bool)
    ensures
        b == is_stopword_seq(t@),
{
    str_eq(t, "the") || str_eq(t, "a") || str_eq(t, "an") || str_eq(t, "and") || str_eq(t, "or")
        || str_eq(t, "of") || str_eq(t, "to") || str_eq(t, "in") || str_eq(t, "for") || str_eq(
        t,
        "on",
    ) || str_eq(t, "is") || str_eq(t, "are") || str_eq(t, "be") || str_eq(t, "this") || str_eq(
        t,
        "that",
    ) || str_eq(t, "with") || str_eq(t, "from") || str_eq(t, "by") || str_eq(t, "as") || str_eq(
        t,
        "at",
    ) || str_eq(t, "it") || str_eq(t, "its")
}

/// Number of leading characters of `s` that make up at least `n` bytes
/// (all of `s` when it is shorter), counting from `k`.
pub open spec fn chars_for_bytes(s: Seq<char>, n: nat, k: int) -> int
    decreases s.len() - k,
{
    if k >= s.len() || utf8_len(s.take(k)) >= n {
        k
    } else {
        chars_for_bytes(s, n, k + 1)
    }
}

/// The first `n` bytes of `s` as characters; meaningful when byte `n` is a
/// character boundary (`prefix_is_whole`).
pub open spec fn byte_prefix(s: Seq<char>, n: nat) -> Seq<char> {
    s.take(chars_for_bytes(s, n, 0))
}

/// Byte `n` of `s` falls between two characters.
pub open spec fn prefix_is_whole(s: Seq<char>, n: nat) -> bool {
    utf8_len(byte_prefix(s, n)) == n
}

/// A part is kept when its lowercase form has two bytes or more and is no stopword.
pub open spec fn keeps(lower: Seq<char>) -> bool {
    utf8_len(lower) >= 2 && !is_stopword_seq(lower)
}

/// Terms that one part contributes: none for a dropped part; else the stem,
/// preceded by its first four bytes when it has four or more (so that `auth`
/// meets `authentication`).
pub open spec fn part_terms(part: Seq<char>) -> Seq<Seq<char>> {
    let lower = unicode_lowercase(part);
    if !keeps(lower) {
        Seq::empty()
    } else {
        let st = light_stem_seq(lower);
        if utf8_len(st) >= 4 {
            seq![byte_prefix(st, 4), st]
        } else {
            seq![st]
        }
    }
}

/// Taking the four-byte prefix of the part's term does not cut a character.
pub open spec fn part_terms_defined(part: Seq<char>) -> bool {
    let lower = unicode_lowercase(part);
    let st = light_stem_seq(lower);
    keeps(lower) && utf8_len(st) >= 4 ==> prefix_is_whole(st, 4)
}

pub open spec fn parts_terms(parts: Seq<Seq<char>>) -> Seq<Seq<char>>
    decreases parts.len(),
{
    if parts.len() == 0 {
        Seq::empty()
    } else {
        parts_terms(parts.drop_last()) + part_terms(parts.last())
    }
}

pub open spec fn words_terms(words: Seq<Seq<char>>) -> Seq<Seq<char>>
    decreases words.len(),
{
    if words.len() == 0 {
        Seq::empty()
    } else {
        words_terms(words.drop_last()) + parts_terms(split_ident_seq(words.last()))
    }
}

/// The terms of `text`: its words (runs of alphanumerics, `_` and `/`), each
/// split into identifier parts, each part lowercased, filtered and stemmed.
pub open spec fn tokenize_seq(text: Seq<char>) -> Seq<Seq<char>> {
    words_terms(runs(text, Separators::Raw))
}

/// No kept term has a multi-byte character across its fourth byte (where
/// slicing the prefix would panic).
pub open spec fn tokenize_defined(text: Seq<char>) -> bool {
    forall|w: int, p: int|
        0 <= w < runs(text, Separators::Raw).len() && 0 <= p < split_ident_seq(
            #[trigger] runs(text, Separators::Raw)[w],
        ).len() ==> part_terms_defined(#[trigger] split_ident_seq(runs(text, Separators::Raw)[w])[p])
}

/// The first `n` bytes of `s`, when byte `n` is a character boundary.
pub(crate) fn prefix_bytes(s: &str, n: usize) -> (r: String)
    requires
        n <= 4,
        n <= utf8_len(s@),
        prefix_is_whole(s@, n as nat),
    ensures
        r@ == byte_prefix(s@, n as nat),
{
    let chars = chars_of(s);
    let mut k: usize = 0;
    let mut acc: usize = 0;
    while k < chars.len() && acc < n
        invariant
            chars@ == s@,
            k <= chars@.len(),
            acc == utf8_len(s@.take(k as int)),
            acc <= n + 4,
            n <= 4,
            n <= utf8_len(s@),
            chars_for_bytes(s@, n as nat, 0) == chars_for_bytes(s@, n as nat, k as int),
        decreases chars.len() - k,
    {
        proof {
            lemma_utf8_len_take(s@, k as int);
        }
        acc = acc + char_byte_width(chars[k]);
        k += 1;
    }
    string_of_range(&chars, 0, k)
}

/// Terms of one identifier part.
fn terms_of_part(part: &str) -> (r: Vec<String>)
    requires
        part_terms_defined(part@),
    ensures
        r.deep_view() == part_terms(part@),
{
    let lower = to_lowercase_str(part);
    let mut out: Vec<String> = Vec::new();
    if byte_len(lower.as_str()) < 2 || is_stopword(lower.as_str()) {
        assert(out.deep_view() =~= part_terms(part@));
        return out;
    }
    let stemmed = light_stem(lower.as_str());
    if byte_len(stemmed.as_str()) >= 4 {
        out.push(prefix_bytes(stemmed.as_str(), 4));
    }
    out.push(stemmed);
    assert(out.deep_view() =~= part_terms(part@));
    out
}

/// Tokenize text into stemmed terms suitable for BM25 / search.
pub fn tokenize(text: &str) -> (r: Vec<String>)
    requires
        tokenize_defined(text@),
    ensures
        r.deep_view() == tokenize_seq(text@),
{
    let words = split_runs(text, Separators::Raw);
    let mut out: Vec<String> = Vec::new();
    let mut w: usize = 0;
    while w < words.len()
        invariant
            w <= words@.len(),
            words.deep_view() == runs(text@, Separators::Raw),
            tokenize_defined(text@),
            out.deep_view() == words_terms(words.deep_view().take(w as int)),
        decreases words.len() - w,
    {
        let parts = split_ident(words[w].as_str());
        let ghost wv = words.deep_view();
        assert(wv[w as int] == words@[w as int]@);
        let mut p: usize = 0;
        let ghost start = out.deep_view();
        while p < parts.len()
            invariant
                p <= parts@.len(),
                parts.deep_view() == split_ident_seq(wv[w as int]),
                wv == runs(text@, Separators::Raw),
                0 <= w < wv.len(),
                tokenize_defined(text@),
                out.deep_view() == start + parts_terms(parts.deep_view().take(p as int)),
            decreases parts.len() - p,
        {
            assert(part_terms_defined(parts.deep_view()[p as int]));
            let mut more = terms_of_part(parts[p].as_str());
            let ghost before = out.deep_view();
            let ghost extra = more.deep_view();
            out.append(&mut more);
            assert(out.deep_view() =~= before + extra);
            assert(parts.deep_view().take(p + 1).drop_last() =~= parts.deep_view().take(p as int));
            p += 1;
        }
        assert(parts.deep_view().take(p as int) =~= parts.deep_view());
        assert(wv.take(w + 1).drop_last() =~= wv.take(w as int));
        w += 1;
    }
    assert(words.deep_view().take(w as int) =~= words.deep_view());
    out
}

/// Whether byte `n` of `s` falls between two characters.
fn prefix_whole(s: &str, n: usize) -> (b: bool)
    requires
        n <= 4,
    ensures
        b == prefix_is_whole(s@, n as nat),
{
    let chars = chars_of(s);
    let mut k: usize = 0;
    let mut acc: usize = 0;
    while k < chars.len() && acc < n
        invariant
            chars@ == s@,
            k <= chars@.len(),
            acc == utf8_len(s@.take(k as int)),
            acc <= n + 4,
            n <= 4,
            chars_for_bytes(s@, n as nat, 0) == chars_for_bytes(s@, n as nat, k as int),
        decreases chars.len() - k,
    {
        proof {
            lemma_utf8_len_take(s@, k as int);
        }
        acc = acc + char_byte_width(chars[k]);
        k += 1;
    }
    acc == n
}

/// Whether one identifier part's terms can be taken (`part_terms_defined`).
fn part_defined(part: &str) -> (b: bool)
    ensures
        b == part_terms_defined(part@),
{
    let lower = to_lowercase_str(part);
    if byte_len(lower.as_str()) < 2 || is_stopword(lower.as_str()) {
        return true;
    }
    let stemmed = light_stem(lower.as_str());
    if byte_len(stemmed.as_str()) >= 4 {
        prefix_whole(stemmed.as_str(), 4)
    } else {
        true
    }
}

/// `tokenize` where its terms can be taken, else `None`: the text holds a
/// kept part whose stem has a multi-byte character across its fourth byte.
pub fn tokenize_checked(text: &str) -> (r: Option<Vec<String>>)
    ensures
        r is Some <==> tokenize_defined(text@),
        r matches Some(v) ==> v.deep_view() == tokenize_seq(text@),
{
    let words = split_runs(text, Separators::Raw);
    let mut w: usize = 0;
    while w < words.len()
        invariant
            w <= words@.len(),
            words.deep_view() == runs(text@, Separators::Raw),
            forall|w2: int, p2: int|
                0 <= w2 < w && 0 <= p2 < split_ident_seq(#[trigger] runs(text@, Separators::Raw)[w2]).len()
                    ==> part_terms_defined(#[trigger] split_ident_seq(runs(text@, Separators::Raw)[w2])[p2]),
        decreases words.len() - w,
    {
        let parts = split_ident(words[w].as_str());
        let ghost wv = words.deep_view();
        assert(wv[w as int] == words@[w as int]@);
        let mut p: usize = 0;
        while p < parts.len()
            invariant
                p <= parts@.len(),
                parts.deep_view() == split_ident_seq(wv[w as int]),
                wv == runs(text@, Separators::Raw),
                0 <= w < wv.len(),
                forall|p2: int| 0 <= p2 < p ==> part_terms_defined(#[trigger] parts.deep_view()[p2]),
            decreases parts.len() - p,
        {
            assert(parts.deep_view()[p as int] == parts@[p as int]@);
            if !part_defined(parts[p].as_str()) {
                assert(!part_terms_defined(split_ident_seq(runs(text@, Separators::Raw)[w as int])[p as int]));
                return None;
            }
            p += 1;
        }
        w += 1;
    }
    Some(tokenize(text))
}

} // verus!
