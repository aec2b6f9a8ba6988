//! Unicode character properties and UTF-8 lengths.
//!
//! The properties come from std's Unicode tables; each is named rather than
//! spelled out. UTF-8 lengths are computed exactly from the code points.

use crate::text::{is_ascii_alnum, is_ascii_alpha, is_ascii_lower, is_ascii_upper};
use vstd::prelude::*;
use vstd::utf8::{encode_scalar, encode_utf8};

verus! {

/// Whether `char::is_alphanumeric` holds (Alphabetic or Numeric property).
pub uninterp spec fn alphanumeric_property(c: char) -> bool;

/// Whether `char::is_alphabetic` holds (Alphabetic property).
pub uninterp spec fn alphabetic_property(c: char) -> bool;

/// Whether `char::is_lowercase` holds (Lowercase property).
pub uninterp spec fn lowercase_property(c: char) -> bool;

/// Whether `char::is_uppercase` holds (Uppercase property).
pub uninterp spec fn uppercase_property(c: char) -> bool;

/// Calls `char::is_alphanumeric`; on an ASCII character it holds exactly of
/// an ASCII letter or digit, as std documents.
#[verifier::external_body]
pub(crate) fn is_alphanumeric(c: char) -> (b: bool)
    ensures
        b == alphanumeric_property(c),
        (c as u32) < 128 ==> (b <==> is_ascii_alnum(c)),
{
    c.is_alphanumeric()
}

/// Calls `char::is_alphabetic`; on an ASCII character it holds exactly of
/// an ASCII letter, as std documents.
#[verifier::external_body]
pub(crate) fn is_alphabetic(c: char) -> (b: bool)
    ensures
        b == alphabetic_property(c),
        (c as u32) < 128 ==> (b <==> is_ascii_alpha(c)),
{
    c.is_alphabetic()
}

/// Calls `char::is_lowercase`; on an ASCII character it holds exactly of
/// `a`..=`z`, as std documents.
#[verifier::external_body]
pub(crate) fn is_lowercase(c: char) -> (b: bool)
    ensures
        b == lowercase_property(c),
        (c as u32) < 128 ==> (b <==> is_ascii_lower(c)),
{
    c.is_lowercase()
}

/// Calls `char::is_uppercase`; on an ASCII character it holds exactly of
/// `A`..=`Z`, as std documents.
#[verifier::external_body]
pub(crate) fn is_uppercase(c: char) -> (b: bool)
    ensures
        b == uppercase_property(c),
        (c as u32) < 128 ==> (b <==> is_ascii_upper(c)),
{
    c.is_uppercase()
}

// ---------------------------------------------------------------------------
// UTF-8 lengths
// ---------------------------------------------------------------------------

/// Number of bytes in the UTF-8 encoding of `c`.
pub open spec fn char_width(c: char) -> nat {
    let v = c as u32;
    if v <= 0x7F {
        1
    } else if v <= 0x7FF {
        2
    } else if v <= 0xFFFF {
        3
    } else {
        4
    }
}

/// Number of bytes in the UTF-8 encoding of `s` (what `str::len` returns).
pub open spec fn utf8_len(s: Seq<char>) -> nat
    decreases s.len(),
{
    if s.len() == 0 {
        0
    } else {
        char_width(s[0]) + utf8_len(s.drop_first())
    }
}

pub proof fn lemma_utf8_len_concat(a: Seq<char>, b: Seq<char>)
    ensures
        utf8_len(a + b) == utf8_len(a) + utf8_len(b),
    decreases a.len(),
{
    if a.len() == 0 {
        assert(a + b =~= b);
    } else {
        lemma_utf8_len_concat(a.drop_first(), b);
        assert((a + b).drop_first() =~= a.drop_first() + b);
    }
}

pub proof fn lemma_utf8_len_push(a: Seq<char>, c: char)
    ensures
        utf8_len(a.push(c)) == utf8_len(a) + char_width(c),
{
    lemma_utf8_len_concat(a, seq![c]);
    assert(a.push(c) =~= a + seq![c]);
    assert(seq![c].drop_first() =~= Seq::<char>::empty());
    assert(utf8_len(Seq::<char>::empty()) == 0);
    assert(utf8_len(seq![c]) == char_width(c) + utf8_len(seq![c].drop_first()));
}

pub proof fn lemma_utf8_len_take(s: Seq<char>, k: int)
    requires
        0 <= k < s.len(),
    ensures
        utf8_len(s.take(k + 1)) == utf8_len(s.take(k)) + char_width(s[k]),
{
    assert(s.take(k + 1) =~= s.take(k).push(s[k]));
    lemma_utf8_len_push(s.take(k), s[k]);
}

/// `utf8_len` is the length of vstd's `encode_utf8`, which `str::len` returns.
pub proof fn lemma_encode_utf8_len(s: Seq<char>)
    ensures
        encode_utf8(s).len() == utf8_len(s),
    decreases s.len(),
{
    if s.len() > 0 {
        lemma_encode_utf8_len(s.drop_first());
        let v = s[0] as u32;
        vstd::utf8::char_is_scalar(s[0]);
        assert(encode_scalar(v).len() == char_width(s[0]));
    }
}

/// Byte length of a string slice.
pub fn byte_len(s: &str) -> (n: usize)
    ensures
        n == utf8_len(s@),
{
    proof {
        lemma_encode_utf8_len(s@);
    }
    let bytes = s.as_bytes();
    bytes.len()
}

/// Byte length of one character.
pub fn char_byte_width(c: char) -> (n: usize)
    ensures
        n == char_width(c),
        1 <= n <= 4,
{
    let v = c as u32;
    if v <= 0x7F {
        1
    } else if v <= 0x7FF {
        2
    } else if v <= 0xFFFF {
        3
    } else {
        4
    }
}

} // verus!
