//! Documents of the search index and their term frequencies.

use crate::query::tokenize::{
    byte_prefix, light_stem, light_stem_seq, prefix_bytes, prefix_is_whole, tokenize,
    tokenize_defined, tokenize_seq,
};
use crate::unicode::{byte_len, utf8_len};
use vstd::prelude::*;

verus! {

/// One searchable document: a package, a file, a symbol or a hot symbol.
#[derive(Debug, Clone)]
pub struct SearchDoc {
    pub kind: DocKind,
    pub name: String,
    pub detail: String,
    pub hint: String,
    pub path: Option<String>,
    /// Term frequencies of the document's text, each term listed once.
    pub term_tf: Vec<(String, u32)>,
    /// Document length in terms (at least 1).
    pub dl: u32,
}

#[derive(Debug, Clone, Copy, PartialEq, Eq, Structural)]
pub enum DocKind {
    Package,
    File,
    Symbol,
    HotSymbol,
}

/// How often `t` occurs in `tokens`.
pub open spec fn count_of(tokens: Seq<Seq<char>>, t: Seq<char>) -> nat
    decreases tokens.len(),
{
    if tokens.len() == 0 {
        0
    } else {
        count_of(tokens.drop_last(), t) + if tokens.last() == t {
            1nat
        } else {
            0nat
        }
    }
}

/// The short key a term of three bytes or more is also indexed under, so that
/// `auth` meets `authentication`: the stem of its first four bytes.
pub open spec fn soft_key(t: Seq<char>) -> Option<Seq<char>> {
    if utf8_len(t) < 3 {
        None
    } else if utf8_len(t) == 3 {
        Some(light_stem_seq(t))
    } else {
        Some(light_stem_seq(byte_prefix(t, 4)))
    }
}

/// Cutting four bytes off a term never splits a character.
pub open spec fn soft_keys_defined(tokens: Seq<Seq<char>>) -> bool {
    forall|i: int|
        0 <= i < tokens.len() && utf8_len(#[trigger] tokens[i]) >= 4 ==> prefix_is_whole(
            tokens[i],
            4,
        )
}

pub open spec fn has_soft_key(tokens: Seq<Seq<char>>, k: Seq<char>) -> bool {
    exists|i: int| 0 <= i < tokens.len() && #[trigger] soft_key(tokens[i]) == Some(k)
}

/// A term of the document, or the soft key of one.
pub open spec fn indexed_term(tokens: Seq<Seq<char>>, k: Seq<char>) -> bool {
    tokens.contains(k) || has_soft_key(tokens, k)
}

pub open spec fn tf_view(v: Seq<(String, u32)>) -> Seq<(Seq<char>, u32)> {
    Seq::new(v.len(), |i: int| (v[i].0@, v[i].1))
}

pub open spec fn keys_distinct(e: Seq<(Seq<char>, u32)>) -> bool {
    forall|i: int, j: int| 0 <= i < j < e.len() ==> #[trigger] e[i].0 != #[trigger] e[j].0
}

/// The entries are exactly the indexed terms, each once, each with its count
/// among the tokens (0 for a soft key that is no term itself).
pub open spec fn term_frequencies(e: Seq<(Seq<char>, u32)>, tokens: Seq<Seq<char>>) -> bool {
    &&& keys_distinct(e)
    &&& forall|i: int|
        0 <= i < e.len() ==> indexed_term(tokens, #[trigger] e[i].0) && e[i].1 == count_of(
            tokens,
            e[i].0,
        )
    &&& forall|k: Seq<char>|
        #[trigger] indexed_term(tokens, k) ==> exists|i: int| 0 <= i < e.len() && e[i].0 == k
}

proof fn lemma_count_le(s: Seq<Seq<char>>, t: Seq<char>)
    ensures
        count_of(s, t) <= s.len(),
        !s.contains(t) ==> count_of(s, t) == 0,
    decreases s.len(),
{
    if s.len() > 0 {
        lemma_count_le(s.drop_last(), t);
        if !s.contains(t) {
            assert forall|i: int| 0 <= i < s.drop_last().len() implies s.drop_last()[i] != t by {
                assert(s[i] == s.drop_last()[i]);
            }
            assert(s.last() == s[s.len() - 1]);
        }
    }
}

/// Where `k` sits among the entries.
fn find_term(tf: &Vec<(String, u32)>, k: &String) -> (r: Option<usize>)
    ensures
        match r {
            Some(j) => j < tf@.len() && tf_view(tf@)[j as int].0 == k@,
            None => forall|j: int| 0 <= j < tf@.len() ==> tf_view(tf@)[j].0 != k@,
        },
{
    let mut j: usize = 0;
    while j < tf.len()
        invariant
            j <= tf@.len(),
            forall|i: int| 0 <= i < j ==> tf_view(tf@)[i].0 != k@,
        decreases tf.len() - j,
    {
        if tf[j].0 == *k {
            return Some(j);
        }
        j += 1;
    }
    None
}

/// The soft key of a term, computed.
fn soft_key_of(t: &String) -> (r: Option<String>)
    requires
        utf8_len(t@) >= 4 ==> prefix_is_whole(t@, 4),
    ensures
        r.deep_view() == soft_key(t@),
{
    let n = byte_len(t.as_str());
    if n < 3 {
        None
    } else if n == 3 {
        Some(light_stem(t.as_str()))
    } else {
        let p = prefix_bytes(t.as_str(), 4);
        Some(light_stem(p.as_str()))
    }
}

/// The document for `text`: its terms counted, plus the soft key of each term
/// of three bytes or more (counted 0 when it is no term itself), and its length
/// in terms, at least 1.
pub fn doc_from_text(
    kind: DocKind,
    name: String,
    detail: String,
    hint: String,
    path: Option<String>,
    text: &str,
) -> (r: SearchDoc)
    requires
        tokenize_defined(text@),
        soft_keys_defined(tokenize_seq(text@)),
        tokenize_seq(text@).len() <= u32::MAX,
    ensures
        r.kind == kind,
        r.name == name,
        r.detail == detail,
        r.hint == hint,
        r.path == path,
        term_frequencies(tf_view(r.term_tf@), tokenize_seq(text@)),
        r.dl == if tokenize_seq(text@).len() == 0 {
            1
        } else {
            tokenize_seq(text@).len()
        },
{
    let tokens = tokenize(text);
    let ghost tv = tokens.deep_view();
    let mut tf: Vec<(String, u32)> = Vec::new();
    let mut i: usize = 0;
    while i < tokens.len()
        invariant
            i <= tokens@.len(),
            tv == tokens.deep_view(),
            tv.len() <= u32::MAX,
            keys_distinct(tf_view(tf@)),
            forall|j: int|
                0 <= j < tf@.len() ==> tv.take(i as int).contains(#[trigger] tf_view(tf@)[j].0)
                    && tf_view(tf@)[j].1 == count_of(tv.take(i as int), tf_view(tf@)[j].0),
            forall|k: Seq<char>|
                #[trigger] tv.take(i as int).contains(k) ==> exists|j: int|
                    0 <= j < tf@.len() && tf_view(tf@)[j].0 == k,
        decreases tokens.len() - i,
    {
        let t = &tokens[i];
        assert(tv[i as int] == t@);
        let ghost before = tv.take(i as int);
        let ghost after = tv.take(i + 1);
        assert(after.drop_last() =~= before);
        assert(after.last() == t@);
        let ghost old_tf = tf_view(tf@);
        match find_term(&tf, t) {
            Some(j) => {
                proof {
                    lemma_count_le(before, t@);
                }
                let key = tf[j].0.clone();
                let c = tf[j].1;
                tf.set(j, (key, c + 1));
                assert forall|m: int|
                    0 <= m < tf@.len() implies after.contains(#[trigger] tf_view(tf@)[m].0)
                    && tf_view(tf@)[m].1 == count_of(after, tf_view(tf@)[m].0) by {
                    assert(tf_view(tf@)[m].0 == old_tf[m].0);
                    assert(before.contains(old_tf[m].0));
                    let w = choose|x: int| 0 <= x < before.len() && before[x] == old_tf[m].0;
                    assert(after[w] == before[w]);
                }
                assert forall|k: Seq<char>| #[trigger] after.contains(k) implies exists|m: int|
                    0 <= m < tf@.len() && tf_view(tf@)[m].0 == k by {
                    let w = choose|x: int| 0 <= x < after.len() && after[x] == k;
                    if w < i {
                        assert(before[w] == k);
                        assert(before.contains(k));
                        let m = choose|m: int| 0 <= m < old_tf.len() && old_tf[m].0 == k;
                        assert(tf_view(tf@)[m].0 == k);
                    } else {
                        assert(tf_view(tf@)[j as int].0 == k);
                    }
                }
                assert(keys_distinct(tf_view(tf@))) by {
                    assert forall|a: int, b: int| 0 <= a < b < tf_view(tf@).len() implies #[trigger] tf_view(
                        tf@,
                    )[a].0 != #[trigger] tf_view(tf@)[b].0 by {
                        assert(tf_view(tf@)[a].0 == old_tf[a].0);
                        assert(tf_view(tf@)[b].0 == old_tf[b].0);
                    }
                }
            },
            None => {
                proof {
                    lemma_count_le(before, t@);
                    assert(!before.contains(t@));
                }
                tf.push((t.clone(), 1));
                assert forall|m: int|
                    0 <= m < tf@.len() implies after.contains(#[trigger] tf_view(tf@)[m].0)
                    && tf_view(tf@)[m].1 == count_of(after, tf_view(tf@)[m].0) by {
                    if m < old_tf.len() {
                        assert(tf_view(tf@)[m] == old_tf[m]);
                        assert(before.contains(old_tf[m].0));
                        let w = choose|x: int| 0 <= x < before.len() && before[x] == old_tf[m].0;
                        assert(after[w] == before[w]);
                    } else {
                        assert(after[i as int] == t@);
                    }
                }
                assert forall|k: Seq<char>| #[trigger] after.contains(k) implies exists|m: int|
                    0 <= m < tf@.len() && tf_view(tf@)[m].0 == k by {
                    let w = choose|x: int| 0 <= x < after.len() && after[x] == k;
                    if w < i {
                        assert(before[w] == k);
                        assert(before.contains(k));
                        let m = choose|m: int| 0 <= m < old_tf.len() && old_tf[m].0 == k;
                        assert(tf_view(tf@)[m].0 == k);
                    } else {
                        assert(tf_view(tf@)[old_tf.len() as int].0 == k);
                    }
                }
                assert(keys_distinct(tf_view(tf@))) by {
                    assert forall|a: int, b: int| 0 <= a < b < tf_view(tf@).len() implies #[trigger] tf_view(
                        tf@,
                    )[a].0 != #[trigger] tf_view(tf@)[b].0 by {
                        assert(tf_view(tf@)[a].0 == old_tf[a].0);
                        if b < old_tf.len() {
                            assert(tf_view(tf@)[b].0 == old_tf[b].0);
                        }
                    }
                }
            },
        }
        i += 1;
    }
    assert(tv.take(i as int) =~= tv);
    let mut i: usize = 0;
    while i < tokens.len()
        invariant
            i <= tokens@.len(),
            tv == tokens.deep_view(),
            tv == tokenize_seq(text@),
            soft_keys_defined(tv),
            keys_distinct(tf_view(tf@)),
            forall|j: int|
                0 <= j < tf@.len() ==> (tv.contains(#[trigger] tf_view(tf@)[j].0) || has_soft_key(
                    tv.take(i as int),
                    tf_view(tf@)[j].0,
                )) && tf_view(tf@)[j].1 == count_of(tv, tf_view(tf@)[j].0),
            forall|k: Seq<char>|
                #[trigger] tv.contains(k) ==> exists|j: int| 0 <= j < tf@.len() && tf_view(tf@)[j].0 == k,
            forall|k: Seq<char>|
                #[trigger] has_soft_key(tv.take(i as int), k) ==> exists|j: int|
                    0 <= j < tf@.len() && tf_view(tf@)[j].0 == k,
        decreases tokens.len() - i,
    {
        let t = &tokens[i];
        assert(tv[i as int] == t@);
        assert(utf8_len(tv[i as int]) >= 4 ==> prefix_is_whole(tv[i as int], 4));
        let ghost before = tv.take(i as int);
        let ghost after = tv.take(i + 1);
        assert(after[i as int] == t@);
        assert forall|k: Seq<char>| has_soft_key(before, k) implies has_soft_key(after, k) by {
            let w = choose|x: int| 0 <= x < before.len() && #[trigger] soft_key(before[x]) == Some(k);
            assert(after[w] == before[w]);
        }
        let ghost old_tf = tf_view(tf@);
        match soft_key_of(t) {
            None => {
                assert forall|k: Seq<char>| #[trigger] has_soft_key(after, k) implies has_soft_key(
                    before,
                    k,
                ) by {
                    let w = choose|x: int| 0 <= x < after.len() && #[trigger] soft_key(after[x]) == Some(k);
                    assert(w != i);
                    assert(before[w] == after[w]);
                }
            },
            Some(key) => {
                proof {
                    assert(soft_key(after[i as int]) == Some(key@));
                }
                match find_term(&tf, &key) {
                    Some(_) => {},
                    None => {
                        proof {
                            lemma_count_le(tv, key@);
                            assert(!tv.contains(key@));
                        }
                        tf.push((key, 0));
                    },
                }
                assert forall|k: Seq<char>| #[trigger] has_soft_key(after, k) implies exists|m: int|
                    0 <= m < tf@.len() && tf_view(tf@)[m].0 == k by {
                    let w = choose|x: int| 0 <= x < after.len() && #[trigger] soft_key(after[x]) == Some(k);
                    if w < i {
                        assert(before[w] == after[w]);
                        assert(has_soft_key(before, k));
                        let m = choose|m: int| 0 <= m < old_tf.len() && old_tf[m].0 == k;
                        assert(tf_view(tf@)[m].0 == k);
                    } else {
                        if tf@.len() > old_tf.len() {
                            assert(tf_view(tf@)[old_tf.len() as int].0 == k);
                        } else {
                            assert(tf_view(tf@) == old_tf);
                        }
                    }
                }
            },
        }
        assert forall|m: int|
            0 <= m < tf@.len() implies (tv.contains(#[trigger] tf_view(tf@)[m].0) || has_soft_key(
                after,
                tf_view(tf@)[m].0,
            )) && tf_view(tf@)[m].1 == count_of(tv, tf_view(tf@)[m].0) by {
            if m < old_tf.len() {
                assert(tf_view(tf@)[m] == old_tf[m]);
            } else {
                assert(soft_key(after[i as int]) == Some(tf_view(tf@)[m].0));
            }
        }
        assert forall|k: Seq<char>| #[trigger] tv.contains(k) implies exists|m: int|
            0 <= m < tf@.len() && tf_view(tf@)[m].0 == k by {
            let m = choose|m: int| 0 <= m < old_tf.len() && old_tf[m].0 == k;
            assert(tf_view(tf@)[m].0 == k);
        }
        assert(keys_distinct(tf_view(tf@))) by {
            assert forall|a: int, b: int| 0 <= a < b < tf_view(tf@).len() implies #[trigger] tf_view(
                tf@,
            )[a].0 != #[trigger] tf_view(tf@)[b].0 by {
                assert(tf_view(tf@)[a].0 == old_tf[a].0);
                if b < old_tf.len() {
                    assert(tf_view(tf@)[b].0 == old_tf[b].0);
                }
            }
        }
        i += 1;
    }
    assert(tv.take(i as int) =~= tv);
    let n = tokens.len();
    let dl: u32 = if n == 0 {
        1
    } else {
        n as u32
    };
    SearchDoc { kind, name, detail, hint, path, term_tf: tf, dl }
}

} // verus!
