//! The order of strings (`Ord for str`: character by character, by code
//! point, a prefix first) and a sort of strings by it.

use crate::text::chars_of;
use vstd::prelude::*;
use vstd::seq_lib::to_multiset_insert;

verus! {

/// `a <= b` in the order of `str`.
pub open spec fn lex_le(a: Seq<char>, b: Seq<char>) -> bool
    decreases a.len(),
{
    if a.len() == 0 {
        true
    } else if b.len() == 0 {
        false
    } else if a[0] < b[0] {
        true
    } else if a[0] > b[0] {
        false
    } else {
        lex_le(a.drop_first(), b.drop_first())
    }
}

pub open spec fn is_sorted(s: Seq<Seq<char>>) -> bool {
    forall|i: int, j: int| 0 <= i < j < s.len() ==> lex_le(#[trigger] s[i], #[trigger] s[j])
}

pub proof fn lemma_lex_total(a: Seq<char>, b: Seq<char>)
    ensures
        lex_le(a, b) || lex_le(b, a),
    decreases a.len(),
{
    if a.len() > 0 && b.len() > 0 && a[0] == b[0] {
        lemma_lex_total(a.drop_first(), b.drop_first());
    }
}

pub proof fn lemma_lex_trans(a: Seq<char>, b: Seq<char>, c: Seq<char>)
    requires
        lex_le(a, b),
        lex_le(b, c),
    ensures
        lex_le(a, c),
    decreases a.len(),
{
    if a.len() > 0 && b.len() > 0 && c.len() > 0 && a[0] == b[0] && b[0] == c[0] {
        lemma_lex_trans(a.drop_first(), b.drop_first(), c.drop_first());
    }
}

pub proof fn lemma_lex_antisym(a: Seq<char>, b: Seq<char>)
    requires
        lex_le(a, b),
        lex_le(b, a),
    ensures
        a == b,
    decreases a.len(),
{
    if a.len() > 0 && b.len() > 0 {
        lemma_lex_antisym(a.drop_first(), b.drop_first());
        assert(a[0] == b[0]);
        assert(a =~= seq![a[0]] + a.drop_first());
        assert(b =~= seq![b[0]] + b.drop_first());
    }
}

/// Whether `a <= b` in the order of `str`.
pub fn str_le(a: &str, b: &str) -> (r: bool)
    ensures
        r == lex_le(a@, b@),
{
    let av = chars_of(a);
    let bv = chars_of(b);
    let mut i: usize = 0;
    assert(a@.skip(0) =~= a@);
    assert(b@.skip(0) =~= b@);
    loop
        invariant
            av@ == a@,
            bv@ == b@,
            i <= av@.len(),
            i <= bv@.len(),
            lex_le(a@, b@) == lex_le(a@.skip(i as int), b@.skip(i as int)),
        decreases av@.len() - i,
    {
        let ghost sa = a@.skip(i as int);
        let ghost sb = b@.skip(i as int);
        if i == av.len() {
            return true;
        }
        if i == bv.len() {
            return false;
        }
        assert(sa[0] == av@[i as int]);
        assert(sb[0] == bv@[i as int]);
        let x = av[i];
        let y = bv[i];
        if x < y {
            return true;
        }
        if x > y {
            return false;
        }
        assert(sa.drop_first() =~= a@.skip(i + 1));
        assert(sb.drop_first() =~= b@.skip(i + 1));
        i += 1;
    }
}

/// `v` sorted in the order of `str` (`slice::sort` on strings).
pub fn sort_strings(v: &Vec<String>) -> (r: Vec<String>)
    ensures
        is_sorted(r.deep_view()),
        r.deep_view().to_multiset() == v.deep_view().to_multiset(),
{
    let mut out: Vec<String> = Vec::new();
    let mut i: usize = 0;
    assert(v.deep_view().take(0) =~= out.deep_view());
    while i < v.len()
        invariant
            i <= v@.len(),
            is_sorted(out.deep_view()),
            out.deep_view().to_multiset() == v.deep_view().take(i as int).to_multiset(),
        decreases v.len() - i,
    {
        let x = v[i].clone();
        let ghost xs = x@;
        assert(xs == v.deep_view()[i as int]);
        let ghost old_out = out.deep_view();
        let mut k: usize = 0;
        while k < out.len() && !str_le(x.as_str(), out[k].as_str())
            invariant
                k <= out@.len(),
                old_out == out.deep_view(),
                xs == x@,
                forall|j: int| 0 <= j < k ==> !lex_le(xs, #[trigger] old_out[j]),
            decreases out.len() - k,
        {
            assert(old_out[k as int] == out@[k as int]@);
            k += 1;
        }
        proof {
            if k < out@.len() {
                assert(old_out[k as int] == out@[k as int]@);
                assert(lex_le(xs, old_out[k as int]));
            }
        }
        out.insert(k, x);
        assert(out.deep_view() =~= old_out.insert(k as int, xs));
        let ghost new_out = out.deep_view();
        assert forall|a: int, b: int| 0 <= a < b < new_out.len() implies lex_le(
            #[trigger] new_out[a],
            #[trigger] new_out[b],
        ) by {
            if b < k {
                assert(new_out[a] == old_out[a] && new_out[b] == old_out[b]);
            } else if b == k {
                assert(new_out[a] == old_out[a]);
                lemma_lex_total(xs, old_out[a]);
            } else if a == k {
                assert(new_out[b] == old_out[b - 1]);
                if k < b - 1 {
                    lemma_lex_trans(xs, old_out[k as int], old_out[b - 1]);
                }
            } else if a < k {
                assert(new_out[a] == old_out[a]);
                assert(new_out[b] == old_out[b - 1]);
                if a < b - 1 {
                } else {
                    assert(a == b - 1);
                }
            } else {
                assert(new_out[a] == old_out[a - 1]);
                assert(new_out[b] == old_out[b - 1]);
            }
        }
        proof {
            to_multiset_insert(old_out, k as int, xs);
            assert(v.deep_view().take(i + 1) =~= v.deep_view().take(i as int).push(xs));
            vstd::seq_lib::to_multiset_build(v.deep_view().take(i as int), xs);
        }
        i += 1;
    }
    assert(v.deep_view().take(i as int) =~= v.deep_view());
    out
}

} // verus!
