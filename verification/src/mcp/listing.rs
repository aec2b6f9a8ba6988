//! The text of the MCP directory listing: hidden entries left out,
//! directories marked with `/`, names sorted, one per line.

use crate::order::{is_sorted, lemma_lex_antisym, sort_strings};
use crate::text::{join_lines, join_with_newlines, owned, starts_with_seq, str_starts_with};
use vstd::prelude::*;

verus! {

/// One entry of a directory as the file system reports it.
#[derive(Debug, Clone)]
pub struct DirEntry {
    pub name: String,
    pub is_dir: bool,
}

pub open spec fn is_hidden(name: Seq<char>) -> bool {
    starts_with_seq(name, "."@)
}

/// The names shown for the entries, in the order given: hidden ones left out,
/// a `/` after each directory.
pub open spec fn shown_names(entries: Seq<DirEntry>) -> Seq<Seq<char>>
    decreases entries.len(),
{
    if entries.len() == 0 {
        Seq::empty()
    } else {
        let rest = shown_names(entries.drop_last());
        let e = entries.last();
        if is_hidden(e.name@) {
            rest
        } else if e.is_dir {
            rest.push(e.name@ + "/"@)
        } else {
            rest.push(e.name@)
        }
    }
}

pub fn shown_entries(entries: &Vec<DirEntry>) -> (r: Vec<String>)
    ensures
        r.deep_view() == shown_names(entries@),
{
    let mut out: Vec<String> = Vec::new();
    let mut i: usize = 0;
    while i < entries.len()
        invariant
            i <= entries@.len(),
            out.deep_view() == shown_names(entries@.take(i as int)),
        decreases entries.len() - i,
    {
        let e = &entries[i];
        assert(entries@.take(i + 1).drop_last() =~= entries@.take(i as int));
        assert(entries@.take(i + 1).last() == *e);
        let hidden = str_starts_with(e.name.as_str(), ".");
        let ghost before = out.deep_view();
        if !hidden {
            if e.is_dir {
                let mut n = e.name.clone();
                n.append("/");
                out.push(n);
            } else {
                out.push(e.name.clone());
            }
            assert(out.deep_view() =~= shown_names(entries@.take(i + 1)));
        }
        i += 1;
    }
    assert(entries@.take(i as int) =~= entries@);
    out
}

/// The listing of one directory: the shown names sorted, one per line.
pub fn directory_listing(entries: &Vec<DirEntry>) -> (r: String)
    ensures
        exists|s: Seq<Seq<char>>|
            is_sorted(s) && s.to_multiset() == shown_names(entries@).to_multiset() && r@ == join_lines(
                s,
            ),
{
    let shown = shown_entries(entries);
    let sorted = sort_strings(&shown);
    let r = join_with_newlines(&sorted);
    assert(is_sorted(sorted.deep_view()));
    r
}

/// Two sorted orders of the same names are the same: a listing has exactly
/// one text.
pub proof fn law_sorted_order_is_unique(a: Seq<Seq<char>>, b: Seq<Seq<char>>)
    requires
        is_sorted(a),
        is_sorted(b),
        a.to_multiset() == b.to_multiset(),
    ensures
        a == b,
    decreases a.len(),
{
    broadcast use vstd::seq_lib::group_to_multiset_ensures;

    vstd::seq_lib::to_multiset_len(a);
    vstd::seq_lib::to_multiset_len(b);
    if a.len() == 0 {
        assert(b.len() == 0);
        assert(a =~= b);
    } else {
        assert(b.len() > 0);
        assert(a.to_multiset().count(b[0]) > 0);
        assert(b.to_multiset().count(a[0]) > 0);
        let ja = choose|j: int| 0 <= j < a.len() && a[j] == b[0];
        let jb = choose|j: int| 0 <= j < b.len() && b[j] == a[0];
        if ja > 0 {
            assert(crate::order::lex_le(a[0], a[ja]));
        } else {
            crate::order::lemma_lex_total(a[0], b[0]);
        }
        if jb > 0 {
            assert(crate::order::lex_le(b[0], b[jb]));
        }
        lemma_lex_antisym(a[0], b[0]);
        vstd::seq_lib::to_multiset_remove(a, 0);
        vstd::seq_lib::to_multiset_remove(b, 0);
        assert(a.remove(0) =~= a.drop_first());
        assert(b.remove(0) =~= b.drop_first());
        assert forall|i: int, j: int| 0 <= i < j < a.drop_first().len() implies crate::order::lex_le(
            #[trigger] a.drop_first()[i],
            #[trigger] a.drop_first()[j],
        ) by {
            assert(a.drop_first()[i] == a[i + 1] && a.drop_first()[j] == a[j + 1]);
        }
        assert forall|i: int, j: int| 0 <= i < j < b.drop_first().len() implies crate::order::lex_le(
            #[trigger] b.drop_first()[i],
            #[trigger] b.drop_first()[j],
        ) by {
            assert(b.drop_first()[i] == b[i + 1] && b.drop_first()[j] == b[j + 1]);
        }
        law_sorted_order_is_unique(a.drop_first(), b.drop_first());
        assert(a =~= seq![a[0]] + a.drop_first());
        assert(b =~= seq![b[0]] + b.drop_first());
    }
}

/// One directory's part of the answer: headed by the repository's name in a
/// workspace of several repositories.
pub fn listing_section(repo: Option<&str>, listing: &str) -> (r: String)
    ensures
        r@ == match repo {
            Some(name) => "["@ + name@ + "]\n"@ + listing@,
            None => listing@,
        },
{
    match repo {
        Some(name) => {
            let mut s = owned("[");
            s.append(name);
            s.append("]\n");
            s.append(listing);
            s
        },
        None => owned(listing),
    }
}

/// Parts joined by blank lines.
pub open spec fn join_blocks(parts: Seq<Seq<char>>) -> Seq<char>
    decreases parts.len(),
{
    if parts.len() == 0 {
        Seq::empty()
    } else if parts.len() == 1 {
        parts[0]
    } else {
        join_blocks(parts.drop_last()) + "\n\n"@ + parts.last()
    }
}

pub open spec fn listing_answer_seq(path: Seq<char>, sections: Seq<Seq<char>>) -> Seq<char> {
    if sections.len() == 0 {
        "'"@ + path + "' not found or empty."@
    } else {
        join_blocks(sections)
    }
}

/// What the directory listing answers: its parts, or a not-found message.
pub fn listing_answer(path: &str, sections: &Vec<String>) -> (r: String)
    ensures
        r@ == listing_answer_seq(path@, sections.deep_view()),
{
    if sections.len() == 0 {
        let mut s = owned("'");
        s.append(path);
        s.append("' not found or empty.");
        return s;
    }
    let mut s = String::new();
    let mut i: usize = 0;
    while i < sections.len()
        invariant
            i <= sections@.len(),
            s@ == join_blocks(sections.deep_view().take(i as int)),
        decreases sections.len() - i,
    {
        if i > 0 {
            s.append("\n\n");
        }
        s.append(sections[i].as_str());
        assert(sections.deep_view().take(i + 1).drop_last() =~= sections.deep_view().take(i as int));
        assert(s@ =~= join_blocks(sections.deep_view().take(i + 1)));
        i += 1;
    }
    assert(sections.deep_view().take(i as int) =~= sections.deep_view());
    s
}

} // verus!
