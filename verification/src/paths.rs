//! Unix path joining over strings.

use crate::text::{chars_of, concat2, concat3, owned};
use vstd::prelude::*;

verus! {

/// What `Path::join` gives on Unix: an absolute `p` replaces `base`; otherwise
/// `p` follows `base`, with a `/` between them unless `base` is empty or
/// already ends with one.
pub open spec fn join_seq(base: Seq<char>, p: Seq<char>) -> Seq<char> {
    if p.len() > 0 && p[0] == '/' {
        p
    } else if base.len() == 0 || base.last() == '/' {
        base + p
    } else {
        base + seq!['/'] + p
    }
}

/// `base.join(p)` for Unix paths held as strings.
pub fn path_join(base: &str, p: &str) -> (r: String)
    ensures
        r@ == join_seq(base@, p@),
{
    let pc = chars_of(p);
    if pc.len() > 0 && pc[0] == '/' {
        return owned(p);
    }
    let bc = chars_of(base);
    if bc.len() == 0 || bc[bc.len() - 1] == '/' {
        return concat2(base, p);
    }
    let r = concat3(base, "/", p);
    proof {
        reveal_strlit("/");
    }
    r
}

/// `p` is absolute (starts at the root).
pub open spec fn is_absolute_seq(p: Seq<char>) -> bool {
    p.len() > 0 && p[0] == '/'
}

pub fn is_absolute(p: &str) -> (b: bool)
    ensures
        b == is_absolute_seq(p@),
{
    let pc = chars_of(p);
    pc.len() > 0 && pc[0] == '/'
}

/// The directory that holds the index and session state of a workspace.
pub open spec fn codeindex_dir_seq(workspace: Seq<char>) -> Seq<char> {
    join_seq(workspace, ".codeindex"@)
}

/// `<workspace>/.codeindex`.
pub fn codeindex_dir(workspace: &str) -> (r: String)
    ensures
        r@ == codeindex_dir_seq(workspace@),
{
    path_join(workspace, ".codeindex")
}

} // verus!
