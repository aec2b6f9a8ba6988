//! Where loop sessions and their iterations are stored.

use crate::paths::{join_seq, path_join};
use crate::text::{concat3, decimal_seq, decimal_string};
use vstd::prelude::*;

verus! {

#[derive(Debug, Clone)]
pub struct IterationArtifact {
    pub iteration: u32,
    pub recorded_at: String,
    pub stale_count: usize,
    pub reindexed: bool,
    pub recorded_files: Option<Vec<String>>,
    pub symbol: Option<String>,
}

pub open spec fn loop_root_seq(codeindex_dir: Seq<char>) -> Seq<char> {
    join_seq(codeindex_dir, "loop"@)
}

/// `<codeindex>/loop`.
pub fn loop_root(codeindex_dir: &str) -> (r: String)
    ensures
        r@ == loop_root_seq(codeindex_dir@),
{
    path_join(codeindex_dir, "loop")
}

pub open spec fn session_dir_seq(codeindex_dir: Seq<char>, session_id: Seq<char>) -> Seq<char> {
    join_seq(loop_root_seq(codeindex_dir), session_id)
}

/// `<codeindex>/loop/<session>`.
pub fn session_dir(codeindex_dir: &str, session_id: &str) -> (r: String)
    ensures
        r@ == session_dir_seq(codeindex_dir@, session_id@),
{
    let root = loop_root(codeindex_dir);
    path_join(root.as_str(), session_id)
}

/// The file that holds a session.
pub fn session_file(codeindex_dir: &str, session_id: &str) -> (r: String)
    ensures
        r@ == join_seq(session_dir_seq(codeindex_dir@, session_id@), "session.json"@),
{
    let dir = session_dir(codeindex_dir, session_id);
    path_join(dir.as_str(), "session.json")
}

/// `s` left-padded with zeros to `width` characters (`{:0width}`).
pub open spec fn zero_pad(s: Seq<char>, width: nat) -> Seq<char> {
    if s.len() >= width {
        s
    } else {
        Seq::new((width - s.len()) as nat, |i: int| '0') + s
    }
}

pub open spec fn iteration_name(iteration: u32) -> Seq<char> {
    "iteration-"@ + zero_pad(decimal_seq(iteration as nat), 3) + ".json"@
}

/// `iteration-007.json` for iteration 7.
pub fn iteration_file_name(iteration: u32) -> (r: String)
    ensures
        r@ == iteration_name(iteration),
{
    let digits = decimal_string(iteration as u64);
    let mut padded = String::new();
    let ghost d = digits@;
    let chars = crate::text::chars_of(digits.as_str());
    let k = chars.len();
    let mut i: usize = k;
    while i < 3
        invariant
            k == d.len(),
            i == k || (k < i && i <= 3),
            padded@ == Seq::new((i - k) as nat, |j: int| '0'),
        decreases 3 - i,
    {
        crate::text::push_char(&mut padded, '0');
        assert(padded@ =~= Seq::new((i + 1 - k) as nat, |j: int| '0'));
        i += 1;
    }
    let ghost zeros = padded@;
    padded.append(digits.as_str());
    assert(padded@ == zeros + d);
    if k >= 3 {
        assert(zeros =~= Seq::<char>::empty());
        assert(padded@ =~= zero_pad(d, 3));
    } else {
        assert(i == 3);
        assert(zeros =~= Seq::new((3 - d.len()) as nat, |j: int| '0'));
        assert(padded@ =~= zero_pad(d, 3));
    }
    concat3("iteration-", padded.as_str(), ".json")
}

/// The file that holds one iteration of a session.
pub fn iteration_file(codeindex_dir: &str, session_id: &str, iteration: u32) -> (r: String)
    ensures
        r@ == join_seq(session_dir_seq(codeindex_dir@, session_id@), iteration_name(iteration)),
{
    let dir = session_dir(codeindex_dir, session_id);
    let name = iteration_file_name(iteration);
    path_join(dir.as_str(), name.as_str())
}

} // verus!
