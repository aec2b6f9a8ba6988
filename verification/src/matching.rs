//! Regular-expression matching through the `regex` crate.
//!
//! The result of a match is a function of the pattern and the haystack alone;
//! it is named here rather than spelled out.

use vstd::prelude::*;

verus! {

/// Capture groups of one match: group `i` is `None` when it did not take part.
pub type Groups = Seq<Option<Seq<char>>>;

/// What `regex::Regex::new(pattern)` followed by `Regex::captures(haystack)`
/// returns: the groups of the leftmost-first match, or `None` when there is no
/// match (or the pattern does not compile).
pub uninterp spec fn regex_first_match(pattern: Seq<char>, haystack: Seq<char>) -> Option<Groups>;

/// What `regex::Regex::new(pattern)` followed by `Regex::captures_iter(haystack)`
/// yields: the groups of each successive non-overlapping match (none when the
/// pattern does not compile).
pub uninterp spec fn regex_all_matches(pattern: Seq<char>, haystack: Seq<char>) -> Seq<Groups>;

/// Calls `regex::Regex::captures`; the contract says only that the result is
/// `regex_first_match` of the pattern and haystack characters.
#[verifier::external_body]
pub(crate) fn captures(pattern: &str, haystack: &str) -> (r: Option<Vec<Option<String>>>)
    ensures
        r.deep_view() == regex_first_match(pattern@, haystack@),
{
    let re = regex::Regex::new(pattern).ok()?;
    let caps = re.captures(haystack)?;
    Some(caps.iter().map(|m| m.map(|m| m.as_str().to_string())).collect())
}

/// Calls `regex::Regex::captures_iter`; the contract says only that the result
/// is `regex_all_matches` of the pattern and haystack characters.
#[verifier::external_body]
pub(crate) fn captures_all(pattern: &str, haystack: &str) -> (r: Vec<Vec<Option<String>>>)
    ensures
        r.deep_view() == regex_all_matches(pattern@, haystack@),
{
    match regex::Regex::new(pattern) {
        Ok(re) => re
            .captures_iter(haystack)
            .map(|caps| caps.iter().map(|m| m.map(|m| m.as_str().to_string())).collect())
            .collect(),
        Err(_) => Vec::new(),
    }
}

/// Group `i` of a match, `None` when absent.
pub open spec fn group(g: Groups, i: int) -> Option<Seq<char>> {
    if 0 <= i < g.len() {
        g[i]
    } else {
        None
    }
}

/// Group `i` of a match (`Captures::get(i)`).
pub fn get_group(g: &Vec<Option<String>>, i: usize) -> (r: Option<String>)
    ensures
        r.deep_view() == group(g.deep_view(), i as int),
{
    if i < g.len() {
        match &g[i] {
            Some(s) => Some(s.clone()),
            None => None,
        }
    } else {
        None
    }
}

} // verus!
