//! Subtraction site extraction (CWE-191 integer underflow).

use crate::matching::{captures, get_group, group, regex_first_match, Groups};
use crate::security::sites::{
    is_constant_identifier, is_constant_seq, is_identifier, opt_seq, opt_site_view, sites_view,
    ExtractedSite, ExtractedSiteView, SubtractionSite, SubtractionSiteView,
};
use crate::text::{contains_seq, is_identifier_seq, owned, parse_u64, parse_u64_seq, str_contains, trim_seq, trim_str};
use vstd::prelude::*;

verus! {

pub const MALLOC_SUB: &'static str = r"malloc\s*\(\s*(\w+)\s*-\s*(\d+)\s*\)";

pub const REALLOC_SUB: &'static str = r"realloc\s*\([^,]+,\s*(\w+)\s*-\s*(\d+)\s*\)";

pub const WITH_CAPACITY_SUB: &'static str =
    r"(?:Vec::with_capacity|\.with_capacity)\s*\(\s*(\w+)\s*-\s*(\d+)\s*\)";

/// The site of one subtraction match, from its groups `(var, literal)`: a
/// non-literal identifier less a non-zero literal.
pub open spec fn sub_of_groups(t: Seq<char>, line: usize, g: Groups) -> Option<ExtractedSiteView> {
    match (group(g, 1), group(g, 2)) {
        (Some(v), Some(lit)) => if !is_identifier_seq(v) || is_constant_seq(v) {
            None
        } else {
            match parse_u64_seq(lit) {
                Some(k) => if k == 0 {
                    None
                } else {
                    Some(
                        ExtractedSiteView::SymbolicSub(
                            SubtractionSiteView {
                                raw: t,
                                line,
                                var: v,
                                subtractor: k,
                                subtractor_source: lit,
                            },
                        ),
                    )
                },
                None => None,
            }
        },
        _ => None,
    }
}

/// `var - literal` with a non-zero literal.
pub open spec fn parse_sub_seq(t: Seq<char>, line: usize, pattern: Seq<char>) -> Option<ExtractedSiteView> {
    match regex_first_match(pattern, t) {
        None => None,
        Some(g) => sub_of_groups(t, line, g),
    }
}

/// Subtraction sites of one line: `malloc`, `realloc`, then `with_capacity`.
pub open spec fn extract_subtraction_seq(line: Seq<char>, line_no: usize) -> Seq<ExtractedSiteView> {
    let t = trim_seq(line);
    if !contains_seq(t, " - "@) {
        Seq::empty()
    } else {
        opt_seq(parse_sub_seq(t, line_no, MALLOC_SUB@)) + opt_seq(
            parse_sub_seq(t, line_no, REALLOC_SUB@),
        ) + opt_seq(parse_sub_seq(t, line_no, WITH_CAPACITY_SUB@))
    }
}

/// The site of one subtraction match, from its captured groups.
pub fn sub_site(trimmed: &str, line_no: usize, g: &Vec<Option<String>>) -> (r: Option<ExtractedSite>)
    ensures
        opt_site_view(r) == sub_of_groups(trimmed@, line_no, g.deep_view()),
{
    let var = get_group(g, 1)?;
    let lit = get_group(g, 2)?;
    if !is_identifier(var.as_str()) || is_constant_identifier(var.as_str()) {
        return None;
    }
    let subtractor = parse_u64(lit.as_str())?;
    if subtractor == 0 {
        return None;
    }
    Some(
        ExtractedSite::SymbolicSub(
            SubtractionSite {
                raw: owned(trimmed),
                line: line_no,
                var,
                subtractor,
                subtractor_source: lit,
            },
        ),
    )
}

fn parse_sub(trimmed: &str, line_no: usize, pattern: &str) -> (r: Option<ExtractedSite>)
    ensures
        opt_site_view(r) == parse_sub_seq(trimmed@, line_no, pattern@),
{
    let g = captures(pattern, trimmed)?;
    sub_site(trimmed, line_no, &g)
}

/// Subtraction sites on one source line (1-based `line_no`).
pub fn extract_sites(line: &str, line_no: usize) -> (r: Vec<ExtractedSite>)
    ensures
        sites_view(r@) == extract_subtraction_seq(line@, line_no),
{
    let trimmed_s = trim_str(line);
    let trimmed = trimmed_s.as_str();
    let mut results: Vec<ExtractedSite> = Vec::new();
    assert(sites_view(results@) =~= Seq::<ExtractedSiteView>::empty());
    if !str_contains(trimmed, " - ") {
        return results;
    }
    let a = parse_sub(trimmed, line_no, MALLOC_SUB);
    let b = parse_sub(trimmed, line_no, REALLOC_SUB);
    let c = parse_sub(trimmed, line_no, WITH_CAPACITY_SUB);
    let ghost av = opt_site_view(a);
    let ghost bv = opt_site_view(b);
    let ghost cv = opt_site_view(c);
    if let Some(s) = a {
        results.push(s);
    }
    assert(sites_view(results@) =~= opt_seq(av));
    if let Some(s) = b {
        results.push(s);
    }
    assert(sites_view(results@) =~= opt_seq(av) + opt_seq(bv));
    if let Some(s) = c {
        results.push(s);
    }
    assert(sites_view(results@) =~= opt_seq(av) + opt_seq(bv) + opt_seq(cv));
    results
}

} // verus!
