//! Division site extraction (CWE-369 divide by zero).

use crate::matching::{captures, get_group, group, regex_first_match, Groups};
use crate::security::sites::{
    is_constant_identifier, is_constant_seq, is_identifier, opt_seq, opt_site_view, sites_view,
    DivisionSite, DivisionSiteView, ExtractedSite, ExtractedSiteView,
};
use crate::text::{contains_seq, is_identifier_seq, owned, str_contains, trim_seq, trim_str};
use vstd::prelude::*;

verus! {

pub const MALLOC_DIV: &'static str = r"malloc\s*\(\s*(\w+)\s*/\s*(\w+)\s*\)";

pub const REALLOC_DIV: &'static str = r"realloc\s*\([^,]+,\s*(\w+)\s*/\s*(\w+)\s*\)";

pub const WITH_CAPACITY_DIV: &'static str =
    r"(?:Vec::with_capacity|\.with_capacity)\s*\(\s*(\w+)\s*/\s*(\w+)\s*\)";

/// The site of one division match, from its groups `(dividend, divisor)`:
/// both must be non-literal identifiers.
pub open spec fn div_of_groups(t: Seq<char>, line: usize, g: Groups) -> Option<ExtractedSiteView> {
    match (group(g, 1), group(g, 2)) {
        (Some(a), Some(b)) => if !is_identifier_seq(a) || !is_identifier_seq(b) || is_constant_seq(a)
            || is_constant_seq(b) {
            None
        } else {
            Some(
                ExtractedSiteView::SymbolicDiv(
                    DivisionSiteView { raw: t, line, dividend_var: a, divisor_var: b },
                ),
            )
        },
        _ => None,
    }
}

/// `dividend / divisor` between two non-literal identifiers.
pub open spec fn parse_div_seq(t: Seq<char>, line: usize, pattern: Seq<char>) -> Option<ExtractedSiteView> {
    match regex_first_match(pattern, t) {
        None => None,
        Some(g) => div_of_groups(t, line, g),
    }
}

/// Division sites of one line: `malloc`, `realloc`, then `with_capacity`.
pub open spec fn extract_division_seq(line: Seq<char>, line_no: usize) -> Seq<ExtractedSiteView> {
    let t = trim_seq(line);
    if !contains_seq(t, " / "@) {
        Seq::empty()
    } else {
        opt_seq(parse_div_seq(t, line_no, MALLOC_DIV@)) + opt_seq(
            parse_div_seq(t, line_no, REALLOC_DIV@),
        ) + opt_seq(parse_div_seq(t, line_no, WITH_CAPACITY_DIV@))
    }
}

/// The site of one division match, from its captured groups.
pub fn div_site(trimmed: &str, line_no: usize, g: &Vec<Option<String>>) -> (r: Option<ExtractedSite>)
    ensures
        opt_site_view(r) == div_of_groups(trimmed@, line_no, g.deep_view()),
{
    let dividend = get_group(g, 1)?;
    let divisor = get_group(g, 2)?;
    if !is_identifier(dividend.as_str()) || !is_identifier(divisor.as_str())
        || is_constant_identifier(dividend.as_str()) || is_constant_identifier(divisor.as_str()) {
        return None;
    }
    Some(
        ExtractedSite::SymbolicDiv(
            DivisionSite {
                raw: owned(trimmed),
                line: line_no,
                dividend_var: dividend,
                divisor_var: divisor,
            },
        ),
    )
}

fn parse_div(trimmed: &str, line_no: usize, pattern: &str) -> (r: Option<ExtractedSite>)
    ensures
        opt_site_view(r) == parse_div_seq(trimmed@, line_no, pattern@),
{
    let g = captures(pattern, trimmed)?;
    div_site(trimmed, line_no, &g)
}

/// Division sites on one source line (1-based `line_no`).
pub fn extract_sites(line: &str, line_no: usize) -> (r: Vec<ExtractedSite>)
    ensures
        sites_view(r@) == extract_division_seq(line@, line_no),
{
    let trimmed_s = trim_str(line);
    let trimmed = trimmed_s.as_str();
    let mut results: Vec<ExtractedSite> = Vec::new();
    assert(sites_view(results@) =~= Seq::<ExtractedSiteView>::empty());
    if !str_contains(trimmed, " / ") {
        return results;
    }
    let a = parse_div(trimmed, line_no, MALLOC_DIV);
    let b = parse_div(trimmed, line_no, REALLOC_DIV);
    let c = parse_div(trimmed, line_no, WITH_CAPACITY_DIV);
    let ghost av = opt_site_view(a);
    let ghost bv = opt_site_view(b);
    let ghost cv = opt_site_view(c);
    if let Some(s) = a {
        results.push(s);
    }
    assert(sites_view(results@) =~= opt_seq(av));
    if let Some(s) = b {
        results.push(s);
    }
    assert(sites_view(results@) =~= opt_seq(av) + opt_seq(bv));
    if let Some(s) = c {
        results.push(s);
    }
    assert(sites_view(results@) =~= opt_seq(av) + opt_seq(bv) + opt_seq(cv));
    results
}

} // verus!
