//! Single-line allocation site extraction (CWE-190) with a three-way outcome:
//! a structured symbolic site, an inconclusive match, or a bare pattern match.

use crate::matching::{captures, get_group, group, regex_first_match, Groups};
use crate::security::sites::allocation::{
    CALLOC_CONST, CALLOC_SIZEOF, DOT_WITH_CAPACITY, MALLOC_CONST, MALLOC_SIZEOF, MALLOC_TWO_VAR,
    REALLOC_CONST, REALLOC_SIZEOF, VEC_WITH_CAPACITY,
};
use crate::security::sites::{
    constant_only_allocation_seq, is_constant_identifier, is_constant_only_allocation,
    is_constant_seq, is_identifier, literal_view, opt_site_view, parse_var_times_size,
    try_unresolved_sizeof, unresolved_sizeof_seq, var_times_size_seq, AllocationSiteView,
    ExtractedSiteView,
};
use crate::text::{
    concat2, concat3, contains_seq, is_identifier_seq, owned, parse_u64, parse_u64_seq,
    str_contains, str_contains_char, trim_seq, trim_str,
};
use vstd::prelude::*;

pub use crate::security::sites::{resolve_sizeof, AllocKind, AllocationSite};

verus! {

/// Outcome of analyzing one potential allocation site on a line.
#[derive(Debug, Clone, PartialEq, Eq)]
pub enum ExtractedSite {
    /// Symbolic variable present: a candidate for an exact overflow query.
    Symbolic(AllocationSite),
    /// Heuristic match that no query can take (several variables, unknown `sizeof`, ...).
    Inconclusive { raw: String, reason: String },
    /// Heuristic match that the parser could not structure.
    PatternOnly(String),
}

/// Mathematical model of an [`ExtractedSite`].
pub enum LineSiteView {
    Symbolic(AllocationSiteView),
    Inconclusive { raw: Seq<char>, reason: Seq<char> },
    PatternOnly(Seq<char>),
}

impl View for ExtractedSite {
    type V = LineSiteView;

    open spec fn view(&self) -> LineSiteView {
        match self {
            ExtractedSite::Symbolic(s) => LineSiteView::Symbolic(s@),
            ExtractedSite::Inconclusive { raw, reason } => LineSiteView::Inconclusive {
                raw: raw@,
                reason: reason@,
            },
            ExtractedSite::PatternOnly(raw) => LineSiteView::PatternOnly(raw@),
        }
    }
}

pub open spec fn line_sites_view(v: Seq<ExtractedSite>) -> Seq<LineSiteView> {
    v.map_values(|s: ExtractedSite| s@)
}

pub open spec fn opt_line_view(o: Option<ExtractedSite>) -> Option<LineSiteView> {
    match o {
        Some(s) => Some(s@),
        None => None,
    }
}

pub open spec fn opt_line_seq(o: Option<LineSiteView>) -> Seq<LineSiteView> {
    match o {
        Some(s) => seq![s],
        None => Seq::empty(),
    }
}

/// The three-way reading of a site found by the shared helpers: a symbolic
/// product stays symbolic, an inconclusive site keeps its text and reason.
pub open spec fn narrow(o: Option<ExtractedSiteView>) -> Option<LineSiteView> {
    match o {
        Some(ExtractedSiteView::SymbolicMul(a)) => Some(LineSiteView::Symbolic(a)),
        Some(ExtractedSiteView::Inconclusive { raw, reason, .. }) => Some(
            LineSiteView::Inconclusive { raw, reason },
        ),
        Some(ExtractedSiteView::PatternOnly { raw, .. }) => Some(LineSiteView::PatternOnly(raw)),
        _ => None,
    }
}

/// The reason given when two symbolic values are multiplied.
pub open spec fn two_var_reason(a: Seq<char>, b: Seq<char>) -> Seq<char> {
    "multiple symbolic variables: "@ + a + " * "@ + b
}

// ---------------------------------------------------------------------------
// Model
// ---------------------------------------------------------------------------

pub open spec fn line_via_sizeof(t: Seq<char>, line: usize, kind: AllocKind, g: Groups) -> Option<LineSiteView> {
    match (group(g, 1), group(g, 2)) {
        (Some(v), Some(ty)) => narrow(var_times_size_seq(t, line, kind, v, ty, None)),
        _ => None,
    }
}

pub open spec fn line_via_const(t: Seq<char>, line: usize, kind: AllocKind, g: Groups) -> Option<LineSiteView> {
    match (group(g, 1), group(g, 2)) {
        (Some(v), Some(lit)) => match parse_u64_seq(lit) {
            Some(e) => narrow(var_times_size_seq(t, line, kind, v, Seq::empty(), Some((e, lit)))),
            None => None,
        },
        _ => None,
    }
}

pub open spec fn line_via_two_var(t: Seq<char>, g: Groups) -> Option<LineSiteView> {
    match (group(g, 1), group(g, 2)) {
        (Some(a), Some(b)) => if is_identifier_seq(a) && is_identifier_seq(b) && !is_constant_seq(a)
            && !is_constant_seq(b) {
            Some(LineSiteView::Inconclusive { raw: t, reason: two_var_reason(a, b) })
        } else {
            None
        },
        _ => None,
    }
}

pub open spec fn line_malloc_seq(t: Seq<char>, line: usize) -> Option<LineSiteView> {
    match regex_first_match(MALLOC_SIZEOF@, t) {
        Some(g) => line_via_sizeof(t, line, AllocKind::Malloc, g),
        None => match regex_first_match(MALLOC_CONST@, t) {
            Some(g) => line_via_const(t, line, AllocKind::Malloc, g),
            None => match regex_first_match(MALLOC_TWO_VAR@, t) {
                Some(g) => line_via_two_var(t, g),
                None => None,
            },
        },
    }
}

pub open spec fn line_calloc_seq(t: Seq<char>, line: usize) -> Option<LineSiteView> {
    match regex_first_match(CALLOC_SIZEOF@, t) {
        Some(g) => line_via_sizeof(t, line, AllocKind::Calloc, g),
        None => match regex_first_match(CALLOC_CONST@, t) {
            Some(g) => line_via_const(t, line, AllocKind::Calloc, g),
            None => None,
        },
    }
}

pub open spec fn line_realloc_seq(t: Seq<char>, line: usize) -> Option<LineSiteView> {
    match regex_first_match(REALLOC_SIZEOF@, t) {
        Some(g) => line_via_sizeof(t, line, AllocKind::Realloc, g),
        None => match regex_first_match(REALLOC_CONST@, t) {
            Some(g) => line_via_const(t, line, AllocKind::Realloc, g),
            None => None,
        },
    }
}

/// `with_capacity(var * rhs)`: a literal size, or a second identifier.
pub open spec fn line_capacity_rhs(t: Seq<char>, line: usize, var: Seq<char>, rhs0: Seq<char>) -> Option<LineSiteView> {
    let rhs = trim_seq(rhs0);
    match parse_u64_seq(rhs) {
        Some(e) => narrow(
            var_times_size_seq(t, line, AllocKind::WithCapacity, var, Seq::empty(), Some((e, rhs))),
        ),
        None => if is_identifier_seq(rhs) {
            Some(LineSiteView::Inconclusive { raw: t, reason: two_var_reason(var, rhs) })
        } else {
            None
        },
    }
}

pub open spec fn line_via_capacity(t: Seq<char>, line: usize, g: Groups) -> Option<LineSiteView> {
    match (group(g, 1), group(g, 2)) {
        (Some(v), Some(rhs)) => line_capacity_rhs(t, line, v, rhs),
        _ => None,
    }
}

pub open spec fn line_vec_capacity_seq(t: Seq<char>, line: usize) -> Option<LineSiteView> {
    match regex_first_match(VEC_WITH_CAPACITY@, t) {
        Some(g) => line_via_capacity(t, line, g),
        None => None,
    }
}

pub open spec fn line_dot_capacity_seq(t: Seq<char>, line: usize) -> Option<LineSiteView> {
    if contains_seq(t, "Vec::with_capacity("@) {
        None
    } else {
        match regex_first_match(DOT_WITH_CAPACITY@, t) {
            Some(g) => line_via_capacity(t, line, g),
            None => None,
        }
    }
}

/// An allocation call with a multiplication in it.
pub open spec fn looks_like_line_allocation(t: Seq<char>) -> bool {
    (contains_seq(t, "malloc("@) || contains_seq(t, "calloc("@) || contains_seq(t, "realloc("@)
        || contains_seq(t, "Vec::with_capacity("@) || contains_seq(t, "with_capacity("@))
        && t.contains('*')
}

pub open spec fn line_extractor_results(t: Seq<char>, line: usize) -> Seq<LineSiteView> {
    opt_line_seq(line_malloc_seq(t, line)) + opt_line_seq(line_calloc_seq(t, line)) + opt_line_seq(
        line_realloc_seq(t, line),
    ) + opt_line_seq(line_vec_capacity_seq(t, line)) + opt_line_seq(line_dot_capacity_seq(t, line))
}

/// Sites of one line: the extractors' results in order, or else nothing for a
/// constant-only allocation, an inconclusive unknown `sizeof`, or a bare match.
pub open spec fn extract_line_seq(line: Seq<char>, line_no: usize) -> Seq<LineSiteView> {
    let t = trim_seq(line);
    if !looks_like_line_allocation(t) {
        Seq::empty()
    } else {
        let results = line_extractor_results(t, line_no);
        if results.len() > 0 {
            results
        } else if constant_only_allocation_seq(t) {
            Seq::empty()
        } else {
            match narrow(unresolved_sizeof_seq(t, line_no)) {
                Some(s) => seq![s],
                None => seq![LineSiteView::PatternOnly(t)],
            }
        }
    }
}

// ---------------------------------------------------------------------------
// Implementation
// ---------------------------------------------------------------------------

fn narrow_site(o: Option<crate::security::sites::ExtractedSite>) -> (r: Option<ExtractedSite>)
    ensures
        opt_line_view(r) == narrow(opt_site_view(o)),
{
    match o {
        Some(crate::security::sites::ExtractedSite::SymbolicMul(a)) => Some(ExtractedSite::Symbolic(a)),
        Some(crate::security::sites::ExtractedSite::Inconclusive { raw, reason, .. }) => Some(
            ExtractedSite::Inconclusive { raw, reason },
        ),
        Some(crate::security::sites::ExtractedSite::PatternOnly { raw, .. }) => Some(
            ExtractedSite::PatternOnly(raw),
        ),
        _ => None,
    }
}

fn two_var_message(a: &str, b: &str) -> (r: String)
    ensures
        r@ == two_var_reason(a@, b@),
{
    let head = concat3("multiple symbolic variables: ", a, " * ");
    concat2(head.as_str(), b)
}

fn from_sizeof(t: &str, line_no: usize, kind: AllocKind, g: &Vec<Option<String>>) -> (r: Option<ExtractedSite>)
    ensures
        opt_line_view(r) == line_via_sizeof(t@, line_no, kind, g.deep_view()),
{
    let var = get_group(g, 1)?;
    let ty = get_group(g, 2)?;
    narrow_site(parse_var_times_size(t, line_no, kind, var.as_str(), ty.as_str(), None))
}

fn from_const(t: &str, line_no: usize, kind: AllocKind, g: &Vec<Option<String>>) -> (r: Option<ExtractedSite>)
    ensures
        opt_line_view(r) == line_via_const(t@, line_no, kind, g.deep_view()),
{
    let var = get_group(g, 1)?;
    let lit = get_group(g, 2)?;
    let elem = parse_u64(lit.as_str())?;
    let ghost lv = lit@;
    let r = narrow_site(parse_var_times_size(t, line_no, kind, var.as_str(), "", Some((elem, lit))));
    assert(""@ == Seq::<char>::empty()) by {
        reveal_strlit("");
    }
    r
}

fn from_two_var(t: &str, g: &Vec<Option<String>>) -> (r: Option<ExtractedSite>)
    ensures
        opt_line_view(r) == line_via_two_var(t@, g.deep_view()),
{
    let a = get_group(g, 1)?;
    let b = get_group(g, 2)?;
    if is_identifier(a.as_str()) && is_identifier(b.as_str()) && !is_constant_identifier(a.as_str())
        && !is_constant_identifier(b.as_str()) {
        return Some(
            ExtractedSite::Inconclusive {
                raw: owned(t),
                reason: two_var_message(a.as_str(), b.as_str()),
            },
        );
    }
    None
}

fn try_malloc(t: &str, line_no: usize) -> (r: Option<ExtractedSite>)
    ensures
        opt_line_view(r) == line_malloc_seq(t@, line_no),
{
    if let Some(g) = captures(MALLOC_SIZEOF, t) {
        return from_sizeof(t, line_no, AllocKind::Malloc, &g);
    }
    if let Some(g) = captures(MALLOC_CONST, t) {
        return from_const(t, line_no, AllocKind::Malloc, &g);
    }
    if let Some(g) = captures(MALLOC_TWO_VAR, t) {
        return from_two_var(t, &g);
    }
    None
}

fn try_calloc(t: &str, line_no: usize) -> (r: Option<ExtractedSite>)
    ensures
        opt_line_view(r) == line_calloc_seq(t@, line_no),
{
    if let Some(g) = captures(CALLOC_SIZEOF, t) {
        return from_sizeof(t, line_no, AllocKind::Calloc, &g);
    }
    if let Some(g) = captures(CALLOC_CONST, t) {
        return from_const(t, line_no, AllocKind::Calloc, &g);
    }
    None
}

fn try_realloc(t: &str, line_no: usize) -> (r: Option<ExtractedSite>)
    ensures
        opt_line_view(r) == line_realloc_seq(t@, line_no),
{
    if let Some(g) = captures(REALLOC_SIZEOF, t) {
        return from_sizeof(t, line_no, AllocKind::Realloc, &g);
    }
    if let Some(g) = captures(REALLOC_CONST, t) {
        return from_const(t, line_no, AllocKind::Realloc, &g);
    }
    None
}

fn capacity_rhs(t: &str, line_no: usize, var: &str, rhs0: &str) -> (r: Option<ExtractedSite>)
    ensures
        opt_line_view(r) == line_capacity_rhs(t@, line_no, var@, rhs0@),
{
    let rhs = trim_str(rhs0);
    if let Some(elem) = parse_u64(rhs.as_str()) {
        let ghost rv = rhs@;
        let r = narrow_site(
            parse_var_times_size(t, line_no, AllocKind::WithCapacity, var, "", Some((elem, rhs))),
        );
        assert(""@ == Seq::<char>::empty()) by {
            reveal_strlit("");
        }
        return r;
    }
    if is_identifier(rhs.as_str()) {
        return Some(
            ExtractedSite::Inconclusive {
                raw: owned(t),
                reason: two_var_message(var, rhs.as_str()),
            },
        );
    }
    None
}

fn from_capacity(t: &str, line_no: usize, g: &Vec<Option<String>>) -> (r: Option<ExtractedSite>)
    ensures
        opt_line_view(r) == line_via_capacity(t@, line_no, g.deep_view()),
{
    let var = get_group(g, 1)?;
    let rhs = get_group(g, 2)?;
    capacity_rhs(t, line_no, var.as_str(), rhs.as_str())
}

fn try_vec_with_capacity(t: &str, line_no: usize) -> (r: Option<ExtractedSite>)
    ensures
        opt_line_view(r) == line_vec_capacity_seq(t@, line_no),
{
    let g = captures(VEC_WITH_CAPACITY, t)?;
    from_capacity(t, line_no, &g)
}

fn try_dot_with_capacity(t: &str, line_no: usize) -> (r: Option<ExtractedSite>)
    ensures
        opt_line_view(r) == line_dot_capacity_seq(t@, line_no),
{
    if str_contains(t, "Vec::with_capacity(") {
        return None;
    }
    let g = captures(DOT_WITH_CAPACITY, t)?;
    from_capacity(t, line_no, &g)
}

fn looks_like_allocation_line(t: &str) -> (b: bool)
    ensures
        b == looks_like_line_allocation(t@),
{
    (str_contains(t, "malloc(") || str_contains(t, "calloc(") || str_contains(t, "realloc(")
        || str_contains(t, "Vec::with_capacity(") || str_contains(t, "with_capacity("))
        && str_contains_char(t, '*')
}

fn push_line_site(results: &mut Vec<ExtractedSite>, o: Option<ExtractedSite>)
    ensures
        line_sites_view(final(results)@) == line_sites_view(old(results)@) + opt_line_seq(
            opt_line_view(o),
        ),
{
    let ghost before = line_sites_view(results@);
    match o {
        Some(s) => {
            results.push(s);
            assert(line_sites_view(results@) =~= before + opt_line_seq(opt_line_view(Some(s))));
        },
        None => {
            assert(line_sites_view(results@) =~= before + Seq::<LineSiteView>::empty());
        },
    }
}

/// Extract allocation sites from a single source line (1-based `line_no`).
pub fn extract_sites(line: &str, line_no: usize) -> (r: Vec<ExtractedSite>)
    ensures
        line_sites_view(r@) == extract_line_seq(line@, line_no),
{
    let trimmed_s = trim_str(line);
    let t = trimmed_s.as_str();
    if !looks_like_allocation_line(t) {
        let r: Vec<ExtractedSite> = Vec::new();
        assert(line_sites_view(r@) =~= Seq::<LineSiteView>::empty());
        return r;
    }
    let mut results: Vec<ExtractedSite> = Vec::new();
    assert(line_sites_view(results@) =~= Seq::<LineSiteView>::empty());
    push_line_site(&mut results, try_malloc(t, line_no));
    push_line_site(&mut results, try_calloc(t, line_no));
    push_line_site(&mut results, try_realloc(t, line_no));
    push_line_site(&mut results, try_vec_with_capacity(t, line_no));
    push_line_site(&mut results, try_dot_with_capacity(t, line_no));
    assert(line_sites_view(results@) =~= line_extractor_results(t@, line_no));
    if results.len() == 0 {
        if is_constant_only_allocation(t) {
            return results;
        }
        match narrow_site(try_unresolved_sizeof(t, line_no)) {
            Some(site) => {
                results.push(site);
            },
            None => {
                results.push(ExtractedSite::PatternOnly(owned(t)));
            },
        }
        assert(line_sites_view(results@) =~= extract_line_seq(line@, line_no));
    }
    results
}

} // verus!
