//! Allocation site extraction (CWE-190, CWE-131, shift overflow).

use crate::matching::{captures, get_group, group, regex_first_match, Groups};
use crate::security::sites::{
    constant_only_allocation_seq, is_constant_identifier, is_constant_only_allocation,
    is_constant_seq, is_identifier, opt_seq, opt_site_view, parse_var_times_size, sites_view,
    try_unresolved_sizeof, unresolved_sizeof_seq, var_times_size_seq, AllocKind, ExtractedSite,
    ExtractedSiteView, ShiftSite, ShiftSiteView, TwoVarMulSite, TwoVarMulSiteView,
};
use crate::text::{
    contains_seq, is_identifier_seq, owned, parse_u32, parse_u32_seq, parse_u64, parse_u64_seq,
    str_contains, str_contains_char, trim_seq, trim_str,
};
use vstd::prelude::*;

verus! {

pub const MALLOC_SIZEOF: &'static str = r"malloc\s*\(\s*(\w+)\s*\*\s*sizeof\s*\(\s*([^)]+)\s*\)";

pub const MALLOC_CONST: &'static str = r"malloc\s*\(\s*(\w+)\s*\*\s*(\d+)\s*\)";

pub const MALLOC_TWO_VAR: &'static str = r"malloc\s*\(\s*(\w+)\s*\*\s*(\w+)\s*\)";

pub const CALLOC_SIZEOF: &'static str = r"calloc\s*\(\s*(\w+)\s*,\s*sizeof\s*\(\s*([^)]+)\s*\)";

pub const CALLOC_CONST: &'static str = r"calloc\s*\(\s*(\w+)\s*,\s*(\d+)\s*\)";

pub const CALLOC_TWO_VAR: &'static str = r"calloc\s*\(\s*(\w+)\s*,\s*(\w+)\s*\)";

pub const REALLOC_SIZEOF: &'static str =
    r"realloc\s*\([^,]+,\s*(\w+)\s*\*\s*sizeof\s*\(\s*([^)]+)\s*\)";

pub const REALLOC_CONST: &'static str = r"realloc\s*\([^,]+,\s*(\w+)\s*\*\s*(\d+)\s*\)";

pub const VEC_WITH_CAPACITY: &'static str = r"Vec::with_capacity\s*\(\s*(\w+)\s*\*\s*(\w+)\s*\)";

pub const DOT_WITH_CAPACITY: &'static str = r"\.with_capacity\s*\(\s*(\w+)\s*\*\s*(\w+)\s*\)";

pub const MALLOC_SHIFT: &'static str = r"malloc\s*\(\s*(\w+)\s*<<\s*(\d+)\s*\)";

pub const WITH_CAPACITY_SHIFT: &'static str =
    r"(?:Vec::with_capacity|\.with_capacity)\s*\(\s*(\w+)\s*<<\s*(\d+)\s*\)";

// ---------------------------------------------------------------------------
// Model
// ---------------------------------------------------------------------------

/// Groups `(var, type)` of a `var * sizeof(type)` match.
pub open spec fn via_sizeof(t: Seq<char>, line: usize, kind: AllocKind, g: Groups) -> Option<ExtractedSiteView> {
    match (group(g, 1), group(g, 2)) {
        (Some(v), Some(ty)) => var_times_size_seq(t, line, kind, v, ty, None),
        _ => None,
    }
}

/// Groups `(var, literal)` of a `var * 123` match.
pub open spec fn via_const(t: Seq<char>, line: usize, kind: AllocKind, g: Groups) -> Option<ExtractedSiteView> {
    match (group(g, 1), group(g, 2)) {
        (Some(v), Some(lit)) => match parse_u64_seq(lit) {
            Some(e) => var_times_size_seq(t, line, kind, v, Seq::empty(), Some((e, lit))),
            None => None,
        },
        _ => None,
    }
}

/// Groups `(a, b)` of an `a * b` match between two identifiers.
pub open spec fn via_two_var(t: Seq<char>, line: usize, kind: AllocKind, g: Groups) -> Option<ExtractedSiteView> {
    match (group(g, 1), group(g, 2)) {
        (Some(a), Some(b)) => if is_identifier_seq(a) && is_identifier_seq(b) && !is_constant_seq(a)
            && !is_constant_seq(b) {
            Some(
                ExtractedSiteView::SymbolicTwoVarMul(
                    TwoVarMulSiteView { raw: t, line, kind, var_a: a, var_b: b },
                ),
            )
        } else {
            None
        },
        _ => None,
    }
}

pub open spec fn try_malloc_seq(t: Seq<char>, line: usize) -> Option<ExtractedSiteView> {
    match regex_first_match(MALLOC_SIZEOF@, t) {
        Some(g) => via_sizeof(t, line, AllocKind::Malloc, g),
        None => match regex_first_match(MALLOC_CONST@, t) {
            Some(g) => via_const(t, line, AllocKind::Malloc, g),
            None => match regex_first_match(MALLOC_TWO_VAR@, t) {
                Some(g) => via_two_var(t, line, AllocKind::Malloc, g),
                None => None,
            },
        },
    }
}

pub open spec fn try_calloc_seq(t: Seq<char>, line: usize) -> Option<ExtractedSiteView> {
    match regex_first_match(CALLOC_SIZEOF@, t) {
        Some(g) => via_sizeof(t, line, AllocKind::Calloc, g),
        None => match regex_first_match(CALLOC_CONST@, t) {
            Some(g) => via_const(t, line, AllocKind::Calloc, g),
            None => match regex_first_match(CALLOC_TWO_VAR@, t) {
                Some(g) => via_two_var(t, line, AllocKind::Calloc, g),
                None => None,
            },
        },
    }
}

pub open spec fn try_realloc_seq(t: Seq<char>, line: usize) -> Option<ExtractedSiteView> {
    match regex_first_match(REALLOC_SIZEOF@, t) {
        Some(g) => via_sizeof(t, line, AllocKind::Realloc, g),
        None => match regex_first_match(REALLOC_CONST@, t) {
            Some(g) => via_const(t, line, AllocKind::Realloc, g),
            None => None,
        },
    }
}

/// `with_capacity(var * rhs)`: a literal size or a second identifier.
pub open spec fn with_capacity_rhs_seq(
    t: Seq<char>,
    line: usize,
    kind: AllocKind,
    var: Seq<char>,
    rhs0: Seq<char>,
) -> Option<ExtractedSiteView> {
    let rhs = trim_seq(rhs0);
    match parse_u64_seq(rhs) {
        Some(e) => var_times_size_seq(t, line, kind, var, Seq::empty(), Some((e, rhs))),
        None => if is_identifier_seq(rhs) && !is_constant_seq(rhs) && is_identifier_seq(var) {
            Some(
                ExtractedSiteView::SymbolicTwoVarMul(
                    TwoVarMulSiteView { raw: t, line, kind, var_a: var, var_b: rhs },
                ),
            )
        } else {
            None
        },
    }
}

pub open spec fn via_with_capacity(t: Seq<char>, line: usize, g: Groups) -> Option<ExtractedSiteView> {
    match (group(g, 1), group(g, 2)) {
        (Some(v), Some(rhs)) => with_capacity_rhs_seq(t, line, AllocKind::WithCapacity, v, rhs),
        _ => None,
    }
}

pub open spec fn try_vec_with_capacity_seq(t: Seq<char>, line: usize) -> Option<ExtractedSiteView> {
    match regex_first_match(VEC_WITH_CAPACITY@, t) {
        Some(g) => via_with_capacity(t, line, g),
        None => None,
    }
}

pub open spec fn try_dot_with_capacity_seq(t: Seq<char>, line: usize) -> Option<ExtractedSiteView> {
    if contains_seq(t, "Vec::with_capacity("@) {
        None
    } else {
        match regex_first_match(DOT_WITH_CAPACITY@, t) {
            Some(g) => via_with_capacity(t, line, g),
            None => None,
        }
    }
}

/// `var << literal` in an allocation of the given kind.
pub open spec fn try_shift_seq(pattern: Seq<char>, kind: AllocKind, t: Seq<char>, line: usize) -> Option<ExtractedSiteView> {
    match regex_first_match(pattern, t) {
        None => None,
        Some(g) => match (group(g, 1), group(g, 2)) {
            (Some(v), Some(lit)) => if !is_identifier_seq(v) || is_constant_seq(v) {
                None
            } else {
                match parse_u32_seq(lit) {
                    Some(s) => Some(
                        ExtractedSiteView::SymbolicShift(
                            ShiftSiteView { raw: t, line, kind, var: v, shift: s },
                        ),
                    ),
                    None => None,
                }
            },
            _ => None,
        },
    }
}

pub open spec fn looks_like_allocation_seq(t: Seq<char>) -> bool {
    (contains_seq(t, "malloc("@) || contains_seq(t, "calloc("@) || contains_seq(t, "realloc("@)
        || contains_seq(t, "Vec::with_capacity("@) || contains_seq(t, "with_capacity("@)) && (
    t.contains('*') || contains_seq(t, "<<"@))
}

/// Every extractor's result, in extractor order.
pub open spec fn extractor_results(t: Seq<char>, line: usize) -> Seq<ExtractedSiteView> {
    opt_seq(try_malloc_seq(t, line)) + opt_seq(try_calloc_seq(t, line)) + opt_seq(
        try_realloc_seq(t, line),
    ) + opt_seq(try_vec_with_capacity_seq(t, line)) + opt_seq(try_dot_with_capacity_seq(t, line))
        + opt_seq(try_shift_seq(MALLOC_SHIFT@, AllocKind::Malloc, t, line)) + opt_seq(
        try_shift_seq(WITH_CAPACITY_SHIFT@, AllocKind::WithCapacity, t, line),
    )
}

/// Allocation sites of one line: the extractors' results, or else a fallback
/// (nothing for constant-only allocations, an inconclusive unknown `sizeof`,
/// or a bare pattern match).
pub open spec fn extract_allocation_seq(line: Seq<char>, line_no: usize) -> Seq<ExtractedSiteView> {
    let t = trim_seq(line);
    if !looks_like_allocation_seq(t) {
        Seq::empty()
    } else {
        let results = extractor_results(t, line_no);
        if results.len() > 0 {
            results
        } else if constant_only_allocation_seq(t) {
            Seq::empty()
        } else {
            match unresolved_sizeof_seq(t, line_no) {
                Some(s) => seq![s],
                None => seq![ExtractedSiteView::PatternOnly { raw: t, line: line_no }],
            }
        }
    }
}

// ---------------------------------------------------------------------------
// Implementation
// ---------------------------------------------------------------------------

/// The site of a `var * sizeof(type)` match, from its captured groups.
pub fn from_sizeof(trimmed: &str, line_no: usize, kind: AllocKind, g: &Vec<Option<String>>) -> (r: Option<ExtractedSite>)
    ensures
        opt_site_view(r) == via_sizeof(trimmed@, line_no, kind, g.deep_view()),
{
    let var = get_group(g, 1)?;
    let ty = get_group(g, 2)?;
    parse_var_times_size(trimmed, line_no, kind, var.as_str(), ty.as_str(), None)
}

/// The site of a `var * literal` match, from its captured groups.
pub fn from_const(trimmed: &str, line_no: usize, kind: AllocKind, g: &Vec<Option<String>>) -> (r: Option<ExtractedSite>)
    ensures
        opt_site_view(r) == via_const(trimmed@, line_no, kind, g.deep_view()),
{
    let var = get_group(g, 1)?;
    let lit = get_group(g, 2)?;
    let elem = parse_u64(lit.as_str())?;
    let ghost lv = lit@;
    let r = parse_var_times_size(trimmed, line_no, kind, var.as_str(), "", Some((elem, lit)));
    assert(""@ == Seq::<char>::empty()) by {
        reveal_strlit("");
    }
    r
}

/// The site of an `a * b` match between identifiers, from its captured groups.
pub fn from_two_var(trimmed: &str, line_no: usize, kind: AllocKind, g: &Vec<Option<String>>) -> (r: Option<ExtractedSite>)
    ensures
        opt_site_view(r) == via_two_var(trimmed@, line_no, kind, g.deep_view()),
{
    let a = get_group(g, 1)?;
    let b = get_group(g, 2)?;
    if is_identifier(a.as_str()) && is_identifier(b.as_str()) && !is_constant_identifier(a.as_str())
        && !is_constant_identifier(b.as_str()) {
        return Some(
            ExtractedSite::SymbolicTwoVarMul(
                TwoVarMulSite { raw: owned(trimmed), line: line_no, kind, var_a: a, var_b: b },
            ),
        );
    }
    None
}

fn try_malloc(trimmed: &str, line_no: usize) -> (r: Option<ExtractedSite>)
    ensures
        opt_site_view(r) == try_malloc_seq(trimmed@, line_no),
{
    if let Some(g) = captures(MALLOC_SIZEOF, trimmed) {
        return from_sizeof(trimmed, line_no, AllocKind::Malloc, &g);
    }
    if let Some(g) = captures(MALLOC_CONST, trimmed) {
        return from_const(trimmed, line_no, AllocKind::Malloc, &g);
    }
    if let Some(g) = captures(MALLOC_TWO_VAR, trimmed) {
        return from_two_var(trimmed, line_no, AllocKind::Malloc, &g);
    }
    None
}

fn try_calloc(trimmed: &str, line_no: usize) -> (r: Option<ExtractedSite>)
    ensures
        opt_site_view(r) == try_calloc_seq(trimmed@, line_no),
{
    if let Some(g) = captures(CALLOC_SIZEOF, trimmed) {
        return from_sizeof(trimmed, line_no, AllocKind::Calloc, &g);
    }
    if let Some(g) = captures(CALLOC_CONST, trimmed) {
        return from_const(trimmed, line_no, AllocKind::Calloc, &g);
    }
    if let Some(g) = captures(CALLOC_TWO_VAR, trimmed) {
        return from_two_var(trimmed, line_no, AllocKind::Calloc, &g);
    }
    None
}

fn try_realloc(trimmed: &str, line_no: usize) -> (r: Option<ExtractedSite>)
    ensures
        opt_site_view(r) == try_realloc_seq(trimmed@, line_no),
{
    if let Some(g) = captures(REALLOC_SIZEOF, trimmed) {
        return from_sizeof(trimmed, line_no, AllocKind::Realloc, &g);
    }
    if let Some(g) = captures(REALLOC_CONST, trimmed) {
        return from_const(trimmed, line_no, AllocKind::Realloc, &g);
    }
    None
}

fn parse_with_capacity_rhs(
    trimmed: &str,
    line_no: usize,
    kind: AllocKind,
    var: &str,
    rhs0: &str,
) -> (r: Option<ExtractedSite>)
    ensures
        opt_site_view(r) == with_capacity_rhs_seq(trimmed@, line_no, kind, var@, rhs0@),
{
    let rhs = trim_str(rhs0);
    if let Some(elem) = parse_u64(rhs.as_str()) {
        let ghost rv = rhs@;
        let r = parse_var_times_size(trimmed, line_no, kind, var, "", Some((elem, rhs)));
        assert(""@ == Seq::<char>::empty()) by {
            reveal_strlit("");
        }
        return r;
    }
    if is_identifier(rhs.as_str()) && !is_constant_identifier(rhs.as_str()) && is_identifier(var) {
        return Some(
            ExtractedSite::SymbolicTwoVarMul(
                TwoVarMulSite { raw: owned(trimmed), line: line_no, kind, var_a: owned(var), var_b: rhs },
            ),
        );
    }
    None
}

/// The site of a `with_capacity(var * rhs)` match, from its captured groups.
pub fn from_with_capacity(trimmed: &str, line_no: usize, g: &Vec<Option<String>>) -> (r: Option<ExtractedSite>)
    ensures
        opt_site_view(r) == via_with_capacity(trimmed@, line_no, g.deep_view()),
{
    let var = get_group(g, 1)?;
    let rhs = get_group(g, 2)?;
    parse_with_capacity_rhs(trimmed, line_no, AllocKind::WithCapacity, var.as_str(), rhs.as_str())
}

fn try_vec_with_capacity(trimmed: &str, line_no: usize) -> (r: Option<ExtractedSite>)
    ensures
        opt_site_view(r) == try_vec_with_capacity_seq(trimmed@, line_no),
{
    let g = captures(VEC_WITH_CAPACITY, trimmed)?;
    from_with_capacity(trimmed, line_no, &g)
}

fn try_dot_with_capacity(trimmed: &str, line_no: usize) -> (r: Option<ExtractedSite>)
    ensures
        opt_site_view(r) == try_dot_with_capacity_seq(trimmed@, line_no),
{
    if str_contains(trimmed, "Vec::with_capacity(") {
        return None;
    }
    let g = captures(DOT_WITH_CAPACITY, trimmed)?;
    from_with_capacity(trimmed, line_no, &g)
}

fn try_shift(pattern: &str, kind: AllocKind, trimmed: &str, line_no: usize) -> (r: Option<ExtractedSite>)
    ensures
        opt_site_view(r) == try_shift_seq(pattern@, kind, trimmed@, line_no),
{
    let g = captures(pattern, trimmed)?;
    let var = get_group(&g, 1)?;
    let lit = get_group(&g, 2)?;
    if !is_identifier(var.as_str()) || is_constant_identifier(var.as_str()) {
        return None;
    }
    let shift = parse_u32(lit.as_str())?;
    Some(
        ExtractedSite::SymbolicShift(
            ShiftSite { raw: owned(trimmed), line: line_no, kind, var, shift },
        ),
    )
}

fn looks_like_allocation_line(trimmed: &str) -> (b: bool)
    ensures
        b == looks_like_allocation_seq(trimmed@),
{
    (str_contains(trimmed, "malloc(") || str_contains(trimmed, "calloc(") || str_contains(
        trimmed,
        "realloc(",
    ) || str_contains(trimmed, "Vec::with_capacity(") || str_contains(trimmed, "with_capacity("))
        && (str_contains_char(trimmed, '*') || str_contains(trimmed, "<<"))
}

fn push_opt(results: &mut Vec<ExtractedSite>, o: Option<ExtractedSite>)
    ensures
        sites_view(final(results)@) == sites_view(old(results)@) + opt_seq(opt_site_view(o)),
{
    let ghost before = sites_view(results@);
    match o {
        Some(s) => {
            results.push(s);
            assert(sites_view(results@) =~= before + opt_seq(opt_site_view(Some(s))));
        },
        None => {
            assert(sites_view(results@) =~= before + Seq::<ExtractedSiteView>::empty());
        },
    }
}

/// Allocation sites on one source line (1-based `line_no`).
pub fn extract_sites(line: &str, line_no: usize) -> (r: Vec<ExtractedSite>)
    ensures
        sites_view(r@) == extract_allocation_seq(line@, line_no),
{
    let trimmed_s = trim_str(line);
    let trimmed = trimmed_s.as_str();
    if !looks_like_allocation_line(trimmed) {
        let r: Vec<ExtractedSite> = Vec::new();
        assert(sites_view(r@) =~= Seq::<ExtractedSiteView>::empty());
        return r;
    }
    let mut results: Vec<ExtractedSite> = Vec::new();
    assert(sites_view(results@) =~= Seq::<ExtractedSiteView>::empty());
    push_opt(&mut results, try_malloc(trimmed, line_no));
    push_opt(&mut results, try_calloc(trimmed, line_no));
    push_opt(&mut results, try_realloc(trimmed, line_no));
    push_opt(&mut results, try_vec_with_capacity(trimmed, line_no));
    push_opt(&mut results, try_dot_with_capacity(trimmed, line_no));
    push_opt(&mut results, try_shift(MALLOC_SHIFT, AllocKind::Malloc, trimmed, line_no));
    push_opt(
        &mut results,
        try_shift(WITH_CAPACITY_SHIFT, AllocKind::WithCapacity, trimmed, line_no),
    );
    assert(sites_view(results@) =~= extractor_results(trimmed@, line_no));
    if results.len() == 0 {
        if is_constant_only_allocation(trimmed) {
            return results;
        }
        match try_unresolved_sizeof(trimmed, line_no) {
            Some(site) => {
                results.push(site);
            },
            None => {
                results.push(ExtractedSite::PatternOnly { raw: owned(trimmed), line: line_no });
            },
        }
        assert(sites_view(results@) =~= extract_allocation_seq(line@, line_no));
    }
    results
}

} // verus!
