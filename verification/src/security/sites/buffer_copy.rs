//! Buffer copy site extraction (CWE-680).

use crate::matching::{captures, get_group, group, regex_first_match, Groups};
use crate::security::sites::{
    is_constant_identifier, is_constant_seq, is_identifier, opt_seq, opt_site_view, resolve_sizeof,
    resolve_sizeof_seq, sites_view, BufferCopyKind, BufferCopySite, BufferCopySiteView,
    ExtractedSite, ExtractedSiteView,
};
use crate::text::{
    concat3, contains_seq, is_identifier_seq, owned, parse_u64, parse_u64_seq, str_contains, trim_seq,
    trim_str,
};
use vstd::prelude::*;

verus! {

pub const MEMCPY_SIZEOF: &'static str =
    r"memcpy\s*\([^,]+,\s*[^,]+,\s*(\w+)\s*\*\s*sizeof\s*\(\s*([^)]+)\s*\)";

pub const MEMCPY_CONST: &'static str = r"memcpy\s*\([^,]+,\s*[^,]+,\s*(\w+)\s*\*\s*(\d+)\s*\)";

pub const MEMSET_SIZEOF: &'static str =
    r"memset\s*\([^,]+,\s*[^,]+,\s*(\w+)\s*\*\s*sizeof\s*\(\s*([^)]+)\s*\)";

pub const MEMSET_CONST: &'static str = r"memset\s*\([^,]+,\s*[^,]+,\s*(\w+)\s*\*\s*(\d+)\s*\)";

/// `var * size` in a copy: only well-formed identifiers with a known,
/// non-zero size make a site.
pub open spec fn copy_size_seq(
    t: Seq<char>,
    line: usize,
    kind: BufferCopyKind,
    var: Seq<char>,
    ty: Seq<char>,
    literal: Option<(u64, Seq<char>)>,
) -> Option<ExtractedSiteView> {
    if is_constant_seq(var) || !is_identifier_seq(var) {
        None
    } else {
        let pair: Option<(u64, Seq<char>)> = match literal {
            Some(p) => Some(p),
            None => match resolve_sizeof_seq(ty) {
                Some(n) => Some((n, "sizeof("@ + ty + ")"@)),
                None => None,
            },
        };
        match pair {
            None => None,
            Some((size, src)) => if size == 0 {
                None
            } else {
                Some(
                    ExtractedSiteView::SymbolicBufferCopy(
                        BufferCopySiteView {
                            raw: t,
                            line,
                            kind,
                            var,
                            elem_size: size,
                            elem_size_source: src,
                        },
                    ),
                )
            },
        }
    }
}

pub open spec fn try_copy_seq(
    p_sizeof: Seq<char>,
    p_const: Seq<char>,
    kind: BufferCopyKind,
    t: Seq<char>,
    line: usize,
) -> Option<ExtractedSiteView> {
    match regex_first_match(p_sizeof, t) {
        Some(g) => match (group(g, 1), group(g, 2)) {
            (Some(v), Some(ty)) => copy_size_seq(t, line, kind, v, ty, None),
            _ => None,
        },
        None => match regex_first_match(p_const, t) {
            Some(g) => match (group(g, 1), group(g, 2)) {
                (Some(v), Some(lit)) => match parse_u64_seq(lit) {
                    Some(e) => copy_size_seq(t, line, kind, v, Seq::empty(), Some((e, lit))),
                    None => None,
                },
                _ => None,
            },
            None => None,
        },
    }
}

/// Buffer-copy sites of one line: `memcpy` then `memset`.
pub open spec fn extract_buffer_copy_seq(line: Seq<char>, line_no: usize) -> Seq<ExtractedSiteView> {
    let t = trim_seq(line);
    if !contains_seq(t, "memcpy("@) && !contains_seq(t, "memset("@) {
        Seq::empty()
    } else {
        opt_seq(try_copy_seq(MEMCPY_SIZEOF@, MEMCPY_CONST@, BufferCopyKind::Memcpy, t, line_no))
            + opt_seq(try_copy_seq(MEMSET_SIZEOF@, MEMSET_CONST@, BufferCopyKind::Memset, t, line_no))
    }
}

/// The site of a copy of `var * size` elements, from the groups a copy pattern captured.
pub fn copy_site(
    trimmed: &str,
    line_no: usize,
    kind: BufferCopyKind,
    var: &str,
    ty: &str,
    literal: Option<(u64, String)>,
) -> (r: Option<ExtractedSite>)
    ensures
        opt_site_view(r) == copy_size_seq(
            trimmed@,
            line_no,
            kind,
            var@,
            ty@,
            match literal {
                Some((n, s)) => Some((n, s@)),
                None => None,
            },
        ),
{
    if is_constant_identifier(var) || !is_identifier(var) {
        return None;
    }
    let (elem_size, elem_size_source) = match literal {
        Some((size, src)) => (size, src),
        None => match resolve_sizeof(ty) {
            Some(n) => (n, concat3("sizeof(", ty, ")")),
            None => {
                return None;
            },
        },
    };
    if elem_size == 0 {
        return None;
    }
    Some(
        ExtractedSite::SymbolicBufferCopy(
            BufferCopySite {
                raw: owned(trimmed),
                line: line_no,
                kind,
                var: owned(var),
                elem_size,
                elem_size_source,
            },
        ),
    )
}

fn try_copy(
    p_sizeof: &str,
    p_const: &str,
    kind: BufferCopyKind,
    trimmed: &str,
    line_no: usize,
) -> (r: Option<ExtractedSite>)
    ensures
        opt_site_view(r) == try_copy_seq(p_sizeof@, p_const@, kind, trimmed@, line_no),
{
    if let Some(g) = captures(p_sizeof, trimmed) {
        let var = get_group(&g, 1)?;
        let ty = get_group(&g, 2)?;
        return copy_site(trimmed, line_no, kind, var.as_str(), ty.as_str(), None);
    }
    if let Some(g) = captures(p_const, trimmed) {
        let var = get_group(&g, 1)?;
        let lit = get_group(&g, 2)?;
        let elem = parse_u64(lit.as_str())?;
        let ghost lv = lit@;
        let r = copy_site(trimmed, line_no, kind, var.as_str(), "", Some((elem, lit)));
        assert(""@ == Seq::<char>::empty()) by {
            reveal_strlit("");
        }
        return r;
    }
    None
}

/// Buffer-copy sites on one source line (1-based `line_no`).
pub fn extract_sites(line: &str, line_no: usize) -> (r: Vec<ExtractedSite>)
    ensures
        sites_view(r@) == extract_buffer_copy_seq(line@, line_no),
{
    let trimmed_s = trim_str(line);
    let trimmed = trimmed_s.as_str();
    let mut results: Vec<ExtractedSite> = Vec::new();
    assert(sites_view(results@) =~= Seq::<ExtractedSiteView>::empty());
    if !str_contains(trimmed, "memcpy(") && !str_contains(trimmed, "memset(") {
        return results;
    }
    let a = try_copy(MEMCPY_SIZEOF, MEMCPY_CONST, BufferCopyKind::Memcpy, trimmed, line_no);
    let b = try_copy(MEMSET_SIZEOF, MEMSET_CONST, BufferCopyKind::Memset, trimmed, line_no);
    let ghost av = opt_site_view(a);
    let ghost bv = opt_site_view(b);
    if let Some(s) = a {
        results.push(s);
    }
    assert(sites_view(results@) =~= opt_seq(av));
    if let Some(s) = b {
        results.push(s);
    }
    assert(sites_view(results@) =~= opt_seq(av) + opt_seq(bv));
    results
}

} // verus!
