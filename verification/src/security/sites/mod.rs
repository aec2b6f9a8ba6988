//! Shared site types and utilities for security extractors.

pub mod allocation;
pub mod buffer_copy;
pub mod division;
pub mod subtraction;

use crate::matching::{captures, get_group, group, regex_first_match, Groups};
use crate::text::{
    concat2, concat3, contains_seq, identifier, is_identifier_seq, owned, parse_u64, parse_u64_seq,
    str_contains, str_contains_char, str_eq, strip_prefix_seq, strip_prefix_str, strip_suffix_seq,
    strip_suffix_str, trim_seq, trim_str,
};
use crate::security::sites::allocation::{extract_allocation_seq, looks_like_allocation_seq};
use crate::security::sites::buffer_copy::extract_buffer_copy_seq;
use crate::security::sites::division::extract_division_seq;
use crate::security::sites::subtraction::extract_subtraction_seq;
use crate::security::queries::{mul_wraps, two64, wrap64};
use crate::text::{decimal_seq, is_white_space, lemma_trim_contains, lemma_trim_of_plain};
use vstd::prelude::*;

verus! {

#[derive(Debug, Clone, Copy, PartialEq, Eq, Structural)]
pub enum AllocKind {
    Malloc,
    Calloc,
    Realloc,
    WithCapacity,
}

#[derive(Debug, Clone, PartialEq, Eq)]
pub struct AllocationSite {
    pub raw: String,
    pub line: usize,
    pub kind: AllocKind,
    pub var: String,
    pub elem_size: u64,
    pub elem_size_source: String,
}

#[derive(Debug, Clone, PartialEq, Eq)]
pub struct TwoVarMulSite {
    pub raw: String,
    pub line: usize,
    pub kind: AllocKind,
    pub var_a: String,
    pub var_b: String,
}

#[derive(Debug, Clone, PartialEq, Eq)]
pub struct ShiftSite {
    pub raw: String,
    pub line: usize,
    pub kind: AllocKind,
    pub var: String,
    pub shift: u32,
}

#[derive(Debug, Clone, PartialEq, Eq)]
pub struct SubtractionSite {
    pub raw: String,
    pub line: usize,
    pub var: String,
    pub subtractor: u64,
    pub subtractor_source: String,
}

#[derive(Debug, Clone, PartialEq, Eq)]
pub struct DivisionSite {
    pub raw: String,
    pub line: usize,
    pub dividend_var: String,
    pub divisor_var: String,
}

#[derive(Debug, Clone, PartialEq, Eq)]
pub struct BufferCopySite {
    pub raw: String,
    pub line: usize,
    pub kind: BufferCopyKind,
    pub var: String,
    pub elem_size: u64,
    pub elem_size_source: String,
}

#[derive(Debug, Clone, Copy, PartialEq, Eq, Structural)]
pub enum BufferCopyKind {
    Memcpy,
    Memset,
}

/// Outcome of analyzing one potential security site on a line.
#[derive(Debug, Clone, PartialEq, Eq)]
pub enum ExtractedSite {
    SymbolicMul(AllocationSite),
    SymbolicTwoVarMul(TwoVarMulSite),
    SymbolicShift(ShiftSite),
    SymbolicSub(SubtractionSite),
    SymbolicDiv(DivisionSite),
    SymbolicBufferCopy(BufferCopySite),
    Inconclusive { raw: String, line: usize, reason: String },
    PatternOnly { raw: String, line: usize },
}

// ---------------------------------------------------------------------------
// Models
// ---------------------------------------------------------------------------

pub struct AllocationSiteView {
    pub raw: Seq<char>,
    pub line: usize,
    pub kind: AllocKind,
    pub var: Seq<char>,
    pub elem_size: u64,
    pub elem_size_source: Seq<char>,
}

pub struct TwoVarMulSiteView {
    pub raw: Seq<char>,
    pub line: usize,
    pub kind: AllocKind,
    pub var_a: Seq<char>,
    pub var_b: Seq<char>,
}

pub struct ShiftSiteView {
    pub raw: Seq<char>,
    pub line: usize,
    pub kind: AllocKind,
    pub var: Seq<char>,
    pub shift: u32,
}

pub struct SubtractionSiteView {
    pub raw: Seq<char>,
    pub line: usize,
    pub var: Seq<char>,
    pub subtractor: u64,
    pub subtractor_source: Seq<char>,
}

pub struct DivisionSiteView {
    pub raw: Seq<char>,
    pub line: usize,
    pub dividend_var: Seq<char>,
    pub divisor_var: Seq<char>,
}

pub struct BufferCopySiteView {
    pub raw: Seq<char>,
    pub line: usize,
    pub kind: BufferCopyKind,
    pub var: Seq<char>,
    pub elem_size: u64,
    pub elem_size_source: Seq<char>,
}

pub enum ExtractedSiteView {
    SymbolicMul(AllocationSiteView),
    SymbolicTwoVarMul(TwoVarMulSiteView),
    SymbolicShift(ShiftSiteView),
    SymbolicSub(SubtractionSiteView),
    SymbolicDiv(DivisionSiteView),
    SymbolicBufferCopy(BufferCopySiteView),
    Inconclusive { raw: Seq<char>, line: usize, reason: Seq<char> },
    PatternOnly { raw: Seq<char>, line: usize },
}

impl View for AllocationSite {
    type V = AllocationSiteView;

    open spec fn view(&self) -> AllocationSiteView {
        AllocationSiteView {
            raw: self.raw@,
            line: self.line,
            kind: self.kind,
            var: self.var@,
            elem_size: self.elem_size,
            elem_size_source: self.elem_size_source@,
        }
    }
}

impl View for TwoVarMulSite {
    type V = TwoVarMulSiteView;

    open spec fn view(&self) -> TwoVarMulSiteView {
        TwoVarMulSiteView {
            raw: self.raw@,
            line: self.line,
            kind: self.kind,
            var_a: self.var_a@,
            var_b: self.var_b@,
        }
    }
}

impl View for ShiftSite {
    type V = ShiftSiteView;

    open spec fn view(&self) -> ShiftSiteView {
        ShiftSiteView {
            raw: self.raw@,
            line: self.line,
            kind: self.kind,
            var: self.var@,
            shift: self.shift,
        }
    }
}

impl View for SubtractionSite {
    type V = SubtractionSiteView;

    open spec fn view(&self) -> SubtractionSiteView {
        SubtractionSiteView {
            raw: self.raw@,
            line: self.line,
            var: self.var@,
            subtractor: self.subtractor,
            subtractor_source: self.subtractor_source@,
        }
    }
}

impl View for DivisionSite {
    type V = DivisionSiteView;

    open spec fn view(&self) -> DivisionSiteView {
        DivisionSiteView {
            raw: self.raw@,
            line: self.line,
            dividend_var: self.dividend_var@,
            divisor_var: self.divisor_var@,
        }
    }
}

impl View for BufferCopySite {
    type V = BufferCopySiteView;

    open spec fn view(&self) -> BufferCopySiteView {
        BufferCopySiteView {
            raw: self.raw@,
            line: self.line,
            kind: self.kind,
            var: self.var@,
            elem_size: self.elem_size,
            elem_size_source: self.elem_size_source@,
        }
    }
}

impl View for ExtractedSite {
    type V = ExtractedSiteView;

    open spec fn view(&self) -> ExtractedSiteView {
        match self {
            ExtractedSite::SymbolicMul(s) => ExtractedSiteView::SymbolicMul(s@),
            ExtractedSite::SymbolicTwoVarMul(s) => ExtractedSiteView::SymbolicTwoVarMul(s@),
            ExtractedSite::SymbolicShift(s) => ExtractedSiteView::SymbolicShift(s@),
            ExtractedSite::SymbolicSub(s) => ExtractedSiteView::SymbolicSub(s@),
            ExtractedSite::SymbolicDiv(s) => ExtractedSiteView::SymbolicDiv(s@),
            ExtractedSite::SymbolicBufferCopy(s) => ExtractedSiteView::SymbolicBufferCopy(s@),
            ExtractedSite::Inconclusive { raw, line, reason } => ExtractedSiteView::Inconclusive {
                raw: raw@,
                line: *line,
                reason: reason@,
            },
            ExtractedSite::PatternOnly { raw, line } => ExtractedSiteView::PatternOnly {
                raw: raw@,
                line: *line,
            },
        }
    }
}

pub open spec fn opt_site_view(o: Option<ExtractedSite>) -> Option<ExtractedSiteView> {
    match o {
        Some(s) => Some(s@),
        None => None,
    }
}

pub open spec fn sites_view(v: Seq<ExtractedSite>) -> Seq<ExtractedSiteView> {
    v.map_values(|s: ExtractedSite| s@)
}

/// The site, if any, as a sequence of zero or one element.
pub open spec fn opt_seq(o: Option<ExtractedSiteView>) -> Seq<ExtractedSiteView> {
    match o {
        Some(s) => seq![s],
        None => Seq::empty(),
    }
}

pub open spec fn literal_view(l: Option<(u64, String)>) -> Option<(u64, Seq<char>)> {
    match l {
        Some((n, s)) => Some((n, s@)),
        None => None,
    }
}

// ---------------------------------------------------------------------------
// Shared predicates
// ---------------------------------------------------------------------------

/// The line may contain a security-relevant construct.
pub open spec fn markers_present_seq(l: Seq<char>) -> bool {
    ||| contains_seq(l, "malloc("@)
    ||| contains_seq(l, "calloc("@)
    ||| contains_seq(l, "realloc("@)
    ||| contains_seq(l, "Vec::with_capacity("@)
    ||| contains_seq(l, "with_capacity("@)
    ||| contains_seq(l, "memcpy("@)
    ||| contains_seq(l, "memset("@)
    ||| contains_seq(l, "printf("@)
    ||| contains_seq(l, "sprintf("@)
    ||| contains_seq(l, "fprintf("@)
    ||| contains_seq(l, "format!("@)
    ||| contains_seq(l, "system("@)
    ||| contains_seq(l, "exec("@)
    ||| contains_seq(l, "popen("@)
    ||| contains_seq(l, "subprocess"@)
    ||| contains_seq(l, "pickle"@)
    ||| contains_seq(l, "yaml"@)
    ||| contains_seq(l, "unserialize"@)
    ||| contains_seq(l, "readObject"@)
    ||| contains_seq(l, "password"@)
    ||| contains_seq(l, "api_key"@)
    ||| contains_seq(l, "secret"@)
    ||| contains_seq(l, "open("@)
    ||| contains_seq(l, "Path::new"@)
    ||| l.contains('*')
    ||| contains_seq(l, " << "@)
    ||| contains_seq(l, " - "@)
    ||| contains_seq(l, " / "@)
    ||| contains_seq(l, "../"@)
}

/// Returns true when the line may contain any security-relevant construct.
pub fn security_markers_present(line: &str) -> (b: bool)
    ensures
        b == markers_present_seq(line@),
{
    str_contains(line, "malloc(") || str_contains(line, "calloc(") || str_contains(line, "realloc(")
        || str_contains(line, "Vec::with_capacity(") || str_contains(line, "with_capacity(")
        || str_contains(line, "memcpy(") || str_contains(line, "memset(") || str_contains(
        line,
        "printf(",
    ) || str_contains(line, "sprintf(") || str_contains(line, "fprintf(") || str_contains(
        line,
        "format!(",
    ) || str_contains(line, "system(") || str_contains(line, "exec(") || str_contains(
        line,
        "popen(",
    ) || str_contains(line, "subprocess") || str_contains(line, "pickle") || str_contains(
        line,
        "yaml",
    ) || str_contains(line, "unserialize") || str_contains(line, "readObject") || str_contains(
        line,
        "password",
    ) || str_contains(line, "api_key") || str_contains(line, "secret") || str_contains(
        line,
        "open(",
    ) || str_contains(line, "Path::new") || str_contains_char(line, '*') || str_contains(
        line,
        " << ",
    ) || str_contains(line, " - ") || str_contains(line, " / ") || str_contains(line, "../")
}

pub fn is_identifier(s: &str) -> (b: bool)
    ensures
        b == is_identifier_seq(s@),
{
    identifier(s)
}

/// Text that parses as a `u64` literal.
pub open spec fn is_constant_seq(s: Seq<char>) -> bool {
    parse_u64_seq(s) is Some
}

pub fn is_constant_identifier(s: &str) -> (b: bool)
    ensures
        b == is_constant_seq(s@),
{
    parse_u64(s).is_some()
}

/// Byte size of common C/Rust primitive type names (after trimming).
pub open spec fn resolve_sizeof_seq(ty_name: Seq<char>) -> Option<u64> {
    let t = trim_seq(ty_name);
    if t == "char"@ || t == "signed char"@ || t == "unsigned char"@ || t == "uint8_t"@ || t
        == "int8_t"@ || t == "i8"@ || t == "u8"@ {
        Some(1)
    } else if t == "short"@ || t == "unsigned short"@ || t == "int16_t"@ || t == "uint16_t"@ || t
        == "i16"@ || t == "u16"@ {
        Some(2)
    } else if t == "int"@ || t == "unsigned int"@ || t == "int32_t"@ || t == "uint32_t"@ || t
        == "float"@ || t == "i32"@ || t == "u32"@ || t == "f32"@ {
        Some(4)
    } else if t == "long"@ || t == "unsigned long"@ || t == "int64_t"@ || t == "uint64_t"@ || t
        == "double"@ || t == "long long"@ || t == "unsigned long long"@ || t == "i64"@ || t
        == "u64"@ || t == "f64"@ || t == "size_t"@ || t == "ssize_t"@ || t == "uintptr_t"@ || t
        == "intptr_t"@ {
        Some(8)
    } else {
        None
    }
}

/// Resolve `sizeof(TYPE)` to a byte size for common C/Rust primitive names.
pub fn resolve_sizeof(ty_name: &str) -> (r: Option<u64>)
    ensures
        r == resolve_sizeof_seq(ty_name@),
{
    let s = trim_str(ty_name);
    let t = s.as_str();
    if str_eq(t, "char") || str_eq(t, "signed char") || str_eq(t, "unsigned char") || str_eq(
        t,
        "uint8_t",
    ) || str_eq(t, "int8_t") || str_eq(t, "i8") || str_eq(t, "u8") {
        Some(1)
    } else if str_eq(t, "short") || str_eq(t, "unsigned short") || str_eq(t, "int16_t") || str_eq(
        t,
        "uint16_t",
    ) || str_eq(t, "i16") || str_eq(t, "u16") {
        Some(2)
    } else if str_eq(t, "int") || str_eq(t, "unsigned int") || str_eq(t, "int32_t") || str_eq(
        t,
        "uint32_t",
    ) || str_eq(t, "float") || str_eq(t, "i32") || str_eq(t, "u32") || str_eq(t, "f32") {
        Some(4)
    } else if str_eq(t, "long") || str_eq(t, "unsigned long") || str_eq(t, "int64_t") || str_eq(
        t,
        "uint64_t",
    ) || str_eq(t, "double") || str_eq(t, "long long") || str_eq(t, "unsigned long long")
        || str_eq(t, "i64") || str_eq(t, "u64") || str_eq(t, "f64") || str_eq(t, "size_t")
        || str_eq(t, "ssize_t") || str_eq(t, "uintptr_t") || str_eq(t, "intptr_t") {
        Some(8)
    } else {
        None
    }
}

/// `var * size` where the size comes from a literal or from `sizeof(type)`.
pub open spec fn var_times_size_seq(
    t: Seq<char>,
    line: usize,
    kind: AllocKind,
    var: Seq<char>,
    ty_name: Seq<char>,
    literal: Option<(u64, Seq<char>)>,
) -> Option<ExtractedSiteView> {
    if is_constant_seq(var) {
        None
    } else if !is_identifier_seq(var) {
        Some(
            ExtractedSiteView::Inconclusive {
                raw: t,
                line,
                reason: "non-identifier variable: "@ + var,
            },
        )
    } else {
        let pair: Option<(u64, Seq<char>)> = match literal {
            Some(p) => Some(p),
            None => match resolve_sizeof_seq(ty_name) {
                Some(n) => Some((n, "sizeof("@ + ty_name + ")"@)),
                None => None,
            },
        };
        match pair {
            None => None,
            Some((size, src)) => if size == 0 {
                Some(
                    ExtractedSiteView::Inconclusive {
                        raw: t,
                        line,
                        reason: "element size is zero"@,
                    },
                )
            } else {
                Some(
                    ExtractedSiteView::SymbolicMul(
                        AllocationSiteView {
                            raw: t,
                            line,
                            kind,
                            var,
                            elem_size: size,
                            elem_size_source: src,
                        },
                    ),
                )
            },
        }
    }
}

pub fn parse_var_times_size(
    trimmed: &str,
    line_no: usize,
    kind: AllocKind,
    var: &str,
    ty_name: &str,
    literal: Option<(u64, String)>,
) -> (r: Option<ExtractedSite>)
    ensures
        opt_site_view(r) == var_times_size_seq(
            trimmed@,
            line_no,
            kind,
            var@,
            ty_name@,
            literal_view(literal),
        ),
{
    if is_constant_identifier(var) {
        return None;
    }
    if !is_identifier(var) {
        return Some(
            ExtractedSite::Inconclusive {
                raw: owned(trimmed),
                line: line_no,
                reason: concat2("non-identifier variable: ", var),
            },
        );
    }
    let (elem_size, elem_size_source) = match literal {
        Some((size, src)) => (size, src),
        None => match resolve_sizeof(ty_name) {
            Some(n) => (n, concat3("sizeof(", ty_name, ")")),
            None => {
                return None;
            },
        },
    };
    if elem_size == 0 {
        return Some(
            ExtractedSite::Inconclusive {
                raw: owned(trimmed),
                line: line_no,
                reason: owned("element size is zero"),
            },
        );
    }
    Some(
        ExtractedSite::SymbolicMul(
            AllocationSite {
                raw: owned(trimmed),
                line: line_no,
                kind,
                var: owned(var),
                elem_size,
                elem_size_source,
            },
        ),
    )
}

pub const CONSTANT_ONLY_ALLOC: &'static str =
    r"(?:malloc|calloc|realloc)\s*\(\s*(\d+)\s*\*\s*(sizeof\s*\([^)]+\)|\d+)\s*\)";

pub const SIZEOF_ANY: &'static str = r"sizeof\s*\(\s*([^)]+)\s*\)";

/// The allocation multiplies two constants whose sizes are known.
pub open spec fn constant_only_allocation_seq(t: Seq<char>) -> bool {
    match regex_first_match(CONSTANT_ONLY_ALLOC@, t) {
        None => false,
        Some(g) => {
            let rhs = match group(g, 2) {
                Some(r) => r,
                None => Seq::empty(),
            };
            match strip_prefix_seq(rhs, "sizeof("@) {
                Some(a) => match strip_suffix_seq(a, ")"@) {
                    Some(b) => resolve_sizeof_seq(b) is Some,
                    None => is_constant_seq(rhs),
                },
                None => is_constant_seq(rhs),
            }
        },
    }
}

pub fn is_constant_only_allocation(trimmed: &str) -> (b: bool)
    ensures
        b == constant_only_allocation_seq(trimmed@),
{
    let g = match captures(CONSTANT_ONLY_ALLOC, trimmed) {
        Some(g) => g,
        None => {
            return false;
        },
    };
    let rhs = match get_group(&g, 2) {
        Some(r) => r,
        None => String::new(),
    };
    match strip_prefix_str(rhs.as_str(), "sizeof(") {
        Some(a) => match strip_suffix_str(a.as_str(), ")") {
            Some(b) => resolve_sizeof(b.as_str()).is_some(),
            None => is_constant_identifier(rhs.as_str()),
        },
        None => is_constant_identifier(rhs.as_str()),
    }
}

/// A `sizeof(T)` whose size is unknown makes the line inconclusive.
pub open spec fn unresolved_sizeof_seq(t: Seq<char>, line: usize) -> Option<ExtractedSiteView> {
    match regex_first_match(SIZEOF_ANY@, t) {
        None => None,
        Some(g) => match group(g, 1) {
            None => None,
            Some(ty) => if resolve_sizeof_seq(ty) is None {
                Some(
                    ExtractedSiteView::Inconclusive {
                        raw: t,
                        line,
                        reason: "cannot resolve sizeof("@ + ty + ")"@,
                    },
                )
            } else {
                None
            },
        },
    }
}

pub fn try_unresolved_sizeof(trimmed: &str, line_no: usize) -> (r: Option<ExtractedSite>)
    ensures
        opt_site_view(r) == unresolved_sizeof_seq(trimmed@, line_no),
{
    let g = captures(SIZEOF_ANY, trimmed)?;
    let ty = get_group(&g, 1)?;
    if resolve_sizeof(ty.as_str()).is_none() {
        return Some(
            ExtractedSite::Inconclusive {
                raw: owned(trimmed),
                line: line_no,
                reason: concat3("cannot resolve sizeof(", ty.as_str(), ")"),
            },
        );
    }
    None
}

/// The quick filter never hides a site: a line on which any of the four
/// extractors finds a site carries one of the markers.
pub proof fn law_markers_never_hide_a_site(line: Seq<char>, line_no: usize)
    requires
        extract_allocation_seq(line, line_no).len() > 0 || extract_subtraction_seq(line, line_no).len()
            > 0 || extract_division_seq(line, line_no).len() > 0 || extract_buffer_copy_seq(
            line,
            line_no,
        ).len() > 0,
    ensures
        markers_present_seq(line),
{
    let t = trim_seq(line);
    if extract_allocation_seq(line, line_no).len() > 0 {
        assert(looks_like_allocation_seq(t));
        if contains_seq(t, "malloc("@) {
            lemma_trim_contains(line, "malloc("@);
        } else if contains_seq(t, "calloc("@) {
            lemma_trim_contains(line, "calloc("@);
        } else if contains_seq(t, "realloc("@) {
            lemma_trim_contains(line, "realloc("@);
        } else if contains_seq(t, "Vec::with_capacity("@) {
            lemma_trim_contains(line, "Vec::with_capacity("@);
        } else {
            lemma_trim_contains(line, "with_capacity("@);
        }
    } else if extract_subtraction_seq(line, line_no).len() > 0 {
        lemma_trim_contains(line, " - "@);
    } else if extract_division_seq(line, line_no).len() > 0 {
        lemma_trim_contains(line, " / "@);
    } else {
        if contains_seq(t, "memcpy("@) {
            lemma_trim_contains(line, "memcpy("@);
        } else {
            lemma_trim_contains(line, "memset("@);
        }
    }
}

/// The one-byte types whose `sizeof` is a single byte.
pub open spec fn one_byte_type(t: Seq<char>) -> bool {
    ||| t == "char"@
    ||| t == "signed char"@
    ||| t == "unsigned char"@
    ||| t == "int8_t"@
    ||| t == "uint8_t"@
    ||| t == "i8"@
    ||| t == "u8"@
}

/// `sizeof` of a one-byte type resolves to a size of at least one byte by
/// which no 64-bit count wraps around: `malloc(n * sizeof(char))` can never
/// overflow, whatever `n` is.
pub proof fn law_one_byte_sizeof_never_wraps(ty: Seq<char>, n: u64)
    requires
        one_byte_type(trim_seq(ty)),
    ensures
        resolve_sizeof_seq(ty) matches Some(size) && size >= 1 && !mul_wraps(n, size),
{
    let t = trim_seq(ty);
    reveal_strlit("char");
    reveal_strlit("signed char");
    reveal_strlit("unsigned char");
    reveal_strlit("int8_t");
    reveal_strlit("uint8_t");
    reveal_strlit("i8");
    reveal_strlit("u8");
    assert(resolve_sizeof_seq(ty) == Some(1u64));
    assert(wrap64(n * 1) == n) by {
        assert(0 <= n < two64());
        vstd::arithmetic::div_mod::lemma_small_mod(n as nat, two64() as nat);
    }
}

/// `sizeof` of a type name given with its size, without surrounding white
/// space, resolves to that size.
#[verifier::rlimit(80)]
proof fn lemma_sizeof_of_name(t: Seq<char>, size: u64)
    requires
        (t == "char"@ && size == 1)
            || (t == "signed char"@ && size == 1)
            || (t == "unsigned char"@ && size == 1)
            || (t == "uint8_t"@ && size == 1)
            || (t == "int8_t"@ && size == 1)
            || (t == "i8"@ && size == 1)
            || (t == "u8"@ && size == 1)
            || (t == "short"@ && size == 2)
            || (t == "unsigned short"@ && size == 2)
            || (t == "int16_t"@ && size == 2)
            || (t == "uint16_t"@ && size == 2)
            || (t == "i16"@ && size == 2)
            || (t == "u16"@ && size == 2)
            || (t == "int"@ && size == 4)
            || (t == "unsigned int"@ && size == 4)
            || (t == "int32_t"@ && size == 4)
            || (t == "uint32_t"@ && size == 4)
            || (t == "float"@ && size == 4)
            || (t == "i32"@ && size == 4)
            || (t == "u32"@ && size == 4)
            || (t == "f32"@ && size == 4)
            || (t == "long"@ && size == 8)
            || (t == "unsigned long"@ && size == 8)
            || (t == "int64_t"@ && size == 8)
            || (t == "uint64_t"@ && size == 8)
            || (t == "double"@ && size == 8)
            || (t == "long long"@ && size == 8)
            || (t == "unsigned long long"@ && size == 8)
            || (t == "i64"@ && size == 8)
            || (t == "u64"@ && size == 8)
            || (t == "f64"@ && size == 8)
            || (t == "size_t"@ && size == 8)
            || (t == "ssize_t"@ && size == 8)
            || (t == "uintptr_t"@ && size == 8)
            || (t == "intptr_t"@ && size == 8),
    ensures
        resolve_sizeof_seq(t) == Some(size),
{
    reveal_strlit("char");
    reveal_strlit("signed char");
    reveal_strlit("unsigned char");
    reveal_strlit("uint8_t");
    reveal_strlit("int8_t");
    reveal_strlit("i8");
    reveal_strlit("u8");
    reveal_strlit("short");
    reveal_strlit("unsigned short");
    reveal_strlit("int16_t");
    reveal_strlit("uint16_t");
    reveal_strlit("i16");
    reveal_strlit("u16");
    reveal_strlit("int");
    reveal_strlit("unsigned int");
    reveal_strlit("int32_t");
    reveal_strlit("uint32_t");
    reveal_strlit("float");
    reveal_strlit("i32");
    reveal_strlit("u32");
    reveal_strlit("f32");
    reveal_strlit("long");
    reveal_strlit("unsigned long");
    reveal_strlit("int64_t");
    reveal_strlit("uint64_t");
    reveal_strlit("double");
    reveal_strlit("long long");
    reveal_strlit("unsigned long long");
    reveal_strlit("i64");
    reveal_strlit("u64");
    reveal_strlit("f64");
    reveal_strlit("size_t");
    reveal_strlit("ssize_t");
    reveal_strlit("uintptr_t");
    reveal_strlit("intptr_t");
    lemma_trim_of_plain(t);
    if t == "char"@ {
        assert(resolve_sizeof_seq(t) == Some(1u64));
    }
    if t == "signed char"@ {
        assert(resolve_sizeof_seq(t) == Some(1u64));
    }
    if t == "unsigned char"@ {
        assert(resolve_sizeof_seq(t) == Some(1u64));
    }
    if t == "uint8_t"@ {
        assert(resolve_sizeof_seq(t) == Some(1u64));
    }
    if t == "int8_t"@ {
        assert(resolve_sizeof_seq(t) == Some(1u64));
    }
    if t == "i8"@ {
        assert(resolve_sizeof_seq(t) == Some(1u64));
    }
    if t == "u8"@ {
        assert(t[0] != "i8"@[0]);
        assert(resolve_sizeof_seq(t) == Some(1u64));
    }
    if t == "short"@ {
        assert(resolve_sizeof_seq(t) == Some(2u64));
    }
    if t == "unsigned short"@ {
        assert(resolve_sizeof_seq(t) == Some(2u64));
    }
    if t == "int16_t"@ {
        assert(t[0] != "uint8_t"@[0]);
        assert(resolve_sizeof_seq(t) == Some(2u64));
    }
    if t == "uint16_t"@ {
        assert(resolve_sizeof_seq(t) == Some(2u64));
    }
    if t == "i16"@ {
        assert(resolve_sizeof_seq(t) == Some(2u64));
    }
    if t == "u16"@ {
        assert(t[0] != "i16"@[0]);
        assert(resolve_sizeof_seq(t) == Some(2u64));
    }
    if t == "int"@ {
        assert(t[1] != "i16"@[1]);
        assert(t[0] != "u16"@[0]);
        assert(resolve_sizeof_seq(t) == Some(4u64));
    }
    if t == "unsigned int"@ {
        assert(resolve_sizeof_seq(t) == Some(4u64));
    }
    if t == "int32_t"@ {
        assert(t[0] != "uint8_t"@[0]);
        assert(t[3] != "int16_t"@[3]);
        assert(resolve_sizeof_seq(t) == Some(4u64));
    }
    if t == "uint32_t"@ {
        assert(t[4] != "uint16_t"@[4]);
        assert(resolve_sizeof_seq(t) == Some(4u64));
    }
    if t == "float"@ {
        assert(t[0] != "short"@[0]);
        assert(resolve_sizeof_seq(t) == Some(4u64));
    }
    if t == "i32"@ {
        assert(t[1] != "i16"@[1]);
        assert(t[0] != "u16"@[0]);
        assert(t[1] != "int"@[1]);
        assert(resolve_sizeof_seq(t) == Some(4u64));
    }
    if t == "u32"@ {
        assert(t[0] != "i16"@[0]);
        assert(t[1] != "u16"@[1]);
        assert(t[0] != "int"@[0]);
        assert(t[0] != "i32"@[0]);
        assert(resolve_sizeof_seq(t) == Some(4u64));
    }
    if t == "f32"@ {
        assert(t[0] != "i16"@[0]);
        assert(t[0] != "u16"@[0]);
        assert(t[0] != "int"@[0]);
        assert(t[0] != "i32"@[0]);
        assert(t[0] != "u32"@[0]);
        assert(resolve_sizeof_seq(t) == Some(4u64));
    }
    if t == "long"@ {
        assert(t[0] != "char"@[0]);
        assert(resolve_sizeof_seq(t) == Some(8u64));
    }
    if t == "unsigned long"@ {
        assert(t[9] != "unsigned char"@[9]);
        assert(resolve_sizeof_seq(t) == Some(8u64));
    }
    if t == "int64_t"@ {
        assert(t[0] != "uint8_t"@[0]);
        assert(t[3] != "int16_t"@[3]);
        assert(t[3] != "int32_t"@[3]);
        assert(resolve_sizeof_seq(t) == Some(8u64));
    }
    if t == "uint64_t"@ {
        assert(t[4] != "uint16_t"@[4]);
        assert(t[4] != "uint32_t"@[4]);
        assert(resolve_sizeof_seq(t) == Some(8u64));
    }
    if t == "double"@ {
        assert(t[0] != "int8_t"@[0]);
        assert(resolve_sizeof_seq(t) == Some(8u64));
    }
    if t == "long long"@ {
        assert(resolve_sizeof_seq(t) == Some(8u64));
    }
    if t == "unsigned long long"@ {
        assert(resolve_sizeof_seq(t) == Some(8u64));
    }
    if t == "i64"@ {
        assert(t[1] != "i16"@[1]);
        assert(t[0] != "u16"@[0]);
        assert(t[1] != "int"@[1]);
        assert(t[1] != "i32"@[1]);
        assert(t[0] != "u32"@[0]);
        assert(t[0] != "f32"@[0]);
        assert(resolve_sizeof_seq(t) == Some(8u64));
    }
    if t == "u64"@ {
        assert(t[0] != "i16"@[0]);
        assert(t[1] != "u16"@[1]);
        assert(t[0] != "int"@[0]);
        assert(t[0] != "i32"@[0]);
        assert(t[1] != "u32"@[1]);
        assert(t[0] != "f32"@[0]);
        assert(t[0] != "i64"@[0]);
        assert(resolve_sizeof_seq(t) == Some(8u64));
    }
    if t == "f64"@ {
        assert(t[0] != "i16"@[0]);
        assert(t[0] != "u16"@[0]);
        assert(t[0] != "int"@[0]);
        assert(t[0] != "i32"@[0]);
        assert(t[0] != "u32"@[0]);
        assert(t[1] != "f32"@[1]);
        assert(t[0] != "i64"@[0]);
        assert(t[0] != "u64"@[0]);
        assert(resolve_sizeof_seq(t) == Some(8u64));
    }
    if t == "size_t"@ {
        assert(t[0] != "int8_t"@[0]);
        assert(t[0] != "double"@[0]);
        assert(resolve_sizeof_seq(t) == Some(8u64));
    }
    if t == "ssize_t"@ {
        assert(t[0] != "uint8_t"@[0]);
        assert(t[0] != "int16_t"@[0]);
        assert(t[0] != "int32_t"@[0]);
        assert(t[0] != "int64_t"@[0]);
        assert(resolve_sizeof_seq(t) == Some(8u64));
    }
    if t == "uintptr_t"@ {
        assert(t[0] != "long long"@[0]);
        assert(resolve_sizeof_seq(t) == Some(8u64));
    }
    if t == "intptr_t"@ {
        assert(t[0] != "uint16_t"@[0]);
        assert(t[0] != "uint32_t"@[0]);
        assert(t[0] != "uint64_t"@[0]);
        assert(resolve_sizeof_seq(t) == Some(8u64));
    }
}

/// `sizeof` of a fixed-width integer type named by its width in bits
/// (`int<N>_t`, `uint<N>_t`, `i<N>`, `u<N>`) is that width in bytes.
pub proof fn law_fixed_width_sizeof(bits: u64)
    requires
        bits == 8 || bits == 16 || bits == 32 || bits == 64,
    ensures
        resolve_sizeof_seq("int"@ + decimal_seq(bits as nat) + "_t"@) == Some(bits / 8),
        resolve_sizeof_seq("uint"@ + decimal_seq(bits as nat) + "_t"@) == Some(bits / 8),
        resolve_sizeof_seq("i"@ + decimal_seq(bits as nat)) == Some(bits / 8),
        resolve_sizeof_seq("u"@ + decimal_seq(bits as nat)) == Some(bits / 8),
{
    reveal_strlit("int");
    reveal_strlit("uint");
    reveal_strlit("_t");
    reveal_strlit("i");
    reveal_strlit("u");
    let d = decimal_seq(bits as nat);
    let n1 = "int"@ + d + "_t"@;
    let n2 = "uint"@ + d + "_t"@;
    let n3 = "i"@ + d;
    let n4 = "u"@ + d;
    if bits == 8 {
        assert(d =~= seq!['8']);
        reveal_strlit("int8_t");
        reveal_strlit("uint8_t");
        reveal_strlit("i8");
        reveal_strlit("u8");
        assert(n1 =~= "int8_t"@);
        assert(n2 =~= "uint8_t"@);
        assert(n3 =~= "i8"@);
        assert(n4 =~= "u8"@);
    } else if bits == 16 {
        assert(decimal_seq(1) =~= seq!['1']);
        assert(d =~= seq!['1', '6']);
        reveal_strlit("int16_t");
        reveal_strlit("uint16_t");
        reveal_strlit("i16");
        reveal_strlit("u16");
        assert(n1 =~= "int16_t"@);
        assert(n2 =~= "uint16_t"@);
        assert(n3 =~= "i16"@);
        assert(n4 =~= "u16"@);
    } else if bits == 32 {
        assert(decimal_seq(3) =~= seq!['3']);
        assert(d =~= seq!['3', '2']);
        reveal_strlit("int32_t");
        reveal_strlit("uint32_t");
        reveal_strlit("i32");
        reveal_strlit("u32");
        assert(n1 =~= "int32_t"@);
        assert(n2 =~= "uint32_t"@);
        assert(n3 =~= "i32"@);
        assert(n4 =~= "u32"@);
    } else {
        assert(decimal_seq(6) =~= seq!['6']);
        assert(d =~= seq!['6', '4']);
        reveal_strlit("int64_t");
        reveal_strlit("uint64_t");
        reveal_strlit("i64");
        reveal_strlit("u64");
        assert(n1 =~= "int64_t"@);
        assert(n2 =~= "uint64_t"@);
        assert(n3 =~= "i64"@);
        assert(n4 =~= "u64"@);
    }
    lemma_sizeof_of_name(n1, bits / 8);
    lemma_sizeof_of_name(n2, bits / 8);
    lemma_sizeof_of_name(n3, bits / 8);
    lemma_sizeof_of_name(n4, bits / 8);
}


/// The scalar type sizes of the LP64 data model (64-bit Unix and Rust):
/// `char` 1, `short` 2, `int` and `float` 4, `long`, `long long`, `double`,
/// pointer-sized and `size_t` types 8.
pub proof fn law_lp64_sizes()
    ensures
        resolve_sizeof_seq("char"@) == Some(1u64),
        resolve_sizeof_seq("short"@) == Some(2u64),
        resolve_sizeof_seq("int"@) == Some(4u64),
        resolve_sizeof_seq("long"@) == Some(8u64),
        resolve_sizeof_seq("long long"@) == Some(8u64),
        resolve_sizeof_seq("float"@) == Some(4u64),
        resolve_sizeof_seq("double"@) == Some(8u64),
        resolve_sizeof_seq("size_t"@) == Some(8u64),
        resolve_sizeof_seq("ssize_t"@) == Some(8u64),
        resolve_sizeof_seq("uintptr_t"@) == Some(8u64),
        resolve_sizeof_seq("intptr_t"@) == Some(8u64),
        resolve_sizeof_seq("f32"@) == Some(4u64),
        resolve_sizeof_seq("f64"@) == Some(8u64),
{
    reveal_strlit("char");
    lemma_sizeof_of_name("char"@, 1);
    reveal_strlit("short");
    lemma_sizeof_of_name("short"@, 2);
    reveal_strlit("int");
    lemma_sizeof_of_name("int"@, 4);
    reveal_strlit("long");
    lemma_sizeof_of_name("long"@, 8);
    reveal_strlit("long long");
    lemma_sizeof_of_name("long long"@, 8);
    reveal_strlit("float");
    lemma_sizeof_of_name("float"@, 4);
    reveal_strlit("double");
    lemma_sizeof_of_name("double"@, 8);
    reveal_strlit("size_t");
    lemma_sizeof_of_name("size_t"@, 8);
    reveal_strlit("ssize_t");
    lemma_sizeof_of_name("ssize_t"@, 8);
    reveal_strlit("uintptr_t");
    lemma_sizeof_of_name("uintptr_t"@, 8);
    reveal_strlit("intptr_t");
    lemma_sizeof_of_name("intptr_t"@, 8);
    reveal_strlit("f32");
    lemma_sizeof_of_name("f32"@, 4);
    reveal_strlit("f64");
    lemma_sizeof_of_name("f64"@, 8);
}

/// Signedness does not change a C integer type's size: `unsigned T` has the
/// size of `T`.
pub proof fn law_unsigned_same_size()
    ensures
        resolve_sizeof_seq("unsigned "@ + "char"@) == resolve_sizeof_seq("char"@),
        resolve_sizeof_seq("unsigned "@ + "short"@) == resolve_sizeof_seq("short"@),
        resolve_sizeof_seq("unsigned "@ + "int"@) == resolve_sizeof_seq("int"@),
        resolve_sizeof_seq("unsigned "@ + "long"@) == resolve_sizeof_seq("long"@),
        resolve_sizeof_seq("unsigned "@ + "long long"@) == resolve_sizeof_seq("long long"@),
{
    reveal_strlit("unsigned ");
    reveal_strlit("char");
    reveal_strlit("unsigned char");
    assert("unsigned "@ + "char"@ =~= "unsigned char"@);
    lemma_sizeof_of_name("unsigned char"@, 1);
    lemma_sizeof_of_name("char"@, 1);
    reveal_strlit("short");
    reveal_strlit("unsigned short");
    assert("unsigned "@ + "short"@ =~= "unsigned short"@);
    lemma_sizeof_of_name("unsigned short"@, 2);
    lemma_sizeof_of_name("short"@, 2);
    reveal_strlit("int");
    reveal_strlit("unsigned int");
    assert("unsigned "@ + "int"@ =~= "unsigned int"@);
    lemma_sizeof_of_name("unsigned int"@, 4);
    lemma_sizeof_of_name("int"@, 4);
    reveal_strlit("long");
    reveal_strlit("unsigned long");
    assert("unsigned "@ + "long"@ =~= "unsigned long"@);
    lemma_sizeof_of_name("unsigned long"@, 8);
    lemma_sizeof_of_name("long"@, 8);
    reveal_strlit("long long");
    reveal_strlit("unsigned long long");
    assert("unsigned "@ + "long long"@ =~= "unsigned long long"@);
    lemma_sizeof_of_name("unsigned long long"@, 8);
    lemma_sizeof_of_name("long long"@, 8);
}

} // verus!
