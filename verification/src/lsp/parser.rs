//! Index records from language-server responses.
//!
//! A response is read into the plain records below (the fields the index
//! uses, each absent when the server left it out or gave another JSON type);
//! the functions here turn them into index entries.

use crate::lsp::client::{file_uri_seq, lemma_escape_plain, needs_no_escape};
use crate::text::{owned, starts_with_seq, trim_start_matches_seq, trim_start_matches_str};
use crate::types::{ReferenceLocation, SymbolEntry, SymbolKind};
use vstd::prelude::*;

verus! {

/// One symbol of a `textDocument/documentSymbol` response.
#[derive(Debug, Clone)]
pub struct RawSymbol {
    pub name: Option<String>,
    pub kind: Option<u64>,
    /// `range.start.line`.
    pub start_line: Option<u64>,
    pub detail: Option<String>,
}

/// One location of a references or definition response.
#[derive(Debug, Clone)]
pub struct RawLocation {
    pub uri: Option<String>,
    /// `range.start.line`.
    pub start_line: Option<u64>,
}

/// A definition response: a list of locations or a single one.
#[derive(Debug, Clone)]
pub enum RawDefinition {
    List(Vec<RawLocation>),
    Single(RawLocation),
}

pub open spec fn symbol_kind_of(kind: u64) -> SymbolKind {
    if kind == 12 {
        SymbolKind::Function
    } else if kind == 5 {
        SymbolKind::Struct
    } else if kind == 10 {
        SymbolKind::Enum
    } else if kind == 11 {
        SymbolKind::Trait
    } else if kind == 2 || kind == 3 {
        SymbolKind::Module
    } else if kind == 13 || kind == 14 {
        SymbolKind::Variable
    } else {
        SymbolKind::Other
    }
}

/// The index's kind for an LSP `SymbolKind` number.
pub fn lsp_kind_to_symbol_kind(kind: u64) -> (r: SymbolKind)
    ensures
        r == symbol_kind_of(kind),
{
    match kind {
        12 => SymbolKind::Function,
        5 => SymbolKind::Struct,
        10 => SymbolKind::Enum,
        11 => SymbolKind::Trait,
        2 | 3 => SymbolKind::Module,
        13 | 14 => SymbolKind::Variable,
        _ => SymbolKind::Other,
    }
}

/// The index kinds follow the LSP `SymbolKind` numbers: Module 2 and
/// Namespace 3 are modules, Class 5 a struct, Enum 10 an enum, Interface 11 a
/// trait, Function 12 a function, Variable 13 and Constant 14 variables, and
/// every other number is some other kind.
pub proof fn law_lsp_symbol_kinds(kind: u64)
    ensures
        (symbol_kind_of(kind) == SymbolKind::Module) <==> (kind == 2 || kind == 3),
        (symbol_kind_of(kind) == SymbolKind::Struct) <==> kind == 5,
        (symbol_kind_of(kind) == SymbolKind::Enum) <==> kind == 10,
        (symbol_kind_of(kind) == SymbolKind::Trait) <==> kind == 11,
        (symbol_kind_of(kind) == SymbolKind::Function) <==> kind == 12,
        (symbol_kind_of(kind) == SymbolKind::Variable) <==> (kind == 13 || kind == 14),
        (symbol_kind_of(kind) == SymbolKind::Other) <==> !(kind == 2 || kind == 3 || kind == 5
            || kind == 10 || kind == 11 || kind == 12 || kind == 13 || kind == 14),
{
}

/// A named symbol's entry carries the index kind of its LSP kind number, a
/// missing number counting as none of the known ones: an LSP enum (10) is
/// indexed as an enum and an interface (11) as a trait.
pub proof fn law_symbol_entry_kind(s: RawSymbol)
    requires
        s.name is Some,
    ensures
        symbol_entry(s) matches Some(e) && (s.kind == Some(10u64) ==> e.2 == SymbolKind::Enum) && (
        s.kind == Some(11u64) ==> e.2 == SymbolKind::Trait) && (s.kind is None ==> e.2
            == SymbolKind::Other) && (s.kind matches Some(k) ==> e.2 == symbol_kind_of(k)),
{
}

/// A line number as the index stores it: missing is 0, and only the low 32 bits are kept.
pub open spec fn line_of(l: Option<u64>) -> u32 {
    match l {
        Some(n) => n as u32,
        None => 0,
    }
}

/// The entry of one symbol; none when it has no name.
pub open spec fn symbol_entry(s: RawSymbol) -> Option<(Seq<char>, Seq<char>, SymbolKind, u32)> {
    match s.name {
        None => None,
        Some(name) => {
            let kind = symbol_kind_of(
                match s.kind {
                    Some(k) => k,
                    None => 0,
                },
            );
            let signature = match s.detail {
                Some(d) => d@,
                None => name@,
            };
            Some((name@, signature, kind, line_of(s.start_line)))
        },
    }
}

pub open spec fn entry_view(e: SymbolEntry) -> (Seq<char>, Seq<char>, SymbolKind, u32) {
    (e.name@, e.signature@, e.kind, e.line)
}

/// The entries of the named symbols, in order.
pub open spec fn symbols_seq(items: Seq<RawSymbol>) -> Seq<(Seq<char>, Seq<char>, SymbolKind, u32)>
    decreases items.len(),
{
    if items.len() == 0 {
        Seq::empty()
    } else {
        let prev = symbols_seq(items.drop_last());
        match symbol_entry(items.last()) {
            Some(e) => prev.push(e),
            None => prev,
        }
    }
}

fn copy_opt(o: &Option<String>) -> (r: Option<String>)
    ensures
        r.deep_view() == o.deep_view(),
{
    match o {
        Some(s) => Some(s.clone()),
        None => None,
    }
}

/// Index entries of the symbols of a document-symbol response.
pub fn parse_document_symbols(items: &Vec<RawSymbol>) -> (r: Vec<SymbolEntry>)
    ensures
        r@.map_values(|e: SymbolEntry| entry_view(e)) == symbols_seq(items@),
{
    let mut out: Vec<SymbolEntry> = Vec::new();
    let mut i: usize = 0;
    while i < items.len()
        invariant
            i <= items@.len(),
            out@.map_values(|e: SymbolEntry| entry_view(e)) == symbols_seq(items@.take(i as int)),
        decreases items.len() - i,
    {
        let s = &items[i];
        assert(items@.take(i + 1).drop_last() =~= items@.take(i as int));
        assert(items@.take(i + 1).last() == *s);
        let ghost before = out@.map_values(|e: SymbolEntry| entry_view(e));
        match &s.name {
            Some(name) => {
                let kind = lsp_kind_to_symbol_kind(
                    match s.kind {
                        Some(k) => k,
                        None => 0,
                    },
                );
                let signature = match &s.detail {
                    Some(d) => d.clone(),
                    None => name.clone(),
                };
                let line: u32 = match s.start_line {
                    Some(n) => n as u32,
                    None => 0,
                };
                let e = SymbolEntry { name: name.clone(), signature, kind, line };
                out.push(e);
                assert(out@.map_values(|e: SymbolEntry| entry_view(e)) =~= before.push(entry_view(e)));
            },
            None => {},
        }
        i += 1;
    }
    assert(items@.take(i as int) =~= items@);
    out
}

/// A file path from a `file://` URI: every leading `file://` removed.
pub open spec fn uri_path_seq(uri: Seq<char>) -> Seq<char> {
    trim_start_matches_seq(uri, "file://"@)
}

pub fn uri_to_path(uri: &str) -> (r: String)
    ensures
        r@ == uri_path_seq(uri@),
{
    trim_start_matches_str(uri, "file://")
}

pub open spec fn location_entry(l: RawLocation) -> Option<(Seq<char>, u32)> {
    match l.uri {
        Some(u) => Some((uri_path_seq(u@), line_of(l.start_line))),
        None => None,
    }
}

pub open spec fn locations_seq(items: Seq<RawLocation>) -> Seq<(Seq<char>, u32)>
    decreases items.len(),
{
    if items.len() == 0 {
        Seq::empty()
    } else {
        let prev = locations_seq(items.drop_last());
        match location_entry(items.last()) {
            Some(e) => prev.push(e),
            None => prev,
        }
    }
}

/// Reference locations of a references response (the context is left empty).
pub fn parse_references(items: &Vec<RawLocation>) -> (r: Vec<ReferenceLocation>)
    ensures
        r@.map_values(|x: ReferenceLocation| (x.file@, x.line)) == locations_seq(items@),
        forall|k: int| 0 <= k < r@.len() ==> (#[trigger] r@[k]).context@.len() == 0,
{
    let mut out: Vec<ReferenceLocation> = Vec::new();
    let mut i: usize = 0;
    while i < items.len()
        invariant
            i <= items@.len(),
            out@.map_values(|x: ReferenceLocation| (x.file@, x.line)) == locations_seq(items@.take(i as int)),
            forall|k: int| 0 <= k < out@.len() ==> (#[trigger] out@[k]).context@.len() == 0,
        decreases items.len() - i,
    {
        let l = &items[i];
        assert(items@.take(i + 1).drop_last() =~= items@.take(i as int));
        assert(items@.take(i + 1).last() == *l);
        let ghost before = out@.map_values(|x: ReferenceLocation| (x.file@, x.line));
        if let Some(u) = &l.uri {
            let line: u32 = match l.start_line {
                Some(n) => n as u32,
                None => 0,
            };
            let r = ReferenceLocation { file: uri_to_path(u.as_str()), line, context: String::new() };
            out.push(r);
            assert(out@.map_values(|x: ReferenceLocation| (x.file@, x.line)) =~= before.push((r.file@, r.line)));
        }
        i += 1;
    }
    assert(items@.take(i as int) =~= items@);
    out
}

/// The first location of a definition response.
pub open spec fn definition_seq(d: RawDefinition) -> Option<(Seq<char>, u32)> {
    match d {
        RawDefinition::List(v) => if v@.len() > 0 {
            location_entry(v@[0])
        } else {
            None
        },
        RawDefinition::Single(l) => location_entry(l),
    }
}

/// File and line of a definition response.
pub fn parse_definition(d: &RawDefinition) -> (r: Option<(String, u32)>)
    ensures
        match r {
            Some((f, l)) => definition_seq(*d) == Some((f@, l)),
            None => definition_seq(*d) is None,
        },
{
    let loc = match d {
        RawDefinition::List(v) => {
            if v.len() == 0 {
                return None;
            }
            &v[0]
        },
        RawDefinition::Single(l) => l,
    };
    match &loc.uri {
        Some(u) => {
            let line: u32 = match loc.start_line {
                Some(n) => n as u32,
                None => 0,
            };
            Some((uri_to_path(u.as_str()), line))
        },
        None => None,
    }
}

/// Reading back the `file://` URI of a path gives the path, for a path with no
/// space or `#` (which the URI escapes and the reading does not decode) that
/// does not itself start with `file://`.
pub proof fn law_uri_round_trip(p: Seq<char>)
    requires
        needs_no_escape(p),
        !starts_with_seq(p, "file://"@),
    ensures
        uri_path_seq(file_uri_seq(p)) == p,
{
    lemma_escape_plain(p);
    reveal_strlit("file://");
    let u = "file://"@ + p;
    assert(u.take(7) =~= "file://"@);
    assert(u.skip(7) =~= p);
    assert(trim_start_matches_seq(p, "file://"@) == p);
}

} // verus!
