//! Search over the repository index: tokenization, documents and result kinds.

pub mod bm25;
pub mod tokenize;

use vstd::prelude::*;

verus! {

/// What a query result points at.
#[derive(Debug, Clone, Copy, PartialEq, Eq, Structural)]
pub enum MatchKind {
    Package,
    File,
    Symbol,
    HotSymbol,
}

} // verus!
