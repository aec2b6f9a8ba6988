//! Records of the repository index: packages, files, symbols and locations.

use vstd::prelude::*;

verus! {

#[derive(Debug, Clone)]
pub struct PackageDetail {
    pub name: String,
    pub files: Vec<FileEntry>,
}

#[derive(Debug, Clone)]
pub struct FileEntry {
    pub path: String,
    pub symbols: Vec<SymbolEntry>,
    pub depends_on: Vec<String>,
    pub depended_by: Vec<String>,
}

#[derive(Debug, Clone)]
pub struct SymbolEntry {
    pub name: String,
    pub signature: String,
    pub kind: SymbolKind,
    pub line: u32,
}

#[derive(Debug, Clone, Copy, PartialEq, Eq, Structural)]
pub enum SymbolKind {
    Function,
    Struct,
    Enum,
    Trait,
    Module,
    Variable,
    Other,
}

#[derive(Debug, Clone)]
pub struct ReferenceLocation {
    pub file: String,
    pub line: u32,
    pub context: String,
}

#[derive(Debug, Clone)]
pub struct DefinitionLocation {
    pub file: String,
    pub line: u32,
    pub signature: String,
}

} // verus!
