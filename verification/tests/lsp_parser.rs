use codebeacon::lsp::parser::{
    lsp_kind_to_symbol_kind, parse_definition, parse_document_symbols, parse_references,
    uri_to_path, RawDefinition, RawLocation, RawSymbol,
};
use codebeacon::types::SymbolKind;

#[test]
fn parses_function_symbol() {
    let raw = vec![RawSymbol {
        name: Some("login".into()),
        kind: Some(12),
        start_line: Some(5),
        detail: Some("fn login(email: &str, password: &str) -> Result<Token>".into()),
    }];
    let symbols = parse_document_symbols(&raw);
    assert_eq!(symbols.len(), 1);
    assert_eq!(symbols[0].name, "login");
    assert_eq!(symbols[0].kind, SymbolKind::Function);
    assert_eq!(symbols[0].line, 5);
    assert_eq!(symbols[0].signature, "fn login(email: &str, password: &str) -> Result<Token>");
}

#[test]
fn parses_reference_location() {
    let raw = vec![RawLocation { uri: Some("file:///repo/src/api.rs".into()), start_line: Some(42) }];
    let refs = parse_references(&raw);
    assert_eq!(refs.len(), 1);
    assert_eq!(refs[0].line, 42);
    assert!(refs[0].file.contains("api.rs"));
    assert_eq!(refs[0].file, "/repo/src/api.rs");
    assert!(refs[0].context.is_empty());
}

#[test]
fn unknown_symbol_kind_maps_to_other() {
    let raw = vec![RawSymbol { name: Some("MY_CONST".into()), kind: Some(14), start_line: Some(0), detail: None }];
    let symbols = parse_document_symbols(&raw);
    assert_eq!(symbols[0].kind, SymbolKind::Variable);
    assert_eq!(symbols[0].signature, "MY_CONST");
    assert_eq!(lsp_kind_to_symbol_kind(99), SymbolKind::Other);
    assert_eq!(lsp_kind_to_symbol_kind(3), SymbolKind::Module);
}

#[test]
fn unnamed_symbols_and_uriless_locations_are_skipped() {
    let raw = vec![
        RawSymbol { name: None, kind: Some(12), start_line: Some(1), detail: None },
        RawSymbol { name: Some("x".into()), kind: None, start_line: None, detail: None },
    ];
    let symbols = parse_document_symbols(&raw);
    assert_eq!(symbols.len(), 1);
    assert_eq!(symbols[0].kind, SymbolKind::Other);
    assert_eq!(symbols[0].line, 0);
    let refs = parse_references(&vec![RawLocation { uri: None, start_line: Some(3) }]);
    assert!(refs.is_empty());
}

#[test]
fn definition_first_location() {
    let list = RawDefinition::List(vec![
        RawLocation { uri: Some("file:///a.rs".into()), start_line: Some(7) },
        RawLocation { uri: Some("file:///b.rs".into()), start_line: Some(9) },
    ]);
    assert_eq!(parse_definition(&list), Some(("/a.rs".to_string(), 7)));
    assert_eq!(parse_definition(&RawDefinition::List(vec![])), None);
    let single = RawDefinition::Single(RawLocation { uri: Some("file://file:///c.rs".into()), start_line: Some((1u64 << 32) + 4) });
    assert_eq!(parse_definition(&single), Some(("/c.rs".to_string(), 4)));
    assert_eq!(uri_to_path("/plain"), "/plain");
}

#[test]
fn language_is_available_when_binary_exists() {
    let avail = codebeacon::lsp::pool::is_binary_available("echo");
    assert!(avail);
}

#[test]
fn language_not_available_for_missing_binary() {
    let avail = codebeacon::lsp::pool::is_binary_available("__binary_that_does_not_exist_lcp__");
    assert!(!avail);
}
