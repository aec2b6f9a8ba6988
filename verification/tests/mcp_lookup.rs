use codebeacon::mcp::lookup::{index_lookup, lookup_answer, LookupKind};
use codebeacon::types::{FileEntry, PackageDetail, SymbolEntry, SymbolKind};

fn sym(name: &str, line: u32, sig: &str) -> SymbolEntry {
    SymbolEntry { name: name.into(), signature: sig.into(), kind: SymbolKind::Function, line }
}

fn file(path: &str, symbols: Vec<SymbolEntry>) -> FileEntry {
    FileEntry { path: path.into(), symbols, depends_on: vec![], depended_by: vec![] }
}

fn packages() -> Vec<PackageDetail> {
    vec![
        PackageDetail {
            name: "api".into(),
            files: vec![file("src/api.rs", vec![sym("validate", 3, "fn validate()"), sym("serve", 9, "fn serve()")])],
        },
        PackageDetail {
            name: "auth".into(),
            files: vec![file("src/auth.rs", vec![sym("login", 10, "fn login()"), sym("validate", 20, "fn validate(t: &str)")])],
        },
    ]
}

#[test]
fn definition_lookup_lists_exact_matches_in_package_order() {
    let found = index_lookup(LookupKind::Definition, "validate", "", &packages());
    assert_eq!(
        found,
        vec!["src/api.rs:3 — fn validate()", "src/auth.rs:20 — fn validate(t: &str)"]
    );
    let prefixed = index_lookup(LookupKind::Definition, "login", "app/", &packages());
    assert_eq!(prefixed, vec!["app/src/auth.rs:10 — fn login()"]);
    assert!(index_lookup(LookupKind::Definition, "valid", "", &packages()).is_empty());
}

#[test]
fn reference_fallback_matches_substrings() {
    let found = index_lookup(LookupKind::ReferenceFallback, "log", "", &packages());
    assert_eq!(found, vec!["src/auth.rs:10 — fn login() [index fallback]"]);
    assert_eq!(index_lookup(LookupKind::ReferenceFallback, "valid", "", &packages()).len(), 2);
}

#[test]
fn lookup_answers() {
    assert_eq!(lookup_answer(LookupKind::Definition, "nope", &vec![]), "Definition of 'nope' not found");
    assert_eq!(lookup_answer(LookupKind::ReferenceFallback, "nope", &vec![]), "No references found for 'nope'");
    assert_eq!(
        lookup_answer(LookupKind::Definition, "x", &vec!["a:1 — f".into(), "b:2 — g".into()]),
        "a:1 — f\nb:2 — g"
    );
}

#[test]
fn repo_prefix_is_taken_only_for_known_repositories() {
    let repos: Vec<String> = vec!["api".into(), "web".into()];
    assert_eq!(
        codebeacon::mcp::lookup::split_repo_hint("api/src/auth.rs", &repos, None),
        (Some("api".to_string()), "src/auth.rs".to_string())
    );
    assert_eq!(
        codebeacon::mcp::lookup::split_repo_hint("src/auth.rs", &repos, Some("web")),
        (Some("web".to_string()), "src/auth.rs".to_string())
    );
    assert_eq!(
        codebeacon::mcp::lookup::split_repo_hint("main.rs", &repos, None),
        (None, "main.rs".to_string())
    );
}

#[test]
fn repositories_for_a_request_and_for_a_write() {
    let names: Vec<String> = vec!["api".into(), "web".into(), "api".into()];
    assert_eq!(codebeacon::mcp::lookup::repos_for(&names, None), vec![0, 1, 2]);
    assert_eq!(codebeacon::mcp::lookup::repos_for(&names, Some("api")), vec![0, 2]);
    assert_eq!(codebeacon::mcp::lookup::single_repo_for_write(&names, Some("web")), Ok(1));
    assert_eq!(
        codebeacon::mcp::lookup::single_repo_for_write(&names, Some("docs")),
        Err("No repo found matching filter 'docs'".to_string())
    );
    assert_eq!(
        codebeacon::mcp::lookup::single_repo_for_write(&names, None),
        Err("Multiple repos in workspace. Use the `repo` argument to specify which one to write to.".to_string())
    );
    let one: Vec<String> = vec!["solo".into()];
    assert_eq!(codebeacon::mcp::lookup::single_repo_for_write(&one, None), Ok(0));
    let none: Vec<String> = vec![];
    assert_eq!(
        codebeacon::mcp::lookup::single_repo_for_write(&none, None),
        Err("No repo found matching filter '(none)'".to_string())
    );
}
