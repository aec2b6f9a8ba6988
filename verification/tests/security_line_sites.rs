use codebeacon::security::line_sites::{
    extract_sites, resolve_sizeof, AllocKind, AllocationSite, ExtractedSite,
};

fn symbolic(line: &str) -> Option<AllocationSite> {
    extract_sites(line, 1).into_iter().find_map(|s| match s {
        ExtractedSite::Symbolic(site) => Some(site),
        _ => None,
    })
}

#[test]
fn sites_parses_malloc_sizeof_int() {
    let site = symbolic("int* p = malloc(n * sizeof(int));").unwrap();
    assert_eq!(site.var, "n");
    assert_eq!(site.elem_size, 4);
    assert_eq!(site.elem_size_source, "sizeof(int)");
    assert_eq!(site.kind, AllocKind::Malloc);
}

#[test]
fn parses_malloc_var_times_const() {
    let site = symbolic("char* buf = malloc(count * 4);").unwrap();
    assert_eq!(site.var, "count");
    assert_eq!(site.elem_size, 4);
    assert_eq!(site.elem_size_source, "4");
}

#[test]
fn parses_calloc_sizeof() {
    let site = symbolic("void* p = calloc(n, sizeof(int));").unwrap();
    assert_eq!(site.var, "n");
    assert_eq!(site.elem_size, 4);
    assert_eq!(site.kind, AllocKind::Calloc);
}

#[test]
fn parses_calloc_const() {
    let site = symbolic("void* p = calloc(items, 8);").unwrap();
    assert_eq!(site.var, "items");
    assert_eq!(site.elem_size, 8);
}

#[test]
fn parses_realloc_sizeof() {
    let site = symbolic("p = realloc(p, n * sizeof(int));").unwrap();
    assert_eq!(site.var, "n");
    assert_eq!(site.kind, AllocKind::Realloc);
}

#[test]
fn parses_vec_with_capacity() {
    let site = symbolic("let v = Vec::with_capacity(n * 4);").unwrap();
    assert_eq!(site.var, "n");
    assert_eq!(site.elem_size, 4);
    assert_eq!(site.kind, AllocKind::WithCapacity);
}

#[test]
fn parses_dot_with_capacity() {
    let site = symbolic("v.with_capacity(n * 8);").unwrap();
    assert_eq!(site.var, "n");
    assert_eq!(site.elem_size, 8);
}

#[test]
fn sites_constant_only_malloc_emits_nothing() {
    let sites = extract_sites("int* p = malloc(100 * sizeof(int));", 1);
    assert!(sites.is_empty());
}

#[test]
fn two_variables_is_inconclusive() {
    let sites = extract_sites("void* p = malloc(a * b);", 1);
    assert_eq!(sites.len(), 1);
    assert!(matches!(sites[0], ExtractedSite::Inconclusive { .. }));
}

#[test]
fn unknown_sizeof_is_inconclusive() {
    let sites = extract_sites("malloc(foo(a, b) * sizeof(struct Unknown));", 1);
    assert_eq!(sites.len(), 1);
    assert!(matches!(sites[0], ExtractedSite::Inconclusive { .. }));
}

#[test]
fn sites_unrelated_line_emits_nothing() {
    let sites = extract_sites("return x + 1;", 1);
    assert!(sites.is_empty());
}

#[test]
fn heuristic_malloc_two_vars_is_inconclusive() {
    let sites = extract_sites("malloc(weird * stuff);", 1);
    assert_eq!(sites.len(), 1);
    assert!(matches!(sites[0], ExtractedSite::Inconclusive { .. }));
}

#[test]
fn sites_resolve_sizeof_primitives() {
    assert_eq!(resolve_sizeof("int"), Some(4));
    assert_eq!(resolve_sizeof("uint64_t"), Some(8));
    assert_eq!(resolve_sizeof("struct Foo"), None);
}

#[test]
fn line_two_variables_reason_names_both() {
    let sites = extract_sites("void* p = malloc(a * b);", 3);
    assert_eq!(
        sites[0],
        ExtractedSite::Inconclusive {
            raw: "void* p = malloc(a * b);".to_string(),
            reason: "multiple symbolic variables: a * b".to_string(),
        }
    );
}

#[test]
fn line_capacity_times_identifier_is_inconclusive() {
    let sites = extract_sites("let v = Vec::with_capacity(n * width);", 2);
    assert_eq!(
        sites,
        vec![ExtractedSite::Inconclusive {
            raw: "let v = Vec::with_capacity(n * width);".to_string(),
            reason: "multiple symbolic variables: n * width".to_string(),
        }]
    );
}

#[test]
fn line_unknown_sizeof_reason() {
    let sites = extract_sites("  p = malloc(len * sizeof(struct Node));  ", 9);
    assert_eq!(
        sites,
        vec![ExtractedSite::Inconclusive {
            raw: "p = malloc(len * sizeof(struct Node));".to_string(),
            reason: "cannot resolve sizeof(struct Node)".to_string(),
        }]
    );
}

#[test]
fn line_shift_without_star_emits_nothing() {
    assert!(extract_sites("p = malloc(n << 4);", 1).is_empty());
}

#[test]
fn line_symbolic_keeps_line_number() {
    let site = match extract_sites("buf = malloc(n * 2);", 42).remove(0) {
        ExtractedSite::Symbolic(s) => s,
        other => panic!("unexpected {:?}", other),
    };
    assert_eq!(site.line, 42);
    assert_eq!(site.raw, "buf = malloc(n * 2);");
}
