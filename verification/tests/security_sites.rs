use codebeacon::security::sites::{
    allocation, buffer_copy, division, resolve_sizeof, security_markers_present, subtraction,
    AllocationSite, ExtractedSite, TwoVarMulSite,
};

fn symbolic_mul(line: &str) -> Option<AllocationSite> {
    allocation::extract_sites(line, 1).into_iter().find_map(|s| match s {
        ExtractedSite::SymbolicMul(site) => Some(site),
        _ => None,
    })
}

fn two_var(line: &str) -> Option<TwoVarMulSite> {
    allocation::extract_sites(line, 1).into_iter().find_map(|s| match s {
        ExtractedSite::SymbolicTwoVarMul(site) => Some(site),
        _ => None,
    })
}

#[test]
fn allocation_parses_malloc_sizeof_int() {
    let site = symbolic_mul("int* p = malloc(n * sizeof(int));").unwrap();
    assert_eq!(site.var, "n");
    assert_eq!(site.elem_size, 4);
}

#[test]
fn two_variables_is_symbolic() {
    let site = two_var("void* p = malloc(a * b);").unwrap();
    assert_eq!(site.var_a, "a");
    assert_eq!(site.var_b, "b");
}

#[test]
fn calloc_two_var() {
    let site = two_var("void* p = calloc(n, m);").unwrap();
    assert_eq!(site.var_a, "n");
    assert_eq!(site.var_b, "m");
}

#[test]
fn shift_malloc() {
    let site = allocation::extract_sites("p = malloc(n << 4);", 1)
        .into_iter()
        .find_map(|s| match s {
            ExtractedSite::SymbolicShift(s) => Some(s),
            _ => None,
        })
        .unwrap();
    assert_eq!(site.var, "n");
    assert_eq!(site.shift, 4);
}

#[test]
fn allocation_constant_only_malloc_emits_nothing() {
    assert!(allocation::extract_sites("int* p = malloc(100 * sizeof(int));", 1).is_empty());
}

#[test]
fn allocation_unknown_type_is_inconclusive() {
    let sites = allocation::extract_sites("p = malloc(foo(a, b) * sizeof(struct Unknown));", 7);
    assert_eq!(sites.len(), 1);
    match &sites[0] {
        ExtractedSite::Inconclusive { reason, line, .. } => {
            assert_eq!(reason, "cannot resolve sizeof(struct Unknown)");
            assert_eq!(*line, 7);
        }
        other => panic!("expected Inconclusive, got {other:?}"),
    }
}

#[test]
fn allocation_literal_size_source() {
    let site = symbolic_mul("  buf = malloc(count * 16);  ").unwrap();
    assert_eq!(site.raw, "buf = malloc(count * 16);");
    assert_eq!(site.elem_size, 16);
    assert_eq!(site.elem_size_source, "16");
    let site = symbolic_mul("q = realloc(q, n * sizeof( long ));").unwrap();
    assert_eq!(site.elem_size, 8);
    assert_eq!(site.elem_size_source, "sizeof(long )");
}

#[test]
fn parses_memcpy_const() {
    let sites = buffer_copy::extract_sites("memcpy(dst, src, n * 4);", 1);
    assert_eq!(sites.len(), 1);
    match &sites[0] {
        ExtractedSite::SymbolicBufferCopy(s) => {
            assert_eq!(s.var, "n");
            assert_eq!(s.elem_size, 4);
        }
        _ => panic!("expected SymbolicBufferCopy"),
    }
}

#[test]
fn parses_malloc_division() {
    let sites = division::extract_sites("p = malloc(total / count);", 1);
    assert_eq!(sites.len(), 1);
    match &sites[0] {
        ExtractedSite::SymbolicDiv(s) => {
            assert_eq!(s.dividend_var, "total");
            assert_eq!(s.divisor_var, "count");
        }
        _ => panic!("expected SymbolicDiv"),
    }
}

#[test]
fn security_markers_detect_allocation() {
    assert!(security_markers_present("malloc(n * 4)"));
    assert!(!security_markers_present("return x + 1;"));
}

#[test]
fn mod_resolve_sizeof_primitives() {
    assert_eq!(resolve_sizeof("int"), Some(4));
    assert_eq!(resolve_sizeof("uint64_t"), Some(8));
    assert_eq!(resolve_sizeof("struct Foo"), None);
}

#[test]
fn parses_malloc_subtraction() {
    let sites = subtraction::extract_sites("p = malloc(n - 4);", 1);
    assert_eq!(sites.len(), 1);
    match &sites[0] {
        ExtractedSite::SymbolicSub(s) => {
            assert_eq!(s.var, "n");
            assert_eq!(s.subtractor, 4);
        }
        _ => panic!("expected SymbolicSub"),
    }
}

#[test]
fn subtraction_unrelated_line_emits_nothing() {
    assert!(subtraction::extract_sites("return x + 1;", 1).is_empty());
}

#[test]
fn subtraction_of_zero_is_not_a_site() {
    assert!(subtraction::extract_sites("p = malloc(n - 0);", 1).is_empty());
}

#[test]
fn markers_cover_every_extracted_site() {
    let lines = [
        "  buf = malloc(n * sizeof(int));",
        "p = realloc(p, count * 8);",
        "let v = Vec::with_capacity(n * m);",
        "q = malloc(len - 1);",
        "r = malloc(total / count);",
        "memcpy(dst, src, n * sizeof(int));",
        "memset(dst, 0, n * 4);",
    ];
    for l in lines {
        let found = allocation::extract_sites(l, 1).len()
            + subtraction::extract_sites(l, 1).len()
            + division::extract_sites(l, 1).len()
            + buffer_copy::extract_sites(l, 1).len();
        assert!(found > 0, "{l}");
        assert!(security_markers_present(l), "{l}");
    }
}

#[test]
fn sites_from_captured_groups() {
    let g = vec![Some("a - 1".to_string()), Some("len".to_string()), Some("1".to_string())];
    assert!(subtraction::sub_site("q = malloc(len - 1);", 3, &g).is_some());
    let zero = vec![Some("a - 0".to_string()), Some("len".to_string()), Some("0".to_string())];
    assert!(subtraction::sub_site("q = malloc(len - 0);", 3, &zero).is_none());
    let d = vec![Some("x".to_string()), Some("total".to_string()), Some("count".to_string())];
    assert!(division::div_site("r = malloc(total / count);", 1, &d).is_some());
    let lit = vec![Some("x".to_string()), Some("total".to_string()), Some("4".to_string())];
    assert!(division::div_site("r = malloc(total / 4);", 1, &lit).is_none());
}
