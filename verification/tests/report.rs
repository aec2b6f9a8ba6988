use codebeacon::report::{default_report_output, report_markdown, ReportOptions, ReportSummary};

fn summary() -> ReportSummary {
    ReportSummary {
        repo: "demo".into(),
        generated_at: "2026-06-16T10:00:00Z".into(),
        root: "/r".into(),
        package_count: 1,
        file_count: 3,
        symbol_count: 12,
        node_count: 3,
        edge_count: 2,
        hotspots: vec![("src/db.rs".into(), 2), ("src/util.rs".into(), 0)],
        packages: vec![("core".into(), 3, "0.75".into(), "storage".into())],
        hot_symbols: vec!["login".into()],
        extracted: 2,
        inferred: 0,
        lsp_enrich_timeout_secs: 0,
        security_enabled: true,
        security_mode: "strict".into(),
    }
}

#[test]
fn report_sections_in_order() {
    let md = report_markdown(&summary());
    let order = [
        "# Codebeacon Report",
        "## Summary",
        "## Hotspots",
        "## Packages",
        "## Hot Symbols",
        "## Suggested Questions",
        "## Edge Provenance",
        "## Security",
        "## LCP Differentiators",
        "## Commands",
    ];
    let mut at = 0;
    for h in order {
        let found = md[at..].find(h).expect(h);
        at += found + h.len();
    }
    assert!(md.starts_with("# Codebeacon Report\n\n> Generated for **demo** at 2026-06-16T10:00:00Z\n\n"));
    assert!(md.contains("| Packages | 1 |\n| Files | 3 |\n| Symbols | 12 |\n| Graph nodes | 3 |\n| Graph edges | 2 |\n\n"));
    assert!(md.contains("| 1 | `src/db.rs` | 2 |\n| 2 | `src/util.rs` | 0 |\n\n"));
    assert!(md.contains("| core | 3 | 0.75 | storage |\n\n"));
    assert!(md.contains("- `login`\n\n"));
    assert!(md.contains("- What breaks if I change `src/db.rs`? (2 dependents)\n"));
    assert!(!md.contains("src/util.rs`? ("));
    assert!(md.contains("| EXTRACTED | 2 | import-resolved edges |\n\n"));
    assert!(!md.contains("INFERRED"));
    assert!(md.contains("Security policy **enabled** (mode: `strict`)."));
    assert!(md.ends_with("codebeacon export mermaid --root /r\n```\n"));
}

#[test]
fn report_empty_index() {
    let mut s = summary();
    s.hotspots = vec![];
    s.hot_symbols = vec![];
    s.security_enabled = false;
    s.lsp_enrich_timeout_secs = 30;
    let md = report_markdown(&s);
    assert!(md.contains("_No graph data._\n\n"));
    assert!(md.contains("_None indexed._\n\n"));
    assert!(md.contains("## Suggested Questions\n\n- How does authentication flow"));
    assert!(md.contains("| INFERRED | — | LSP enrichment may add edges in background daemon |\n"));
    assert!(md.contains("Security policy not enabled."));
    s.inferred = 4;
    let md = report_markdown(&s);
    assert!(md.contains("| INFERRED | 4 | LSP-enriched edges |\n"));
}

#[test]
fn report_questions_cover_first_five_hotspots() {
    let mut s = summary();
    s.hotspots = (1..=7).map(|i| (format!("f{i}.rs"), i)).collect();
    let md = report_markdown(&s);
    assert!(md.contains("change `f5.rs`? (5 dependents)"));
    assert!(!md.contains("change `f6.rs`"));
    assert!(md.contains("| 7 | `f7.rs` | 7 |"));
}

#[test]
fn report_default_output() {
    assert_eq!(default_report_output("/r", true), "/r/CODEBEACON_REPORT.md");
    assert_eq!(default_report_output("/r", false), "/r/.codebeacon/CODEBEACON_REPORT.md");
    let opts = ReportOptions::resolve("/r".into(), Some("/tmp/x.md".into()));
    assert_eq!(opts.output, "/tmp/x.md");
    let opts = ReportOptions::resolve("/definitely/not/here".into(), None);
    assert_eq!(opts.output, "/definitely/not/here/.codebeacon/CODEBEACON_REPORT.md");
}
