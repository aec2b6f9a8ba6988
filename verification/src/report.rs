//! The repository report: where it is written and the Markdown it holds.

use crate::mcp::path_exists;
use crate::paths::{join_seq, path_join};
use crate::text::{decimal_seq, decimal_string_usize, owned};
use vstd::prelude::*;

verus! {

pub struct ReportOptions {
    pub root: String,
    pub output: String,
}

/// Where the report goes when no output is given: `CODEBEACON_REPORT.md` at
/// the root when the root exists, else under `.codebeacon/`.
pub open spec fn default_report_output_seq(root: Seq<char>, root_exists: bool) -> Seq<char> {
    if root_exists {
        join_seq(root, "CODEBEACON_REPORT.md"@)
    } else {
        join_seq(root, ".codebeacon/CODEBEACON_REPORT.md"@)
    }
}

pub fn default_report_output(root: &str, root_exists: bool) -> (r: String)
    ensures
        r@ == default_report_output_seq(root@, root_exists),
{
    if root_exists {
        path_join(root, "CODEBEACON_REPORT.md")
    } else {
        path_join(root, ".codebeacon/CODEBEACON_REPORT.md")
    }
}

impl ReportOptions {
    /// The report goes where asked, else to `default_report_output` with
    /// whether the root exists as the file system answers it.
    pub fn resolve(root: String, output: Option<String>) -> (r: ReportOptions)
        ensures
            r.root == root,
            match output {
                Some(o) => r.output == o,
                None => exists|e: bool| r.output@ == default_report_output_seq(root@, e),
            },
    {
        let output = match output {
            Some(o) => o,
            None => {
                let e = path_exists(root.as_str());
                default_report_output(root.as_str(), e)
            },
        };
        ReportOptions { root, output }
    }
}

// ---------------------------------------------------------------------------
// The Markdown report
// ---------------------------------------------------------------------------

/// What the report shows of an index: counts, the most depended-on files
/// (path, dependents), the packages (name, files, score as shown, purpose),
/// the hot symbols, the edge provenance and the security settings.
pub struct ReportSummary {
    pub repo: String,
    pub generated_at: String,
    pub root: String,
    pub package_count: usize,
    pub file_count: usize,
    pub symbol_count: usize,
    pub node_count: usize,
    pub edge_count: usize,
    pub hotspots: Vec<(String, usize)>,
    pub packages: Vec<(String, usize, String, String)>,
    pub hot_symbols: Vec<String>,
    pub extracted: usize,
    pub inferred: usize,
    pub lsp_enrich_timeout_secs: u64,
    pub security_enabled: bool,
    pub security_mode: String,
}

pub struct ReportSummaryView {
    pub repo: Seq<char>,
    pub generated_at: Seq<char>,
    pub root: Seq<char>,
    pub package_count: usize,
    pub file_count: usize,
    pub symbol_count: usize,
    pub node_count: usize,
    pub edge_count: usize,
    pub hotspots: Seq<(Seq<char>, usize)>,
    pub packages: Seq<(Seq<char>, usize, Seq<char>, Seq<char>)>,
    pub hot_symbols: Seq<Seq<char>>,
    pub extracted: usize,
    pub inferred: usize,
    pub lsp_enrich_timeout_secs: u64,
    pub security_enabled: bool,
    pub security_mode: Seq<char>,
}

impl View for ReportSummary {
    type V = ReportSummaryView;

    open spec fn view(&self) -> ReportSummaryView {
        ReportSummaryView {
            repo: self.repo@,
            generated_at: self.generated_at@,
            root: self.root@,
            package_count: self.package_count,
            file_count: self.file_count,
            symbol_count: self.symbol_count,
            node_count: self.node_count,
            edge_count: self.edge_count,
            hotspots: self.hotspots@.map_values(|h: (String, usize)| (h.0@, h.1)),
            packages: self.packages@.map_values(
                |p: (String, usize, String, String)| (p.0@, p.1, p.2@, p.3@),
            ),
            hot_symbols: self.hot_symbols@.map_values(|s: String| s@),
            extracted: self.extracted,
            inferred: self.inferred,
            lsp_enrich_timeout_secs: self.lsp_enrich_timeout_secs,
            security_enabled: self.security_enabled,
            security_mode: self.security_mode@,
        }
    }
}

pub open spec fn dec(n: int) -> Seq<char> {
    decimal_seq(n as nat)
}

pub open spec fn report_header(s: ReportSummaryView) -> Seq<char> {
    "# Codebeacon Report\n\n"@ + "> Generated for **"@ + s.repo + "** at "@ + s.generated_at + "\n\n"@
}

pub open spec fn summary_section(s: ReportSummaryView) -> Seq<char> {
    "## Summary\n\n"@ + "| Metric | Value |\n|--------|-------|\n"@ + "| Packages | "@ + dec(
        s.package_count as int,
    ) + " |\n"@ + "| Files | "@ + dec(s.file_count as int) + " |\n"@ + "| Symbols | "@ + dec(
        s.symbol_count as int,
    ) + " |\n"@ + "| Graph nodes | "@ + dec(s.node_count as int) + " |\n"@ + "| Graph edges | "@
        + dec(s.edge_count as int) + " |\n"@ + "\n"@
}

/// The row of the hotspot ranked `rank`.
pub open spec fn hotspot_row(rank: int, h: (Seq<char>, usize)) -> Seq<char> {
    "| "@ + dec(rank) + " | `"@ + h.0 + "` | "@ + dec(h.1 as int) + " |\n"@
}

/// One row per hotspot, ranked from 1 in the order given.
pub open spec fn hotspot_rows(hs: Seq<(Seq<char>, usize)>) -> Seq<char>
    decreases hs.len(),
{
    if hs.len() == 0 {
        Seq::empty()
    } else {
        hotspot_rows(hs.drop_last()) + hotspot_row(hs.len() as int, hs.last())
    }
}

pub open spec fn hotspots_section(s: ReportSummaryView) -> Seq<char> {
    "## Hotspots\n\n"@ + "Files with the most reverse dependencies (god nodes):\n\n"@ + if s.hotspots.len()
        == 0 {
        "_No graph data._\n\n"@
    } else {
        "| Rank | File | Dependents |\n|------|------|------------|\n"@ + hotspot_rows(s.hotspots)
            + "\n"@
    }
}

pub open spec fn package_row(p: (Seq<char>, usize, Seq<char>, Seq<char>)) -> Seq<char> {
    "| "@ + p.0 + " | "@ + dec(p.1 as int) + " | "@ + p.2 + " | "@ + p.3 + " |\n"@
}

pub open spec fn package_rows(ps: Seq<(Seq<char>, usize, Seq<char>, Seq<char>)>) -> Seq<char>
    decreases ps.len(),
{
    if ps.len() == 0 {
        Seq::empty()
    } else {
        package_rows(ps.drop_last()) + package_row(ps.last())
    }
}

pub open spec fn packages_section(s: ReportSummaryView) -> Seq<char> {
    "## Packages\n\n"@ + "| Package | Files | Score | Purpose |\n|---------|-------|-------|--------|\n"@
        + package_rows(s.packages) + "\n"@
}

pub open spec fn symbol_rows(syms: Seq<Seq<char>>) -> Seq<char>
    decreases syms.len(),
{
    if syms.len() == 0 {
        Seq::empty()
    } else {
        symbol_rows(syms.drop_last()) + "- `"@ + syms.last() + "`\n"@
    }
}

pub open spec fn hot_symbols_section(s: ReportSummaryView) -> Seq<char> {
    "## Hot Symbols\n\n"@ + if s.hot_symbols.len() == 0 {
        "_None indexed._\n\n"@
    } else {
        symbol_rows(s.hot_symbols) + "\n"@
    }
}

/// A question for each hotspot that has dependents.
pub open spec fn question_rows(hs: Seq<(Seq<char>, usize)>) -> Seq<char>
    decreases hs.len(),
{
    if hs.len() == 0 {
        Seq::empty()
    } else {
        question_rows(hs.drop_last()) + if hs.last().1 > 0 {
            "- What breaks if I change `"@ + hs.last().0 + "`? ("@ + dec(hs.last().1 as int)
                + " dependents)\n"@
        } else {
            Seq::empty()
        }
    }
}

pub open spec fn first_five<A>(xs: Seq<A>) -> Seq<A> {
    if xs.len() <= 5 {
        xs
    } else {
        xs.take(5)
    }
}

pub open spec fn questions_section(s: ReportSummaryView) -> Seq<char> {
    "## Suggested Questions\n\n"@ + question_rows(first_five(s.hotspots))
        + "- How does authentication flow through the dependency graph?\n"@
        + "- Which packages have the highest relevance scores?\n\n"@
}

pub open spec fn inferred_row(s: ReportSummaryView) -> Seq<char> {
    if s.inferred > 0 {
        "| INFERRED | "@ + dec(s.inferred as int) + " | LSP-enriched edges |\n"@
    } else if s.lsp_enrich_timeout_secs > 0 {
        "| INFERRED | — | LSP enrichment may add edges in background daemon |\n"@
    } else {
        Seq::empty()
    }
}

pub open spec fn provenance_section(s: ReportSummaryView) -> Seq<char> {
    "## Edge Provenance\n\n"@ + "| Type | Count | Source |\n|------|-------|--------|\n"@
        + "| EXTRACTED | "@ + dec(s.extracted as int) + " | import-resolved edges |\n"@
        + inferred_row(s) + "\n"@
}

pub open spec fn security_section(s: ReportSummaryView) -> Seq<char> {
    "## Security\n\n"@ + if s.security_enabled {
        "Security policy **enabled** (mode: `"@ + s.security_mode
            + "`). Use `codebeacon verify` or MCP `verify_security` before risky edits.\n\n"@
    } else {
        "Security policy not enabled. Install with `--security` or set `[security] enabled = true` in `.codeindex.toml`.\n\n"@
    }
}

pub const DIFFERENTIATORS: &'static str = "## LCP Differentiators\n\n- **Live index** — daemon updates `.codeindex/` on save (not batch `graph.json`)\n- **LSP precision** — `find_definition` / `find_references` MCP tools\n- **Impact analysis** — `get_dependents` / `codebeacon dependents`\n- **Multi-repo** — MCP `repo` argument for workspaces\n- **Z3 security gate** — CWE-190 formal verification (`codebeacon verify`)\n\n";

pub open spec fn commands_section(s: ReportSummaryView) -> Seq<char> {
    "## Commands\n\n"@ + "```bash\n"@ + "codebeacon query \"auth\" --root "@ + s.root + "\n"@
        + "codebeacon path src/auth.rs src/db.rs --root "@ + s.root + "\n"@
        + "codebeacon explain login --root "@ + s.root + "\n"@ + "codebeacon export mermaid --root "@
        + s.root + "\n"@ + "```\n"@
}

/// The whole report, section by section.
pub open spec fn report_markdown_seq(s: ReportSummaryView) -> Seq<char> {
    report_header(s) + summary_section(s) + hotspots_section(s) + packages_section(s)
        + hot_symbols_section(s) + questions_section(s) + provenance_section(s) + security_section(
        s,
    ) + DIFFERENTIATORS@ + commands_section(s)
}

fn push(md: &mut String, t: &str)
    ensures
        final(md)@ == old(md)@ + t@,
{
    md.append(t);
}

fn push_dec(md: &mut String, n: usize)
    ensures
        final(md)@ == old(md)@ + dec(n as int),
{
    let d = decimal_string_usize(n);
    md.append(d.as_str());
}

fn header_text(s: &ReportSummary) -> (r: String)
    ensures
        r@ == report_header(s@),
{
    let mut md = owned("# Codebeacon Report\n\n");
    push(&mut md, "> Generated for **");
    push(&mut md, s.repo.as_str());
    push(&mut md, "** at ");
    push(&mut md, s.generated_at.as_str());
    push(&mut md, "\n\n");
    md
}

fn summary_text(s: &ReportSummary) -> (r: String)
    ensures
        r@ == summary_section(s@),
{
    let mut md = owned("## Summary\n\n");
    push(&mut md, "| Metric | Value |\n|--------|-------|\n");
    push(&mut md, "| Packages | ");
    push_dec(&mut md, s.package_count);
    push(&mut md, " |\n");
    push(&mut md, "| Files | ");
    push_dec(&mut md, s.file_count);
    push(&mut md, " |\n");
    push(&mut md, "| Symbols | ");
    push_dec(&mut md, s.symbol_count);
    push(&mut md, " |\n");
    push(&mut md, "| Graph nodes | ");
    push_dec(&mut md, s.node_count);
    push(&mut md, " |\n");
    push(&mut md, "| Graph edges | ");
    push_dec(&mut md, s.edge_count);
    push(&mut md, " |\n");
    push(&mut md, "\n");
    md
}

fn hotspot_rows_text(hs: &Vec<(String, usize)>) -> (r: String)
    ensures
        r@ == hotspot_rows(hs@.map_values(|h: (String, usize)| (h.0@, h.1))),
{
    let ghost v = hs@.map_values(|h: (String, usize)| (h.0@, h.1));
    let mut md = String::new();
    let mut i: usize = 0;
    while i < hs.len()
        invariant
            i <= hs@.len(),
            v == hs@.map_values(|h: (String, usize)| (h.0@, h.1)),
            md@ == hotspot_rows(v.take(i as int)),
        decreases hs.len() - i,
    {
        assert(v.take(i + 1).drop_last() =~= v.take(i as int));
        assert(v.take(i + 1).last() == v[i as int]);
        push(&mut md, "| ");
        push_dec(&mut md, i + 1);
        push(&mut md, " | `");
        push(&mut md, hs[i].0.as_str());
        push(&mut md, "` | ");
        push_dec(&mut md, hs[i].1);
        push(&mut md, " |\n");
        i += 1;
    }
    assert(v.take(i as int) =~= v);
    md
}

fn hotspots_text(s: &ReportSummary) -> (r: String)
    ensures
        r@ == hotspots_section(s@),
{
    let mut md = owned("## Hotspots\n\n");
    push(&mut md, "Files with the most reverse dependencies (god nodes):\n\n");
    if s.hotspots.len() == 0 {
        push(&mut md, "_No graph data._\n\n");
    } else {
        push(&mut md, "| Rank | File | Dependents |\n|------|------|------------|\n");
        let rows = hotspot_rows_text(&s.hotspots);
        push(&mut md, rows.as_str());
        push(&mut md, "\n");
    }
    md
}

fn packages_text(s: &ReportSummary) -> (r: String)
    ensures
        r@ == packages_section(s@),
{
    let ghost v = s@.packages;
    let mut md = owned("## Packages\n\n");
    push(&mut md, "| Package | Files | Score | Purpose |\n|---------|-------|-------|--------|\n");
    let ghost head = md@;
    let mut i: usize = 0;
    while i < s.packages.len()
        invariant
            i <= s.packages@.len(),
            v == s@.packages,
            md@ == head + package_rows(v.take(i as int)),
        decreases s.packages.len() - i,
    {
        assert(v.take(i + 1).drop_last() =~= v.take(i as int));
        assert(v.take(i + 1).last() == v[i as int]);
        let p = &s.packages[i];
        push(&mut md, "| ");
        push(&mut md, p.0.as_str());
        push(&mut md, " | ");
        push_dec(&mut md, p.1);
        push(&mut md, " | ");
        push(&mut md, p.2.as_str());
        push(&mut md, " | ");
        push(&mut md, p.3.as_str());
        push(&mut md, " |\n");
        i += 1;
    }
    assert(v.take(i as int) =~= v);
    push(&mut md, "\n");
    md
}

fn hot_symbols_text(s: &ReportSummary) -> (r: String)
    ensures
        r@ == hot_symbols_section(s@),
{
    let ghost v = s@.hot_symbols;
    let mut md = owned("## Hot Symbols\n\n");
    if s.hot_symbols.len() == 0 {
        push(&mut md, "_None indexed._\n\n");
        return md;
    }
    let ghost head = md@;
    let mut i: usize = 0;
    while i < s.hot_symbols.len()
        invariant
            i <= s.hot_symbols@.len(),
            v == s@.hot_symbols,
            md@ == head + symbol_rows(v.take(i as int)),
        decreases s.hot_symbols.len() - i,
    {
        assert(v.take(i + 1).drop_last() =~= v.take(i as int));
        assert(v.take(i + 1).last() == v[i as int]);
        push(&mut md, "- `");
        push(&mut md, s.hot_symbols[i].as_str());
        push(&mut md, "`\n");
        i += 1;
    }
    assert(v.take(i as int) =~= v);
    push(&mut md, "\n");
    md
}

fn questions_text(s: &ReportSummary) -> (r: String)
    ensures
        r@ == questions_section(s@),
{
    let ghost v = first_five(s@.hotspots);
    let n: usize = if s.hotspots.len() <= 5 {
        s.hotspots.len()
    } else {
        5
    };
    let mut md = owned("## Suggested Questions\n\n");
    let ghost head = md@;
    let mut i: usize = 0;
    while i < n
        invariant
            i <= n,
            n == v.len(),
            n <= s.hotspots@.len(),
            v == first_five(s@.hotspots),
            forall|k: int| 0 <= k < n ==> #[trigger] v[k] == s@.hotspots[k],
            md@ == head + question_rows(v.take(i as int)),
        decreases n - i,
    {
        assert(v.take(i + 1).drop_last() =~= v.take(i as int));
        assert(v.take(i + 1).last() == v[i as int]);
        let h = &s.hotspots[i];
        assert(v[i as int] == (h.0@, h.1));
        if h.1 > 0 {
            push(&mut md, "- What breaks if I change `");
            push(&mut md, h.0.as_str());
            push(&mut md, "`? (");
            push_dec(&mut md, h.1);
            push(&mut md, " dependents)\n");
        }
        i += 1;
    }
    assert(v.take(i as int) =~= v);
    push(&mut md, "- How does authentication flow through the dependency graph?\n");
    push(&mut md, "- Which packages have the highest relevance scores?\n\n");
    md
}

fn provenance_text(s: &ReportSummary) -> (r: String)
    ensures
        r@ == provenance_section(s@),
{
    let mut md = owned("## Edge Provenance\n\n");
    push(&mut md, "| Type | Count | Source |\n|------|-------|--------|\n");
    push(&mut md, "| EXTRACTED | ");
    push_dec(&mut md, s.extracted);
    push(&mut md, " | import-resolved edges |\n");
    if s.inferred > 0 {
        push(&mut md, "| INFERRED | ");
        push_dec(&mut md, s.inferred);
        push(&mut md, " | LSP-enriched edges |\n");
    } else if s.lsp_enrich_timeout_secs > 0 {
        push(&mut md, "| INFERRED | — | LSP enrichment may add edges in background daemon |\n");
    }
    push(&mut md, "\n");
    md
}

fn security_text(s: &ReportSummary) -> (r: String)
    ensures
        r@ == security_section(s@),
{
    let mut md = owned("## Security\n\n");
    if s.security_enabled {
        push(&mut md, "Security policy **enabled** (mode: `");
        push(&mut md, s.security_mode.as_str());
        push(&mut md, "`). Use `codebeacon verify` or MCP `verify_security` before risky edits.\n\n");
    } else {
        push(
            &mut md,
            "Security policy not enabled. Install with `--security` or set `[security] enabled = true` in `.codeindex.toml`.\n\n",
        );
    }
    md
}

fn commands_text(s: &ReportSummary) -> (r: String)
    ensures
        r@ == commands_section(s@),
{
    let mut md = owned("## Commands\n\n");
    push(&mut md, "```bash\n");
    push(&mut md, "codebeacon query \"auth\" --root ");
    push(&mut md, s.root.as_str());
    push(&mut md, "\n");
    push(&mut md, "codebeacon path src/auth.rs src/db.rs --root ");
    push(&mut md, s.root.as_str());
    push(&mut md, "\n");
    push(&mut md, "codebeacon explain login --root ");
    push(&mut md, s.root.as_str());
    push(&mut md, "\n");
    push(&mut md, "codebeacon export mermaid --root ");
    push(&mut md, s.root.as_str());
    push(&mut md, "\n");
    push(&mut md, "```\n");
    md
}

/// The Markdown of the repository report (written to the output path by the
/// caller).
pub fn report_markdown(s: &ReportSummary) -> (r: String)
    ensures
        r@ == report_markdown_seq(s@),
{
    let mut md = header_text(s);
    let t = summary_text(s);
    push(&mut md, t.as_str());
    let t = hotspots_text(s);
    push(&mut md, t.as_str());
    let t = packages_text(s);
    push(&mut md, t.as_str());
    let t = hot_symbols_text(s);
    push(&mut md, t.as_str());
    let t = questions_text(s);
    push(&mut md, t.as_str());
    let t = provenance_text(s);
    push(&mut md, t.as_str());
    let t = security_text(s);
    push(&mut md, t.as_str());
    push(&mut md, DIFFERENTIATORS);
    let t = commands_text(s);
    push(&mut md, t.as_str());
    md
}

} // verus!
