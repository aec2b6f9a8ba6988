//! Security policy and the decision that merges per-finding verdicts.

use crate::security::cwe::{default_enabled_cwes, default_z3_cwes, normalize_cwe_id, normalize_cwe_seq};
use crate::security::findings::{FindingView, ProofStatus, ReportView, SecurityFinding, VerifyReport};
use crate::text::{ascii_lower_seq, ascii_lowercase, decimal_seq, decimal_string, decimal_string_usize, str_eq};
use vstd::prelude::*;

verus! {

/// How strictly the policy treats inconclusive results.
#[derive(Debug, Clone, Copy, PartialEq, Eq, Structural)]
pub enum PolicyMode {
    /// Block proven exploits and unknowns; warn on pattern-only.
    Strict,
    /// Block proven exploits; warn on unknown/pattern-only but allow write.
    Balanced,
    /// Block only proven exploits; pass everything else.
    Permissive,
}

impl Default for PolicyMode {
    fn default() -> (r: Self)
        ensures
            r == PolicyMode::Balanced,
    {
        PolicyMode::Balanced
    }
}

pub open spec fn parse_mode_seq(s: Seq<char>) -> Option<PolicyMode> {
    let l = ascii_lower_seq(s);
    if l == "strict"@ {
        Some(PolicyMode::Strict)
    } else if l == "balanced"@ {
        Some(PolicyMode::Balanced)
    } else if l == "permissive"@ {
        Some(PolicyMode::Permissive)
    } else {
        None
    }
}

impl PolicyMode {
    /// Case-insensitive `strict` / `balanced` / `permissive`.
    pub fn parse(s: &str) -> (r: Option<Self>)
        ensures
            r == parse_mode_seq(s@),
    {
        let l = ascii_lowercase(s);
        if str_eq(l.as_str(), "strict") {
            Some(PolicyMode::Strict)
        } else if str_eq(l.as_str(), "balanced") {
            Some(PolicyMode::Balanced)
        } else if str_eq(l.as_str(), "permissive") {
            Some(PolicyMode::Permissive)
        } else {
            None
        }
    }
}

#[derive(Debug, Clone)]
pub struct SecurityPolicy {
    pub enabled: bool,
    pub mode: PolicyMode,
    /// Per-site solver budget.
    pub z3_timeout_ms: u64,
    /// When true, Unknown is treated like block even in Balanced mode.
    pub block_on_unknown: bool,
    /// Enabled CWE identifiers (numeric strings, e.g. "190"); order and
    /// repetition carry no meaning.
    pub enabled_cwes: Vec<String>,
}

impl Default for SecurityPolicy {
    fn default() -> (r: Self)
        ensures
            !r.enabled,
            r.mode == PolicyMode::Balanced,
            r.z3_timeout_ms == 5000,
            !r.block_on_unknown,
            r.enabled_cwes.deep_view() == default_z3_cwes(),
    {
        SecurityPolicy {
            enabled: false,
            mode: PolicyMode::Balanced,
            z3_timeout_ms: 5_000,
            block_on_unknown: false,
            enabled_cwes: default_enabled_cwes(),
        }
    }
}

impl SecurityPolicy {
    /// Whether the identifier, once normalized, is among the enabled ones.
    pub open spec fn spec_cwe_enabled(&self, id: Seq<char>) -> bool {
        self.enabled_cwes.deep_view().contains(normalize_cwe_seq(id))
    }

    pub fn cwe_enabled(&self, id: &str) -> (b: bool)
        ensures
            b == self.spec_cwe_enabled(id@),
    {
        let n = normalize_cwe_id(id);
        let mut i: usize = 0;
        while i < self.enabled_cwes.len()
            invariant
                n@ == normalize_cwe_seq(id@),
                i <= self.enabled_cwes@.len(),
                forall|j: int| 0 <= j < i ==> self.enabled_cwes.deep_view()[j] != n@,
            decreases self.enabled_cwes@.len() - i,
        {
            if str_eq(self.enabled_cwes[i].as_str(), n.as_str()) {
                assert(self.enabled_cwes.deep_view()[i as int] == n@);
                return true;
            }
            i += 1;
        }
        false
    }

    pub fn any_cwe_enabled(&self, ids: &[&str]) -> (b: bool)
        ensures
            b == exists|i: int| 0 <= i < ids@.len() && self.spec_cwe_enabled(#[trigger] ids@[i]@),
    {
        let mut i: usize = 0;
        while i < ids.len()
            invariant
                i <= ids@.len(),
                forall|j: int| 0 <= j < i ==> !self.spec_cwe_enabled(#[trigger] ids@[j]@),
            decreases ids@.len() - i,
        {
            if self.cwe_enabled(ids[i]) {
                return true;
            }
            i += 1;
        }
        false
    }
}

#[derive(Debug, Clone, PartialEq, Eq)]
pub enum GateAction {
    Allow,
    Warn { message: String },
    Block { message: String },
}

/// Mathematical model of a [`GateAction`].
pub enum GateView {
    Allow,
    Warn(Seq<char>),
    Block(Seq<char>),
}

impl View for GateAction {
    type V = GateView;

    open spec fn view(&self) -> GateView {
        match self {
            GateAction::Allow => GateView::Allow,
            GateAction::Warn { message } => GateView::Warn(message@),
            GateAction::Block { message } => GateView::Block(message@),
        }
    }
}

impl GateAction {
    pub fn allows_write(&self) -> (b: bool)
        ensures
            b == !(self@ is Block),
    {
        match self {
            GateAction::Block { .. } => false,
            _ => true,
        }
    }

    pub fn label(&self) -> (r: &'static str)
        ensures
            r@ == match self@ {
                GateView::Allow => "allow"@,
                GateView::Warn(_) => "warn"@,
                GateView::Block(_) => "block"@,
            },
    {
        match self {
            GateAction::Allow => "allow",
            GateAction::Warn { .. } => "warn",
            GateAction::Block { .. } => "block",
        }
    }

    pub fn message(&self) -> (r: Option<&str>)
        ensures
            match self@ {
                GateView::Allow => r is None,
                GateView::Warn(m) => r matches Some(s) && s@ == m,
                GateView::Block(m) => r matches Some(s) && s@ == m,
            },
    {
        match self {
            GateAction::Allow => None,
            GateAction::Warn { message } => Some(message.as_str()),
            GateAction::Block { message } => Some(message.as_str()),
        }
    }
}

// ---------------------------------------------------------------------------
// Decision model
// ---------------------------------------------------------------------------

pub open spec fn status_label_seq(s: ProofStatus) -> Seq<char> {
    match s {
        ProofStatus::ProvenVulnerable => "PROVEN"@,
        ProofStatus::ProvenSafe => "SAFE"@,
        ProofStatus::Unknown => "UNKNOWN"@,
        ProofStatus::PatternOnly => "PATTERN"@,
    }
}

pub open spec fn witness_suffix(w: Option<Seq<char>>) -> Seq<char> {
    match w {
        Some(w) => " witness="@ + w,
        None => Seq::empty(),
    }
}

/// `line {line} {cwe} [{STATUS}] {message}` and, when present, ` witness={w}`.
pub open spec fn finding_line(f: FindingView) -> Seq<char> {
    "line "@ + decimal_seq(f.line as nat) + " "@ + f.cwe + " ["@ + status_label_seq(f.status)
        + "] "@ + f.message + witness_suffix(f.witness)
}

/// The verdict on one finding.
pub open spec fn finding_decision(f: FindingView, mode: PolicyMode, block_on_unknown: bool) -> GateView {
    let detail = finding_line(f);
    match f.status {
        ProofStatus::ProvenVulnerable => GateView::Block(detail),
        ProofStatus::ProvenSafe => GateView::Allow,
        ProofStatus::Unknown => if mode == PolicyMode::Strict || block_on_unknown {
            GateView::Block(detail + " (inconclusive — blocking inconclusive result)"@)
        } else {
            GateView::Warn(detail)
        },
        ProofStatus::PatternOnly => match mode {
            PolicyMode::Strict => GateView::Warn(detail + " (pattern only — verify with Z3)"@),
            PolicyMode::Balanced => GateView::Warn(detail + " (pattern only — Z3 not run)"@),
            PolicyMode::Permissive => GateView::Allow,
        },
    }
}

/// Messages of the blocking verdicts, in finding order.
pub open spec fn block_messages(s: Seq<FindingView>, mode: PolicyMode, bou: bool) -> Seq<Seq<char>>
    decreases s.len(),
{
    if s.len() == 0 {
        Seq::empty()
    } else {
        let prev = block_messages(s.drop_last(), mode, bou);
        match finding_decision(s.last(), mode, bou) {
            GateView::Block(m) => prev.push(m),
            _ => prev,
        }
    }
}

/// Messages of the warning verdicts, in finding order.
pub open spec fn warn_messages(s: Seq<FindingView>, mode: PolicyMode, bou: bool) -> Seq<Seq<char>>
    decreases s.len(),
{
    if s.len() == 0 {
        Seq::empty()
    } else {
        let prev = warn_messages(s.drop_last(), mode, bou);
        match finding_decision(s.last(), mode, bou) {
            GateView::Warn(m) => prev.push(m),
            _ => prev,
        }
    }
}

/// `  1. first\n  2. second\n` …
pub open spec fn numbered_list(lines: Seq<Seq<char>>) -> Seq<char>
    decreases lines.len(),
{
    if lines.len() == 0 {
        Seq::empty()
    } else {
        numbered_list(lines.drop_last()) + "  "@ + decimal_seq(lines.len()) + ". "@
            + lines.last() + "\n"@
    }
}

pub open spec fn fix_advice() -> Seq<char> {
    "\nFix the issue or run `verify_security` after editing. Strict mode also blocks inconclusive (UNKNOWN) results.\n"@
}

/// The text of a warning or blocking decision.
pub open spec fn decision_message(
    header: Seq<char>,
    blocks: Seq<Seq<char>>,
    warns: Seq<Seq<char>>,
    r: ReportView,
) -> Seq<char> {
    header + ": security verification found issues in `"@ + r.path + "`\n"@ + "checked "@
        + decimal_seq(r.sites_checked as nat) + " site(s), "@ + decimal_seq(
        r.z3_invocations as nat,
    ) + " Z3 call(s), "@ + decimal_seq(r.elapsed_ms as nat) + " ms\n\n"@ + (if blocks.len() > 0 {
        "Blocking:\n"@ + numbered_list(blocks)
    } else {
        Seq::empty()
    }) + (if warns.len() > 0 {
        "Warnings:\n"@ + numbered_list(warns)
    } else {
        Seq::empty()
    }) + (if blocks.len() > 0 {
        fix_advice()
    } else {
        Seq::empty()
    })
}

/// The decision for a report under a policy.
pub open spec fn spec_decide(r: ReportView, enabled: bool, mode: PolicyMode, bou: bool) -> GateView {
    if !enabled {
        GateView::Allow
    } else {
        let blocks = block_messages(r.findings, mode, bou);
        let warns = warn_messages(r.findings, mode, bou);
        if blocks.len() > 0 {
            GateView::Block(decision_message("BLOCKED"@, blocks, warns, r))
        } else if warns.len() > 0 {
            GateView::Warn(decision_message("WARNING"@, Seq::empty(), warns, r))
        } else {
            GateView::Allow
        }
    }
}

fn status_label(status: ProofStatus) -> (r: &'static str)
    ensures
        r@ == status_label_seq(status),
{
    match status {
        ProofStatus::ProvenVulnerable => "PROVEN",
        ProofStatus::ProvenSafe => "SAFE",
        ProofStatus::Unknown => "UNKNOWN",
        ProofStatus::PatternOnly => "PATTERN",
    }
}

fn format_finding_line(f: &SecurityFinding) -> (r: String)
    ensures
        r@ == finding_line(f@),
{
    let mut out = "line ".to_owned();
    let n = decimal_string_usize(f.line);
    out.append(n.as_str());
    out.append(" ");
    out.append(f.cwe.as_str());
    out.append(" [");
    out.append(status_label(f.status));
    out.append("] ");
    out.append(f.message.as_str());
    match &f.witness {
        Some(w) => {
            out.append(" witness=");
            out.append(w.as_str());
        },
        None => {},
    }
    out
}

fn decide_finding(finding: &SecurityFinding, policy: &SecurityPolicy) -> (r: GateAction)
    ensures
        r@ == finding_decision(finding@, policy.mode, policy.block_on_unknown),
{
    let mut detail = format_finding_line(finding);
    match finding.status {
        ProofStatus::ProvenVulnerable => GateAction::Block { message: detail },
        ProofStatus::ProvenSafe => GateAction::Allow,
        ProofStatus::Unknown => {
            if policy.mode == PolicyMode::Strict || policy.block_on_unknown {
                detail.append(" (inconclusive — blocking inconclusive result)");
                GateAction::Block { message: detail }
            } else {
                GateAction::Warn { message: detail }
            }
        },
        ProofStatus::PatternOnly => match policy.mode {
            PolicyMode::Strict => {
                detail.append(" (pattern only — verify with Z3)");
                GateAction::Warn { message: detail }
            },
            PolicyMode::Balanced => {
                detail.append(" (pattern only — Z3 not run)");
                GateAction::Warn { message: detail }
            },
            PolicyMode::Permissive => GateAction::Allow,
        },
    }
}

fn append_numbered(out: &mut String, lines: &Vec<String>)
    ensures
        final(out)@ == old(out)@ + numbered_list(lines.deep_view()),
{
    let mut i: usize = 0;
    while i < lines.len()
        invariant
            i <= lines@.len(),
            out@ == old(out)@ + numbered_list(lines.deep_view().take(i as int)),
        decreases lines@.len() - i,
    {
        let ghost before = out@;
        out.append("  ");
        let n = decimal_string_usize(i + 1);
        out.append(n.as_str());
        out.append(". ");
        out.append(lines[i].as_str());
        out.append("\n");
        assert(lines.deep_view().take(i + 1).drop_last() =~= lines.deep_view().take(i as int));
        assert(lines.deep_view().take(i + 1).last() == lines[i as int]@);
        assert(out@ =~= old(out)@ + numbered_list(lines.deep_view().take(i + 1)));
        i += 1;
    }
    assert(lines.deep_view().take(lines@.len() as int) =~= lines.deep_view());
}

fn format_decision_message(
    header: &str,
    blocks: &Vec<String>,
    warns: &Vec<String>,
    report: &VerifyReport,
) -> (r: String)
    ensures
        r@ == decision_message(header@, blocks.deep_view(), warns.deep_view(), report@),
{
    let mut out = header.to_owned();
    out.append(": security verification found issues in `");
    out.append(report.path.as_str());
    out.append("`\n");
    out.append("checked ");
    let a = decimal_string_usize(report.sites_checked);
    out.append(a.as_str());
    out.append(" site(s), ");
    let b = decimal_string_usize(report.z3_invocations);
    out.append(b.as_str());
    out.append(" Z3 call(s), ");
    let c = decimal_string(report.elapsed_ms);
    out.append(c.as_str());
    out.append(" ms\n\n");
    let ghost head = out@;
    if blocks.len() > 0 {
        out.append("Blocking:\n");
        append_numbered(&mut out, blocks);
    }
    let ghost mid = out@;
    if warns.len() > 0 {
        out.append("Warnings:\n");
        append_numbered(&mut out, warns);
    }
    let ghost tail = out@;
    if blocks.len() > 0 {
        out.append(
            "\nFix the issue or run `verify_security` after editing. Strict mode also blocks inconclusive (UNKNOWN) results.\n",
        );
    }
    assert(out@ =~= decision_message(header@, blocks.deep_view(), warns.deep_view(), report@));
    out
}

/// Merge per-finding decisions into a single outcome for a write/edit.
pub fn decide(report: &VerifyReport, policy: &SecurityPolicy) -> (r: GateAction)
    ensures
        r@ == spec_decide(report@, policy.enabled, policy.mode, policy.block_on_unknown),
{
    if !policy.enabled {
        return GateAction::Allow;
    }
    let ghost fs = report@.findings;
    let mut blocks: Vec<String> = Vec::new();
    let mut warns: Vec<String> = Vec::new();
    let mut i: usize = 0;
    while i < report.findings.len()
        invariant
            fs == report@.findings,
            i <= report.findings@.len(),
            blocks.deep_view() == block_messages(fs.take(i as int), policy.mode, policy.block_on_unknown),
            warns.deep_view() == warn_messages(fs.take(i as int), policy.mode, policy.block_on_unknown),
        decreases report.findings@.len() - i,
    {
        let d = decide_finding(&report.findings[i], policy);
        assert(fs.take(i + 1).drop_last() =~= fs.take(i as int));
        assert(fs.take(i + 1).last() == report.findings@[i as int]@);
        let ghost pb = blocks.deep_view();
        let ghost pw = warns.deep_view();
        match d {
            GateAction::Block { message } => {
                blocks.push(message);
                assert(blocks.deep_view() =~= pb.push(d@->Block_0));
            },
            GateAction::Warn { message } => {
                warns.push(message);
                assert(warns.deep_view() =~= pw.push(d@->Warn_0));
            },
            GateAction::Allow => {},
        }
        i += 1;
    }
    assert(fs.take(fs.len() as int) =~= fs);
    if blocks.len() > 0 {
        let message = format_decision_message("BLOCKED", &blocks, &warns, report);
        return GateAction::Block { message };
    }
    if warns.len() > 0 {
        let empty: Vec<String> = Vec::new();
        assert(empty.deep_view() =~= Seq::<Seq<char>>::empty());
        let message = format_decision_message("WARNING", &empty, &warns, report);
        return GateAction::Warn { message };
    }
    GateAction::Allow
}

} // verus!

verus! {

// ---------------------------------------------------------------------------
// Laws of the policy decision
// ---------------------------------------------------------------------------

pub proof fn lemma_block_messages_nonempty(s: Seq<FindingView>, mode: PolicyMode, bou: bool)
    ensures
        block_messages(s, mode, bou).len() > 0 <==> exists|i: int|
            0 <= i < s.len() && #[trigger] finding_decision(s[i], mode, bou) is Block,
    decreases s.len(),
{
    if s.len() > 0 {
        let t = s.drop_last();
        lemma_block_messages_nonempty(t, mode, bou);
        if exists|i: int| 0 <= i < t.len() && #[trigger] finding_decision(t[i], mode, bou) is Block {
            let i = choose|i: int| 0 <= i < t.len() && #[trigger] finding_decision(t[i], mode, bou) is Block;
            assert(s[i] == t[i]);
        }
        if exists|i: int| 0 <= i < s.len() && #[trigger] finding_decision(s[i], mode, bou) is Block {
            let i = choose|i: int| 0 <= i < s.len() && #[trigger] finding_decision(s[i], mode, bou) is Block;
            if i < t.len() {
                assert(t[i] == s[i]);
            }
        }
    }
}

pub proof fn lemma_warn_messages_nonempty(s: Seq<FindingView>, mode: PolicyMode, bou: bool)
    ensures
        warn_messages(s, mode, bou).len() > 0 <==> exists|i: int|
            0 <= i < s.len() && #[trigger] finding_decision(s[i], mode, bou) is Warn,
    decreases s.len(),
{
    if s.len() > 0 {
        let t = s.drop_last();
        lemma_warn_messages_nonempty(t, mode, bou);
        if exists|i: int| 0 <= i < t.len() && #[trigger] finding_decision(t[i], mode, bou) is Warn {
            let i = choose|i: int| 0 <= i < t.len() && #[trigger] finding_decision(t[i], mode, bou) is Warn;
            assert(s[i] == t[i]);
        }
        if exists|i: int| 0 <= i < s.len() && #[trigger] finding_decision(s[i], mode, bou) is Warn {
            let i = choose|i: int| 0 <= i < s.len() && #[trigger] finding_decision(s[i], mode, bou) is Warn;
            if i < t.len() {
                assert(t[i] == s[i]);
            }
        }
    }
}

/// A disabled policy allows every write.
pub proof fn law_disabled_policy_allows(r: ReportView, mode: PolicyMode, bou: bool)
    ensures
        spec_decide(r, false, mode, bou) is Allow,
{
}

/// The decision blocks exactly when some finding's own verdict blocks, warns
/// exactly when none blocks and some warns, and allows otherwise.
pub proof fn law_decision_outcome(r: ReportView, mode: PolicyMode, bou: bool)
    ensures
        (spec_decide(r, true, mode, bou) is Block) <==> exists|i: int|
            0 <= i < r.findings.len() && #[trigger] finding_decision(r.findings[i], mode, bou) is Block,
        (spec_decide(r, true, mode, bou) is Allow) <==> forall|i: int|
            0 <= i < r.findings.len() ==> #[trigger] finding_decision(r.findings[i], mode, bou) is Allow,
{
    lemma_block_messages_nonempty(r.findings, mode, bou);
    lemma_warn_messages_nonempty(r.findings, mode, bou);
    if !(spec_decide(r, true, mode, bou) is Allow) {
        if exists|i: int| 0 <= i < r.findings.len() && #[trigger] finding_decision(r.findings[i], mode, bou) is Block {
            let i = choose|i: int| 0 <= i < r.findings.len() && #[trigger] finding_decision(r.findings[i], mode, bou) is Block;
            assert(!(finding_decision(r.findings[i], mode, bou) is Allow));
        } else {
            let i = choose|i: int| 0 <= i < r.findings.len() && #[trigger] finding_decision(r.findings[i], mode, bou) is Warn;
            assert(!(finding_decision(r.findings[i], mode, bou) is Allow));
        }
    } else {
        assert forall|i: int| 0 <= i < r.findings.len() implies #[trigger] finding_decision(r.findings[i], mode, bou) is Allow by {
            let d = finding_decision(r.findings[i], mode, bou);
            if d is Block {
                assert(exists|j: int| 0 <= j < r.findings.len() && #[trigger] finding_decision(r.findings[j], mode, bou) is Block);
            }
            if d is Warn {
                assert(exists|j: int| 0 <= j < r.findings.len() && #[trigger] finding_decision(r.findings[j], mode, bou) is Warn);
            }
        }
    }
}

/// An enabled policy blocks any report with a proven exploit, in every mode.
pub proof fn law_proven_vulnerable_blocks(r: ReportView, mode: PolicyMode, bou: bool)
    requires
        exists|i: int| 0 <= i < r.findings.len() && #[trigger] r.findings[i].status == ProofStatus::ProvenVulnerable,
    ensures
        spec_decide(r, true, mode, bou) is Block,
{
    let i = choose|i: int| 0 <= i < r.findings.len() && #[trigger] r.findings[i].status == ProofStatus::ProvenVulnerable;
    assert(finding_decision(r.findings[i], mode, bou) is Block);
    law_decision_outcome(r, mode, bou);
}

/// Findings that are all proven safe never stop a write.
pub proof fn law_proven_safe_allows(r: ReportView, mode: PolicyMode, bou: bool)
    requires
        forall|i: int| 0 <= i < r.findings.len() ==> #[trigger] r.findings[i].status == ProofStatus::ProvenSafe,
    ensures
        spec_decide(r, true, mode, bou) is Allow,
{
    assert forall|i: int| 0 <= i < r.findings.len() implies #[trigger] finding_decision(r.findings[i], mode, bou) is Allow by {
        assert(r.findings[i].status == ProofStatus::ProvenSafe);
    }
    law_decision_outcome(r, mode, bou);
}

/// Strict mode, or `block_on_unknown`, blocks an inconclusive finding.
pub proof fn law_unknown_blocks_when_strict(r: ReportView, mode: PolicyMode, bou: bool)
    requires
        mode == PolicyMode::Strict || bou,
        exists|i: int| 0 <= i < r.findings.len() && #[trigger] r.findings[i].status == ProofStatus::Unknown,
    ensures
        spec_decide(r, true, mode, bou) is Block,
{
    let i = choose|i: int| 0 <= i < r.findings.len() && #[trigger] r.findings[i].status == ProofStatus::Unknown;
    assert(finding_decision(r.findings[i], mode, bou) is Block);
    law_decision_outcome(r, mode, bou);
}

/// Permissive mode without `block_on_unknown` blocks only proven exploits.
pub proof fn law_permissive_blocks_only_proven(r: ReportView)
    ensures
        (spec_decide(r, true, PolicyMode::Permissive, false) is Block) <==> exists|i: int|
            0 <= i < r.findings.len() && #[trigger] r.findings[i].status == ProofStatus::ProvenVulnerable,
{
    law_decision_outcome(r, PolicyMode::Permissive, false);
    if spec_decide(r, true, PolicyMode::Permissive, false) is Block {
        let i = choose|i: int| 0 <= i < r.findings.len() && #[trigger] finding_decision(r.findings[i], PolicyMode::Permissive, false) is Block;
        assert(r.findings[i].status == ProofStatus::ProvenVulnerable);
    }
    if exists|i: int| 0 <= i < r.findings.len() && #[trigger] r.findings[i].status == ProofStatus::ProvenVulnerable {
        law_proven_vulnerable_blocks(r, PolicyMode::Permissive, false);
    }
}

/// Balanced mode without `block_on_unknown` never blocks on an inconclusive
/// or pattern-only finding: such a report is allowed with a warning.
pub proof fn law_balanced_warns_on_unproven(r: ReportView)
    requires
        r.findings.len() > 0,
        forall|i: int| 0 <= i < r.findings.len() ==> (#[trigger] r.findings[i].status == ProofStatus::Unknown
            || r.findings[i].status == ProofStatus::PatternOnly),
    ensures
        spec_decide(r, true, PolicyMode::Balanced, false) is Warn,
{
    law_decision_outcome(r, PolicyMode::Balanced, false);
    assert(!(finding_decision(r.findings[0], PolicyMode::Balanced, false) is Allow));
    if spec_decide(r, true, PolicyMode::Balanced, false) is Block {
        let i = choose|i: int| 0 <= i < r.findings.len() && #[trigger] finding_decision(r.findings[i], PolicyMode::Balanced, false) is Block;
        assert(r.findings[i].status == ProofStatus::Unknown || r.findings[i].status == ProofStatus::PatternOnly);
    }
}

/// A finding stops a write when it is a proven exploit, or inconclusive
/// under strict mode or `block_on_unknown`.
pub open spec fn status_blocks(st: ProofStatus, mode: PolicyMode, bou: bool) -> bool {
    st == ProofStatus::ProvenVulnerable || (st == ProofStatus::Unknown && (mode == PolicyMode::Strict
        || bou))
}

/// A finding passes silently when it is proven safe, or pattern-only under
/// permissive mode.
pub open spec fn status_passes(st: ProofStatus, mode: PolicyMode) -> bool {
    st == ProofStatus::ProvenSafe || (st == ProofStatus::PatternOnly && mode == PolicyMode::Permissive)
}

/// What the decision is, read from the findings' proof statuses alone: it
/// blocks exactly when some finding is a proven exploit or an inconclusive
/// result that the mode refuses; it allows exactly when every finding is
/// proven safe or pattern-only under permissive mode; otherwise it warns. So
/// pattern-only findings never block, in any mode.
pub proof fn law_decision_by_status(r: ReportView, mode: PolicyMode, bou: bool)
    ensures
        (spec_decide(r, true, mode, bou) is Block) <==> exists|i: int|
            0 <= i < r.findings.len() && status_blocks(#[trigger] r.findings[i].status, mode, bou),
        (spec_decide(r, true, mode, bou) is Allow) <==> forall|i: int|
            0 <= i < r.findings.len() ==> status_passes(#[trigger] r.findings[i].status, mode),
{
    law_decision_outcome(r, mode, bou);
    assert forall|i: int| 0 <= i < r.findings.len() implies (finding_decision(r.findings[i], mode, bou) is Block
        <==> status_blocks(#[trigger] r.findings[i].status, mode, bou)) && (finding_decision(
        r.findings[i],
        mode,
        bou,
    ) is Allow <==> status_passes(r.findings[i].status, mode)) by {}
    if spec_decide(r, true, mode, bou) is Block {
        let i = choose|i: int| 0 <= i < r.findings.len() && #[trigger] finding_decision(r.findings[i], mode, bou) is Block;
        assert(status_blocks(r.findings[i].status, mode, bou));
    }
    if exists|i: int| 0 <= i < r.findings.len() && status_blocks(#[trigger] r.findings[i].status, mode, bou) {
        let i = choose|i: int| 0 <= i < r.findings.len() && status_blocks(#[trigger] r.findings[i].status, mode, bou);
        assert(finding_decision(r.findings[i], mode, bou) is Block);
    }
    if !(spec_decide(r, true, mode, bou) is Allow) {
        let i = choose|i: int| 0 <= i < r.findings.len() && !(#[trigger] finding_decision(r.findings[i], mode, bou) is Allow);
        assert(!status_passes(r.findings[i].status, mode));
    }
}

/// Pattern-only findings never stop a write: a report whose findings are all
/// pattern-only is warned about under strict and balanced mode and allowed
/// under permissive mode.
pub proof fn law_pattern_only_never_blocks(r: ReportView, mode: PolicyMode, bou: bool)
    requires
        r.findings.len() > 0,
        forall|i: int| 0 <= i < r.findings.len() ==> #[trigger] r.findings[i].status == ProofStatus::PatternOnly,
    ensures
        mode == PolicyMode::Permissive ==> spec_decide(r, true, mode, bou) is Allow,
        mode != PolicyMode::Permissive ==> spec_decide(r, true, mode, bou) is Warn,
{
    law_decision_by_status(r, mode, bou);
    assert(!status_blocks(r.findings[0].status, mode, bou));
    assert(mode != PolicyMode::Permissive ==> !status_passes(r.findings[0].status, mode));
}

} // verus!
