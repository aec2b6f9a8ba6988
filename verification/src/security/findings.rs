//! Findings produced by security verification, and the report that gathers them.

use vstd::prelude::*;

verus! {

/// Result of a formal check on one code site (e.g. one `malloc(n * size)` expression).
#[derive(Debug, Clone, Copy, PartialEq, Eq, Structural)]
pub enum ProofStatus {
    /// An exploit input exists (a witness is given).
    ProvenVulnerable,
    /// No exploit input exists for this property encoding.
    ProvenSafe,
    /// The check was inconclusive or the site was out of scope.
    Unknown,
    /// A heuristic pattern matched but no proof was attempted.
    PatternOnly,
}

#[derive(Debug, Clone)]
pub struct SecurityFinding {
    pub cwe: String,
    pub line: usize,
    pub column: Option<usize>,
    pub site: String,
    pub message: String,
    pub status: ProofStatus,
    /// Concrete exploit input when status is ProvenVulnerable (e.g. `n = 1073741825`).
    pub witness: Option<String>,
    /// Suggested fix when available.
    pub fix_hint: Option<String>,
}

/// Mathematical model of a [`SecurityFinding`].
pub struct FindingView {
    pub cwe: Seq<char>,
    pub line: usize,
    pub column: Option<usize>,
    pub site: Seq<char>,
    pub message: Seq<char>,
    pub status: ProofStatus,
    pub witness: Option<Seq<char>>,
    pub fix_hint: Option<Seq<char>>,
}

impl View for SecurityFinding {
    type V = FindingView;

    open spec fn view(&self) -> FindingView {
        FindingView {
            cwe: self.cwe@,
            line: self.line,
            column: self.column,
            site: self.site@,
            message: self.message@,
            status: self.status,
            witness: self.witness.deep_view(),
            fix_hint: self.fix_hint.deep_view(),
        }
    }
}

impl SecurityFinding {
    pub fn is_blocking_candidate(&self) -> (b: bool)
        ensures
            b == (self.status == ProofStatus::ProvenVulnerable),
    {
        match self.status {
            ProofStatus::ProvenVulnerable => true,
            _ => false,
        }
    }

    pub fn needs_attention(&self) -> (b: bool)
        ensures
            b == (self.status != ProofStatus::ProvenSafe),
    {
        match self.status {
            ProofStatus::ProvenSafe => false,
            _ => true,
        }
    }
}

#[derive(Debug, Clone, Default)]
pub struct VerifyReport {
    pub path: String,
    pub findings: Vec<SecurityFinding>,
    pub sites_checked: usize,
    pub z3_invocations: usize,
    pub elapsed_ms: u64,
}

/// Mathematical model of a [`VerifyReport`].
pub struct ReportView {
    pub path: Seq<char>,
    pub findings: Seq<FindingView>,
    pub sites_checked: usize,
    pub z3_invocations: usize,
    pub elapsed_ms: u64,
}

pub open spec fn findings_view(v: Seq<SecurityFinding>) -> Seq<FindingView> {
    v.map_values(|f: SecurityFinding| f@)
}

impl View for VerifyReport {
    type V = ReportView;

    open spec fn view(&self) -> ReportView {
        ReportView {
            path: self.path@,
            findings: findings_view(self.findings@),
            sites_checked: self.sites_checked,
            z3_invocations: self.z3_invocations,
            elapsed_ms: self.elapsed_ms,
        }
    }
}

/// The findings whose status is `ProvenVulnerable`, in their order.
pub open spec fn blocking_of(s: Seq<FindingView>) -> Seq<FindingView>
    decreases s.len(),
{
    if s.len() == 0 {
        Seq::empty()
    } else if s.last().status == ProofStatus::ProvenVulnerable {
        blocking_of(s.drop_last()).push(s.last())
    } else {
        blocking_of(s.drop_last())
    }
}

impl VerifyReport {
    /// Whether some finding is not proven safe.
    pub fn has_findings(&self) -> (b: bool)
        ensures
            b == exists|i: int|
                0 <= i < self@.findings.len() && #[trigger] self@.findings[i].status
                    != ProofStatus::ProvenSafe,
    {
        let mut i: usize = 0;
        while i < self.findings.len()
            invariant
                i <= self.findings@.len(),
                forall|j: int|
                    0 <= j < i ==> #[trigger] self.findings@[j].status == ProofStatus::ProvenSafe,
            decreases self.findings@.len() - i,
        {
            if self.findings[i].needs_attention() {
                assert(self@.findings[i as int].status != ProofStatus::ProvenSafe);
                return true;
            }
            i += 1;
        }
        assert forall|j: int|
            0 <= j < self@.findings.len() implies #[trigger] self@.findings[j].status
            == ProofStatus::ProvenSafe by {
            assert(self@.findings[j] == self.findings@[j]@);
        }
        false
    }

    /// The findings that are proven vulnerable, in report order.
    pub fn blocking_findings(&self) -> (r: Vec<&SecurityFinding>)
        ensures
            r@.map_values(|f: &SecurityFinding| f@) == blocking_of(self@.findings),
    {
        let mut r: Vec<&SecurityFinding> = Vec::new();
        let mut i: usize = 0;
        while i < self.findings.len()
            invariant
                i <= self.findings@.len(),
                r@.map_values(|f: &SecurityFinding| f@) == blocking_of(
                    findings_view(self.findings@.take(i as int)),
                ),
            decreases self.findings@.len() - i,
        {
            let ghost prev = r@.map_values(|f: &SecurityFinding| f@);
            let f = &self.findings[i];
            assert(findings_view(self.findings@.take(i + 1)).drop_last() =~= findings_view(
                self.findings@.take(i as int),
            ));
            assert(findings_view(self.findings@.take(i + 1)).last() == f@);
            if f.is_blocking_candidate() {
                r.push(f);
                assert(r@.map_values(|f: &SecurityFinding| f@) =~= prev.push(f@));
            }
            i += 1;
        }
        assert(self.findings@.take(self.findings@.len() as int) == self.findings@);
        r
    }
}

} // verus!
