//! Pattern-only security checks (heuristics, no proof attempted).

pub mod command_injection;
pub mod deserialize;
pub mod format_string;
pub mod path_traversal;
pub mod secrets;

use crate::matching::Groups;
use crate::security::findings::{findings_view, FindingView, ProofStatus, SecurityFinding};
use crate::security::policy::SecurityPolicy;
use crate::text::owned;
use vstd::prelude::*;

verus! {

/// A pattern-only finding with a fix hint and no witness.
pub open spec fn pattern_finding_view(
    cwe: Seq<char>,
    line: usize,
    site: Seq<char>,
    message: Seq<char>,
    fix: Seq<char>,
) -> FindingView {
    FindingView {
        cwe,
        line,
        column: None,
        site,
        message,
        status: ProofStatus::PatternOnly,
        witness: None,
        fix_hint: Some(fix),
    }
}

pub fn pattern_finding(cwe: &str, line: usize, site: &str, message: String, fix: &str) -> (r: SecurityFinding)
    ensures
        r@ == pattern_finding_view(cwe@, line, site@, message@, fix@),
{
    SecurityFinding {
        cwe: owned(cwe),
        line,
        column: None,
        site: owned(site),
        message,
        status: ProofStatus::PatternOnly,
        witness: None,
        fix_hint: Some(owned(fix)),
    }
}

pub open spec fn opt_finding(o: Option<FindingView>) -> Seq<FindingView> {
    match o {
        Some(f) => seq![f],
        None => Seq::empty(),
    }
}

pub open spec fn opt_finding_view(o: Option<SecurityFinding>) -> Option<FindingView> {
    match o {
        Some(f) => Some(f@),
        None => None,
    }
}

/// The findings that `f` draws from each match, in match order.
pub open spec fn collect_findings(ms: Seq<Groups>, f: spec_fn(Groups) -> Option<FindingView>) -> Seq<FindingView>
    decreases ms.len(),
{
    if ms.len() == 0 {
        Seq::empty()
    } else {
        collect_findings(ms.drop_last(), f) + opt_finding(f(ms.last()))
    }
}

pub proof fn lemma_collect_step(ms: Seq<Groups>, i: int, f: spec_fn(Groups) -> Option<FindingView>)
    requires
        0 <= i < ms.len(),
    ensures
        collect_findings(ms.take(i + 1), f) == collect_findings(ms.take(i), f) + opt_finding(f(ms[i])),
{
    assert(ms.take(i + 1).drop_last() =~= ms.take(i));
}

/// All enabled pattern checks on one line, in the order 134, 78, 798, 502, 22.
pub open spec fn pattern_findings_seq(line: Seq<char>, line_no: usize, policy: SecurityPolicy) -> Seq<FindingView> {
    (if policy.spec_cwe_enabled("134"@) {
        format_string::check_line_seq(line, line_no)
    } else {
        Seq::empty()
    }) + (if policy.spec_cwe_enabled("78"@) {
        command_injection::check_line_seq(line, line_no)
    } else {
        Seq::empty()
    }) + (if policy.spec_cwe_enabled("798"@) {
        secrets::check_line_seq(line, line_no)
    } else {
        Seq::empty()
    }) + (if policy.spec_cwe_enabled("502"@) {
        deserialize::check_line_seq(line, line_no)
    } else {
        Seq::empty()
    }) + (if policy.spec_cwe_enabled("22"@) {
        path_traversal::check_line_seq(line, line_no)
    } else {
        Seq::empty()
    })
}

fn extend_findings(out: &mut Vec<SecurityFinding>, more: Vec<SecurityFinding>)
    ensures
        findings_view(final(out)@) == findings_view(old(out)@) + findings_view(more@),
{
    let mut more = more;
    let ghost a = out@;
    let ghost b = more@;
    out.append(&mut more);
    assert(findings_view(a + b) =~= findings_view(a) + findings_view(b));
}

/// Run the pattern checks that the policy enables on one line.
pub fn check_line(line: &str, line_no: usize, policy: &SecurityPolicy) -> (r: Vec<SecurityFinding>)
    ensures
        findings_view(r@) == pattern_findings_seq(line@, line_no, *policy),
{
    let mut findings: Vec<SecurityFinding> = Vec::new();
    assert(findings_view(findings@) =~= Seq::<FindingView>::empty());
    let e134 = policy.cwe_enabled("134");
    let e78 = policy.cwe_enabled("78");
    let e798 = policy.cwe_enabled("798");
    let e502 = policy.cwe_enabled("502");
    let e22 = policy.cwe_enabled("22");
    if e134 {
        extend_findings(&mut findings, format_string::check_line(line, line_no));
    }
    if e78 {
        extend_findings(&mut findings, command_injection::check_line(line, line_no));
    }
    if e798 {
        extend_findings(&mut findings, secrets::check_line(line, line_no));
    }
    if e502 {
        extend_findings(&mut findings, deserialize::check_line(line, line_no));
    }
    if e22 {
        extend_findings(&mut findings, path_traversal::check_line(line, line_no));
    }
    findings
}

} // verus!
