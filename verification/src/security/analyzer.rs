//! Verification of a code fragment: site extraction, exact queries, pattern
//! checks, and the policy decision on the result.

use crate::clock::{elapsed_millis, instant_now};
use crate::security::findings::{findings_view, FindingView, ProofStatus, ReportView, SecurityFinding, VerifyReport};
use crate::security::patterns;
use crate::security::patterns::pattern_findings_seq;
use crate::security::policy::{decide, spec_decide, GateAction, GateView, SecurityPolicy};
use crate::security::queries::{
    div_witness, mul_outcome, prove_buffer_copy_overflow, prove_div_zero, prove_mul_overflow,
    prove_shift_overflow, prove_two_var_mul, prove_underflow, shift_outcome, sub_outcome,
    two_var_witness, OutcomeView, Z3Outcome,
};
use crate::security::sites::allocation::extract_allocation_seq;
use crate::security::sites::buffer_copy::extract_buffer_copy_seq;
use crate::security::sites::division::extract_division_seq;
use crate::security::sites::subtraction::extract_subtraction_seq;
use crate::security::sites::{
    allocation, buffer_copy, division, markers_present_seq, security_markers_present, sites_view,
    subtraction, ExtractedSite, ExtractedSiteView,
};
use crate::text::{lines_seq, owned, split_lines};
use vstd::prelude::*;

verus! {

// ---------------------------------------------------------------------------
// Model
// ---------------------------------------------------------------------------

/// A count capped at `usize::MAX`.
pub open spec fn sat(n: nat) -> usize {
    if n > usize::MAX {
        usize::MAX
    } else {
        n as usize
    }
}

pub open spec fn outcome_status(o: OutcomeView) -> ProofStatus {
    match o {
        OutcomeView::Vulnerable(_) => ProofStatus::ProvenVulnerable,
        OutcomeView::Safe => ProofStatus::ProvenSafe,
        OutcomeView::Unknown(_) => ProofStatus::Unknown,
        OutcomeView::Skipped => ProofStatus::PatternOnly,
    }
}

pub open spec fn outcome_witness(o: OutcomeView) -> Option<Seq<char>> {
    match o {
        OutcomeView::Vulnerable(w) => Some(w),
        _ => None,
    }
}

/// One for a decided query, zero for a skipped one.
pub open spec fn calls(o: OutcomeView) -> nat {
    if o is Skipped {
        0
    } else {
        1
    }
}

pub open spec fn site_finding(
    line: usize,
    raw: Seq<char>,
    cwe: Seq<char>,
    message: Seq<char>,
    status: ProofStatus,
    witness: Option<Seq<char>>,
    fix: Option<Seq<char>>,
) -> FindingView {
    FindingView { cwe, line, column: None, site: raw, message, status, witness, fix_hint: fix }
}

pub open spec fn query_finding(
    line: usize,
    raw: Seq<char>,
    cwe: Seq<char>,
    message: Seq<char>,
    o: OutcomeView,
    fix: Seq<char>,
) -> FindingView {
    site_finding(line, raw, cwe, message, outcome_status(o), outcome_witness(o), Some(fix))
}

/// Finding and query count for one allocation site.
pub open spec fn alloc_step(p: SecurityPolicy) -> spec_fn(ExtractedSiteView) -> (Option<FindingView>, nat) {
    |e: ExtractedSiteView|
        match e {
            ExtractedSiteView::SymbolicMul(s) => if p.spec_cwe_enabled("190"@) {
                let o = mul_outcome(s.var, s.elem_size);
                (
                    Some(
                        query_finding(
                            s.line,
                            s.raw,
                            "CWE-190"@,
                            "integer overflow risk in allocation size computation"@,
                            o,
                            "guard: if (n > SIZE_MAX / element_size) return NULL;"@,
                        ),
                    ),
                    calls(o),
                )
            } else {
                (None, 0)
            },
            ExtractedSiteView::SymbolicTwoVarMul(s) => if p.spec_cwe_enabled("131"@) {
                let o = OutcomeView::Vulnerable(two_var_witness(s.var_a, s.var_b, u64::MAX, 2));
                (
                    Some(
                        query_finding(
                            s.line,
                            s.raw,
                            "CWE-131"@,
                            "incorrect buffer size from two-variable multiplication"@,
                            o,
                            "guard both factors before multiplying for allocation size"@,
                        ),
                    ),
                    calls(o),
                )
            } else {
                (None, 0)
            },
            ExtractedSiteView::SymbolicShift(s) => if p.spec_cwe_enabled("190"@) {
                let o = shift_outcome(s.var, s.shift);
                (
                    Some(
                        query_finding(
                            s.line,
                            s.raw,
                            "CWE-190"@,
                            "integer overflow risk in shift-based allocation size"@,
                            o,
                            "guard shift amount and check for overflow before allocation"@,
                        ),
                    ),
                    calls(o),
                )
            } else {
                (None, 0)
            },
            ExtractedSiteView::Inconclusive { raw, line, .. } => (
                Some(
                    site_finding(
                        line,
                        raw,
                        "CWE-190"@,
                        "allocation size could not be verified"@,
                        ProofStatus::Unknown,
                        None,
                        None,
                    ),
                ),
                0,
            ),
            ExtractedSiteView::PatternOnly { raw, line } => (
                Some(
                    site_finding(
                        line,
                        raw,
                        "CWE-190"@,
                        "allocation pattern detected but not structured"@,
                        ProofStatus::PatternOnly,
                        None,
                        None,
                    ),
                ),
                0,
            ),
            _ => (None, 0),
        }
}

/// Finding and query count for a subtraction, division or copy site.
pub open spec fn other_step() -> spec_fn(ExtractedSiteView) -> (Option<FindingView>, nat) {
    |e: ExtractedSiteView|
        match e {
            ExtractedSiteView::SymbolicSub(s) => {
                let o = sub_outcome(s.var, s.subtractor);
                (
                    Some(
                        query_finding(
                            s.line,
                            s.raw,
                            "CWE-191"@,
                            "integer underflow risk in allocation size computation"@,
                            o,
                            "guard: if (n < subtractor) return NULL;"@,
                        ),
                    ),
                    calls(o),
                )
            },
            ExtractedSiteView::SymbolicDiv(s) => {
                let o = OutcomeView::Vulnerable(div_witness(s.divisor_var));
                (
                    Some(
                        query_finding(
                            s.line,
                            s.raw,
                            "CWE-369"@,
                            "divide-by-zero risk in allocation size computation"@,
                            o,
                            "guard: if (divisor == 0) return NULL;"@,
                        ),
                    ),
                    calls(o),
                )
            },
            ExtractedSiteView::SymbolicBufferCopy(s) => {
                let o = mul_outcome(s.var, s.elem_size);
                (
                    Some(
                        query_finding(
                            s.line,
                            s.raw,
                            "CWE-680"@,
                            "integer overflow risk in buffer copy size computation"@,
                            o,
                            "guard copy size before memcpy/memset"@,
                        ),
                    ),
                    calls(o),
                )
            },
            _ => (None, 0),
        }
}

pub open spec fn opt_f(o: Option<FindingView>) -> Seq<FindingView> {
    match o {
        Some(f) => seq![f],
        None => Seq::empty(),
    }
}

/// Findings and query count of a run of sites.
pub open spec fn fold_sites(
    es: Seq<ExtractedSiteView>,
    step: spec_fn(ExtractedSiteView) -> (Option<FindingView>, nat),
) -> (Seq<FindingView>, nat)
    decreases es.len(),
{
    if es.len() == 0 {
        (Seq::empty(), 0)
    } else {
        let (f, z) = fold_sites(es.drop_last(), step);
        let (o, c) = step(es.last());
        (f + opt_f(o), z + c)
    }
}

/// Findings, sites checked and queries decided on one line.
pub struct LineResult {
    pub findings: Seq<FindingView>,
    pub sites: nat,
    pub queries: nat,
}

pub open spec fn section(
    enabled: bool,
    es: Seq<ExtractedSiteView>,
    step: spec_fn(ExtractedSiteView) -> (Option<FindingView>, nat),
) -> LineResult {
    if enabled {
        let (f, z) = fold_sites(es, step);
        LineResult { findings: f, sites: es.len(), queries: z }
    } else {
        LineResult { findings: Seq::empty(), sites: 0, queries: 0 }
    }
}

pub open spec fn join(a: LineResult, b: LineResult) -> LineResult {
    LineResult {
        findings: a.findings + b.findings,
        sites: a.sites + b.sites,
        queries: a.queries + b.queries,
    }
}

/// Everything checked on one line that shows a security marker.
pub open spec fn line_result(line: Seq<char>, ln: usize, p: SecurityPolicy) -> LineResult {
    let a = section(
        p.spec_cwe_enabled("190"@) || p.spec_cwe_enabled("131"@),
        extract_allocation_seq(line, ln),
        alloc_step(p),
    );
    let s = section(p.spec_cwe_enabled("191"@), extract_subtraction_seq(line, ln), other_step());
    let d = section(p.spec_cwe_enabled("369"@), extract_division_seq(line, ln), other_step());
    let c = section(p.spec_cwe_enabled("680"@), extract_buffer_copy_seq(line, ln), other_step());
    let pf = pattern_findings_seq(line, ln, p);
    join(
        join(join(join(a, s), d), c),
        LineResult { findings: pf, sites: pf.len(), queries: 0 },
    )
}

/// Results over the first lines of a fragment (line numbers start at 1).
pub open spec fn fragment_result(lines: Seq<Seq<char>>, p: SecurityPolicy) -> LineResult
    decreases lines.len(),
{
    if lines.len() == 0 {
        LineResult { findings: Seq::empty(), sites: 0, queries: 0 }
    } else {
        let prev = fragment_result(lines.drop_last(), p);
        let l = lines.last();
        if markers_present_seq(l) {
            join(prev, line_result(l, lines.len() as usize, p))
        } else {
            prev
        }
    }
}

// ---------------------------------------------------------------------------
// Implementation
// ---------------------------------------------------------------------------

fn sat_add(a: usize, b: usize) -> (r: usize)
    ensures
        r == sat((a + b) as nat),
{
    a.saturating_add(b)
}

proof fn lemma_sat_add(a: nat, b: nat)
    ensures
        sat((sat(a) + sat(b)) as nat) == sat(a + b),
{
}

fn z3_status(outcome: Z3Outcome) -> (r: (ProofStatus, Option<String>, bool))
    ensures
        r.0 == outcome_status(outcome@),
        r.1.deep_view() == outcome_witness(outcome@),
        r.2 == (calls(outcome@) == 1),
{
    match outcome {
        Z3Outcome::Vulnerable { witness } => (ProofStatus::ProvenVulnerable, Some(witness), true),
        Z3Outcome::Safe => (ProofStatus::ProvenSafe, None, true),
        Z3Outcome::Unknown { .. } => (ProofStatus::Unknown, None, true),
        Z3Outcome::Skipped => (ProofStatus::PatternOnly, None, false),
    }
}

fn make_finding(
    line: usize,
    site: &str,
    cwe: &str,
    message: &str,
    status: ProofStatus,
    witness: Option<String>,
    fix_hint: Option<String>,
) -> (r: SecurityFinding)
    ensures
        r@ == site_finding(line, site@, cwe@, message@, status, witness.deep_view(), fix_hint.deep_view()),
{
    SecurityFinding {
        cwe: owned(cwe),
        line,
        column: None,
        site: owned(site),
        message: owned(message),
        status,
        witness,
        fix_hint,
    }
}

fn query_result(
    line: usize,
    site: &str,
    cwe: &str,
    message: &str,
    outcome: Z3Outcome,
    fix: &str,
) -> (r: (SecurityFinding, bool))
    ensures
        r.0@ == query_finding(line, site@, cwe@, message@, outcome@, fix@),
        r.1 == (calls(outcome@) == 1),
{
    let (status, witness, called) = z3_status(outcome);
    (make_finding(line, site, cwe, message, status, witness, Some(owned(fix))), called)
}

fn opt_fv(o: &Option<SecurityFinding>) -> (r: Ghost<Option<FindingView>>)
    ensures
        r@ == match o {
            Some(f) => Some(f@),
            None => None::<FindingView>,
        },
{
    Ghost(
        match o {
            Some(f) => Some(f@),
            None => None,
        },
    )
}

fn process_allocation_site(extracted: &ExtractedSite, policy: &SecurityPolicy) -> (r: (Option<SecurityFinding>, bool))
    ensures
        (match r.0 {
            Some(f) => Some(f@),
            None => None::<FindingView>,
        }) == (alloc_step(*policy))(extracted@).0,
        (if r.1 {
            1nat
        } else {
            0nat
        }) == (alloc_step(*policy))(extracted@).1,
{
    let ghost e = extracted@;
    match extracted {
        ExtractedSite::SymbolicMul(site) => {
            if policy.cwe_enabled("190") {
                let o = prove_mul_overflow(site, policy.z3_timeout_ms);
                let (f, c) = query_result(
                    site.line,
                    site.raw.as_str(),
                    "CWE-190",
                    "integer overflow risk in allocation size computation",
                    o,
                    "guard: if (n > SIZE_MAX / element_size) return NULL;",
                );
                (Some(f), c)
            } else {
                (None, false)
            }
        },
        ExtractedSite::SymbolicTwoVarMul(site) => {
            if policy.cwe_enabled("131") {
                let o = prove_two_var_mul(site, policy.z3_timeout_ms);
                let (f, c) = query_result(
                    site.line,
                    site.raw.as_str(),
                    "CWE-131",
                    "incorrect buffer size from two-variable multiplication",
                    o,
                    "guard both factors before multiplying for allocation size",
                );
                (Some(f), c)
            } else {
                (None, false)
            }
        },
        ExtractedSite::SymbolicShift(site) => {
            if policy.cwe_enabled("190") {
                let o = prove_shift_overflow(site, policy.z3_timeout_ms);
                let (f, c) = query_result(
                    site.line,
                    site.raw.as_str(),
                    "CWE-190",
                    "integer overflow risk in shift-based allocation size",
                    o,
                    "guard shift amount and check for overflow before allocation",
                );
                (Some(f), c)
            } else {
                (None, false)
            }
        },
        ExtractedSite::Inconclusive { raw, line, .. } => {
            let f = make_finding(
                *line,
                raw.as_str(),
                "CWE-190",
                "allocation size could not be verified",
                ProofStatus::Unknown,
                None,
                None,
            );
            (Some(f), false)
        },
        ExtractedSite::PatternOnly { raw, line } => {
            let f = make_finding(
                *line,
                raw.as_str(),
                "CWE-190",
                "allocation pattern detected but not structured",
                ProofStatus::PatternOnly,
                None,
                None,
            );
            (Some(f), false)
        },
        _ => (None, false),
    }
}

fn process_other_site(extracted: &ExtractedSite, policy: &SecurityPolicy) -> (r: (Option<SecurityFinding>, bool))
    ensures
        (match r.0 {
            Some(f) => Some(f@),
            None => None::<FindingView>,
        }) == (other_step())(extracted@).0,
        (if r.1 {
            1nat
        } else {
            0nat
        }) == (other_step())(extracted@).1,
{
    match extracted {
        ExtractedSite::SymbolicSub(site) => {
            let o = prove_underflow(site, policy.z3_timeout_ms);
            let (f, c) = query_result(
                site.line,
                site.raw.as_str(),
                "CWE-191",
                "integer underflow risk in allocation size computation",
                o,
                "guard: if (n < subtractor) return NULL;",
            );
            (Some(f), c)
        },
        ExtractedSite::SymbolicDiv(site) => {
            let o = prove_div_zero(site, policy.z3_timeout_ms);
            let (f, c) = query_result(
                site.line,
                site.raw.as_str(),
                "CWE-369",
                "divide-by-zero risk in allocation size computation",
                o,
                "guard: if (divisor == 0) return NULL;",
            );
            (Some(f), c)
        },
        ExtractedSite::SymbolicBufferCopy(site) => {
            let o = prove_buffer_copy_overflow(site, policy.z3_timeout_ms);
            let (f, c) = query_result(
                site.line,
                site.raw.as_str(),
                "CWE-680",
                "integer overflow risk in buffer copy size computation",
                o,
                "guard copy size before memcpy/memset",
            );
            (Some(f), c)
        },
        _ => (None, false),
    }
}

proof fn lemma_fold_step(
    es: Seq<ExtractedSiteView>,
    i: int,
    step: spec_fn(ExtractedSiteView) -> (Option<FindingView>, nat),
)
    requires
        0 <= i < es.len(),
    ensures
        fold_sites(es.take(i + 1), step) == ({
            let (f, z) = fold_sites(es.take(i), step);
            let (o, c) = step(es[i]);
            (f + opt_f(o), z + c)
        }),
{
    assert(es.take(i + 1).drop_last() =~= es.take(i));
}

/// Process one section's sites: returns findings and the number of decided queries.
fn run_sites(sites: &Vec<ExtractedSite>, policy: &SecurityPolicy, alloc: bool) -> (r: (Vec<SecurityFinding>, usize))
    ensures
        ({
            let step = if alloc {
                alloc_step(*policy)
            } else {
                other_step()
            };
            let (f, z) = fold_sites(sites_view(sites@), step);
            findings_view(r.0@) == f && r.1 == sat(z)
        }),
{
    let ghost step = if alloc {
        alloc_step(*policy)
    } else {
        other_step()
    };
    let ghost es = sites_view(sites@);
    let mut findings: Vec<SecurityFinding> = Vec::new();
    let mut z3: usize = 0;
    let n = sites.len();
    let mut i: usize = 0;
    assert(findings_view(findings@) =~= Seq::<FindingView>::empty());
    while i < n
        invariant
            es == sites_view(sites@),
            n == sites@.len(),
            i <= n,
            step == (if alloc {
                alloc_step(*policy)
            } else {
                other_step()
            }),
            ({
                let (f, z) = fold_sites(es.take(i as int), step);
                findings_view(findings@) == f && z3 == sat(z)
            }),
        decreases n - i,
    {
        proof {
            lemma_fold_step(es, i as int, step);
        }
        let ghost prev = fold_sites(es.take(i as int), step);
        let e = &sites[i];
        assert(e@ == es[i as int]);
        let (o, c) = if alloc {
            process_allocation_site(e, policy)
        } else {
            process_other_site(e, policy)
        };
        let ghost before = findings_view(findings@);
        match o {
            Some(f) => {
                findings.push(f);
                assert(findings_view(findings@) =~= before + opt_f(Some(f@)));
            },
            None => {
                assert(findings_view(findings@) =~= before + opt_f(None));
            },
        }
        proof {
            lemma_sat_add(prev.1, if c { 1nat } else { 0nat });
        }
        z3 = sat_add(z3, if c { 1 } else { 0 });
        i += 1;
    }
    assert(es.take(n as int) =~= es);
    (findings, z3)
}

fn append_all(out: &mut Vec<SecurityFinding>, more: Vec<SecurityFinding>)
    ensures
        findings_view(final(out)@) == findings_view(old(out)@) + findings_view(more@),
{
    let mut more = more;
    let ghost a = out@;
    let ghost b = more@;
    out.append(&mut more);
    assert(findings_view(a + b) =~= findings_view(a) + findings_view(b));
}

/// One kind of site on a line: 0 allocation, 1 subtraction, 2 division, 3 copy.
pub open spec fn section_of(line: Seq<char>, ln: usize, p: SecurityPolicy, which: int) -> LineResult {
    if which == 0 {
        section(
            p.spec_cwe_enabled("190"@) || p.spec_cwe_enabled("131"@),
            extract_allocation_seq(line, ln),
            alloc_step(p),
        )
    } else if which == 1 {
        section(p.spec_cwe_enabled("191"@), extract_subtraction_seq(line, ln), other_step())
    } else if which == 2 {
        section(p.spec_cwe_enabled("369"@), extract_division_seq(line, ln), other_step())
    } else {
        section(p.spec_cwe_enabled("680"@), extract_buffer_copy_seq(line, ln), other_step())
    }
}

fn alloc_enabled(policy: &SecurityPolicy) -> (b: bool)
    ensures
        b == (policy.spec_cwe_enabled("190"@) || policy.spec_cwe_enabled("131"@)),
{
    let b = policy.any_cwe_enabled(&["190", "131"]);
    proof {
        let ids: Seq<&str> = seq!["190", "131"];
        if policy.spec_cwe_enabled("190"@) {
            assert(ids[0]@ == "190"@);
        }
        if policy.spec_cwe_enabled("131"@) {
            assert(ids[1]@ == "131"@);
        }
    }
    b
}

fn run_section(line: &str, line_no: usize, policy: &SecurityPolicy, which: u8) -> (r: (Vec<SecurityFinding>, usize, usize))
    requires
        which < 4,
    ensures
        findings_view(r.0@) == section_of(line@, line_no, *policy, which as int).findings,
        r.1 == sat(section_of(line@, line_no, *policy, which as int).sites),
        r.2 == sat(section_of(line@, line_no, *policy, which as int).queries),
{
    let enabled = if which == 0 {
        alloc_enabled(policy)
    } else if which == 1 {
        policy.cwe_enabled("191")
    } else if which == 2 {
        policy.cwe_enabled("369")
    } else {
        policy.cwe_enabled("680")
    };
    if !enabled {
        let f: Vec<SecurityFinding> = Vec::new();
        assert(findings_view(f@) =~= Seq::<FindingView>::empty());
        return (f, 0, 0);
    }
    let sites = if which == 0 {
        allocation::extract_sites(line, line_no)
    } else if which == 1 {
        subtraction::extract_sites(line, line_no)
    } else if which == 2 {
        division::extract_sites(line, line_no)
    } else {
        buffer_copy::extract_sites(line, line_no)
    };
    let (f, z) = run_sites(&sites, policy, which == 0);
    (f, sites.len(), z)
}

/// Findings, sites checked (capped) and decided queries (capped) of one line.
fn verify_line(line: &str, line_no: usize, policy: &SecurityPolicy) -> (r: (Vec<SecurityFinding>, usize, usize))
    ensures
        findings_view(r.0@) == line_result(line@, line_no, *policy).findings,
        r.1 == sat(line_result(line@, line_no, *policy).sites),
        r.2 == sat(line_result(line@, line_no, *policy).queries),
{
    let ghost p = *policy;
    let (mut findings, mut sites, mut z3) = run_section(line, line_no, policy, 0);
    let ghost acc = section_of(line@, line_no, p, 0);
    let mut which: u8 = 1;
    while which < 4
        invariant
            p == *policy,
            1 <= which <= 4,
            acc == (if which == 1 {
                section_of(line@, line_no, p, 0)
            } else if which == 2 {
                join(section_of(line@, line_no, p, 0), section_of(line@, line_no, p, 1))
            } else if which == 3 {
                join(
                    join(section_of(line@, line_no, p, 0), section_of(line@, line_no, p, 1)),
                    section_of(line@, line_no, p, 2),
                )
            } else {
                join(
                    join(
                        join(section_of(line@, line_no, p, 0), section_of(line@, line_no, p, 1)),
                        section_of(line@, line_no, p, 2),
                    ),
                    section_of(line@, line_no, p, 3),
                )
            }),
            findings_view(findings@) == acc.findings,
            sites == sat(acc.sites),
            z3 == sat(acc.queries),
        decreases 4 - which,
    {
        let (f, s, z) = run_section(line, line_no, policy, which);
        proof {
            let sec = section_of(line@, line_no, p, which as int);
            lemma_sat_add(acc.sites, sec.sites);
            lemma_sat_add(acc.queries, sec.queries);
            acc = join(acc, sec);
        }
        append_all(&mut findings, f);
        sites = sat_add(sites, s);
        z3 = sat_add(z3, z);
        which += 1;
    }
    let pf = patterns::check_line(line, line_no, policy);
    let k = pf.len();
    proof {
        lemma_sat_add(acc.sites, k as nat);
    }
    append_all(&mut findings, pf);
    sites = sat_add(sites, k);
    proof {
        let pfs = pattern_findings_seq(line@, line_no, p);
        acc = join(acc, LineResult { findings: pfs, sites: pfs.len(), queries: 0 });
    }
    (findings, sites, z3)
}

/// The report that verifying `content` at `path` under `policy` gives, up to
/// its timing.
pub open spec fn report_for(rep: ReportView, path: Seq<char>, content: Seq<char>, policy: SecurityPolicy) -> bool {
    &&& rep.path == path
    &&& policy.enabled ==> rep.findings == fragment_result(lines_seq(content), policy).findings
    &&& policy.enabled ==> rep.sites_checked == sat(fragment_result(lines_seq(content), policy).sites)
    &&& policy.enabled ==> rep.z3_invocations == sat(fragment_result(lines_seq(content), policy).queries)
    &&& !policy.enabled ==> rep.findings.len() == 0 && rep.sites_checked == 0 && rep.z3_invocations == 0
}

/// Run verification and the policy decision: the path every write or edit takes.
pub fn verify_and_decide(path: &str, content: &str, policy: &SecurityPolicy) -> (r: (VerifyReport, GateAction))
    ensures
        r.0@.path == path@,
        policy.enabled ==> r.0@.findings == fragment_result(lines_seq(content@), *policy).findings,
        policy.enabled ==> r.0@.sites_checked == sat(fragment_result(lines_seq(content@), *policy).sites),
        policy.enabled ==> r.0@.z3_invocations == sat(fragment_result(lines_seq(content@), *policy).queries),
        !policy.enabled ==> r.0@.findings.len() == 0 && r.0@.sites_checked == 0 && r.0@.z3_invocations == 0,
        r.1@ == spec_decide(r.0@, policy.enabled, policy.mode, policy.block_on_unknown),
{
    let report = verify_fragment(path, content, policy);
    let action = decide(&report, policy);
    (report, action)
}

/// Verify a code fragment (typically the new text of an edit).
pub fn verify_fragment(path: &str, content: &str, policy: &SecurityPolicy) -> (r: VerifyReport)
    ensures
        r@.path == path@,
        policy.enabled ==> r@.findings == fragment_result(lines_seq(content@), *policy).findings,
        policy.enabled ==> r@.sites_checked == sat(fragment_result(lines_seq(content@), *policy).sites),
        policy.enabled ==> r@.z3_invocations == sat(fragment_result(lines_seq(content@), *policy).queries),
        !policy.enabled ==> r@.findings.len() == 0 && r@.sites_checked == 0 && r@.z3_invocations == 0,
{
    let start = instant_now();
    let mut findings: Vec<SecurityFinding> = Vec::new();
    let mut sites_checked: usize = 0;
    let mut z3_invocations: usize = 0;
    assert(findings_view(findings@) =~= Seq::<FindingView>::empty());
    if !policy.enabled {
        return VerifyReport {
            path: owned(path),
            findings,
            sites_checked,
            z3_invocations,
            elapsed_ms: elapsed_millis(&start),
        };
    }
    let lines = split_lines(content);
    let ghost ls = lines.deep_view();
    let mut i: usize = 0;
    while i < lines.len()
        invariant
            ls == lines.deep_view(),
            ls == lines_seq(content@),
            i <= lines@.len(),
            findings_view(findings@) == fragment_result(ls.take(i as int), *policy).findings,
            sites_checked == sat(fragment_result(ls.take(i as int), *policy).sites),
            z3_invocations == sat(fragment_result(ls.take(i as int), *policy).queries),
        decreases lines@.len() - i,
    {
        let line = lines[i].as_str();
        let line_no = i + 1;
        let ghost prev = fragment_result(ls.take(i as int), *policy);
        assert(ls.take(i + 1).drop_last() =~= ls.take(i as int));
        assert(ls.take(i + 1).last() == line@);
        if security_markers_present(line) {
            let (f, s, z) = verify_line(line, line_no, policy);
            proof {
                let lr = line_result(line@, line_no, *policy);
                lemma_sat_add(prev.sites, lr.sites);
                lemma_sat_add(prev.queries, lr.queries);
            }
            append_all(&mut findings, f);
            sites_checked = sat_add(sites_checked, s);
            z3_invocations = sat_add(z3_invocations, z);
        }
        i += 1;
    }
    assert(ls.take(lines@.len() as int) =~= ls);
    VerifyReport {
        path: owned(path),
        findings,
        sites_checked,
        z3_invocations,
        elapsed_ms: elapsed_millis(&start),
    }
}

} // verus!
