use codebeacon::security::cwe::{default_enabled_cwes, normalize_cwe_id};
use codebeacon::security::findings::{ProofStatus, SecurityFinding, VerifyReport};
use codebeacon::security::policy::{decide, GateAction, PolicyMode, SecurityPolicy};

fn finding(status: ProofStatus, witness: Option<&str>) -> SecurityFinding {
    SecurityFinding {
        cwe: "CWE-190".into(),
        line: 3,
        column: None,
        site: "malloc(n * sizeof(int))".into(),
        message: "integer overflow in allocation size".into(),
        status,
        witness: witness.map(str::to_string),
        fix_hint: None,
    }
}

fn report(findings: Vec<SecurityFinding>) -> VerifyReport {
    VerifyReport {
        path: "src/auth.c".into(),
        findings,
        sites_checked: 1,
        z3_invocations: 1,
        elapsed_ms: 12,
    }
}

#[test]
fn default_includes_z3_not_pattern() {
    let set = default_enabled_cwes();
    let has = |id: &str| set.iter().any(|s| s == id);
    assert!(has("190"));
    assert!(has("131"));
    assert!(!has("78"));
    assert!(!has("134"));
}

#[test]
fn normalize_strips_prefix() {
    assert_eq!(normalize_cwe_id("CWE-190"), "190");
    assert_eq!(normalize_cwe_id("190"), "190");
}

#[test]
fn proven_vulnerable_always_blocks() {
    let policy = SecurityPolicy {
        enabled: true,
        mode: PolicyMode::Permissive,
        ..Default::default()
    };
    let action = decide(
        &report(vec![finding(ProofStatus::ProvenVulnerable, Some("n=1073741825"))]),
        &policy,
    );
    assert!(!action.allows_write());
}

#[test]
fn proven_safe_allows() {
    let policy = SecurityPolicy {
        enabled: true,
        ..Default::default()
    };
    let action = decide(&report(vec![finding(ProofStatus::ProvenSafe, None)]), &policy);
    assert!(action.allows_write());
}

#[test]
fn unknown_strict_blocks() {
    let policy = SecurityPolicy {
        enabled: true,
        mode: PolicyMode::Strict,
        ..Default::default()
    };
    let action = decide(&report(vec![finding(ProofStatus::Unknown, None)]), &policy);
    assert!(!action.allows_write());
}

#[test]
fn unknown_balanced_warns_by_default() {
    let policy = SecurityPolicy {
        enabled: true,
        mode: PolicyMode::Balanced,
        block_on_unknown: false,
        ..Default::default()
    };
    let action = decide(&report(vec![finding(ProofStatus::Unknown, None)]), &policy);
    assert!(matches!(action, GateAction::Warn { .. }));
    assert!(action.allows_write());
}

#[test]
fn unknown_balanced_can_block_when_configured() {
    let policy = SecurityPolicy {
        enabled: true,
        mode: PolicyMode::Balanced,
        block_on_unknown: true,
        ..Default::default()
    };
    let action = decide(&report(vec![finding(ProofStatus::Unknown, None)]), &policy);
    assert!(!action.allows_write());
}

#[test]
fn pattern_only_permissive_allows() {
    let policy = SecurityPolicy {
        enabled: true,
        mode: PolicyMode::Permissive,
        ..Default::default()
    };
    let action = decide(&report(vec![finding(ProofStatus::PatternOnly, None)]), &policy);
    assert!(action.allows_write());
}

#[test]
fn block_message_lists_findings_with_witness() {
    let policy = SecurityPolicy {
        enabled: true,
        ..Default::default()
    };
    let action = decide(
        &report(vec![
            finding(ProofStatus::ProvenVulnerable, Some("n=7")),
            finding(ProofStatus::PatternOnly, None),
        ]),
        &policy,
    );
    let expected = "BLOCKED: security verification found issues in `src/auth.c`\n\
checked 1 site(s), 1 Z3 call(s), 12 ms\n\n\
Blocking:\n  1. line 3 CWE-190 [PROVEN] integer overflow in allocation size witness=n=7\n\
Warnings:\n  1. line 3 CWE-190 [PATTERN] integer overflow in allocation size (pattern only — Z3 not run)\n\
\nFix the issue or run `verify_security` after editing. Strict mode also blocks inconclusive (UNKNOWN) results.\n";
    assert_eq!(action, GateAction::Block { message: expected.to_string() });
    assert_eq!(action.label(), "block");
    assert_eq!(action.message(), Some(expected));
}

#[test]
fn disabled_policy_allows_everything() {
    let policy = SecurityPolicy::default();
    let action = decide(&report(vec![finding(ProofStatus::ProvenVulnerable, Some("n=7"))]), &policy);
    assert_eq!(action, GateAction::Allow);
    assert_eq!(action.label(), "allow");
    assert_eq!(action.message(), None);
}

#[test]
fn warning_message_for_unknown() {
    let policy = SecurityPolicy {
        enabled: true,
        ..Default::default()
    };
    let action = decide(&report(vec![finding(ProofStatus::Unknown, None)]), &policy);
    assert_eq!(
        action.message(),
        Some("WARNING: security verification found issues in `src/auth.c`\nchecked 1 site(s), 1 Z3 call(s), 12 ms\n\nWarnings:\n  1. line 3 CWE-190 [UNKNOWN] integer overflow in allocation size\n")
    );
    assert_eq!(action.label(), "warn");
}

#[test]
fn mode_parse_is_case_insensitive() {
    assert_eq!(PolicyMode::parse("STRICT"), Some(PolicyMode::Strict));
    assert_eq!(PolicyMode::parse("balanced"), Some(PolicyMode::Balanced));
    assert_eq!(PolicyMode::parse("Permissive"), Some(PolicyMode::Permissive));
    assert_eq!(PolicyMode::parse("lenient"), None);
}

#[test]
fn cwe_enabled_normalizes_ids() {
    let policy = SecurityPolicy::default();
    assert!(policy.cwe_enabled("CWE-190"));
    assert!(policy.cwe_enabled(" cwe-680 "));
    assert!(!policy.cwe_enabled("CWE-78"));
    assert!(policy.any_cwe_enabled(&["78", "131"]));
    assert!(!policy.any_cwe_enabled(&["78", "22"]));
}

#[test]
fn report_helpers() {
    let r = report(vec![
        finding(ProofStatus::ProvenSafe, None),
        finding(ProofStatus::ProvenVulnerable, Some("n=1")),
    ]);
    assert!(r.has_findings());
    assert_eq!(r.blocking_findings().len(), 1);
    let safe = report(vec![finding(ProofStatus::ProvenSafe, None)]);
    assert!(!safe.has_findings());
    assert!(safe.blocking_findings().is_empty());
    assert!(finding(ProofStatus::ProvenVulnerable, None).is_blocking_candidate());
    assert!(!finding(ProofStatus::Unknown, None).is_blocking_candidate());
    assert!(finding(ProofStatus::Unknown, None).needs_attention());
}
