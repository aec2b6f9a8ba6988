use codebeacon::security::findings::ProofStatus;
use codebeacon::security::analyzer::{verify_and_decide, verify_fragment};
use codebeacon::security::patterns::{command_injection, deserialize, format_string, path_traversal, secrets};
use codebeacon::security::policy::SecurityPolicy;
use codebeacon::security::queries::{
    prove_div_zero, prove_mul_overflow, prove_shift_overflow, prove_underflow, Z3Outcome,
};
use codebeacon::security::sites::{AllocKind, AllocationSite, DivisionSite, ShiftSite, SubtractionSite};

fn policy() -> SecurityPolicy {
    SecurityPolicy {
        enabled: true,
        ..Default::default()
    }
}

#[test]
fn detects_malloc_overflow_candidate() {
    let code = "int* p = malloc(n * sizeof(int));";
    let report = verify_fragment("a.c", code, &policy());
    assert_eq!(report.sites_checked, 1);
    assert_eq!(report.findings.len(), 1);
    assert_eq!(report.findings[0].cwe, "CWE-190");
    assert_eq!(report.findings[0].status, ProofStatus::ProvenVulnerable);
    assert!(report.findings[0].witness.is_some());
    assert!(report.z3_invocations > 0);
}

#[test]
fn skips_safe_looking_line() {
    let report = verify_fragment("a.c", "return x + 1;", &policy());
    assert_eq!(report.sites_checked, 0);
    assert!(report.findings.is_empty());
}

#[test]
fn constant_only_malloc_no_finding() {
    let report = verify_fragment("a.c", "int* p = malloc(100 * sizeof(int));", &policy());
    assert_eq!(report.sites_checked, 0);
    assert!(report.findings.is_empty());
}

#[test]
fn two_variables_uses_cwe131() {
    let code = "void* p = malloc(a * b);";
    let report = verify_fragment("a.c", code, &policy());
    assert_eq!(report.sites_checked, 1);
    assert_eq!(report.findings[0].cwe, "CWE-131");
    assert_eq!(report.findings[0].status, ProofStatus::ProvenVulnerable);
}

#[test]
fn subtraction_cwe191() {
    let report = verify_fragment("a.c", "p = malloc(n - 4);", &policy());
    assert_eq!(report.findings[0].cwe, "CWE-191");
}

#[test]
fn division_cwe369() {
    let report = verify_fragment("a.c", "p = malloc(total / count);", &policy());
    assert_eq!(report.findings[0].cwe, "CWE-369");
}

#[test]
fn memcpy_cwe680() {
    let report = verify_fragment("a.c", "memcpy(dst, src, n * 4);", &policy());
    assert_eq!(report.findings[0].cwe, "CWE-680");
}

#[test]
fn pattern_cwe_disabled_by_default() {
    let report = verify_fragment("a.c", "printf(user_input);", &policy());
    assert!(report.findings.is_empty());
}

#[test]
fn pattern_cwe_enabled_when_configured() {
    let mut p = policy();
    p.enabled_cwes.push("134".into());
    let report = verify_fragment("a.c", "printf(user_input);", &p);
    assert_eq!(report.findings[0].cwe, "CWE-134");
    assert_eq!(report.findings[0].status, ProofStatus::PatternOnly);
}

#[test]
fn proven_vulnerable_has_witness() {
    let report = verify_fragment("a.c", "char* buf = malloc(count * 4);", &policy());
    assert_eq!(report.findings[0].status, ProofStatus::ProvenVulnerable);
    assert!(report.findings[0].witness.as_ref().unwrap().contains("count="));
    assert_eq!(
        report.findings[0].witness.as_deref(),
        Some("count=18446744073709551615 (count*4 overflows 64-bit)")
    );
}

#[test]
fn disabled_policy_checks_nothing() {
    let report = verify_fragment("a.c", "int* p = malloc(n * sizeof(int));", &SecurityPolicy::default());
    assert_eq!(report.sites_checked, 0);
    assert!(report.findings.is_empty());
    assert_eq!(report.path, "a.c");
}

#[test]
fn findings_carry_line_numbers() {
    let code = "int x = 0;\r\nreturn x + 1;\nint* p = malloc(n * sizeof(int));\n";
    let (report, action) = verify_and_decide("alloc.c", code, &policy());
    assert_eq!(report.findings.len(), 1);
    assert_eq!(report.findings[0].line, 3);
    assert_eq!(action.label(), "block");
    assert!(action.message().unwrap().contains("CWE-190"));
    assert!(action.message().unwrap().contains("PROVEN"));
}

fn site(var: &str, elem_size: u64) -> AllocationSite {
    AllocationSite {
        raw: format!("malloc({var} * {elem_size})"),
        line: 1,
        kind: AllocKind::Malloc,
        var: var.to_string(),
        elem_size,
        elem_size_source: elem_size.to_string(),
    }
}

#[test]
fn malloc_n_times_four_is_vulnerable() {
    let outcome = prove_mul_overflow(&site("n", 4), 5_000);
    assert!(matches!(outcome, Z3Outcome::Vulnerable { .. }));
}

#[test]
fn element_size_one_is_safe_and_zero_unknown() {
    assert_eq!(prove_mul_overflow(&site("n", 1), 5_000), Z3Outcome::Safe);
    assert_eq!(
        prove_mul_overflow(&site("n", 0), 5_000),
        Z3Outcome::Unknown { reason: "element size is zero".into() }
    );
}

#[test]
fn division_by_zero_is_vulnerable() {
    let site = DivisionSite {
        raw: "malloc(total / count)".into(),
        line: 1,
        dividend_var: "total".into(),
        divisor_var: "count".into(),
    };
    let outcome = prove_div_zero(&site, 5_000);
    assert_eq!(outcome, Z3Outcome::Vulnerable { witness: "count=0 (division by zero)".into() });
}

#[test]
fn subtraction_underflow_is_vulnerable() {
    let site = SubtractionSite {
        raw: "malloc(n - 4)".into(),
        line: 1,
        var: "n".into(),
        subtractor: 4,
        subtractor_source: "4".into(),
    };
    let outcome = prove_underflow(&site, 5_000);
    assert_eq!(outcome, Z3Outcome::Vulnerable { witness: "n=0 (n-4 underflows 64-bit)".into() });
}

#[test]
fn shift_by_zero_is_safe() {
    let mk = |shift| ShiftSite { raw: "x".into(), line: 1, kind: AllocKind::Malloc, var: "n".into(), shift };
    assert_eq!(prove_shift_overflow(&mk(0), 1), Z3Outcome::Safe);
    assert!(matches!(prove_shift_overflow(&mk(4), 1), Z3Outcome::Vulnerable { .. }));
    assert!(matches!(prove_shift_overflow(&mk(70), 1), Z3Outcome::Vulnerable { .. }));
}

#[test]
fn detects_system_variable() {
    let findings = command_injection::check_line("system(cmd);", 1);
    assert_eq!(findings.len(), 1);
    assert_eq!(findings[0].cwe, "CWE-78");
}

#[test]
fn detects_pickle() {
    let findings = deserialize::check_line("data = pickle.loads(raw)", 1);
    assert_eq!(findings.len(), 1);
    assert_eq!(findings[0].cwe, "CWE-502");
}

#[test]
fn detects_printf_variable() {
    let findings = format_string::check_line("printf(user_input);", 1);
    assert_eq!(findings.len(), 1);
    assert_eq!(findings[0].cwe, "CWE-134");
}

#[test]
fn literal_format_is_safe() {
    assert!(format_string::check_line(r#"printf("%s", name);"#, 1).is_empty());
}

#[test]
fn detects_path_traversal_concat() {
    let findings = path_traversal::check_line(r#"open(base + "../etc/passwd")"#, 1);
    assert_eq!(findings.len(), 1);
    assert_eq!(findings[0].cwe, "CWE-22");
}

#[test]
fn detects_api_key() {
    let findings = secrets::check_line(r#"api_key = "sk-abcdefghijklmnop";"#, 1);
    assert_eq!(findings.len(), 1);
    assert_eq!(findings[0].cwe, "CWE-798");
}

#[test]
fn placeholder_is_ignored() {
    assert!(secrets::check_line(r#"password = "changeme";"#, 1).is_empty());
}

#[test]
fn short_secret_is_ignored() {
    assert!(secrets::check_line(r#"token = "abc";"#, 1).is_empty());
}

#[test]
fn findings_from_captured_groups() {
    let g = vec![Some("system(cmd)".to_string()), Some("cmd".to_string())];
    let f = command_injection::finding_from("system(cmd);", 4, &g).unwrap();
    assert_eq!(f.line, 4);
    assert!(f.message.ends_with("cmd"));
    let short = vec![Some("x".to_string()), Some("password".to_string()), Some("abc".to_string())];
    assert!(secrets::finding_from("password = \"abc\"", 1, &short).is_none());
}
