//! CWE-798 hardcoded credentials heuristic.

use crate::matching::{captures_all, get_group, group, regex_all_matches, Groups};
use crate::security::findings::{findings_view, FindingView, SecurityFinding};
use crate::security::patterns::{collect_findings, lemma_collect_step, opt_finding, opt_finding_view, pattern_finding, pattern_finding_view};
use crate::text::{ascii_lower_seq, ascii_lowercase, concat2, contains_seq, str_contains, str_eq, trim_seq, trim_str};
use vstd::prelude::*;
use vstd::utf8::encode_utf8;

verus! {

/// Values shorter than this many bytes are not reported.
pub const MIN_SECRET_LEN: usize = 8;

pub const SECRET: &'static str =
    r#"(?i)(password|api_key|apikey|secret|token|auth_token)\s*=\s*["']([^"']+)["']"#;

/// Well-known placeholder values (case-insensitive).
pub open spec fn placeholder_seq(value: Seq<char>) -> bool {
    let lower = ascii_lower_seq(value);
    contains_seq(lower, "changeme"@) || contains_seq(lower, "placeholder"@) || contains_seq(
        lower,
        "example"@,
    ) || lower == "password"@ || lower == "secret"@
}

fn is_placeholder(value: &str) -> (b: bool)
    ensures
        b == placeholder_seq(value@),
{
    let lower = ascii_lowercase(value);
    let l = lower.as_str();
    str_contains(l, "changeme") || str_contains(l, "placeholder") || str_contains(l, "example")
        || str_eq(l, "password") || str_eq(l, "secret")
}

pub open spec fn or_empty(o: Option<Seq<char>>) -> Seq<char> {
    match o {
        Some(s) => s,
        None => Seq::empty(),
    }
}

/// A `name = "value"` assignment whose value is long enough and not a placeholder.
pub open spec fn finding_of(t: Seq<char>, line: usize) -> spec_fn(Groups) -> Option<FindingView> {
    |g: Groups|
        {
            let name = or_empty(group(g, 1));
            let value = or_empty(group(g, 2));
            if (encode_utf8(value).len() as usize) < MIN_SECRET_LEN || placeholder_seq(value) {
                None
            } else {
                Some(
                    pattern_finding_view(
                        "CWE-798"@,
                        line,
                        t,
                        "hardcoded credential detected: "@ + name,
                        "load secrets from environment or a secret manager"@,
                    ),
                )
            }
        }
}

pub open spec fn check_line_seq(line: Seq<char>, line_no: usize) -> Seq<FindingView> {
    let t = trim_seq(line);
    collect_findings(regex_all_matches(SECRET@, t), finding_of(t, line_no))
}

/// The finding of one `name = "value"` match, from its captured groups.
pub fn finding_from(trimmed: &str, line_no: usize, g: &Vec<Option<String>>) -> (r: Option<SecurityFinding>)
    ensures
        opt_finding_view(r) == (finding_of(trimmed@, line_no))(g.deep_view()),
{
    let name = match get_group(g, 1) {
        Some(s) => s,
        None => String::new(),
    };
    let value = match get_group(g, 2) {
        Some(s) => s,
        None => String::new(),
    };
    if value.as_str().len() < MIN_SECRET_LEN {
        return None;
    }
    if is_placeholder(value.as_str()) {
        return None;
    }
    Some(
        pattern_finding(
            "CWE-798",
            line_no,
            trimmed,
            concat2("hardcoded credential detected: ", name.as_str()),
            "load secrets from environment or a secret manager",
        ),
    )
}

pub fn check_line(line: &str, line_no: usize) -> (r: Vec<SecurityFinding>)
    ensures
        findings_view(r@) == check_line_seq(line@, line_no),
{
    let t = trim_str(line);
    let trimmed = t.as_str();
    let mut out: Vec<SecurityFinding> = Vec::new();
    let ms = captures_all(SECRET, trimmed);
    let ghost m = ms.deep_view();
    let mut i: usize = 0;
    assert(findings_view(out@) =~= Seq::<FindingView>::empty());
    while i < ms.len()
        invariant
            m == ms.deep_view(),
            i <= ms@.len(),
            findings_view(out@) == collect_findings(m.take(i as int), finding_of(trimmed@, line_no)),
        decreases ms@.len() - i,
    {
        proof {
            lemma_collect_step(m, i as int, finding_of(trimmed@, line_no));
        }
        let ghost before = findings_view(out@);
        match finding_from(trimmed, line_no, &ms[i]) {
            Some(f) => {
                out.push(f);
                assert(findings_view(out@) =~= before + opt_finding(Some(f@)));
            },
            None => {
                assert(findings_view(out@) =~= before + opt_finding(None));
            },
        }
        i += 1;
    }
    assert(m.take(ms@.len() as int) =~= m);
    out
}

} // verus!
