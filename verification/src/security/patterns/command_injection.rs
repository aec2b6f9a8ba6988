//! CWE-78 OS command injection heuristic.

use crate::matching::{captures_all, get_group, group, regex_all_matches, Groups};
use crate::security::findings::{findings_view, FindingView, SecurityFinding};
use crate::security::patterns::{collect_findings, lemma_collect_step, opt_finding, opt_finding_view, pattern_finding, pattern_finding_view};
use crate::text::{ascii_alpha, concat2, contains_seq, is_ascii_alpha, str_contains, trim_seq, trim_str, chars_of};
use vstd::prelude::*;

verus! {

pub const SYSTEM: &'static str = r"system\s*\(\s*(\w+)\s*\)";

pub const EXEC: &'static str = r"exec\s*\(\s*(\w+)\s*[\),]";

pub const POPEN: &'static str = r"popen\s*\(\s*(\w+)\s*[\),]";

pub const SUBPROCESS: &'static str = r"subprocess\.(?:call|run|Popen)\s*\(\s*(\w+)\s*[\),]";

/// Not a quoted literal, and starting like an identifier.
pub open spec fn user_controlled_seq(s: Seq<char>) -> bool {
    s.len() > 0 && s[0] != '"' && s[0] != '\'' && (s[0] == '_' || is_ascii_alpha(s[0]))
}

fn is_user_controlled(s: &str) -> (b: bool)
    ensures
        b == user_controlled_seq(s@),
{
    let v = chars_of(s);
    v.len() > 0 && v[0] != '"' && v[0] != '\'' && (v[0] == '_' || ascii_alpha(v[0]))
}

/// The finding drawn from one match, if its argument looks user-controlled.
pub open spec fn finding_of(t: Seq<char>, line: usize) -> spec_fn(Groups) -> Option<FindingView> {
    |g: Groups|
        match group(g, 1) {
            Some(arg) => if user_controlled_seq(arg) {
                Some(
                    pattern_finding_view(
                        "CWE-78"@,
                        line,
                        t,
                        "command may include user-controlled input: "@ + arg,
                        "avoid passing user input to shell commands"@,
                    ),
                )
            } else {
                None
            },
            None => None,
        }
}

pub open spec fn check_line_seq(line: Seq<char>, line_no: usize) -> Seq<FindingView> {
    let t = trim_seq(line);
    if !contains_seq(t, "system("@) && !contains_seq(t, "exec("@) && !contains_seq(t, "popen("@)
        && !contains_seq(t, "subprocess"@) {
        Seq::empty()
    } else {
        collect_findings(regex_all_matches(SYSTEM@, t), finding_of(t, line_no)) + collect_findings(
            regex_all_matches(EXEC@, t),
            finding_of(t, line_no),
        ) + collect_findings(regex_all_matches(POPEN@, t), finding_of(t, line_no))
            + collect_findings(regex_all_matches(SUBPROCESS@, t), finding_of(t, line_no))
    }
}

/// The finding of one match of a command pattern, from its captured groups.
pub fn finding_from(trimmed: &str, line_no: usize, g: &Vec<Option<String>>) -> (r: Option<SecurityFinding>)
    ensures
        opt_finding_view(r) == (finding_of(trimmed@, line_no))(g.deep_view()),
{
    let arg = get_group(g, 1)?;
    if is_user_controlled(arg.as_str()) {
        Some(
            pattern_finding(
                "CWE-78",
                line_no,
                trimmed,
                concat2("command may include user-controlled input: ", arg.as_str()),
                "avoid passing user input to shell commands",
            ),
        )
    } else {
        None
    }
}

fn scan(out: &mut Vec<SecurityFinding>, pattern: &str, trimmed: &str, line_no: usize)
    ensures
        findings_view(final(out)@) == findings_view(old(out)@) + collect_findings(
            regex_all_matches(pattern@, trimmed@),
            finding_of(trimmed@, line_no),
        ),
{
    let ms = captures_all(pattern, trimmed);
    let ghost m = ms.deep_view();
    let ghost start = findings_view(out@);
    let mut i: usize = 0;
    while i < ms.len()
        invariant
            m == ms.deep_view(),
            i <= ms@.len(),
            findings_view(out@) == start + collect_findings(m.take(i as int), finding_of(trimmed@, line_no)),
        decreases ms@.len() - i,
    {
        proof {
            lemma_collect_step(m, i as int, finding_of(trimmed@, line_no));
        }
        let ghost before = findings_view(out@);
        match finding_from(trimmed, line_no, &ms[i]) {
            Some(f) => {
                out.push(f);
                assert(findings_view(out@) =~= before + opt_finding(Some(f@)));
            },
            None => {
                assert(findings_view(out@) =~= before + opt_finding(None));
            },
        }
        i += 1;
    }
    assert(m.take(ms@.len() as int) =~= m);
}

pub fn check_line(line: &str, line_no: usize) -> (r: Vec<SecurityFinding>)
    ensures
        findings_view(r@) == check_line_seq(line@, line_no),
{
    let t = trim_str(line);
    let trimmed = t.as_str();
    let mut findings: Vec<SecurityFinding> = Vec::new();
    assert(findings_view(findings@) =~= Seq::<FindingView>::empty());
    if !str_contains(trimmed, "system(") && !str_contains(trimmed, "exec(") && !str_contains(
        trimmed,
        "popen(",
    ) && !str_contains(trimmed, "subprocess") {
        return findings;
    }
    scan(&mut findings, SYSTEM, trimmed, line_no);
    scan(&mut findings, EXEC, trimmed, line_no);
    scan(&mut findings, POPEN, trimmed, line_no);
    scan(&mut findings, SUBPROCESS, trimmed, line_no);
    findings
}

} // verus!
