//! CWE-134 format string heuristic.

use crate::matching::{captures_all, get_group, group, regex_all_matches, Groups};
use crate::security::findings::{findings_view, FindingView, SecurityFinding};
use crate::security::patterns::{collect_findings, lemma_collect_step, opt_finding, opt_finding_view, pattern_finding, pattern_finding_view};
use crate::text::{
    ascii_alpha, chars_of, concat2, contains_seq, ident_char, is_ascii_alpha, is_ident_char, starts_with_seq,
    str_contains, str_starts_with, trim_seq, trim_str,
};
use vstd::prelude::*;

verus! {

pub const PRINTF: &'static str = r"printf\s*\(\s*(\w+)\s*[\),]";

pub const SPRINTF: &'static str = r"sprintf\s*\([^,]+,\s*(\w+)\s*[\),]";

pub const FPRINTF: &'static str = r"fprintf\s*\([^,]+,\s*(\w+)\s*[\),]";

pub const FORMAT_MACRO: &'static str = r"format!\s*\(\s*(\w+)\s*[\),]";

/// A bare identifier (not a string literal) used as the format argument.
pub open spec fn user_controlled_seq(s: Seq<char>) -> bool {
    &&& s.len() > 0
    &&& !starts_with_seq(s, "\""@)
    &&& !starts_with_seq(s, "r\""@)
    &&& (s[0] == '_' || is_ascii_alpha(s[0]))
    &&& forall|i: int| 0 <= i < s.len() ==> is_ident_char(#[trigger] s[i])
}

fn is_user_controlled(s: &str) -> (b: bool)
    ensures
        b == user_controlled_seq(s@),
{
    let v = chars_of(s);
    if v.len() == 0 || str_starts_with(s, "\"") || str_starts_with(s, "r\"") {
        return false;
    }
    if !(v[0] == '_' || ascii_alpha(v[0])) {
        return false;
    }
    let mut i: usize = 0;
    while i < v.len()
        invariant
            v@ == s@,
            i <= v@.len(),
            forall|j: int| 0 <= j < i ==> is_ident_char(#[trigger] v@[j]),
        decreases v@.len() - i,
    {
        if !ident_char(v[i]) {
            return false;
        }
        i += 1;
    }
    true
}
/// The finding drawn from one match, if its argument looks user-controlled.
pub open spec fn finding_of(t: Seq<char>, line: usize) -> spec_fn(Groups) -> Option<FindingView> {
    |g: Groups|
        match group(g, 1) {
            Some(arg) => if user_controlled_seq(arg) {
                Some(
                    pattern_finding_view(
                        "CWE-134"@,
                        line,
                        t,
                        "format string may be user-controlled: "@ + arg,
                        "use a literal format string, not a variable"@,
                    ),
                )
            } else {
                None
            },
            None => None,
        }
}

pub open spec fn check_line_seq(line: Seq<char>, line_no: usize) -> Seq<FindingView> {
    let t = trim_seq(line);
    if !contains_seq(t, "printf("@) && !contains_seq(t, "sprintf("@) && !contains_seq(t, "fprintf("@)
        && !contains_seq(t, "format!("@) {
        Seq::empty()
    } else {
        collect_findings(regex_all_matches(PRINTF@, t), finding_of(t, line_no)) + collect_findings(
            regex_all_matches(SPRINTF@, t),
            finding_of(t, line_no),
        ) + collect_findings(regex_all_matches(FPRINTF@, t), finding_of(t, line_no))
            + collect_findings(regex_all_matches(FORMAT_MACRO@, t), finding_of(t, line_no))
    }
}

/// The finding of one match of a format pattern, from its captured groups.
pub fn finding_from(trimmed: &str, line_no: usize, g: &Vec<Option<String>>) -> (r: Option<SecurityFinding>)
    ensures
        opt_finding_view(r) == (finding_of(trimmed@, line_no))(g.deep_view()),
{
    let arg = get_group(g, 1)?;
    if is_user_controlled(arg.as_str()) {
        Some(
            pattern_finding(
                "CWE-134",
                line_no,
                trimmed,
                concat2("format string may be user-controlled: ", arg.as_str()),
                "use a literal format string, not a variable",
            ),
        )
    } else {
        None
    }
}

fn scan(out: &mut Vec<SecurityFinding>, pattern: &str, trimmed: &str, line_no: usize)
    ensures
        findings_view(final(out)@) == findings_view(old(out)@) + collect_findings(
            regex_all_matches(pattern@, trimmed@),
            finding_of(trimmed@, line_no),
        ),
{
    let ms = captures_all(pattern, trimmed);
    let ghost m = ms.deep_view();
    let ghost start = findings_view(out@);
    let mut i: usize = 0;
    while i < ms.len()
        invariant
            m == ms.deep_view(),
            i <= ms@.len(),
            findings_view(out@) == start + collect_findings(m.take(i as int), finding_of(trimmed@, line_no)),
        decreases ms@.len() - i,
    {
        proof {
            lemma_collect_step(m, i as int, finding_of(trimmed@, line_no));
        }
        let ghost before = findings_view(out@);
        match finding_from(trimmed, line_no, &ms[i]) {
            Some(f) => {
                out.push(f);
                assert(findings_view(out@) =~= before + opt_finding(Some(f@)));
            },
            None => {
                assert(findings_view(out@) =~= before + opt_finding(None));
            },
        }
        i += 1;
    }
    assert(m.take(ms@.len() as int) =~= m);
}

pub fn check_line(line: &str, line_no: usize) -> (r: Vec<SecurityFinding>)
    ensures
        findings_view(r@) == check_line_seq(line@, line_no),
{
    let t = trim_str(line);
    let trimmed = t.as_str();
    let mut findings: Vec<SecurityFinding> = Vec::new();
    assert(findings_view(findings@) =~= Seq::<FindingView>::empty());
    if !str_contains(trimmed, "printf(") && !str_contains(trimmed, "sprintf(") && !str_contains(
        trimmed,
        "fprintf(",
    ) && !str_contains(trimmed, "format!(") {
        return findings;
    }
    scan(&mut findings, PRINTF, trimmed, line_no);
    scan(&mut findings, SPRINTF, trimmed, line_no);
    scan(&mut findings, FPRINTF, trimmed, line_no);
    scan(&mut findings, FORMAT_MACRO, trimmed, line_no);
    findings
}

} // verus!
