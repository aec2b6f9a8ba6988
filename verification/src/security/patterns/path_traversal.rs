//! CWE-22 path traversal heuristic.

use crate::matching::{captures, get_group, group, regex_first_match, Groups};
use crate::security::findings::{findings_view, FindingView, SecurityFinding};
use crate::security::patterns::{pattern_finding, pattern_finding_view};
use crate::text::{concat3, contains_seq, identifier, is_identifier_seq, str_contains, trim_seq, trim_str};
use vstd::prelude::*;

verus! {

pub const PATH_CONCAT: &'static str = r#"(\w+)\s*\+\s*["']\.\./"#;

pub const PATH_NEW: &'static str = r"Path::new\s*\(\s*&?(\w+)\s*\)";

pub const OPEN_VAR: &'static str = r"open\s*\(\s*(\w+)\s*[\),]";

pub open spec fn make_view(t: Seq<char>, line: usize, var: Seq<char>, detail: Seq<char>) -> FindingView {
    pattern_finding_view(
        "CWE-22"@,
        line,
        t,
        detail + ": "@ + var,
        "validate and canonicalize paths before file access"@,
    )
}

fn make_finding(site: &str, line_no: usize, var: &str, detail: &str) -> (r: SecurityFinding)
    ensures
        r@ == make_view(site@, line_no, var@, detail@),
{
    pattern_finding(
        "CWE-22",
        line_no,
        site,
        concat3(detail, ": ", var),
        "validate and canonicalize paths before file access",
    )
}

/// The finding of a `var + "../"` match, from its captured groups.
pub open spec fn concat_of_groups(t: Seq<char>, line: usize, g: Groups) -> Seq<FindingView> {
    let var = match group(g, 1) {
        Some(v) => v,
        None => Seq::empty(),
    };
    if is_identifier_seq(var) {
        seq![make_view(t, line, var, "path concatenation with ../"@)]
    } else {
        Seq::empty()
    }
}

/// A `../` sequence: concatenated onto an identifier, or literal.
pub open spec fn traversal_seq(t: Seq<char>, line: usize) -> Seq<FindingView> {
    if contains_seq(t, "../"@) {
        match regex_first_match(PATH_CONCAT@, t) {
            Some(g) => concat_of_groups(t, line, g),
            None => seq![make_view(t, line, "path"@, "literal path traversal sequence"@)],
        }
    } else {
        Seq::empty()
    }
}

/// The finding of a path-taking call's match, from its groups: the
/// identifier passed as the path.
pub open spec fn var_of_groups(t: Seq<char>, line: usize, g: Groups, detail: Seq<char>) -> Seq<FindingView> {
    match group(g, 1) {
        Some(var) => if is_identifier_seq(var) {
            seq![make_view(t, line, var, detail)]
        } else {
            Seq::empty()
        },
        None => Seq::empty(),
    }
}

/// An identifier passed as a path to the call that `pattern` matches.
pub open spec fn var_path_seq(t: Seq<char>, line: usize, pattern: Seq<char>, detail: Seq<char>) -> Seq<FindingView> {
    match regex_first_match(pattern, t) {
        Some(g) => var_of_groups(t, line, g, detail),
        None => Seq::empty(),
    }
}

/// The finding of a `var + "../"` match, from its captured groups.
pub fn concat_finding(trimmed: &str, line_no: usize, g: &Vec<Option<String>>) -> (r: Vec<SecurityFinding>)
    ensures
        findings_view(r@) == concat_of_groups(trimmed@, line_no, g.deep_view()),
{
    let var = match get_group(g, 1) {
        Some(v) => v,
        None => String::new(),
    };
    let mut out: Vec<SecurityFinding> = Vec::new();
    if identifier(var.as_str()) {
        out.push(make_finding(trimmed, line_no, var.as_str(), "path concatenation with ../"));
    }
    assert(findings_view(out@) =~= concat_of_groups(trimmed@, line_no, g.deep_view()));
    out
}

/// The finding of a path-taking call's match, from its captured groups.
pub fn var_finding(trimmed: &str, line_no: usize, g: &Vec<Option<String>>, detail: &str) -> (r: Vec<SecurityFinding>)
    ensures
        findings_view(r@) == var_of_groups(trimmed@, line_no, g.deep_view(), detail@),
{
    let mut out: Vec<SecurityFinding> = Vec::new();
    if let Some(var) = get_group(g, 1) {
        if identifier(var.as_str()) {
            out.push(make_finding(trimmed, line_no, var.as_str(), detail));
        }
    }
    assert(findings_view(out@) =~= var_of_groups(trimmed@, line_no, g.deep_view(), detail@));
    out
}

pub open spec fn check_line_seq(line: Seq<char>, line_no: usize) -> Seq<FindingView> {
    let t = trim_seq(line);
    traversal_seq(t, line_no) + var_path_seq(
        t,
        line_no,
        PATH_NEW@,
        "user-controlled path in Path::new"@,
    ) + var_path_seq(t, line_no, OPEN_VAR@, "user-controlled path in open()"@)
}

fn var_path(out: &mut Vec<SecurityFinding>, trimmed: &str, line_no: usize, pattern: &str, detail: &str)
    ensures
        findings_view(final(out)@) == findings_view(old(out)@) + var_path_seq(
            trimmed@,
            line_no,
            pattern@,
            detail@,
        ),
{
    let ghost before = findings_view(out@);
    if let Some(g) = captures(pattern, trimmed) {
        let mut more = var_finding(trimmed, line_no, &g, detail);
        let ghost extra = findings_view(more@);
        out.append(&mut more);
        assert(findings_view(out@) =~= before + extra);
    } else {
        assert(findings_view(out@) =~= before + var_path_seq(trimmed@, line_no, pattern@, detail@));
    }
}

pub fn check_line(line: &str, line_no: usize) -> (r: Vec<SecurityFinding>)
    ensures
        findings_view(r@) == check_line_seq(line@, line_no),
{
    let t = trim_str(line);
    let trimmed = t.as_str();
    let mut findings: Vec<SecurityFinding> = Vec::new();
    if str_contains(trimmed, "../") {
        match captures(PATH_CONCAT, trimmed) {
            Some(g) => {
                findings = concat_finding(trimmed, line_no, &g);
            },
            None => {
                findings.push(
                    make_finding(trimmed, line_no, "path", "literal path traversal sequence"),
                );
            },
        }
    }
    assert(findings_view(findings@) =~= traversal_seq(trimmed@, line_no));
    var_path(&mut findings, trimmed, line_no, PATH_NEW, "user-controlled path in Path::new");
    var_path(&mut findings, trimmed, line_no, OPEN_VAR, "user-controlled path in open()");
    findings
}

} // verus!
