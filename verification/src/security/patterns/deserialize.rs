//! CWE-502 unsafe deserialization heuristic.

use crate::security::findings::{findings_view, FindingView, SecurityFinding};
use crate::security::patterns::{pattern_finding, pattern_finding_view};
use crate::text::{ascii_lower_seq, ascii_lowercase, concat2, contains_seq, str_contains, trim_seq, trim_str};
use vstd::prelude::*;

verus! {

/// The deserialization call recognized in a lowercased line, if any.
pub open spec fn label_seq(lower: Seq<char>) -> Option<Seq<char>> {
    if contains_seq(lower, "pickle.loads"@) || contains_seq(lower, "pickle.load("@) {
        Some("pickle.loads"@)
    } else if contains_seq(lower, "yaml.unsafe_load"@) || contains_seq(lower, "yaml.load("@) {
        Some("yaml.load"@)
    } else if contains_seq(lower, "unserialize("@) {
        Some("unserialize"@)
    } else if contains_seq(lower, "readobject("@) {
        Some("readObject"@)
    } else if contains_seq(lower, "marshal.loads"@) {
        Some("marshal.loads"@)
    } else {
        None
    }
}

pub open spec fn check_line_seq(line: Seq<char>, line_no: usize) -> Seq<FindingView> {
    let t = trim_seq(line);
    match label_seq(ascii_lower_seq(t)) {
        Some(label) => seq![
            pattern_finding_view(
                "CWE-502"@,
                line_no,
                t,
                "unsafe deserialization via "@ + label,
                "deserialize only trusted data with safe parsers"@,
            ),
        ],
        None => Seq::empty(),
    }
}

pub fn check_line(line: &str, line_no: usize) -> (r: Vec<SecurityFinding>)
    ensures
        findings_view(r@) == check_line_seq(line@, line_no),
{
    let t = trim_str(line);
    let trimmed = t.as_str();
    let lower_s = ascii_lowercase(trimmed);
    let lower = lower_s.as_str();
    let label: &str = if str_contains(lower, "pickle.loads") || str_contains(lower, "pickle.load(") {
        "pickle.loads"
    } else if str_contains(lower, "yaml.unsafe_load") || str_contains(lower, "yaml.load(") {
        "yaml.load"
    } else if str_contains(lower, "unserialize(") {
        "unserialize"
    } else if str_contains(lower, "readobject(") {
        "readObject"
    } else if str_contains(lower, "marshal.loads") {
        "marshal.loads"
    } else {
        let r: Vec<SecurityFinding> = Vec::new();
        assert(findings_view(r@) =~= Seq::<FindingView>::empty());
        return r;
    };
    let f = pattern_finding(
        "CWE-502",
        line_no,
        trimmed,
        concat2("unsafe deserialization via ", label),
        "deserialize only trusted data with safe parsers",
    );
    let r = vec![f];
    assert(findings_view(r@) =~= check_line_seq(line@, line_no));
    r
}

} // verus!
