//! The text side of the MCP write, edit and security tools: replacing the
//! first occurrence of a string, the security decision on new text, and the
//! messages the tools answer with.

use crate::security::analyzer::{report_for, verify_and_decide};
use crate::mcp::tools::{safe_path, safe_path_spec, string_result_view};
use crate::paths::{join_seq, path_join};
use crate::security::findings::{ReportView, VerifyReport};
use crate::security::policy::{spec_decide, GateAction, GateView, SecurityPolicy};
use crate::text::{
    chars_find_from, chars_occur_at, chars_of, decimal_seq, decimal_string_usize, lines_seq,
    occurs_at, owned, string_of_range,
};
use vstd::prelude::*;

verus! {

// ---------------------------------------------------------------------------
// Replacing the first occurrence
// ---------------------------------------------------------------------------

/// Non-overlapping occurrences of a nonempty `p` in `s` from index `i`,
/// scanning left to right (`str::matches`).
pub open spec fn matches_from(s: Seq<char>, p: Seq<char>, i: int) -> nat
    decreases s.len() - i,
{
    if p.len() == 0 || i < 0 || i >= s.len() {
        0
    } else if occurs_at(s, p, i) {
        1 + matches_from(s, p, i + p.len())
    } else {
        matches_from(s, p, i + 1)
    }
}

/// `str::matches(p).count()`: an empty pattern matches at every character
/// boundary.
pub open spec fn match_count(s: Seq<char>, p: Seq<char>) -> nat {
    if p.len() == 0 {
        s.len() + 1
    } else {
        matches_from(s, p, 0)
    }
}

pub open spec fn is_first_occurrence(s: Seq<char>, p: Seq<char>, i: int) -> bool {
    occurs_at(s, p, i) && forall|j: int| 0 <= j < i ==> !occurs_at(s, p, j)
}

/// `str::replacen(p, n, 1)`: the first occurrence of `p` replaced by `n`.
pub open spec fn replace_first_seq(s: Seq<char>, p: Seq<char>, n: Seq<char>) -> Seq<char> {
    if exists|i: int| is_first_occurrence(s, p, i) {
        let i = choose|i: int| is_first_occurrence(s, p, i);
        s.take(i) + n + s.skip(i + p.len())
    } else {
        s
    }
}

/// A nonempty pattern has no match from `i` on exactly when it occurs nowhere
/// from `i` on.
proof fn lemma_no_matches(s: Seq<char>, p: Seq<char>, i: int)
    requires
        p.len() > 0,
        0 <= i,
    ensures
        matches_from(s, p, i) == 0 <==> forall|j: int| i <= j ==> !occurs_at(s, p, j),
    decreases s.len() - i,
{
    if i >= s.len() {
    } else if occurs_at(s, p, i) {
    } else {
        lemma_no_matches(s, p, i + 1);
        assert forall|j: int| i <= j && matches_from(s, p, i + 1) == 0 implies !occurs_at(s, p, j) by {
            if j > i {
                assert(i + 1 <= j);
            }
        }
    }
}

fn count_matches(s: &Vec<char>, p: &Vec<char>) -> (r: usize)
    requires
        p@.len() > 0,
    ensures
        r == matches_from(s@, p@, 0),
{
    let mut count: usize = 0;
    let mut i: usize = 0;
    while i < s.len()
        invariant
            p@.len() > 0,
            i <= s@.len(),
            count <= i,
            count + matches_from(s@, p@, i as int) == matches_from(s@, p@, 0),
        decreases s.len() - i,
    {
        if chars_occur_at(s, p, i) {
            count += 1;
            i += p.len();
        } else {
            i += 1;
        }
    }
    count
}

/// Replace the first occurrence of `old` in `original` by `new`, and count the
/// occurrences; `None` when `old` does not occur.
pub fn edit_text(original: &str, old: &str, new: &str) -> (r: Option<(String, usize)>)
    requires
        original@.len() < usize::MAX,
    ensures
        match r {
            None => match_count(original@, old@) == 0,
            Some((updated, count)) => {
                &&& count == match_count(original@, old@)
                &&& count > 0
                &&& updated@ == replace_first_seq(original@, old@, new@)
            },
        },
{
    let sv = chars_of(original);
    let pv = chars_of(old);
    match chars_find_from(&sv, &pv, 0) {
        None => {
            proof {
                assert(occurs_at(sv@, pv@, 0) ==> pv@.len() > 0);
                if pv@.len() == 0 {
                    assert(sv@.subrange(0, 0) =~= pv@);
                }
                lemma_no_matches(sv@, pv@, 0);
            }
            None
        },
        Some(i) => {
            let count = if pv.len() == 0 {
                sv.len() + 1
            } else {
                proof {
                    lemma_no_matches(sv@, pv@, 0);
                }
                count_matches(&sv, &pv)
            };
            let ghost s = sv@;
            let ghost p = pv@;
            assert(is_first_occurrence(s, p, i as int));
            assert forall|k: int| is_first_occurrence(s, p, k) implies k == i by {
                if k < i {
                    assert(!occurs_at(s, p, k));
                } else if k > i {
                    assert(!occurs_at(s, p, i as int));
                }
            }
            let mut updated = string_of_range(&sv, 0, i);
            updated.append(new);
            let tail = string_of_range(&sv, i + pv.len(), sv.len());
            updated.append(tail.as_str());
            assert(s.subrange(0, i as int) == s.take(i as int));
            assert(s.subrange(i + p.len(), s.len() as int) == s.skip(i + p.len()));
            Some((updated, count))
        },
    }
}

/// Replacing a string by itself changes nothing.
pub proof fn law_edit_with_same_text_is_identity(s: Seq<char>, p: Seq<char>)
    ensures
        replace_first_seq(s, p, p) == s,
{
    if exists|i: int| is_first_occurrence(s, p, i) {
        let i = choose|i: int| is_first_occurrence(s, p, i);
        assert(s.subrange(i, i + p.len()) == p);
        assert(s.take(i) + p + s.skip(i + p.len()) =~= s);
    }
}

/// After an edit whose old text occurs, the new text occurs where the old
/// one first did, and what came before it is kept.
pub proof fn law_edit_puts_new_text_at_first_occurrence(s: Seq<char>, p: Seq<char>, n: Seq<char>, i: int)
    requires
        is_first_occurrence(s, p, i),
    ensures
        replace_first_seq(s, p, n).take(i) == s.take(i),
        occurs_at(replace_first_seq(s, p, n), n, i),
        replace_first_seq(s, p, n).len() == s.len() - p.len() + n.len(),
{
    assert forall|k: int| is_first_occurrence(s, p, k) implies k == i by {
        if k < i {
            assert(!occurs_at(s, p, k));
        } else if k > i {
            assert(!occurs_at(s, p, i));
        }
    }
    let r = replace_first_seq(s, p, n);
    assert(r == s.take(i) + n + s.skip(i + p.len()));
    assert(r.take(i) =~= s.take(i));
    assert(r.subrange(i, i + n.len()) =~= n);
}

// ---------------------------------------------------------------------------
// Messages
// ---------------------------------------------------------------------------

pub open spec fn not_found_message_seq(path: Seq<char>) -> Seq<char> {
    "old_string not found in '"@ + path + "'. Make sure it matches the file contents exactly."@
}

/// The error of an edit whose old text does not occur.
pub fn edit_not_found_message(path: &str) -> (r: String)
    ensures
        r@ == not_found_message_seq(path@),
{
    let mut s = owned("old_string not found in '");
    s.append(path);
    s.append("'. Make sure it matches the file contents exactly.");
    s
}

pub open spec fn warning_suffix(warning: Option<Seq<char>>) -> Seq<char> {
    match warning {
        Some(w) => "\n\n"@ + w,
        None => Seq::empty(),
    }
}

pub open spec fn occurrence_note(count: usize) -> Seq<char> {
    if count > 1 {
        " ("@ + decimal_seq(count as nat) + " occurrences found; replaced the first one)"@
    } else {
        Seq::empty()
    }
}

pub open spec fn edit_message_seq(repo: Seq<char>, path: Seq<char>, count: usize, warning: Option<Seq<char>>) -> Seq<
    char,
> {
    "Edited: "@ + repo + "/"@ + path + occurrence_note(count) + warning_suffix(warning)
}

pub open spec fn write_message_seq(repo: Seq<char>, path: Seq<char>, warning: Option<Seq<char>>) -> Seq<char> {
    "Written: "@ + repo + "/"@ + path + warning_suffix(warning)
}

fn append_warning(s: &mut String, warning: Option<String>)
    ensures
        final(s)@ == old(s)@ + warning_suffix(warning.deep_view()),
{
    match warning {
        Some(w) => {
            s.append("\n\n");
            s.append(w.as_str());
        },
        None => {
            assert(old(s)@ + Seq::<char>::empty() =~= old(s)@);
        },
    }
}

/// What an edit answers: the file edited, how many occurrences there were
/// when more than one, and the security warning if any.
pub fn edit_message(repo: &str, path: &str, count: usize, warning: Option<String>) -> (r: String)
    ensures
        r@ == edit_message_seq(repo@, path@, count, warning.deep_view()),
{
    let mut s = owned("Edited: ");
    s.append(repo);
    s.append("/");
    s.append(path);
    if count > 1 {
        s.append(" (");
        let n = decimal_string_usize(count);
        s.append(n.as_str());
        s.append(" occurrences found; replaced the first one)");
    }
    append_warning(&mut s, warning);
    s
}

/// What a write answers: the file written and the security warning if any.
pub fn write_message(repo: &str, path: &str, warning: Option<String>) -> (r: String)
    ensures
        r@ == write_message_seq(repo@, path@, warning.deep_view()),
{
    let mut s = owned("Written: ");
    s.append(repo);
    s.append("/");
    s.append(path);
    append_warning(&mut s, warning);
    s
}

// ---------------------------------------------------------------------------
// The security decision on new text
// ---------------------------------------------------------------------------

/// A decision as the write tools act on it: go on (with a warning to pass
/// along) or stop with the blocking message.
pub open spec fn gate_outcome(a: GateView) -> Result<Option<Seq<char>>, Seq<char>> {
    match a {
        GateView::Allow => Ok(None),
        GateView::Warn(m) => Ok(Some(m)),
        GateView::Block(m) => Err(m),
    }
}

pub open spec fn outcome_view(r: Result<Option<String>, String>) -> Result<Option<Seq<char>>, Seq<char>> {
    match r {
        Ok(w) => Ok(w.deep_view()),
        Err(m) => Err(m@),
    }
}

/// Verify the new text of a write or edit and act on the decision: `Ok(None)`
/// to go on, `Ok(Some(warning))` to go on and pass the warning along,
/// `Err(message)` to refuse the write.
pub fn apply_security_policy(path: &str, content: &str, policy: &SecurityPolicy) -> (r: Result<
    Option<String>,
    String,
>)
    ensures
        exists|rep: ReportView|
            report_for(rep, path@, content@, *policy) && outcome_view(r) == gate_outcome(
                spec_decide(rep, policy.enabled, policy.mode, policy.block_on_unknown),
            ),
{
    let (report, action) = verify_and_decide(path, content, policy);
    let r = match action {
        GateAction::Allow => Ok(None),
        GateAction::Warn { message } => Ok(Some(message)),
        GateAction::Block { message } => Err(message),
    };
    assert(report_for(report@, path@, content@, *policy));
    r
}

pub open spec fn read_file_text_seq(repo: Option<Seq<char>>, path: Seq<char>, content: Seq<char>) -> Seq<char> {
    match repo {
        Some(name) => "# "@ + name + "/"@ + path + "\n\n"@ + content,
        None => "# "@ + path + "\n\n"@ + content,
    }
}

/// What reading a file answers: a heading with its path (and repository, in a
/// workspace of several), a blank line, and the content.
pub fn read_file_text(repo: Option<&str>, path: &str, content: &str) -> (r: String)
    ensures
        r@ == read_file_text_seq(
            match repo {
                Some(n) => Some(n@),
                None => None,
            },
            path@,
            content@,
        ),
{
    let mut s = owned("# ");
    if let Some(name) = repo {
        s.append(name);
        s.append("/");
    }
    s.append(path);
    s.append("\n\n");
    s.append(content);
    s
}

// ---------------------------------------------------------------------------
// The security tool
// ---------------------------------------------------------------------------

pub const SECURITY_DISABLED: &'static str = "Security verification is disabled. Enable with `codebeacon serve --security` or `[security] enabled = true` in .codeindex.toml.";

/// The file a fragment is checked as: `fragment` stands for the repository's
/// own `fragment` file; any other path must resolve inside the repository.
pub fn security_target(repo_root: &str, path: &str) -> (r: Result<String, String>)
    ensures
        path@ == "fragment"@ ==> string_result_view(r) == Ok::<Seq<char>, Seq<char>>(
            join_seq(repo_root@, "fragment"@),
        ),
        path@ != "fragment"@ ==> string_result_view(r) == safe_path_spec(repo_root@, path@),
{
    if crate::text::str_eq(path, "fragment") {
        Ok(path_join(repo_root, "fragment"))
    } else {
        safe_path(repo_root, path)
    }
}

pub open spec fn security_text_seq(r: ReportView, a: GateView) -> Seq<char> {
    match a {
        GateView::Allow => if r.findings.len() == 0 {
            "No security issues found in `"@ + r.path + "` ("@ + decimal_seq(r.elapsed_ms as nat) + " ms)."@
        } else {
            "All "@ + decimal_seq(r.sites_checked as nat) + " site(s) in `"@ + r.path + "` are proven safe ("@
                + decimal_seq(r.z3_invocations as nat) + " Z3 call(s), "@ + decimal_seq(r.elapsed_ms as nat)
                + " ms)."@
        },
        GateView::Warn(m) => m,
        GateView::Block(m) => m,
    }
}

/// What the security tool answers for a report and its decision.
pub fn security_text(report: &VerifyReport, action: &GateAction) -> (r: String)
    ensures
        r@ == security_text_seq(report@, action@),
{
    match action {
        GateAction::Allow => {
            if report.findings.len() == 0 {
                let mut s = owned("No security issues found in `");
                s.append(report.path.as_str());
                s.append("` (");
                let ms = crate::text::decimal_string(report.elapsed_ms);
                s.append(ms.as_str());
                s.append(" ms).");
                s
            } else {
                let mut s = owned("All ");
                let n = decimal_string_usize(report.sites_checked);
                s.append(n.as_str());
                s.append(" site(s) in `");
                s.append(report.path.as_str());
                s.append("` are proven safe (");
                let z = decimal_string_usize(report.z3_invocations);
                s.append(z.as_str());
                s.append(" Z3 call(s), ");
                let ms = crate::text::decimal_string(report.elapsed_ms);
                s.append(ms.as_str());
                s.append(" ms).");
                s
            }
        },
        GateAction::Warn { message } => message.clone(),
        GateAction::Block { message } => message.clone(),
    }
}

} // verus!
