//! The `verify` command: one verification run and its outcome as the CLI reports it.

use crate::security::findings::{ReportView, VerifyReport};
use crate::security::policy::{spec_decide, GateView, SecurityPolicy};
use crate::security::analyzer::{report_for, verify_and_decide};
use crate::text::{owned, str_eq};
use vstd::prelude::*;

verus! {

#[derive(Debug)]
pub struct VerifyCliOutput {
    pub action: &'static str,
    pub report: VerifyReport,
    pub message: Option<String>,
}

/// The name of a decision as the CLI prints it.
pub open spec fn action_label(a: GateView) -> Seq<char> {
    match a {
        GateView::Allow => "allow"@,
        GateView::Warn(_) => "warn"@,
        GateView::Block(_) => "block"@,
    }
}

/// The message of a decision, if it has one.
pub open spec fn action_message(a: GateView) -> Option<Seq<char>> {
    match a {
        GateView::Allow => None,
        GateView::Warn(m) => Some(m),
        GateView::Block(m) => Some(m),
    }
}

/// Verify `content` under `policy`, reported as the file at `path` (or
/// `fragment` when no path is given).
pub fn verify_output(content: &str, path: Option<&str>, policy: &SecurityPolicy) -> (r: VerifyCliOutput)
    ensures
        report_for(
            r.report@,
            match path {
                Some(p) => p@,
                None => "fragment"@,
            },
            content@,
            *policy,
        ),
        r.action@ == action_label(
            spec_decide(r.report@, policy.enabled, policy.mode, policy.block_on_unknown),
        ),
        r.message.deep_view() == action_message(
            spec_decide(r.report@, policy.enabled, policy.mode, policy.block_on_unknown),
        ),
{
    let p = match path {
        Some(p) => p,
        None => "fragment",
    };
    let (report, action) = verify_and_decide(p, content, policy);
    let message = match action.message() {
        Some(m) => Some(owned(m)),
        None => None,
    };
    VerifyCliOutput { action: action.label(), report, message }
}

/// The process exit code for a decision label: 1 for `block`, else 0.
pub fn exit_code_for_action(action: &str) -> (code: i32)
    ensures
        code == (if action@ == "block"@ {
            1i32
        } else {
            0i32
        }),
{
    if str_eq(action, "block") {
        1
    } else {
        0
    }
}

} // verus!

verus! {

pub const MULTIPLE_REPOS: &'static str =
    "Multiple git repos in workspace. Use --root to select one for security policy.";

/// The repository whose policy applies: the one given, else the only one
/// found, else the current directory when none is found; several found is an error.
pub fn choose_repo_root(root: Option<String>, repos: &Vec<String>, cwd: String) -> (r: Result<String, String>)
    ensures
        match root {
            Some(p) => r == Ok::<String, String>(p),
            None => if repos@.len() == 1 {
                r matches Ok(p) && p@ == repos@[0]@
            } else if repos@.len() == 0 {
                r == Ok::<String, String>(cwd)
            } else {
                r matches Err(e) && e@ == MULTIPLE_REPOS@
            },
        },
{
    match root {
        Some(p) => Ok(p),
        None => {
            if repos.len() == 1 {
                Ok(repos[0].clone())
            } else if repos.len() == 0 {
                Ok(cwd)
            } else {
                Err(owned(MULTIPLE_REPOS))
            }
        },
    }
}

} // verus!
