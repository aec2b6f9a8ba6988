//! Per-plan mission brief for run-plan agents.

use crate::run_plan::discover::PlanDoc;
use crate::text::{owned, trim_seq, trim_str};
use vstd::prelude::*;

verus! {

pub const BRIEF_HEAD: &'static str = "# Codebeacon run-plan brief\n\n## block_key\n\n`";

pub const BRIEF_PROMPT: &'static str = "`\n\n## Shared prompt\n\n";

pub const BRIEF_PLAN: &'static str = "\n\n## Plan (`";

pub const BRIEF_BODY: &'static str = "`)\n\n";

pub const BRIEF_LOCKS: &'static str = "\n\n## File locks (MCP codebeacon) — optional\n\nServer name is exactly `codebeacon`. If lock tools are missing / MCP errors \"not found\", skip locks — do not explore MCP catalogs.\n\nBefore editing a shared path: call `claim_path` with path + block_key=`";

pub const BRIEF_RELEASE: &'static str = "` + intent.\nIf held: call `await_path` then retry claim.\nAfter finishing that path: call `release_path` with a short summary.\nWhen the whole plan is complete: call `session_done` with block_key=`";

pub const BRIEF_TOUCH: &'static str = "`, ok=true, and a short summary.\nIf blocked: `session_done` with ok=false.\n\nAlso required when finished: Bash `touch ";

pub const BRIEF_DONE: &'static str = "` then print a line that is exactly: `CBDONE ";

pub const BRIEF_END: &'static str = "`.\n";

pub const NO_SHARED_PROMPT: &'static str = "(none — implement the plan as written)";

/// The shared prompt as the brief shows it.
pub open spec fn shown_prompt(prompt: Seq<char>) -> Seq<char> {
    if prompt.len() == 0 {
        NO_SHARED_PROMPT@
    } else {
        prompt
    }
}

/// The mission brief of one plan.
pub open spec fn brief_seq(
    plan_path: Seq<char>,
    body: Seq<char>,
    prompt: Seq<char>,
    key: Seq<char>,
    signal: Seq<char>,
) -> Seq<char> {
    BRIEF_HEAD@ + key + BRIEF_PROMPT@ + shown_prompt(prompt) + BRIEF_PLAN@ + plan_path
        + BRIEF_BODY@ + trim_seq(body) + BRIEF_LOCKS@ + key + BRIEF_RELEASE@ + key + BRIEF_TOUCH@
        + signal + BRIEF_DONE@ + key + BRIEF_END@
}

fn push_str(s: &mut String, t: &str)
    ensures
        final(s)@ == old(s)@ + t@,
{
    s.append(t);
}

/// The text of the mission brief for `plan` (written to its brief file by the caller).
pub fn brief_text(plan: &PlanDoc, prompt: &str, block_key: &str, signal_path: &str) -> (r: String)
    ensures
        r@ == brief_seq(plan.path@, plan.body@, prompt@, block_key@, signal_path@),
{
    let mut s = owned(BRIEF_HEAD);
    push_str(&mut s, block_key);
    push_str(&mut s, BRIEF_PROMPT);
    if prompt.is_empty() {
        push_str(&mut s, NO_SHARED_PROMPT);
    } else {
        push_str(&mut s, prompt);
    }
    push_str(&mut s, BRIEF_PLAN);
    push_str(&mut s, plan.path.as_str());
    push_str(&mut s, BRIEF_BODY);
    let body = trim_str(plan.body.as_str());
    push_str(&mut s, body.as_str());
    push_str(&mut s, BRIEF_LOCKS);
    push_str(&mut s, block_key);
    push_str(&mut s, BRIEF_RELEASE);
    push_str(&mut s, block_key);
    push_str(&mut s, BRIEF_TOUCH);
    push_str(&mut s, signal_path);
    push_str(&mut s, BRIEF_DONE);
    push_str(&mut s, block_key);
    push_str(&mut s, BRIEF_END);
    s
}

} // verus!
