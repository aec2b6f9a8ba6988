//! Parallel agents over plan markdown docs: plan discovery, briefs, prompts
//! and agent command lines.

pub mod brief;
pub mod discover;
pub mod spawn;
pub mod wave;

use crate::paths::{codeindex_dir, codeindex_dir_seq, join_seq, path_join};
use crate::text::{decimal_seq, decimal_string_usize, owned};
use vstd::prelude::*;

pub use discover::PlanDoc;
pub use spawn::{resolve_agent_bin, RunPlanProvider};

verus! {

#[derive(Debug, Clone)]
pub struct RunPlanOpts {
    pub plans_dir: String,
    pub prompt: String,
    pub workspace: String,
    pub parallel: usize,
    pub model: String,
    pub provider: RunPlanProvider,
    pub dry_run: bool,
    pub ttl_secs: u64,
}

/// Where a run keeps its briefs and signals: `.codeindex/run-plan/<run id>`.
pub open spec fn run_dir_seq(workspace: Seq<char>, run_id: Seq<char>) -> Seq<char> {
    join_seq(join_seq(codeindex_dir_seq(workspace), "run-plan"@), run_id)
}

pub fn run_dir(workspace: &str, run_id: &str) -> (r: String)
    ensures
        r@ == run_dir_seq(workspace@, run_id@),
{
    let base = path_join(codeindex_dir(workspace).as_str(), "run-plan");
    path_join(base.as_str(), run_id)
}

/// A plan's brief (`<key>.md`) and done-signal (`signals/DONE.<key>`) in the run directory.
pub fn plan_paths(run_dir: &str, block_key: &str) -> (r: (String, String))
    ensures
        r.0@ == join_seq(run_dir@, block_key@ + ".md"@),
        r.1@ == join_seq(join_seq(run_dir@, "signals"@), "DONE."@ + block_key@),
{
    let mut name = owned(block_key);
    name.append(".md");
    let brief = path_join(run_dir, name.as_str());
    let signals = path_join(run_dir, "signals");
    let mut done = owned("DONE.");
    done.append(block_key);
    let signal = path_join(signals.as_str(), done.as_str());
    (brief, signal)
}

pub open spec fn bool_text(b: bool) -> Seq<char> {
    if b {
        "true"@
    } else {
        "false"@
    }
}

pub open spec fn run_banner_seq(n: usize, provider: Seq<char>, parallel: usize, dry_run: bool, run_id: Seq<char>) -> Seq<
    char,
> {
    "[codebeacon] run-plan: "@ + decimal_seq(n as nat) + " plan(s), provider="@ + provider + ", parallel="@ + (if parallel
        == 0 {
        "all"@
    } else {
        decimal_seq(parallel as nat)
    }) + ", dry_run="@ + bool_text(dry_run) + ", run="@ + run_id
}

/// The line a run starts with.
pub fn run_banner(n: usize, provider: RunPlanProvider, parallel: usize, dry_run: bool, run_id: &str) -> (r: String)
    ensures
        r@ == run_banner_seq(n, spawn::provider_name(provider), parallel, dry_run, run_id@),
{
    let mut s = owned("[codebeacon] run-plan: ");
    s.append(decimal_string_usize(n).as_str());
    s.append(" plan(s), provider=");
    s.append(provider.as_str());
    s.append(", parallel=");
    if parallel == 0 {
        s.append("all");
    } else {
        s.append(decimal_string_usize(parallel).as_str());
    }
    s.append(", dry_run=");
    s.append(if dry_run {
        "true"
    } else {
        "false"
    });
    s.append(", run=");
    s.append(run_id);
    s
}

/// The line a dry run prints for one plan.
pub fn dry_run_spawn_line(provider: RunPlanProvider, block_key: &str, brief: &str, signal: &str) -> (r: String)
    ensures
        r@ == "[dry-run] would spawn "@ + spawn::provider_name(provider) + " for block="@ + block_key@
            + " brief="@ + brief@ + " signal="@ + signal@,
{
    let mut s = owned("[dry-run] would spawn ");
    s.append(provider.as_str());
    s.append(" for block=");
    s.append(block_key);
    s.append(" brief=");
    s.append(brief);
    s.append(" signal=");
    s.append(signal);
    s
}

/// How many agents finished well, and how many failed or timed out.
pub open spec fn count_ok(results: Seq<bool>) -> nat
    decreases results.len(),
{
    if results.len() == 0 {
        0
    } else {
        count_ok(results.drop_last()) + if results.last() {
            1nat
        } else {
            0nat
        }
    }
}

pub open spec fn run_summary_seq(results: Seq<bool>) -> Seq<char> {
    "[codebeacon] run-plan done: "@ + decimal_seq(count_ok(results)) + " ok, "@ + decimal_seq(
        (results.len() - count_ok(results)) as nat,
    ) + " failed/timed_out"@
}

proof fn lemma_count_ok_le(results: Seq<bool>)
    ensures
        count_ok(results) <= results.len(),
    decreases results.len(),
{
    if results.len() > 0 {
        lemma_count_ok_le(results.drop_last());
    }
}

/// The line a run ends with, from the outcome of each agent.
pub fn run_summary(results: &Vec<bool>) -> (r: String)
    ensures
        r@ == run_summary_seq(results@),
{
    let mut ok: usize = 0;
    let mut i: usize = 0;
    while i < results.len()
        invariant
            i <= results@.len(),
            ok == count_ok(results@.take(i as int)),
            ok <= i,
        decreases results.len() - i,
    {
        assert(results@.take(i + 1).drop_last() =~= results@.take(i as int));
        if results[i] {
            ok += 1;
        }
        i += 1;
    }
    assert(results@.take(i as int) =~= results@);
    let mut s = owned("[codebeacon] run-plan done: ");
    s.append(decimal_string_usize(ok).as_str());
    s.append(" ok, ");
    s.append(decimal_string_usize(results.len() - ok).as_str());
    s.append(" failed/timed_out");
    s
}

} // verus!
