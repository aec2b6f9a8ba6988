//! Multi-agent sessions: conductor state, pane status, screen detection and key modes.

pub mod conductor;
pub mod detect;
pub mod keys;
pub mod layout;
pub mod pane;
pub mod session;
pub mod ui;

use crate::paths::{join_seq, path_join};
use crate::run_plan::discover::PlanDoc;
use crate::text::owned;
use crate::run_plan::spawn::{mission_prompt, mission_prompt_seq};
use vstd::prelude::*;

pub use conductor::{AgentRole, SessionMode};
pub use keys::{attach_action, key_to_pty_bytes, nav_action, AttachAction, FocusTarget, NavAction};
pub use pane::{PaneJob, PaneStatus};

verus! {

pub struct SessionJob {
    pub block_key: String,
    pub brief_path: Option<String>,
    pub signal_path: String,
    /// Pre-built prompt (mission or freeform).
    pub prompt: String,
    pub role: AgentRole,
}

impl SessionJob {
    /// A freeform gallery job: an ensemble member with no brief file.
    pub fn gallery(block_key: String, signal_path: String, prompt: String) -> (r: SessionJob)
        ensures
            r.block_key@ == block_key@,
            r.brief_path is None,
            r.signal_path@ == signal_path@,
            r.prompt@ == prompt@,
            r.role == AgentRole::Ensemble,
    {
        SessionJob { block_key, brief_path: None, signal_path, prompt, role: AgentRole::Ensemble }
    }
}

/// `job` runs the plan of `brief` (plan, brief path, signal path) as an ensemble member.
pub open spec fn job_for_brief(job: SessionJob, brief: (PlanDoc, String, String)) -> bool {
    let (plan, path, signal) = brief;
    &&& job.block_key@ == plan.block_key@
    &&& job.brief_path.deep_view() == Some(path@)
    &&& job.signal_path@ == signal@
    &&& job.prompt@ == mission_prompt_seq(path@, plan.block_key@, signal@)
    &&& job.role == AgentRole::Ensemble
}

/// One job per plan brief: an ensemble member with the plan's mission prompt.
pub fn jobs_from_briefs(briefs: &Vec<(PlanDoc, String, String)>) -> (r: Vec<SessionJob>)
    ensures
        r@.len() == briefs@.len(),
        forall|i: int| 0 <= i < briefs@.len() ==> job_for_brief(#[trigger] r@[i], briefs@[i]),
{
    let mut out: Vec<SessionJob> = Vec::new();
    let mut i: usize = 0;
    while i < briefs.len()
        invariant
            i <= briefs@.len(),
            out@.len() == i,
            forall|k: int| 0 <= k < i ==> job_for_brief(#[trigger] out@[k], briefs@[k]),
        decreases briefs.len() - i,
    {
        let (plan, brief, signal) = &briefs[i];
        let prompt = mission_prompt(brief.as_str(), plan.block_key.as_str(), signal.as_str());
        let job = SessionJob {
            block_key: plan.block_key.clone(),
            brief_path: Some(brief.clone()),
            signal_path: signal.clone(),
            prompt,
            role: AgentRole::Ensemble,
        };
        let ghost before = out@;
        out.push(job);
        assert(out@ =~= before.push(job));
        assert(job_for_brief(out@[i as int], briefs@[i as int]));
        i += 1;
    }
    out
}

/// The conductor's job in a session directory: block key `conductor`, its
/// done-signal in the directory, and its brief followed by the mission.
pub fn conductor_job(session_dir: &str, mission: &str) -> (r: SessionJob)
    ensures
        r.block_key@ == "conductor"@,
        r.brief_path is None,
        r.signal_path@ == join_seq(session_dir@, "DONE.conductor"@),
        r.prompt@ == conductor::conductor_brief_seq("conductor"@, r.signal_path@) + "\n\nMission:\n"@
            + mission@,
        r.role == AgentRole::Conductor,
{
    let block_key = owned("conductor");
    let signal = path_join(session_dir, "DONE.conductor");
    let mut prompt = conductor::conductor_brief(block_key.as_str(), signal.as_str());
    prompt.append("\n\nMission:\n");
    prompt.append(mission);
    SessionJob { block_key, brief_path: None, signal_path: signal, prompt, role: AgentRole::Conductor }
}

/// How many panes a session runs at once: 8 when unlimited (0), else as asked.
pub fn session_parallel(parallel: usize) -> (r: usize)
    ensures
        r == if parallel == 0 {
            8
        } else {
            parallel
        },
{
    if parallel == 0 {
        8
    } else {
        parallel
    }
}

/// The startup mode picker is shown when new panes may be made and the mode
/// was not given on the command line.
pub fn shows_mode_picker(allow_new: bool, mode_from_cli: bool) -> (b: bool)
    ensures
        b == (allow_new && !mode_from_cli),
{
    allow_new && !mode_from_cli
}

/// `n` makes new panes only in a gallery.
pub fn allows_new_panes(allow_new: bool, mode: SessionMode) -> (b: bool)
    ensures
        b == (allow_new && mode == SessionMode::Gallery),
{
    allow_new && match mode {
        SessionMode::Gallery => true,
        SessionMode::Conductor => false,
    }
}

/// The record of a new conductor session.
pub fn conductor_meta(session_id: String, provider: &str, model: String) -> (r: conductor::SessionMeta)
    ensures
        r.session_id == session_id,
        r.mode == SessionMode::Conductor,
        r.conductor_key@ == "conductor"@,
        r.provider@ == provider@,
        r.model == model,
{
    conductor::SessionMeta {
        session_id,
        mode: SessionMode::Conductor,
        conductor_key: owned("conductor"),
        provider: owned(provider),
        model,
    }
}

pub open spec fn dry_run_pane_line(key: Seq<char>, signal: Seq<char>) -> Seq<char> {
    "[dry-run] TUI would open pane="@ + key + " signal="@ + signal
}

pub open spec fn dry_run_lines_seq(jobs: Seq<SessionJob>, allow_new: bool, mode_from_cli: bool, mode: SessionMode) -> Seq<
    Seq<char>,
> {
    let panes = Seq::new(jobs.len(), |i: int| dry_run_pane_line(jobs[i].block_key@, jobs[i].signal_path@));
    if jobs.len() == 0 && allow_new {
        panes.push(
            "[dry-run] multi-agent TUI ("@ + (if mode_from_cli {
                conductor::mode_name(mode)
            } else {
                "mode picker"@
            }) + ")"@,
        )
    } else {
        panes
    }
}

/// What a dry run prints: the pane each job would open, and, with no jobs, the
/// session that would start.
pub fn dry_run_lines(jobs: &Vec<SessionJob>, allow_new: bool, mode_from_cli: bool, mode: SessionMode) -> (r: Vec<
    String,
>)
    ensures
        r.deep_view() == dry_run_lines_seq(jobs@, allow_new, mode_from_cli, mode),
{
    let mut out: Vec<String> = Vec::new();
    let mut i: usize = 0;
    while i < jobs.len()
        invariant
            i <= jobs@.len(),
            out.deep_view().len() == i,
            forall|k: int|
                0 <= k < i ==> #[trigger] out.deep_view()[k] == dry_run_pane_line(
                    jobs@[k].block_key@,
                    jobs@[k].signal_path@,
                ),
        decreases jobs.len() - i,
    {
        let mut s = owned("[dry-run] TUI would open pane=");
        s.append(jobs[i].block_key.as_str());
        s.append(" signal=");
        s.append(jobs[i].signal_path.as_str());
        assert(s@ =~= dry_run_pane_line(jobs@[i as int].block_key@, jobs@[i as int].signal_path@));
        let ghost before = out.deep_view();
        out.push(s);
        assert(out.deep_view() =~= before.push(s@));
        i += 1;
    }
    assert(out.deep_view() =~= Seq::new(
        jobs@.len(),
        |k: int| dry_run_pane_line(jobs@[k].block_key@, jobs@[k].signal_path@),
    ));
    if jobs.len() == 0 && allow_new {
        let mut s = owned("[dry-run] multi-agent TUI (");
        if mode_from_cli {
            s.append(mode.as_str());
        } else {
            s.append("mode picker");
        }
        s.append(")");
        out.push(s);
    }
    out
}

} // verus!
