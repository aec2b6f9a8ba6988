//! The decisions of a loop tick: when to re-index, which file to focus, and
//! how a session ends.

use crate::loop_coord::config::{LoopConfig, ReindexPolicy};
use crate::loop_coord::session::{add_missing, closed_message, LoopSession};
use crate::loop_coord::signals::{compute_signals, hints_spec, should_pause_spec, should_stop_spec, LoopSignals};
use crate::paths::{is_absolute, is_absolute_seq, join_seq, path_join};
use crate::mcp::tools::{rel_path, rel_path_seq};
use crate::text::owned;
use vstd::prelude::*;

verus! {

#[derive(Debug, Clone)]
pub struct LoopEndResponse {
    pub session_id: String,
    pub goal: String,
    pub iterations: u32,
    pub touched_files: Vec<String>,
    pub stale_warning: Option<String>,
}

pub open spec fn should_reindex_spec(cfg: LoopConfig, iteration: u32, stale_count: usize) -> bool {
    match cfg.reindex {
        ReindexPolicy::Never => false,
        ReindexPolicy::IfStale => stale_count > 0,
        ReindexPolicy::EveryN => cfg.reindex_every_n > 0 && iteration % cfg.reindex_every_n == 0,
        ReindexPolicy::Always => true,
    }
}

/// Whether a tick at `iteration` with `stale_count` stale files re-indexes.
pub fn should_reindex(cfg: &LoopConfig, iteration: u32, stale_count: usize) -> (b: bool)
    ensures
        b == should_reindex_spec(*cfg, iteration, stale_count),
{
    match cfg.reindex {
        ReindexPolicy::Never => false,
        ReindexPolicy::IfStale => stale_count > 0,
        ReindexPolicy::EveryN => cfg.reindex_every_n > 0 && iteration % cfg.reindex_every_n == 0,
        ReindexPolicy::Always => true,
    }
}

/// A re-index is recommended when files are stale or the policy re-indexes
/// without regard to staleness.
pub fn reindex_recommended(cfg: &LoopConfig, stale_count: usize) -> (b: bool)
    ensures
        b == (stale_count > 0 || cfg.reindex == ReindexPolicy::Always || cfg.reindex
            == ReindexPolicy::EveryN),
{
    stale_count > 0 || match cfg.reindex {
        ReindexPolicy::Always | ReindexPolicy::EveryN => true,
        _ => false,
    }
}

/// Start a tick: refuse a closed session, else count the iteration.
pub fn begin_tick(session: &mut LoopSession) -> (r: Result<(), String>)
    requires
        old(session).iteration < u32::MAX,
    ensures
        match r {
            Ok(_) => !old(session).closed && final(session).iteration == old(session).iteration + 1
                && final(session).last_tick_at is Some,
            Err(e) => old(session).closed && e@ == closed_message(old(session).id@) && *final(session)
                == *old(session),
        },
        final(session).id == old(session).id,
        final(session).goal == old(session).goal,
        final(session).active_files == old(session).active_files,
        final(session).touched_files == old(session).touched_files,
        final(session).closed == old(session).closed,
{
    match session.ensure_open() {
        Err(e) => Err(e),
        Ok(()) => {
            session.bump_iteration();
            Ok(())
        },
    }
}

/// The file a tick focuses on: the override, else the session's first active file.
pub fn focus_file(file_override: Option<&str>, session: &LoopSession) -> (r: Option<String>)
    ensures
        match file_override {
            Some(f) => r matches Some(s) && s@ == f@,
            None => match r {
                Some(s) => session.active_files@.len() > 0 && s@ == session.active_files@[0]@,
                None => session.active_files@.len() == 0,
            },
        },
{
    match file_override {
        Some(f) => Some(owned(f)),
        None => match session.primary_file() {
            Some(p) => Some(owned(p)),
            None => None,
        },
    }
}

/// What a tick decides before it looks at the index again: whether to
/// re-index now, and whether a re-index is recommended at all.
#[derive(Debug, Clone, Copy, PartialEq, Eq)]
pub struct TickPlan {
    pub reindex: bool,
    pub reindex_recommended: bool,
}

/// Start a tick with `stale_before` stale files in the index: refuse a closed
/// session; else count the iteration and plan the re-index for it.
pub fn plan_tick(session: &mut LoopSession, cfg: &LoopConfig, stale_before: usize) -> (r: Result<
    TickPlan,
    String,
>)
    requires
        old(session).iteration < u32::MAX,
    ensures
        match r {
            Ok(plan) => {
                &&& !old(session).closed
                &&& final(session).iteration == old(session).iteration + 1
                &&& final(session).last_tick_at is Some
                &&& plan.reindex == should_reindex_spec(*cfg, final(session).iteration, stale_before)
                &&& plan.reindex_recommended == (stale_before > 0 || cfg.reindex == ReindexPolicy::Always
                    || cfg.reindex == ReindexPolicy::EveryN)
            },
            Err(e) => old(session).closed && e@ == closed_message(old(session).id@) && *final(session)
                == *old(session),
        },
        final(session).id == old(session).id,
        final(session).goal == old(session).goal,
        final(session).active_files == old(session).active_files,
        final(session).touched_files == old(session).touched_files,
        final(session).closed == old(session).closed,
{
    begin_tick(session)?;
    let recommended = reindex_recommended(cfg, stale_before);
    let reindex = should_reindex(cfg, session.iteration, stale_before);
    Ok(TickPlan { reindex, reindex_recommended: recommended })
}

/// The part of a tick's answer that the loop decides: the session, the
/// iteration, the file in focus and the signals. The index status and the
/// focus and task contexts come from the index service.
#[derive(Debug, Clone)]
pub struct LoopTickBundle {
    pub session_id: String,
    pub iteration: u32,
    pub goal: String,
    pub focus_file: Option<String>,
    pub signals: LoopSignals,
}

/// Finish a tick planned with `plan`: `reindexed` says whether the re-index
/// ran, `stale_after` counts the stale files the index reports now.
pub fn finish_tick(
    session: &LoopSession,
    cfg: &LoopConfig,
    plan: TickPlan,
    reindexed: bool,
    stale_after: usize,
    file_override: Option<&str>,
) -> (r: LoopTickBundle)
    ensures
        r.session_id@ == session.id@,
        r.iteration == session.iteration,
        r.goal@ == session.goal@,
        match file_override {
            Some(f) => r.focus_file matches Some(s) && s@ == f@,
            None => match r.focus_file {
                Some(s) => session.active_files@.len() > 0 && s@ == session.active_files@[0]@,
                None => session.active_files@.len() == 0,
            },
        },
        r.signals.stale_count == stale_after,
        r.signals.reindex_recommended == plan.reindex_recommended,
        r.signals.reindexed == reindexed,
        r.signals.should_pause == should_pause_spec(*cfg, stale_after, reindexed),
        r.signals.should_stop == should_stop_spec(*cfg, session.iteration),
        r.signals.hints.deep_view() == hints_spec(
            *cfg,
            session.iteration,
            stale_after,
            reindexed,
            plan.reindex_recommended,
        ),
{
    let focus = focus_file(file_override, session);
    let signals = compute_signals(cfg, session.iteration, stale_after, reindexed, plan.reindex_recommended);
    LoopTickBundle {
        session_id: session.id.clone(),
        iteration: session.iteration,
        goal: session.goal.clone(),
        focus_file: focus,
        signals,
    }
}

/// End a session: refuse a closed one; else close it and report its goal,
/// iteration count, touched files and the index's stale warning.
pub fn loop_end(session: &mut LoopSession, stale_warning: Option<String>) -> (r: Result<
    LoopEndResponse,
    String,
>)
    ensures
        match r {
            Ok(resp) => {
                &&& !old(session).closed
                &&& final(session).closed
                &&& final(session).last_tick_at is Some
                &&& final(session).id == old(session).id
                &&& final(session).goal == old(session).goal
                &&& final(session).started_at == old(session).started_at
                &&& final(session).iteration == old(session).iteration
                &&& final(session).touched_files == old(session).touched_files
                &&& final(session).active_files == old(session).active_files
                &&& resp.session_id@ == old(session).id@
                &&& resp.goal@ == old(session).goal@
                &&& resp.iterations == old(session).iteration
                &&& resp.touched_files.deep_view() == old(session).touched_files.deep_view()
                &&& resp.stale_warning.deep_view() == stale_warning.deep_view()
            },
            Err(e) => old(session).closed && e@ == closed_message(old(session).id@) && *final(session)
                == *old(session),
        },
{
    match session.ensure_open() {
        Err(e) => Err(e),
        Ok(()) => {
            session.close();
            Ok(
                LoopEndResponse {
                    session_id: session.id.clone(),
                    goal: session.goal.clone(),
                    iterations: session.iteration,
                    touched_files: session.touched_files.clone(),
                    stale_warning,
                },
            )
        },
    }
}

/// What recording files in a session answers.
#[derive(Debug, Clone)]
pub struct LoopRecordResponse {
    pub session_id: String,
    pub recorded_files: Vec<String>,
}

/// Record files in a session: refuse a closed one; else add the files not yet
/// listed to its touched and active files and answer with the files recorded.
pub fn loop_record(session: &mut LoopSession, files: &Vec<String>) -> (r: Result<
    LoopRecordResponse,
    String,
>)
    ensures
        match r {
            Ok(resp) => {
                &&& !old(session).closed
                &&& resp.session_id@ == old(session).id@
                &&& resp.recorded_files.deep_view() == files.deep_view()
                &&& final(session).touched_files.deep_view() == add_missing(
                    old(session).touched_files.deep_view(),
                    files.deep_view(),
                )
                &&& final(session).active_files.deep_view() == add_missing(
                    old(session).active_files.deep_view(),
                    files.deep_view(),
                )
                &&& final(session).id == old(session).id
                &&& final(session).iteration == old(session).iteration
                &&& !final(session).closed
            },
            Err(e) => old(session).closed && e@ == closed_message(old(session).id@) && *final(session)
                == *old(session),
        },
{
    match session.ensure_open() {
        Err(e) => Err(e),
        Ok(()) => {
            session.record_files(files);
            Ok(LoopRecordResponse { session_id: session.id.clone(), recorded_files: files.clone() })
        },
    }
}

/// An absolute path stays; a relative one is taken from the repository root.
pub open spec fn in_repo_seq(repo_root: Seq<char>, f: Seq<char>) -> Seq<char> {
    if is_absolute_seq(f) {
        f
    } else {
        join_seq(repo_root, f)
    }
}

pub fn in_repo(repo_root: &str, f: &str) -> (r: String)
    ensures
        r@ == in_repo_seq(repo_root@, f@),
{
    if is_absolute(f) {
        owned(f)
    } else {
        path_join(repo_root, f)
    }
}

/// `files` after `first`, each kept only when not already listed.
pub open spec fn dedup_after(out: Seq<Seq<char>>, files: Seq<Seq<char>>) -> Seq<Seq<char>>
    decreases files.len(),
{
    if files.len() == 0 {
        out
    } else {
        let prev = dedup_after(out, files.drop_last());
        if prev.contains(files.last()) {
            prev
        } else {
            prev.push(files.last())
        }
    }
}

/// The repository-relative key of a given path: taken from the root when
/// relative, then stripped of the root's components.
pub open spec fn active_key(repo_root: Seq<char>, f: Seq<char>) -> Seq<char> {
    rel_path_seq(repo_root, in_repo_seq(repo_root, f))
}

pub open spec fn active_files_seq(
    repo_root: Seq<char>,
    file: Option<Seq<char>>,
    files: Option<Seq<Seq<char>>>,
) -> Seq<Seq<char>> {
    let start = match file {
        Some(f) => seq![active_key(repo_root, f)],
        None => Seq::empty(),
    };
    match files {
        Some(list) => dedup_after(start, list.map_values(|f: Seq<char>| active_key(repo_root, f))),
        None => start,
    }
}

fn active_key_of(repo_root: &str, f: &str) -> (r: String)
    ensures
        r@ == active_key(repo_root@, f@),
{
    let abs = in_repo(repo_root, f);
    rel_path(repo_root, abs.as_str())
}

/// The session's active files: `file` first, then each of `files` not yet
/// listed, every one as its path relative to `repo_root`.
pub fn resolve_active_files(repo_root: &str, file: Option<String>, files: Option<Vec<String>>) -> (r: Vec<String>)
    ensures
        r.deep_view() == active_files_seq(repo_root@, file.deep_view(), files.deep_view()),
{
    let mut out: Vec<String> = Vec::new();
    if let Some(f) = file {
        out.push(active_key_of(repo_root, f.as_str()));
    }
    assert(out.deep_view() =~= match file.deep_view() {
        Some(f) => seq![active_key(repo_root@, f)],
        None => Seq::<Seq<char>>::empty(),
    });
    if let Some(list) = files {
        let ghost start = out.deep_view();
        let ghost keys = list.deep_view().map_values(|f: Seq<char>| active_key(repo_root@, f));
        let mut i: usize = 0;
        while i < list.len()
            invariant
                i <= list@.len(),
                keys == list.deep_view().map_values(|f: Seq<char>| active_key(repo_root@, f)),
                out.deep_view() == dedup_after(start, keys.take(i as int)),
            decreases list.len() - i,
        {
            let key = active_key_of(repo_root, list[i].as_str());
            assert(key@ == keys[i as int]);
            let mut present = false;
            let mut j: usize = 0;
            while j < out.len()
                invariant
                    j <= out@.len(),
                    present <==> exists|k: int| 0 <= k < j && out.deep_view()[k] == key@,
                decreases out.len() - j,
            {
                assert(out.deep_view()[j as int] == out@[j as int]@);
                if out[j] == key {
                    present = true;
                }
                j += 1;
            }
            assert(present <==> out.deep_view().contains(key@));
            let ghost before = out.deep_view();
            if !present {
                out.push(key);
                assert(out.deep_view() =~= before.push(keys[i as int]));
            }
            assert(keys.take(i + 1).drop_last() =~= keys.take(i as int));
            assert(keys.take(i + 1).last() == keys[i as int]);
            i += 1;
        }
        assert(keys.take(i as int) =~= keys);
    }
    out
}

} // verus!
