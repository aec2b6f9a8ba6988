//! Signals that a loop tick hands back to the agent.

use crate::loop_coord::config::LoopConfig;
use crate::text::{concat2, concat3, decimal_seq, decimal_string, decimal_string_usize, owned};
use vstd::prelude::*;

verus! {

#[derive(Debug, Clone)]
pub struct LoopSignals {
    pub stale_count: usize,
    pub reindex_recommended: bool,
    pub reindexed: bool,
    pub should_pause: bool,
    pub should_stop: bool,
    pub hints: Vec<String>,
}

pub const STALE_HINT: &'static str =
    "index is stale — consider re-index or call loop_tick with reindex policy";

/// The stale count as the threshold test reads it: truncated to 32 bits.
pub open spec fn stale_u32(stale_count: usize) -> u32 {
    stale_count as u32
}

/// Pause when the stale files reach the threshold and nothing was re-indexed.
pub open spec fn should_pause_spec(cfg: LoopConfig, stale_count: usize, reindexed: bool) -> bool {
    stale_u32(stale_count) >= cfg.stale_warn_threshold && !reindexed
}

pub open spec fn should_stop_spec(cfg: LoopConfig, iteration: u32) -> bool {
    iteration >= cfg.max_iterations
}

pub open spec fn pause_hint(stale_count: usize, threshold: u32) -> Seq<char> {
    decimal_seq(stale_count as nat) + " stale file(s) exceed threshold ("@ + decimal_seq(
        threshold as nat,
    ) + ")"@
}

pub open spec fn stop_hint(max: u32) -> Seq<char> {
    "max_iterations ("@ + decimal_seq(max as nat) + ") reached — call loop_end"@
}

/// The hints, in order: stale index, pause, stop.
pub open spec fn hints_spec(
    cfg: LoopConfig,
    iteration: u32,
    stale_count: usize,
    reindexed: bool,
    reindex_recommended: bool,
) -> Seq<Seq<char>> {
    let a = if reindex_recommended && !reindexed {
        seq![STALE_HINT@]
    } else {
        Seq::empty()
    };
    let b = if should_pause_spec(cfg, stale_count, reindexed) {
        seq![pause_hint(stale_count, cfg.stale_warn_threshold)]
    } else {
        Seq::empty()
    };
    let c = if should_stop_spec(cfg, iteration) {
        seq![stop_hint(cfg.max_iterations)]
    } else {
        Seq::empty()
    };
    a + b + c
}

pub fn compute_signals(
    cfg: &LoopConfig,
    iteration: u32,
    stale_count: usize,
    reindexed: bool,
    reindex_recommended: bool,
) -> (r: LoopSignals)
    ensures
        r.stale_count == stale_count,
        r.reindex_recommended == reindex_recommended,
        r.reindexed == reindexed,
        r.should_pause == should_pause_spec(*cfg, stale_count, reindexed),
        r.should_stop == should_stop_spec(*cfg, iteration),
        r.hints.deep_view() == hints_spec(*cfg, iteration, stale_count, reindexed, reindex_recommended),
{
    let should_pause = stale_count as u32 >= cfg.stale_warn_threshold && !reindexed;
    let should_stop = iteration >= cfg.max_iterations;
    let mut hints: Vec<String> = Vec::new();
    if reindex_recommended && !reindexed {
        hints.push(owned(STALE_HINT));
    }
    if should_pause {
        let n = decimal_string_usize(stale_count);
        let t = decimal_string(cfg.stale_warn_threshold as u64);
        let head = concat2(n.as_str(), " stale file(s) exceed threshold (");
        hints.push(concat3(head.as_str(), t.as_str(), ")"));
    }
    if should_stop {
        let m = decimal_string(cfg.max_iterations as u64);
        hints.push(concat3("max_iterations (", m.as_str(), ") reached — call loop_end"));
    }
    assert(hints.deep_view() =~= hints_spec(
        *cfg,
        iteration,
        stale_count,
        reindexed,
        reindex_recommended,
    ));
    LoopSignals { stale_count, reindex_recommended, reindexed, should_pause, should_stop, hints }
}

} // verus!
