//! Settings of the loop coordinator.

use vstd::prelude::*;

verus! {

/// When a tick re-indexes the repository.
#[derive(Debug, Clone, Copy, PartialEq, Eq, Structural)]
pub enum ReindexPolicy {
    Never,
    IfStale,
    EveryN,
    Always,
}

#[derive(Debug, Clone)]
pub struct LoopConfig {
    pub reindex: ReindexPolicy,
    /// Period of `ReindexPolicy::EveryN`, in iterations (0 disables it).
    pub reindex_every_n: u32,
    /// Stale files at which a tick asks to pause.
    pub stale_warn_threshold: u32,
    /// Iteration at which a tick asks to stop.
    pub max_iterations: u32,
    /// Whether sessions and iterations are written under `.codeindex/loop/`.
    pub persist_sessions: bool,
}

impl Default for LoopConfig {
    fn default() -> (r: LoopConfig)
        ensures
            r.reindex == ReindexPolicy::IfStale,
            r.reindex_every_n == 5,
            r.stale_warn_threshold == 10,
            r.max_iterations == 20,
            r.persist_sessions,
    {
        LoopConfig {
            reindex: ReindexPolicy::IfStale,
            reindex_every_n: 5,
            stale_warn_threshold: 10,
            max_iterations: 20,
            persist_sessions: true,
        }
    }
}

} // verus!
