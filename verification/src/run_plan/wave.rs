//! How plans are grouped into waves of agents, and what each poll of a wave
//! decides for one running agent.

use vstd::prelude::*;

verus! {

/// Agents per wave: all plans (at least one) when `parallel` is 0, else `parallel` (at least one).
pub open spec fn wave_size_spec(parallel: usize, n_plans: usize) -> usize {
    if parallel == 0 {
        if n_plans == 0 {
            1
        } else {
            n_plans
        }
    } else {
        parallel
    }
}

pub fn wave_size(parallel: usize, n_plans: usize) -> (r: usize)
    ensures
        r == wave_size_spec(parallel, n_plans),
        r >= 1,
{
    if parallel == 0 {
        if n_plans == 0 {
            1
        } else {
            n_plans
        }
    } else {
        parallel
    }
}

/// The waves over `n` plans: consecutive index ranges of `size` plans, the last one shorter.
pub open spec fn waves_spec(n: nat, size: nat, start: nat) -> Seq<(nat, nat)>
    decreases n - start,
{
    if size == 0 || start >= n {
        Seq::empty()
    } else if start + size >= n {
        seq![(start, n)]
    } else {
        seq![(start, start + size)] + waves_spec(n, size, start + size)
    }
}

/// `[start, end)` index ranges of the waves (what `slice::chunks(size)` yields).
pub fn wave_ranges(n: usize, size: usize) -> (r: Vec<(usize, usize)>)
    requires
        size >= 1,
    ensures
        r@.map_values(|p: (usize, usize)| (p.0 as nat, p.1 as nat)) == waves_spec(n as nat, size as nat, 0),
{
    let mut out: Vec<(usize, usize)> = Vec::new();
    let mut start: usize = 0;
    while start < n
        invariant
            size >= 1,
            start <= n,
            out@.map_values(|p: (usize, usize)| (p.0 as nat, p.1 as nat)) + waves_spec(n as nat, size as nat, start as nat)
                == waves_spec(n as nat, size as nat, 0),
        decreases n - start,
    {
        let ghost before = out@.map_values(|p: (usize, usize)| (p.0 as nat, p.1 as nat));
        if size >= n - start {
            out.push((start, n));
            assert(out@.map_values(|p: (usize, usize)| (p.0 as nat, p.1 as nat)) =~= before.push((start as nat, n as nat)));
            assert(waves_spec(n as nat, size as nat, n as nat) =~= Seq::<(nat, nat)>::empty());
            start = n;
        } else {
            out.push((start, start + size));
            assert(out@.map_values(|p: (usize, usize)| (p.0 as nat, p.1 as nat)) =~= before.push(
                (start as nat, (start + size) as nat),
            ));
            assert(before.push((start as nat, (start + size) as nat)) + waves_spec(n as nat, size as nat, (start + size) as nat)
                =~= before + waves_spec(n as nat, size as nat, start as nat));
            start = start + size;
        }
    }
    assert(waves_spec(n as nat, size as nat, start as nat) =~= Seq::<(nat, nat)>::empty());
    assert(out@.map_values(|p: (usize, usize)| (p.0 as nat, p.1 as nat)) + Seq::<(nat, nat)>::empty()
        =~= out@.map_values(|p: (usize, usize)| (p.0 as nat, p.1 as nat)));
    out
}

/// The waves cover every plan exactly once, in order, each wave holding at
/// most `size` plans and none being empty.
pub proof fn law_waves_partition(n: nat, size: nat, start: nat)
    requires
        size >= 1,
        start <= n,
    ensures
        forall|k: int|
            0 <= k < waves_spec(n, size, start).len() ==> {
                let (a, b) = #[trigger] waves_spec(n, size, start)[k];
                a < b && b - a <= size
            },
        forall|k: int|
            0 <= k < waves_spec(n, size, start).len() - 1 ==> waves_spec(n, size, start)[k].1
                == #[trigger] waves_spec(n, size, start)[k + 1].0,
        start < n ==> waves_spec(n, size, start).len() > 0 && waves_spec(n, size, start)[0].0 == start
            && waves_spec(n, size, start).last().1 == n,
    decreases n - start,
{
    if start < n && start + size < n {
        law_waves_partition(n, size, start + size);
        let rest = waves_spec(n, size, start + size);
        let all = waves_spec(n, size, start);
        assert(all == seq![(start, start + size)] + rest);
        assert forall|k: int| 0 <= k < all.len() - 1 implies all[k].1 == #[trigger] all[k + 1].0 by {
            if k > 0 {
                let j = k - 1;
                assert(all[k] == rest[j]);
                assert(all[k + 1] == rest[j + 1]);
                assert(rest[j].1 == rest[j + 1].0);
            } else {
                assert(all[1] == rest[0]);
            }
        }
        assert forall|k: int| 0 <= k < all.len() implies {
            let (a, b) = #[trigger] all[k];
            a < b && b - a <= size
        } by {
            if k > 0 {
                assert(all[k] == rest[k - 1]);
            }
        }
    }
}

// ---------------------------------------------------------------------------
// One agent of a running wave
// ---------------------------------------------------------------------------

/// What a poll found for one agent: whether the lock store has it finished,
/// whether its signal file exists, and how its process stands (still
/// running, exited with success or failure, or not to be waited on).
#[derive(Debug, Clone, Copy, PartialEq, Eq, Structural)]
pub enum ChildState {
    Running,
    Exited(bool),
    WaitFailed,
}

/// What to do with the agent.
#[derive(Debug, Clone, Copy, PartialEq, Eq)]
pub enum ChildAction {
    /// Keep waiting.
    Keep,
    /// Kill the process and stop tracking it; record `session_done` with
    /// this reason and success first unless the store has it finished.
    KillAndRecord(&'static str, bool),
    /// Kill the process and stop tracking it.
    Kill,
    /// Stop tracking it; record `session_done` unless the store has it finished.
    Record(&'static str, bool),
    /// Stop tracking it; record a failed `session_done` even if finished.
    RecordAlways(&'static str, bool),
}

/// The decision for one agent: the store's verdict first, then the signal
/// file, then the process.
pub fn child_action(store_terminal: bool, signal_exists: bool, child: ChildState) -> (r: ChildAction)
    ensures
        store_terminal ==> r == ChildAction::Kill,
        !store_terminal && signal_exists ==> r == ChildAction::KillAndRecord("signal file", true),
        !store_terminal && !signal_exists ==> r == (match child {
            ChildState::Running => ChildAction::Keep,
            ChildState::Exited(ok) => ChildAction::Record(
                if ok {
                    "process exit 0"
                } else {
                    "process failed"
                },
                ok,
            ),
            ChildState::WaitFailed => ChildAction::RecordAlways("spawn error", false),
        }),
{
    if store_terminal {
        return ChildAction::Kill;
    }
    if signal_exists {
        return ChildAction::KillAndRecord("signal file", true);
    }
    match child {
        ChildState::Running => ChildAction::Keep,
        ChildState::Exited(ok) => ChildAction::Record(
            if ok {
                "process exit 0"
            } else {
                "process failed"
            },
            ok,
        ),
        ChildState::WaitFailed => ChildAction::RecordAlways("spawn error", false),
    }
}

} // verus!
