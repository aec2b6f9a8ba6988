//! Decisions of a running multi-agent session: how a pane's status follows
//! its screen and its completion signals, and how many queued jobs start.
//! The caller polls the panes, hands the observations in, and applies the
//! returned changes.

use crate::text::{concat2, decimal_seq, decimal_string, owned};
use crate::tui::pane::{status_is_terminal, PaneStatus};
use vstd::prelude::*;

verus! {

/// A live pane's status after reading its screen: waiting for input or not.
pub open spec fn screen_status_spec(status: PaneStatus, waiting: bool) -> PaneStatus {
    match status {
        PaneStatus::WaitingPrompt => if waiting {
            PaneStatus::WaitingPrompt
        } else {
            PaneStatus::Running
        },
        PaneStatus::Running | PaneStatus::Starting => if waiting {
            PaneStatus::WaitingPrompt
        } else {
            status
        },
        _ => status,
    }
}

/// The status after a screen poll. Finished panes, and panes whose re-prompt
/// is still loading, are left alone.
pub fn poll_status(status: PaneStatus, re_prompt_loading: bool, waiting: bool) -> (r: PaneStatus)
    ensures
        r == (if status_is_terminal(status) || re_prompt_loading {
            status
        } else {
            screen_status_spec(status, waiting)
        }),
{
    if status.is_terminal() || re_prompt_loading {
        return status;
    }
    match status {
        PaneStatus::WaitingPrompt => if waiting {
            PaneStatus::WaitingPrompt
        } else {
            PaneStatus::Running
        },
        PaneStatus::Running | PaneStatus::Starting => if waiting {
            PaneStatus::WaitingPrompt
        } else {
            status
        },
        _ => status,
    }
}

/// Screen polls never finish a pane nor revive a finished one.
pub proof fn law_screen_polls_keep_terminal_status(status: PaneStatus, loading: bool, waiting: bool)
    ensures
        status_is_terminal(status) ==> (if status_is_terminal(status) || loading {
            status
        } else {
            screen_status_spec(status, waiting)
        }) == status,
        !status_is_terminal(status) ==> !status_is_terminal(
            if loading {
                status
            } else {
                screen_status_spec(status, waiting)
            },
        ),
{
}

// ---------------------------------------------------------------------------
// Completion
// ---------------------------------------------------------------------------

/// How a pane finished, once the caller has looked: the lock store already
/// says it finished (and whether it succeeded), its signal file exists, or
/// its process exited with a code.
#[derive(Debug, Clone, Copy, PartialEq, Eq, Structural)]
pub enum Finish {
    Store(bool),
    Signal,
    Exit(i32),
}

/// The first finish that applies: the store's verdict, then the signal file,
/// then the process exit.
pub fn first_finish(store_terminal: Option<bool>, signal_exists: bool, exit_code: Option<i32>) -> (r:
    Option<Finish>)
    ensures
        r == (match store_terminal {
            Some(ok) => Some(Finish::Store(ok)),
            None => if signal_exists {
                Some(Finish::Signal)
            } else {
                match exit_code {
                    Some(c) => Some(Finish::Exit(c)),
                    None => None,
                }
            },
        }),
{
    match store_terminal {
        Some(ok) => Some(Finish::Store(ok)),
        None => if signal_exists {
            Some(Finish::Signal)
        } else {
            match exit_code {
                Some(c) => Some(Finish::Exit(c)),
                None => None,
            }
        },
    }
}

/// What to change once a pane finished.
#[derive(Debug, Clone)]
pub struct Completion {
    pub status: PaneStatus,
    /// How the finish was seen: `session_done`, `signal` or `exit`.
    pub via: &'static str,
    /// The line to show in the pane.
    pub line: String,
    /// Status and summary for the agent record.
    pub agent_status: &'static str,
    pub summary: String,
    /// `session_done` to record in the lock store unless it is finished there
    /// already: reason and success.
    pub record_done: Option<(&'static str, bool)>,
}

/// Decimal text of a signed code.
pub open spec fn signed_decimal(c: i32) -> Seq<char> {
    if c < 0 {
        "-"@ + decimal_seq((-(c as int)) as nat)
    } else {
        decimal_seq(c as nat)
    }
}

fn signed_decimal_string(c: i32) -> (r: String)
    ensures
        r@ == signed_decimal(c),
{
    if c < 0 {
        let m: u64 = (-(c as i64)) as u64;
        let d = decimal_string(m);
        concat2("-", d.as_str())
    } else {
        decimal_string(c as u64)
    }
}

pub open spec fn outcome_word(ok: bool) -> Seq<char> {
    if ok {
        "done"@
    } else {
        "failed"@
    }
}

pub open spec fn finished_status(ok: bool) -> PaneStatus {
    if ok {
        PaneStatus::Done
    } else {
        PaneStatus::Failed
    }
}

/// The changes for each kind of finish.
pub open spec fn completion_spec(f: Finish) -> (PaneStatus, Seq<char>, Seq<char>, Seq<char>, Seq<char>, Option<(Seq<char>, bool)>) {
    match f {
        Finish::Store(ok) => (
            finished_status(ok),
            "session_done"@,
            "[codebeacon] "@ + outcome_word(ok),
            outcome_word(ok),
            Seq::empty(),
            None,
        ),
        Finish::Signal => (
            PaneStatus::Done,
            "signal"@,
            "[codebeacon] done (signal)"@,
            "done"@,
            "signal"@,
            Some(("signal file"@, true)),
        ),
        Finish::Exit(c) => (
            finished_status(c == 0),
            "exit"@,
            "[codebeacon] exit "@ + signed_decimal(c),
            outcome_word(c == 0),
            "exit "@ + signed_decimal(c),
            Some(
                (
                    if c == 0 {
                        "process exit 0"@
                    } else {
                        "process failed"@
                    },
                    c == 0,
                ),
            ),
        ),
    }
}

pub open spec fn completion_view(c: Completion) -> (PaneStatus, Seq<char>, Seq<char>, Seq<char>, Seq<char>, Option<(Seq<char>, bool)>) {
    (
        c.status,
        c.via@,
        c.line@,
        c.agent_status@,
        c.summary@,
        match c.record_done {
            Some((reason, ok)) => Some((reason@, ok)),
            None => None,
        },
    )
}

/// The changes to make for a pane that finished in the given way.
pub fn completion(f: Finish) -> (r: Completion)
    ensures
        completion_view(r) == completion_spec(f),
{
    match f {
        Finish::Store(ok) => {
            let word = if ok {
                "done"
            } else {
                "failed"
            };
            Completion {
                status: if ok {
                    PaneStatus::Done
                } else {
                    PaneStatus::Failed
                },
                via: "session_done",
                line: concat2("[codebeacon] ", word),
                agent_status: word,
                summary: String::new(),
                record_done: None,
            }
        },
        Finish::Signal => Completion {
            status: PaneStatus::Done,
            via: "signal",
            line: owned("[codebeacon] done (signal)"),
            agent_status: "done",
            summary: owned("signal"),
            record_done: Some(("signal file", true)),
        },
        Finish::Exit(c) => {
            let ok = c == 0;
            let code = signed_decimal_string(c);
            Completion {
                status: if ok {
                    PaneStatus::Done
                } else {
                    PaneStatus::Failed
                },
                via: "exit",
                line: concat2("[codebeacon] exit ", code.as_str()),
                agent_status: if ok {
                    "done"
                } else {
                    "failed"
                },
                summary: concat2("exit ", code.as_str()),
                record_done: Some(
                    (
                        if ok {
                            "process exit 0"
                        } else {
                            "process failed"
                        },
                        ok,
                    ),
                ),
            }
        },
    }
}

/// Every finish leaves the pane in a terminal status, successful exactly
/// when the store, the signal or a zero exit code says so.
pub proof fn law_completion_is_terminal(f: Finish)
    ensures
        status_is_terminal(completion_spec(f).0),
        (completion_spec(f).0 == PaneStatus::Done) == (match f {
            Finish::Store(ok) => ok,
            Finish::Signal => true,
            Finish::Exit(c) => c == 0,
        }),
{
}

// ---------------------------------------------------------------------------
// Starting queued jobs
// ---------------------------------------------------------------------------

/// How many queued jobs start: as many as fit below `parallel` live panes.
pub open spec fn jobs_to_start_spec(active: nat, parallel: nat, queued: nat) -> nat {
    if active >= parallel {
        0
    } else if queued < parallel - active {
        queued
    } else {
        (parallel - active) as nat
    }
}

pub fn jobs_to_start(active: usize, parallel: usize, queued: usize) -> (r: usize)
    ensures
        r == jobs_to_start_spec(active as nat, parallel as nat, queued as nat),
{
    if active >= parallel {
        0
    } else if queued < parallel - active {
        queued
    } else {
        parallel - active
    }
}

/// Starting queued jobs never takes the live panes past the limit (unless
/// they were past it already) and starts every job that fits.
pub proof fn law_jobs_fit_the_limit(active: nat, parallel: nat, queued: nat)
    ensures
        jobs_to_start_spec(active, parallel, queued) <= queued,
        active < parallel ==> active + jobs_to_start_spec(active, parallel, queued) <= parallel,
        active >= parallel ==> jobs_to_start_spec(active, parallel, queued) == 0,
        jobs_to_start_spec(active, parallel, queued) < queued ==> active
            + jobs_to_start_spec(active, parallel, queued) >= parallel,
{
}

} // verus!

verus! {

// ---------------------------------------------------------------------------
// Fresh pane keys
// ---------------------------------------------------------------------------

/// `prefix-n`.
pub open spec fn numbered_key(prefix: Seq<char>, n: nat) -> Seq<char> {
    prefix + "-"@ + decimal_seq(n)
}

proof fn lemma_decimal_shape(n: nat)
    ensures
        decimal_seq(n).len() >= 1,
        n >= 10 ==> decimal_seq(n).len() >= 2,
        decimal_seq(n).last() == crate::text::digit_char(n % 10),
    decreases n,
{
    if n >= 10 {
        lemma_decimal_shape(n / 10);
    }
}

proof fn lemma_digit_char_injective(a: nat, b: nat)
    requires
        a < 10,
        b < 10,
        crate::text::digit_char(a) == crate::text::digit_char(b),
    ensures
        a == b,
{
    assert(crate::text::digit_char(a) as u32 == 48 + a);
    assert(crate::text::digit_char(b) as u32 == 48 + b);
}

/// Different numbers have different decimal texts.
pub proof fn lemma_decimal_injective(a: nat, b: nat)
    requires
        decimal_seq(a) == decimal_seq(b),
    ensures
        a == b,
    decreases a,
{
    lemma_decimal_shape(a);
    lemma_decimal_shape(b);
    lemma_digit_char_injective(a % 10, b % 10);
    if a >= 10 && b >= 10 {
        assert(decimal_seq(a).drop_last() =~= decimal_seq(a / 10));
        assert(decimal_seq(b).drop_last() =~= decimal_seq(b / 10));
        lemma_decimal_injective(a / 10, b / 10);
    }
}

proof fn lemma_numbered_key_injective(prefix: Seq<char>, a: nat, b: nat)
    requires
        numbered_key(prefix, a) == numbered_key(prefix, b),
    ensures
        a == b,
{
    reveal_strlit("-");
    let ka = numbered_key(prefix, a);
    let kb = numbered_key(prefix, b);
    let start: int = prefix.len() as int + 1;
    assert(ka.skip(start) =~= decimal_seq(a));
    assert(kb.skip(start) =~= decimal_seq(b));
    lemma_decimal_injective(a, b);
}

/// When `prefix-1` … `prefix-n` are all among `keys`, there are at least `n` keys.
proof fn lemma_numbered_keys_fit(keys: Seq<Seq<char>>, prefix: Seq<char>, n: nat)
    requires
        forall|k: nat| 1 <= k <= n ==> keys.contains(#[trigger] numbered_key(prefix, k)),
    ensures
        n <= keys.len(),
{
    let x = vstd::set_lib::set_int_range(1, n as int + 1);
    let f = |k: int| numbered_key(prefix, k as nat);
    vstd::set_lib::lemma_int_range(1, n as int + 1);
    assert(vstd::relations::injective_on(f, x)) by {
        assert forall|k1: int, k2: int| x.contains(k1) && x.contains(k2) && #[trigger] f(k1) == #[trigger] f(
            k2,
        ) implies k1 == k2 by {
            lemma_numbered_key_injective(prefix, k1 as nat, k2 as nat);
        }
    }
    let y = x.map(f);
    vstd::set_lib::lemma_map_size(x, y, f);
    assert(y.subset_of(keys.to_set())) by {
        assert forall|v: Seq<char>| y.contains(v) implies keys.to_set().contains(v) by {
            let k = choose|k: int| x.contains(k) && f(k) == v;
            assert(keys.contains(numbered_key(prefix, k as nat)));
        }
    }
    vstd::seq_lib::seq_to_set_is_finite(keys);
    vstd::set_lib::lemma_len_subset(y, keys.to_set());
    keys.lemma_cardinality_of_set();
}

fn key_is_taken(keys: &Vec<String>, k: &String) -> (b: bool)
    ensures
        b == keys.deep_view().contains(k@),
{
    let mut i: usize = 0;
    while i < keys.len()
        invariant
            i <= keys@.len(),
            forall|j: int| 0 <= j < i ==> keys.deep_view()[j] != k@,
        decreases keys.len() - i,
    {
        assert(keys.deep_view()[i as int] == keys@[i as int]@);
        if keys[i] == *k {
            assert(keys.deep_view()[i as int] == k@);
            return true;
        }
        i += 1;
    }
    false
}

/// The least `n >= start` for which `prefix-n` is not among `keys` (and at
/// most one past the number of keys).
pub open spec fn first_free(keys: Seq<Seq<char>>, prefix: Seq<char>, start: nat) -> nat
    decreases keys.len() + 1 - start,
{
    if start > keys.len() || !keys.contains(numbered_key(prefix, start)) {
        start
    } else {
        first_free(keys, prefix, start + 1)
    }
}

/// The first of `prefix-1`, `prefix-2`, … that no pane has taken.
pub fn unique_key(keys: &Vec<String>, prefix: &str) -> (r: String)
    requires
        keys@.len() < usize::MAX,
    ensures
        r@ == numbered_key(prefix@, first_free(keys.deep_view(), prefix@, 1)),
        exists|n: nat|
            1 <= n <= keys@.len() + 1 && r@ == numbered_key(prefix@, n) && !keys.deep_view().contains(
                r@,
            ) && forall|k: nat| 1 <= k < n ==> keys.deep_view().contains(#[trigger] numbered_key(prefix@, k)),
{
    let mut n: usize = 1;
    loop
        invariant
            1 <= n <= keys@.len() + 1,
            keys@.len() < usize::MAX,
            forall|k: nat| 1 <= k < n ==> keys.deep_view().contains(#[trigger] numbered_key(prefix@, k)),
            first_free(keys.deep_view(), prefix@, 1) == first_free(keys.deep_view(), prefix@, n as nat),
        decreases keys@.len() + 1 - n,
    {
        let digits = crate::text::decimal_string_usize(n);
        let k = crate::text::concat3(prefix, "-", digits.as_str());
        assert(k@ == numbered_key(prefix@, n as nat));
        if !key_is_taken(keys, &k) {
            return k;
        }
        proof {
            assert forall|j: nat| 1 <= j <= n implies keys.deep_view().contains(
                #[trigger] numbered_key(prefix@, j),
            ) by {}
            lemma_numbered_keys_fit(keys.deep_view(), prefix@, n as nat);
        }
        n = n + 1;
    }
}

} // verus!

verus! {

// ---------------------------------------------------------------------------
// Ensemble members requested by the conductor
// ---------------------------------------------------------------------------

/// An ensemble member to start, and the model it runs.
pub struct EnsembleStart {
    pub job: crate::tui::SessionJob,
    pub model: String,
}

/// The key of a requested member: the one asked for, else the first free `ensemble-n`.
pub open spec fn request_key(r: crate::tui::conductor::SpawnRequestView, keys: Seq<Seq<char>>) -> Seq<char> {
    match r.block_key {
        Some(k) => k,
        None => numbered_key("ensemble"@, first_free(keys, "ensemble"@, 1)),
    }
}

/// `<session dir>/DONE.<key>`.
pub open spec fn signal_for(dir: Seq<char>, key: Seq<char>) -> Seq<char> {
    crate::paths::join_seq(dir, "DONE."@ + key)
}

/// Members to start for the queued requests, in order: a request whose key a
/// pane (or an earlier request) already has is dropped; the others get their
/// signal file, their brief and their model (the session's when none is asked).
pub open spec fn ensemble_plan(
    reqs: Seq<crate::tui::conductor::SpawnRequestView>,
    keys: Seq<Seq<char>>,
    default_model: Seq<char>,
    dir: Seq<char>,
) -> Seq<(Seq<char>, Seq<char>, Seq<char>, Seq<char>)>
    decreases reqs.len(),
{
    if reqs.len() == 0 {
        Seq::empty()
    } else {
        let r = reqs[0];
        let key = request_key(r, keys);
        if keys.contains(key) {
            ensemble_plan(reqs.drop_first(), keys, default_model, dir)
        } else {
            let signal = signal_for(dir, key);
            let model = match r.model {
                Some(m) => m,
                None => default_model,
            };
            seq![(key, signal, crate::tui::conductor::ensemble_brief_seq(key, signal, r.prompt), model)]
                + ensemble_plan(reqs.drop_first(), keys.push(key), default_model, dir)
        }
    }
}

pub open spec fn start_view(s: EnsembleStart) -> (Seq<char>, Seq<char>, Seq<char>, Seq<char>) {
    (s.job.block_key@, s.job.signal_path@, s.job.prompt@, s.model@)
}

pub open spec fn starts_view(v: Seq<EnsembleStart>) -> Seq<(Seq<char>, Seq<char>, Seq<char>, Seq<char>)> {
    v.map_values(|s: EnsembleStart| start_view(s))
}

/// The members to start for the requests drained from the conductor's queue.
pub fn plan_ensemble_starts(
    requests: &Vec<crate::tui::conductor::SpawnRequest>,
    pane_keys: &Vec<String>,
    default_model: &str,
    session_dir: &str,
) -> (r: Vec<EnsembleStart>)
    requires
        pane_keys@.len() + requests@.len() < usize::MAX,
    ensures
        starts_view(r@) == ensemble_plan(
            crate::tui::conductor::requests_view(requests@),
            pane_keys.deep_view(),
            default_model@,
            session_dir@,
        ),
        forall|k: int|
            0 <= k < r@.len() ==> (#[trigger] r@[k]).job.role == crate::tui::AgentRole::Ensemble
                && r@[k].job.brief_path is None,
{
    let ghost reqs = crate::tui::conductor::requests_view(requests@);
    let mut keys: Vec<String> = Vec::new();
    let mut j: usize = 0;
    while j < pane_keys.len()
        invariant
            j <= pane_keys@.len(),
            keys.deep_view() == pane_keys.deep_view().take(j as int),
        decreases pane_keys.len() - j,
    {
        let ghost before = keys.deep_view();
        let k = pane_keys[j].clone();
        assert(pane_keys.deep_view()[j as int] == k@);
        keys.push(k);
        assert(keys.deep_view() =~= before.push(k@));
        assert(keys.deep_view() =~= pane_keys.deep_view().take(j + 1));
        j += 1;
    }
    assert(pane_keys.deep_view().take(j as int) =~= pane_keys.deep_view());
    let mut out: Vec<EnsembleStart> = Vec::new();
    let mut i: usize = 0;
    assert(reqs.skip(0) =~= reqs);
    while i < requests.len()
        invariant
            i <= requests@.len(),
            reqs == crate::tui::conductor::requests_view(requests@),
            keys@.len() <= pane_keys@.len() + i,
            pane_keys@.len() + requests@.len() < usize::MAX,
            starts_view(out@) + ensemble_plan(reqs.skip(i as int), keys.deep_view(), default_model@, session_dir@)
                == ensemble_plan(reqs, pane_keys.deep_view(), default_model@, session_dir@),
            forall|k: int|
                0 <= k < out@.len() ==> (#[trigger] out@[k]).job.role == crate::tui::AgentRole::Ensemble
                    && out@[k].job.brief_path is None,
        decreases requests.len() - i,
    {
        let req = &requests[i];
        let ghost rv = req@;
        assert(reqs.skip(i as int)[0] == rv);
        assert(reqs.skip(i as int).drop_first() =~= reqs.skip(i + 1));
        let key = match &req.block_key {
            Some(k) => k.clone(),
            None => unique_key(&keys, "ensemble"),
        };
        assert(key@ == request_key(rv, keys.deep_view()));
        if key_is_taken(&keys, &key) {
            i += 1;
            continue;
        }
        let name = crate::text::concat2("DONE.", key.as_str());
        let signal = crate::paths::path_join(session_dir, name.as_str());
        let prompt = crate::tui::conductor::ensemble_brief(key.as_str(), signal.as_str(), req.prompt.as_str());
        let model = match &req.model {
            Some(m) => m.clone(),
            None => owned(default_model),
        };
        let start = EnsembleStart {
            job: crate::tui::SessionJob {
                block_key: key.clone(),
                brief_path: None,
                signal_path: signal,
                prompt,
                role: crate::tui::AgentRole::Ensemble,
            },
            model,
        };
        let ghost before = starts_view(out@);
        let ghost kv = keys.deep_view();
        out.push(start);
        assert(starts_view(out@) =~= before.push(start_view(start)));
        keys.push(key);
        assert(keys.deep_view() =~= kv.push(key@));
        assert(before.push(start_view(start)) + ensemble_plan(reqs.skip(i + 1), kv.push(key@), default_model@, session_dir@)
            =~= before + ensemble_plan(reqs.skip(i as int), kv, default_model@, session_dir@));
        i += 1;
    }
    assert(reqs.skip(i as int) =~= Seq::<crate::tui::conductor::SpawnRequestView>::empty());
    assert(starts_view(out@) + Seq::<(Seq<char>, Seq<char>, Seq<char>, Seq<char>)>::empty() =~= starts_view(out@));
    out
}

} // verus!

verus! {

// ---------------------------------------------------------------------------
// Environment and MCP configuration of a job
// ---------------------------------------------------------------------------

/// Which MCP configuration a job runs with.
#[derive(Debug, Clone, PartialEq, Eq)]
pub enum JobMcp {
    /// The session's configuration (if any).
    Shared,
    /// A configuration written for this agent at this path, carrying its
    /// multi-agent environment.
    PerAgent(String),
}

/// In a multi-agent session an agent of the provider that reads an MCP
/// configuration gets its own
/// file `mcp-<key>.json` in the session directory; every other job shares
/// the session's.
pub fn job_mcp_config(
    provider: crate::run_plan::spawn::RunPlanProvider,
    session: Option<(&str, &str)>,
    block_key: &str,
) -> (r: JobMcp)
    ensures
        match session {
            Some((_, dir)) => match provider {
                crate::run_plan::spawn::RunPlanProvider::Claude => r matches JobMcp::PerAgent(p) && p@
                    == crate::paths::join_seq(dir@, "mcp-"@ + block_key@ + ".json"@),
                _ => r == JobMcp::Shared,
            },
            None => r == JobMcp::Shared,
        },
{
    match session {
        None => JobMcp::Shared,
        Some((_, dir)) => match provider {
            crate::run_plan::spawn::RunPlanProvider::Claude => {
                let name = crate::text::concat3("mcp-", block_key, ".json");
                JobMcp::PerAgent(crate::paths::path_join(dir, name.as_str()))
            },
            _ => JobMcp::Shared,
        },
    }
}

/// The environment of a job's terminal: the multi-agent variables inside a
/// session, none outside.
pub fn job_env(session_id: Option<&str>, role: crate::tui::AgentRole, block_key: &str) -> (r: Vec<(String, String)>)
    ensures
        session_id is None ==> r@.len() == 0,
        session_id matches Some(id) ==> r@.len() == 3 && r@[0].1@ == id@ && r@[1].1@
            == crate::tui::conductor::role_name(role) && r@[2].1@ == block_key@,
{
    match session_id {
        Some(id) => crate::tui::conductor::ma_env(id, role, block_key),
        None => Vec::new(),
    }
}

} // verus!
