//! Conductor / Gallery session meta, spawn queue, agent records and prompts
//! for multi-agent sessions.
//!
//! The queue and the agent list live in JSON files that the caller reads and
//! writes under a file lock; the operations here are what happens to their
//! contents in between.

use crate::clock::unix_now_secs;
use crate::paths::{codeindex_dir, codeindex_dir_seq, join_seq, path_join};
use crate::text::{
    all_ascii, ascii_lower_seq, concat2, decimal_seq, decimal_string, lemma_lowercase_name_fixed, owned,
    str_eq, to_lowercase_str, unicode_lowercase,
};
use vstd::prelude::*;

verus! {

pub const ENV_SESSION: &'static str = "CODEBEACON_MA_SESSION";

pub const ENV_ROLE: &'static str = "CODEBEACON_MA_ROLE";

pub const ENV_BLOCK_KEY: &'static str = "CODEBEACON_MA_BLOCK_KEY";

pub const ACTIVE_FILE: &'static str = "ACTIVE";

pub const META_FILE: &'static str = "meta.json";

pub const QUEUE_FILE: &'static str = "queue.json";

pub const AGENTS_FILE: &'static str = "agents.json";

// ---------------------------------------------------------------------------
// Modes and roles
// ---------------------------------------------------------------------------

#[derive(Debug, Clone, Copy, PartialEq, Eq, Structural)]
pub enum SessionMode {
    Gallery,
    Conductor,
}

pub open spec fn mode_named(l: Seq<char>) -> Option<SessionMode> {
    if l == "gallery"@ {
        Some(SessionMode::Gallery)
    } else if l == "conductor"@ {
        Some(SessionMode::Conductor)
    } else {
        None
    }
}

pub open spec fn mode_name(m: SessionMode) -> Seq<char> {
    match m {
        SessionMode::Gallery => "gallery"@,
        SessionMode::Conductor => "conductor"@,
    }
}

pub open spec fn unknown_mode_message(l: Seq<char>) -> Seq<char> {
    "unknown mode `"@ + l + "` (expected gallery | conductor)"@
}

impl SessionMode {
    /// Parse a mode name, case-insensitively.
    pub fn parse(s: &str) -> (r: Result<SessionMode, String>)
        ensures
            match r {
                Ok(m) => mode_named(unicode_lowercase(s@)) == Some(m),
                Err(e) => mode_named(unicode_lowercase(s@)) is None && e@ == unknown_mode_message(
                    unicode_lowercase(s@),
                ),
            },
            all_ascii(s@) ==> match r {
                Ok(m) => mode_named(ascii_lower_seq(s@)) == Some(m),
                Err(_) => mode_named(ascii_lower_seq(s@)) is None,
            },
    {
        let lower = to_lowercase_str(s);
        let l = lower.as_str();
        if str_eq(l, "gallery") {
            Ok(SessionMode::Gallery)
        } else if str_eq(l, "conductor") {
            Ok(SessionMode::Conductor)
        } else {
            let head = concat2("unknown mode `", l);
            Err(concat2(head.as_str(), "` (expected gallery | conductor)"))
        }
    }

    pub fn as_str(self) -> (r: &'static str)
        ensures
            r@ == mode_name(self),
    {
        match self {
            SessionMode::Gallery => "gallery",
            SessionMode::Conductor => "conductor",
        }
    }
}

#[derive(Debug, Clone, Copy, PartialEq, Eq, Structural)]
pub enum AgentRole {
    Conductor,
    Ensemble,
}

pub open spec fn role_named(l: Seq<char>) -> Option<AgentRole> {
    if l == "conductor"@ {
        Some(AgentRole::Conductor)
    } else if l == "ensemble"@ {
        Some(AgentRole::Ensemble)
    } else {
        None
    }
}

pub open spec fn role_name(r: AgentRole) -> Seq<char> {
    match r {
        AgentRole::Conductor => "conductor"@,
        AgentRole::Ensemble => "ensemble"@,
    }
}

impl AgentRole {
    pub fn as_str(self) -> (r: &'static str)
        ensures
            r@ == role_name(self),
    {
        match self {
            AgentRole::Conductor => "conductor",
            AgentRole::Ensemble => "ensemble",
        }
    }

    /// Parse a role name, case-insensitively.
    pub fn parse(s: &str) -> (r: Option<AgentRole>)
        ensures
            r == role_named(unicode_lowercase(s@)),
            all_ascii(s@) ==> r == role_named(ascii_lower_seq(s@)),
    {
        let lower = to_lowercase_str(s);
        let l = lower.as_str();
        if str_eq(l, "conductor") {
            Some(AgentRole::Conductor)
        } else if str_eq(l, "ensemble") {
            Some(AgentRole::Ensemble)
        } else {
            None
        }
    }

    /// The glyph in front of an agent in the sidebar.
    pub fn sidebar_prefix(self) -> (r: &'static str)
        ensures
            r@ == (match self {
                AgentRole::Conductor => "♪"@,
                AgentRole::Ensemble => "·"@,
            }),
    {
        match self {
            AgentRole::Conductor => "♪",
            AgentRole::Ensemble => "·",
        }
    }
}

/// Each mode's and role's name is lowercase ASCII and selects it again, so
/// parsing the name of a mode or role gives it back; the two roles have
/// different names.
pub proof fn law_names_select_again(m: SessionMode, r: AgentRole)
    ensures
        all_ascii(mode_name(m)),
        ascii_lower_seq(mode_name(m)) == mode_name(m),
        mode_named(mode_name(m)) == Some(m),
        all_ascii(role_name(r)),
        ascii_lower_seq(role_name(r)) == role_name(r),
        role_named(role_name(r)) == Some(r),
        role_name(AgentRole::Conductor) != role_name(AgentRole::Ensemble),
{
    reveal_strlit("gallery");
    reveal_strlit("conductor");
    reveal_strlit("ensemble");
    assert("gallery"@.len() != "conductor"@.len());
    assert("ensemble"@.len() != "conductor"@.len());
    lemma_lowercase_name_fixed(mode_name(m));
    lemma_lowercase_name_fixed(role_name(r));
}

// ---------------------------------------------------------------------------
// Records
// ---------------------------------------------------------------------------

#[derive(Debug, Clone)]
pub struct SessionMeta {
    pub session_id: String,
    pub mode: SessionMode,
    pub conductor_key: String,
    pub provider: String,
    pub model: String,
}

#[derive(Debug, Clone)]
pub struct SpawnRequest {
    pub id: String,
    pub prompt: String,
    pub block_key: Option<String>,
    pub model: Option<String>,
    pub enqueued_unix: u64,
}

pub struct SpawnRequestView {
    pub id: Seq<char>,
    pub prompt: Seq<char>,
    pub block_key: Option<Seq<char>>,
    pub model: Option<Seq<char>>,
    pub enqueued_unix: u64,
}

impl View for SpawnRequest {
    type V = SpawnRequestView;

    open spec fn view(&self) -> SpawnRequestView {
        SpawnRequestView {
            id: self.id@,
            prompt: self.prompt@,
            block_key: self.block_key.deep_view(),
            model: self.model.deep_view(),
            enqueued_unix: self.enqueued_unix,
        }
    }
}

/// The pending spawn requests of a session, oldest first.
#[derive(Debug, Clone, Default)]
pub struct QueueFile {
    pub pending: Vec<SpawnRequest>,
}

pub open spec fn requests_view(v: Seq<SpawnRequest>) -> Seq<SpawnRequestView> {
    v.map_values(|r: SpawnRequest| r@)
}

impl View for QueueFile {
    type V = Seq<SpawnRequestView>;

    open spec fn view(&self) -> Seq<SpawnRequestView> {
        requests_view(self.pending@)
    }
}

#[derive(Debug, Clone)]
pub struct AgentRecord {
    pub block_key: String,
    pub role: AgentRole,
    pub status: String,
    pub summary: String,
}

pub struct AgentRecordView {
    pub block_key: Seq<char>,
    pub role: AgentRole,
    pub status: Seq<char>,
    pub summary: Seq<char>,
}

impl View for AgentRecord {
    type V = AgentRecordView;

    open spec fn view(&self) -> AgentRecordView {
        AgentRecordView {
            block_key: self.block_key@,
            role: self.role,
            status: self.status@,
            summary: self.summary@,
        }
    }
}

/// The agents of a session, one record per block key.
#[derive(Debug, Clone, Default)]
pub struct AgentsFile {
    pub agents: Vec<AgentRecord>,
}

pub open spec fn records_view(v: Seq<AgentRecord>) -> Seq<AgentRecordView> {
    v.map_values(|r: AgentRecord| r@)
}

impl View for AgentsFile {
    type V = Seq<AgentRecordView>;

    open spec fn view(&self) -> Seq<AgentRecordView> {
        records_view(self.agents@)
    }
}

fn copy_option(o: &Option<String>) -> (c: Option<String>)
    ensures
        c.deep_view() == o.deep_view(),
{
    match o {
        Some(s) => Some(s.clone()),
        None => None,
    }
}

fn copy_record(r: &AgentRecord) -> (c: AgentRecord)
    ensures
        c@ == r@,
{
    AgentRecord {
        block_key: r.block_key.clone(),
        role: r.role,
        status: r.status.clone(),
        summary: r.summary.clone(),
    }
}

// ---------------------------------------------------------------------------
// Paths
// ---------------------------------------------------------------------------

pub open spec fn multi_agent_root_seq(workspace: Seq<char>) -> Seq<char> {
    join_seq(codeindex_dir_seq(workspace), "multi-agent"@)
}

/// Root of all multi-agent sessions: `.codeindex/multi-agent/`.
pub fn multi_agent_root(workspace: &str) -> (r: String)
    ensures
        r@ == multi_agent_root_seq(workspace@),
{
    let dir = codeindex_dir(workspace);
    path_join(dir.as_str(), "multi-agent")
}

pub fn session_dir(workspace: &str, session_id: &str) -> (r: String)
    ensures
        r@ == join_seq(multi_agent_root_seq(workspace@), session_id@),
{
    let root = multi_agent_root(workspace);
    path_join(root.as_str(), session_id)
}

/// The session id for a start at `secs` seconds after the epoch.
pub fn session_id_at(secs: u64) -> (r: String)
    ensures
        r@ == "ma-"@ + decimal_seq(secs as nat),
{
    let n = decimal_string(secs);
    concat2("ma-", n.as_str())
}

/// `ma-<seconds since the epoch>`.
pub fn new_session_id() -> (r: String)
    ensures
        exists|t: u64| r@ == "ma-"@ + decimal_seq(t as nat),
{
    session_id_at(unix_now_secs())
}

// ---------------------------------------------------------------------------
// Spawn queue
// ---------------------------------------------------------------------------

/// Append a request to the queue.
pub fn enqueue_spawn(queue: &mut QueueFile, req: SpawnRequest)
    ensures
        final(queue)@ == old(queue)@.push(req@),
{
    let ghost before = queue@;
    queue.pending.push(req);
    assert(queue@ =~= before.push(req@));
}

/// Take every pending request, oldest first, and leave the queue empty.
pub fn drain_spawn_queue(queue: &mut QueueFile) -> (r: Vec<SpawnRequest>)
    ensures
        requests_view(r@) == old(queue)@,
        final(queue)@ == Seq::<SpawnRequestView>::empty(),
{
    let mut out: Vec<SpawnRequest> = Vec::new();
    std::mem::swap(&mut out, &mut queue.pending);
    assert(queue@ =~= Seq::<SpawnRequestView>::empty());
    out
}

/// A request made at `id_secs` and enqueued at `enqueued_secs`.
pub fn spawn_request_at(
    prompt: String,
    block_key: Option<String>,
    model: Option<String>,
    id_secs: u64,
    enqueued_secs: u64,
) -> (r: SpawnRequest)
    ensures
        r@.id == "spawn-"@ + decimal_seq(id_secs as nat),
        r@.prompt == prompt@,
        r@.block_key == block_key.deep_view(),
        r@.model == model.deep_view(),
        r.enqueued_unix == enqueued_secs,
{
    let n = decimal_string(id_secs);
    SpawnRequest {
        id: concat2("spawn-", n.as_str()),
        prompt,
        block_key,
        model,
        enqueued_unix: enqueued_secs,
    }
}

/// A request stamped with the current time.
pub fn make_spawn_request(prompt: String, block_key: Option<String>, model: Option<String>) -> (r:
    SpawnRequest)
    ensures
        exists|t: u64| r@.id == "spawn-"@ + decimal_seq(t as nat),
        r@.prompt == prompt@,
        r@.block_key == block_key.deep_view(),
        r@.model == model.deep_view(),
{
    let id_secs = unix_now_secs();
    let enqueued = unix_now_secs();
    spawn_request_at(prompt, block_key, model, id_secs, enqueued)
}

// ---------------------------------------------------------------------------
// Agent records
// ---------------------------------------------------------------------------

/// Index of the first record with the given block key.
pub open spec fn find_key(recs: Seq<AgentRecordView>, key: Seq<char>) -> Option<int>
    decreases recs.len(),
{
    if recs.len() == 0 {
        None
    } else {
        match find_key(recs.drop_last(), key) {
            Some(i) => Some(i),
            None => if recs.last().block_key == key {
                Some(recs.len() - 1)
            } else {
                None
            },
        }
    }
}

pub proof fn lemma_find_key(recs: Seq<AgentRecordView>, key: Seq<char>)
    ensures
        match find_key(recs, key) {
            Some(i) => 0 <= i < recs.len() && recs[i].block_key == key && forall|j: int|
                0 <= j < i ==> #[trigger] recs[j].block_key != key,
            None => forall|j: int| 0 <= j < recs.len() ==> #[trigger] recs[j].block_key != key,
        },
    decreases recs.len(),
{
    if recs.len() > 0 {
        lemma_find_key(recs.drop_last(), key);
        assert forall|j: int| 0 <= j < recs.len() - 1 implies recs.drop_last()[j] == recs[j] by {}
    }
}

/// The records after an upsert: the first record with the same key is
/// replaced, or the record is appended.
pub open spec fn upsert_seq(recs: Seq<AgentRecordView>, rec: AgentRecordView) -> Seq<AgentRecordView> {
    match find_key(recs, rec.block_key) {
        Some(i) => recs.update(i, rec),
        None => recs.push(rec),
    }
}

/// Insert or replace the record of `record.block_key`.
pub fn upsert_agent(agents: &mut AgentsFile, record: AgentRecord)
    ensures
        final(agents)@ == upsert_seq(old(agents)@, record@),
{
    let ghost before = agents@;
    let mut i: usize = 0;
    while i < agents.agents.len()
        invariant
            i <= agents.agents@.len(),
            agents@ == before,
            before == old(agents)@,
            forall|j: int| 0 <= j < i ==> #[trigger] before[j].block_key != record@.block_key,
        decreases agents.agents.len() - i,
    {
        if agents.agents[i].block_key == record.block_key {
            proof {
                lemma_find_key(before, record@.block_key);
                assert(before[i as int].block_key == record@.block_key);
                assert(find_key(before, record@.block_key) == Some(i as int));
            }
            let ghost rv = record@;
            agents.agents.set(i, record);
            assert(agents@ =~= before.update(i as int, rv));
            assert(upsert_seq(before, rv) == before.update(i as int, rv));
            return;
        }
        i += 1;
    }
    proof {
        lemma_find_key(before, record@.block_key);
    }
    agents.agents.push(record);
    assert(agents@ =~= before.push(record@));
}

/// All records, in file order.
pub fn list_agent_records(agents: &AgentsFile) -> (r: Vec<AgentRecord>)
    ensures
        records_view(r@) == agents@,
{
    let mut out: Vec<AgentRecord> = Vec::new();
    let mut i: usize = 0;
    while i < agents.agents.len()
        invariant
            i <= agents.agents@.len(),
            records_view(out@) == agents@.take(i as int),
        decreases agents.agents.len() - i,
    {
        let ghost before = records_view(out@);
        let c = copy_record(&agents.agents[i]);
        assert(agents@[i as int] == agents.agents@[i as int]@);
        out.push(c);
        assert(records_view(out@) =~= before.push(c@));
        assert(records_view(out@) =~= agents@.take(i + 1));
        i += 1;
    }
    assert(agents@.take(i as int) =~= agents@);
    out
}

/// The first record with the given block key.
pub fn get_agent_record(agents: &AgentsFile, block_key: &str) -> (r: Option<AgentRecord>)
    ensures
        match find_key(agents@, block_key@) {
            Some(i) => r matches Some(rec) && rec@ == agents@[i],
            None => r is None,
        },
{
    proof {
        lemma_find_key(agents@, block_key@);
    }
    let mut i: usize = 0;
    while i < agents.agents.len()
        invariant
            i <= agents.agents@.len(),
            forall|j: int| 0 <= j < i ==> #[trigger] agents@[j].block_key != block_key@,
        decreases agents.agents.len() - i,
    {
        if str_eq(agents.agents[i].block_key.as_str(), block_key) {
            assert(agents@[i as int] == agents.agents@[i as int]@);
            assert(agents@[i as int].block_key == block_key@);
            proof {
                lemma_find_key(agents@, block_key@);
            }
            assert(find_key(agents@, block_key@) == Some(i as int));
            return Some(copy_record(&agents.agents[i]));
        }
        i += 1;
    }
    None
}

/// After an upsert, looking the key up gives the upserted record.
pub proof fn law_upsert_then_get(recs: Seq<AgentRecordView>, rec: AgentRecordView)
    ensures
        find_key(upsert_seq(recs, rec), rec.block_key) matches Some(i) && upsert_seq(recs, rec)[i]
            == rec,
{
    lemma_find_key(recs, rec.block_key);
    let after = upsert_seq(recs, rec);
    lemma_find_key(after, rec.block_key);
    match find_key(recs, rec.block_key) {
        Some(i) => {
            assert(after[i] == rec);
        },
        None => {
            assert(after[recs.len() as int] == rec);
        },
    }
}

/// No two records share a block key.
pub open spec fn keys_unique(recs: Seq<AgentRecordView>) -> bool {
    forall|i: int, j: int|
        0 <= i < j < recs.len() ==> #[trigger] recs[i].block_key != #[trigger] recs[j].block_key
}

/// Upserting keeps the block keys unique, changes no record of another key and
/// loses none.
pub proof fn law_upsert_keeps_keys_unique(recs: Seq<AgentRecordView>, rec: AgentRecordView)
    requires
        keys_unique(recs),
    ensures
        keys_unique(upsert_seq(recs, rec)),
        forall|i: int|
            0 <= i < recs.len() && recs[i].block_key != rec.block_key ==> upsert_seq(recs, rec)[i]
                == recs[i],
        upsert_seq(recs, rec).len() == recs.len() || upsert_seq(recs, rec).len() == recs.len() + 1,
{
    lemma_find_key(recs, rec.block_key);
}

/// The queue after enqueueing each of `reqs` in turn.
pub open spec fn enqueue_all(queue: Seq<SpawnRequestView>, reqs: Seq<SpawnRequestView>) -> Seq<
    SpawnRequestView,
>
    decreases reqs.len(),
{
    if reqs.len() == 0 {
        queue
    } else {
        enqueue_all(queue, reqs.drop_last()).push(reqs.last())
    }
}

/// Requests come out of the queue in the order they went in: draining after
/// enqueueing `reqs` returns the earlier queue followed by `reqs`.
pub proof fn law_queue_is_fifo(queue: Seq<SpawnRequestView>, reqs: Seq<SpawnRequestView>)
    ensures
        enqueue_all(queue, reqs) == queue + reqs,
    decreases reqs.len(),
{
    if reqs.len() > 0 {
        law_queue_is_fifo(queue, reqs.drop_last());
        assert(queue + reqs =~= (queue + reqs.drop_last()).push(reqs.last()));
    } else {
        assert(queue + reqs =~= queue);
    }
}

// ---------------------------------------------------------------------------
// Prompts and environment
// ---------------------------------------------------------------------------

pub const CONDUCTOR_INTRO: &'static str =
    "You are the **conductor** of a codebeacon multi-agent session (block_key=`";

pub const CONDUCTOR_TOOLS: &'static str = "`). Orchestrate; spawn **ensemble** agents — do not ask the user to press `n`.\n\nMCP server name is exactly `codebeacon`. When MCP works:\n- `spawn_agent` — args: prompt (required), optional block_key, optional model\n- `list_agents` / `agent_status` — track ensemble members\n- `claim_path` → edit → `release_path` for your own edits (your block_key=`";

pub const CONDUCTOR_FINISH: &'static str = "`)\n- Each ensemble member has its own block_key and must claim paths before editing\n- Finish with `session_done` block_key=`";

pub const CONDUCTOR_TOUCH: &'static str = "` ok=true\n\nWhen finished also: Bash `touch ";

pub const CONDUCTOR_DONE: &'static str = "` then print exactly: CBDONE ";

pub const BRIEF_TAIL: &'static str = ". Prefer Edit/StrReplace. Write code — do not narrate.";

pub open spec fn conductor_brief_seq(key: Seq<char>, signal: Seq<char>) -> Seq<char> {
    CONDUCTOR_INTRO@ + key + CONDUCTOR_TOOLS@ + key + CONDUCTOR_FINISH@ + key + CONDUCTOR_TOUCH@
        + signal + CONDUCTOR_DONE@ + key + BRIEF_TAIL@
}

fn push_str(s: &mut String, t: &str)
    ensures
        final(s)@ == old(s)@ + t@,
{
    s.append(t);
}

/// Initial prompt for the conductor agent.
pub fn conductor_brief(block_key: &str, signal_path: &str) -> (r: String)
    ensures
        r@ == conductor_brief_seq(block_key@, signal_path@),
{
    let mut s = owned(CONDUCTOR_INTRO);
    push_str(&mut s, block_key);
    push_str(&mut s, CONDUCTOR_TOOLS);
    push_str(&mut s, block_key);
    push_str(&mut s, CONDUCTOR_FINISH);
    push_str(&mut s, block_key);
    push_str(&mut s, CONDUCTOR_TOUCH);
    push_str(&mut s, signal_path);
    push_str(&mut s, CONDUCTOR_DONE);
    push_str(&mut s, block_key);
    push_str(&mut s, BRIEF_TAIL);
    s
}

pub const ENSEMBLE_INTRO: &'static str =
    "You are an **ensemble** agent in a codebeacon conductor session (block_key=`";

pub const ENSEMBLE_TASK: &'static str =
    "`). Implement ONLY your assigned task. Do not spawn other agents.\n\nTask:\n";

pub const ENSEMBLE_LOCKS: &'static str =
    "\n\nMCP server `codebeacon`: claim_path → edit → release_path with block_key=`";

pub const ENSEMBLE_TOUCH: &'static str = "`; finish with session_done. Also: `touch ";

pub const ENSEMBLE_DONE: &'static str = "` then CBDONE ";

pub open spec fn ensemble_brief_seq(key: Seq<char>, signal: Seq<char>, task: Seq<char>) -> Seq<char> {
    ENSEMBLE_INTRO@ + key + ENSEMBLE_TASK@ + task + ENSEMBLE_LOCKS@ + key + ENSEMBLE_TOUCH@ + signal
        + ENSEMBLE_DONE@ + key + BRIEF_TAIL@
}

/// Prompt wrapper for an ensemble member spawned by the conductor.
pub fn ensemble_brief(block_key: &str, signal_path: &str, task: &str) -> (r: String)
    ensures
        r@ == ensemble_brief_seq(block_key@, signal_path@, task@),
{
    let mut s = owned(ENSEMBLE_INTRO);
    push_str(&mut s, block_key);
    push_str(&mut s, ENSEMBLE_TASK);
    push_str(&mut s, task);
    push_str(&mut s, ENSEMBLE_LOCKS);
    push_str(&mut s, block_key);
    push_str(&mut s, ENSEMBLE_TOUCH);
    push_str(&mut s, signal_path);
    push_str(&mut s, ENSEMBLE_DONE);
    push_str(&mut s, block_key);
    push_str(&mut s, BRIEF_TAIL);
    s
}

/// Env vars for an agent PTY / MCP serve process.
pub fn ma_env(session_id: &str, role: AgentRole, block_key: &str) -> (r: Vec<(String, String)>)
    ensures
        r@.len() == 3,
        r@[0].0@ == ENV_SESSION@ && r@[0].1@ == session_id@,
        r@[1].0@ == ENV_ROLE@ && r@[1].1@ == role_name(role),
        r@[2].0@ == ENV_BLOCK_KEY@ && r@[2].1@ == block_key@,
{
    let mut v: Vec<(String, String)> = Vec::new();
    v.push((owned(ENV_SESSION), owned(session_id)));
    v.push((owned(ENV_ROLE), owned(role.as_str())));
    v.push((owned(ENV_BLOCK_KEY), owned(block_key)));
    v
}

} // verus!

verus! {

/// Whether the MCP caller is the conductor, from the caller's environment
/// (`CODEBEACON_MA_ROLE`, `CODEBEACON_MA_BLOCK_KEY`): a known role decides;
/// else a non-empty block key must be the conductor's; else the caller is
/// trusted.
pub open spec fn caller_is_conductor_spec(
    role_env: Option<Seq<char>>,
    block_key_env: Option<Seq<char>>,
    conductor_key: Seq<char>,
) -> bool {
    let role = match role_env {
        Some(r) => role_named(unicode_lowercase(r)),
        None => None,
    };
    match role {
        Some(AgentRole::Ensemble) => false,
        Some(AgentRole::Conductor) => true,
        None => match block_key_env {
            Some(k) => if crate::text::trim_seq(k).len() > 0 {
                crate::text::trim_seq(k) == conductor_key
            } else {
                true
            },
            None => true,
        },
    }
}

pub fn caller_is_conductor(role_env: Option<&str>, block_key_env: Option<&str>, conductor_key: &str) -> (b: bool)
    ensures
        b == caller_is_conductor_spec(
            match role_env {
                Some(r) => Some(r@),
                None => None,
            },
            match block_key_env {
                Some(k) => Some(k@),
                None => None,
            },
            conductor_key@,
        ),
{
    if let Some(role) = role_env {
        match AgentRole::parse(role) {
            Some(AgentRole::Ensemble) => {
                return false;
            },
            Some(AgentRole::Conductor) => {
                return true;
            },
            None => {},
        }
    }
    if let Some(key) = block_key_env {
        let k = crate::text::trim_str(key);
        if !k.as_str().is_empty() {
            return str_eq(k.as_str(), conductor_key);
        }
    }
    true
}

/// A session id read from one source: trimmed, and none when that leaves nothing.
pub open spec fn id_from(s: Option<Seq<char>>) -> Option<Seq<char>> {
    match s {
        Some(v) => if crate::text::trim_seq(v).len() > 0 {
            Some(crate::text::trim_seq(v))
        } else {
            None
        },
        None => None,
    }
}

/// The active multi-agent session: the environment's value when it holds an
/// id, else the `ACTIVE` file's.
pub fn pick_session_id(env_value: Option<String>, active_file: Option<String>) -> (r: Option<String>)
    ensures
        r.deep_view() == match id_from(env_value.deep_view()) {
            Some(id) => Some(id),
            None => id_from(active_file.deep_view()),
        },
{
    if let Some(v) = env_value {
        let t = crate::text::trim_str(v.as_str());
        if crate::text::chars_of(t.as_str()).len() > 0 {
            return Some(t);
        }
    }
    if let Some(v) = active_file {
        let t = crate::text::trim_str(v.as_str());
        if crate::text::chars_of(t.as_str()).len() > 0 {
            return Some(t);
        }
    }
    None
}

} // verus!
