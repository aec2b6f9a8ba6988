use codebeacon::tui::{allows_new_panes, conductor_meta, dry_run_lines, session_parallel, shows_mode_picker};
use codebeacon::tui::conductor::{
    conductor_brief, drain_spawn_queue, enqueue_spawn, ensemble_brief, get_agent_record,
    list_agent_records, ma_env, make_spawn_request, multi_agent_root, new_session_id,
    session_dir, session_id_at, spawn_request_at, upsert_agent, AgentRecord, AgentRole,
    AgentsFile, QueueFile, SessionMode,
};
use codebeacon::tui::keys::{
    attach_action, key_to_pty_bytes, nav_action, AttachAction, FocusTarget, KeyCode, KeyEvent,
    NavAction,
};
use codebeacon::tui::pane::PaneStatus;
use codebeacon::tui::{jobs_from_briefs, SessionJob};
use codebeacon::run_plan::discover::PlanDoc;
use codebeacon::run_plan::spawn::mission_prompt;

fn key(code: KeyCode) -> KeyEvent {
    KeyEvent { code, control: false }
}

fn ctrl(c: char) -> KeyEvent {
    KeyEvent { code: KeyCode::Char(c), control: true }
}

#[test]
fn mode_parse() {
    assert_eq!(SessionMode::parse("gallery").unwrap(), SessionMode::Gallery);
    assert_eq!(SessionMode::parse("conductor").unwrap(), SessionMode::Conductor);
    assert!(SessionMode::parse("mux").is_err());
}

#[test]
fn mode_parse_error_text_and_case() {
    assert_eq!(SessionMode::parse("GALLERY").unwrap(), SessionMode::Gallery);
    assert_eq!(
        SessionMode::parse("Mux"),
        Err("unknown mode `mux` (expected gallery | conductor)".to_string())
    );
    assert_eq!(SessionMode::Conductor.as_str(), "conductor");
}

#[test]
fn ensemble_cannot_match_conductor_role_str() {
    assert_eq!(AgentRole::parse("ensemble"), Some(AgentRole::Ensemble));
    assert_ne!(AgentRole::Conductor.as_str(), AgentRole::Ensemble.as_str());
}

#[test]
fn role_prefixes_and_unknown_role() {
    assert_eq!(AgentRole::parse("Conductor"), Some(AgentRole::Conductor));
    assert_eq!(AgentRole::parse("soloist"), None);
    assert_eq!(AgentRole::Conductor.sidebar_prefix(), "♪");
    assert_eq!(AgentRole::Ensemble.sidebar_prefix(), "·");
}

#[test]
fn queue_enqueue_drain() {
    let mut q = QueueFile::default();
    enqueue_spawn(&mut q, make_spawn_request("do thing".into(), Some("e-1".into()), None));
    enqueue_spawn(&mut q, make_spawn_request("other".into(), None, None));
    let drained = drain_spawn_queue(&mut q);
    assert_eq!(drained.len(), 2);
    assert_eq!(drained[0].prompt, "do thing");
    assert_eq!(drained[0].block_key.as_deref(), Some("e-1"));
    assert_eq!(drained[1].prompt, "other");
    assert!(drain_spawn_queue(&mut q).is_empty());
}

#[test]
fn agent_upsert_and_list() {
    let mut f = AgentsFile::default();
    upsert_agent(
        &mut f,
        AgentRecord {
            block_key: "conductor".into(),
            role: AgentRole::Conductor,
            status: "running".into(),
            summary: String::new(),
        },
    );
    upsert_agent(
        &mut f,
        AgentRecord {
            block_key: "conductor".into(),
            role: AgentRole::Conductor,
            status: "done".into(),
            summary: "ok".into(),
        },
    );
    let list = list_agent_records(&f);
    assert_eq!(list.len(), 1);
    assert_eq!(list[0].status, "done");
    assert_eq!(list[0].summary, "ok");
}

#[test]
fn upsert_keeps_other_agents_and_get_finds_them() {
    let mut f = AgentsFile::default();
    for (k, s) in [("a", "running"), ("b", "running"), ("a", "done")] {
        upsert_agent(
            &mut f,
            AgentRecord { block_key: k.into(), role: AgentRole::Ensemble, status: s.into(), summary: String::new() },
        );
    }
    let list = list_agent_records(&f);
    assert_eq!(list.len(), 2);
    assert_eq!(list[0].block_key, "a");
    assert_eq!(list[0].status, "done");
    assert_eq!(get_agent_record(&f, "b").unwrap().status, "running");
    assert!(get_agent_record(&f, "c").is_none());
}

#[test]
fn ids_and_paths() {
    assert_eq!(session_id_at(1700000000), "ma-1700000000");
    assert!(new_session_id().starts_with("ma-"));
    let r = spawn_request_at("p".into(), None, Some("m".into()), 42, 43);
    assert_eq!(r.id, "spawn-42");
    assert_eq!(r.enqueued_unix, 43);
    assert_eq!(multi_agent_root("/ws"), "/ws/.codeindex/multi-agent");
    assert_eq!(session_dir("/ws/", "ma-1"), "/ws/.codeindex/multi-agent/ma-1");
}

#[test]
fn briefs_match_templates() {
    let block_key = "lead";
    let expected = format!(
        "You are the **conductor** of a codebeacon multi-agent session (block_key=`{block_key}`). \
         Orchestrate; spawn **ensemble** agents — do not ask the user to press `n`.\n\n\
         MCP server name is exactly `codebeacon`. When MCP works:\n\
         - `spawn_agent` — args: prompt (required), optional block_key, optional model\n\
         - `list_agents` / `agent_status` — track ensemble members\n\
         - `claim_path` → edit → `release_path` for your own edits (your block_key=`{block_key}`)\n\
         - Each ensemble member has its own block_key and must claim paths before editing\n\
         - Finish with `session_done` block_key=`{block_key}` ok=true\n\n\
         When finished also: Bash `touch {}` then print exactly: CBDONE {block_key}. \
         Prefer Edit/StrReplace. Write code — do not narrate.",
        "/s/DONE.lead"
    );
    assert_eq!(conductor_brief(block_key, "/s/DONE.lead"), expected);
    let task = "fix login";
    let expected_e = format!(
        "You are an **ensemble** agent in a codebeacon conductor session (block_key=`{block_key}`). \
         Implement ONLY your assigned task. Do not spawn other agents.\n\n\
         Task:\n{task}\n\n\
         MCP server `codebeacon`: claim_path → edit → release_path with block_key=`{block_key}`; \
         finish with session_done. Also: `touch {}` then CBDONE {block_key}. \
         Prefer Edit/StrReplace. Write code — do not narrate.",
        "/s/DONE.lead"
    );
    assert_eq!(ensemble_brief(block_key, "/s/DONE.lead", task), expected_e);
}

#[test]
fn ma_env_pairs() {
    let env = ma_env("ma-1", AgentRole::Ensemble, "e-2");
    assert_eq!(
        env,
        vec![
            ("CODEBEACON_MA_SESSION".to_string(), "ma-1".to_string()),
            ("CODEBEACON_MA_ROLE".to_string(), "ensemble".to_string()),
            ("CODEBEACON_MA_BLOCK_KEY".to_string(), "e-2".to_string()),
        ]
    );
}

#[test]
fn terminal_statuses() {
    assert!(PaneStatus::Done.is_terminal());
    assert!(!PaneStatus::Running.is_terminal());
    assert_eq!(PaneStatus::Done.sidebar_mark(0), "✓");
    assert_eq!(PaneStatus::WaitingPrompt.sidebar_mark(0), "?");
}

#[test]
fn status_labels_and_spinner() {
    assert_eq!(PaneStatus::TimedOut.label(), "timed_out");
    assert_eq!(PaneStatus::WaitingPrompt.label(), "prompt");
    assert_eq!(PaneStatus::Running.sidebar_mark(5), "⠙");
    assert_eq!(PaneStatus::Starting.sidebar_mark(7), "⠸");
    assert_eq!(PaneStatus::Failed.sidebar_mark(3), "✗");
    assert!(PaneStatus::Closed.is_terminal());
    assert!(!PaneStatus::WaitingPrompt.is_terminal());
}

#[test]
fn hjkl_and_arrows_same_sidebar_nav() {
    assert_eq!(nav_action(key(KeyCode::Char('j')), FocusTarget::Sidebar), NavAction::SidebarDown);
    assert_eq!(nav_action(key(KeyCode::Down), FocusTarget::Sidebar), NavAction::SidebarDown);
    assert_eq!(nav_action(key(KeyCode::Char('k')), FocusTarget::Sidebar), NavAction::SidebarUp);
    assert_eq!(nav_action(key(KeyCode::Up), FocusTarget::Sidebar), NavAction::SidebarUp);
}

#[test]
fn attach_only_ctrl_bracket_detaches() {
    assert_eq!(attach_action(ctrl(']')), AttachAction::Detach);
    assert_eq!(attach_action(key(KeyCode::Esc)), AttachAction::PassThrough);
    assert_eq!(attach_action(ctrl('c')), AttachAction::PassThrough);
    assert_eq!(attach_action(key(KeyCode::Char('j'))), AttachAction::PassThrough);
}

#[test]
fn quit_is_capital_q_only() {
    assert_eq!(nav_action(key(KeyCode::Char('Q')), FocusTarget::Sidebar), NavAction::Quit);
    assert_eq!(nav_action(key(KeyCode::Char('q')), FocusTarget::Sidebar), NavAction::Ignore);
}

#[test]
fn attach_action_does_not_block_enter() {
    assert_eq!(nav_action(key(KeyCode::Enter), FocusTarget::Sidebar), NavAction::Attach);
}

#[test]
fn prompt_focus_keys() {
    assert_eq!(nav_action(key(KeyCode::Char('j')), FocusTarget::Prompt), NavAction::PromptChar('j'));
    assert_eq!(nav_action(key(KeyCode::Esc), FocusTarget::Prompt), NavAction::PromptCancel);
    assert_eq!(nav_action(ctrl('j'), FocusTarget::Prompt), NavAction::Ignore);
}

#[test]
fn pty_bytes() {
    assert_eq!(key_to_pty_bytes(ctrl('c')), vec![3u8]);
    assert_eq!(key_to_pty_bytes(ctrl('C')), vec![3u8]);
    assert_eq!(key_to_pty_bytes(ctrl(']')), vec![0x1d]);
    assert!(key_to_pty_bytes(ctrl('1')).is_empty());
    assert_eq!(key_to_pty_bytes(key(KeyCode::Char('é'))), "é".as_bytes().to_vec());
    assert_eq!(key_to_pty_bytes(key(KeyCode::Enter)), vec![b'\r']);
    assert_eq!(key_to_pty_bytes(key(KeyCode::Left)), b"\x1b[D".to_vec());
    assert!(key_to_pty_bytes(key(KeyCode::Other)).is_empty());
}

#[test]
fn gallery_and_brief_jobs() {
    let j = SessionJob::gallery("g-1".into(), "/s/DONE.g-1".into(), "hello".into());
    assert!(j.brief_path.is_none());
    assert_eq!(j.role, AgentRole::Ensemble);
    let plan = PlanDoc { path: "auth.md".into(), block_key: "auth".into(), body: "# auth".into() };
    let jobs = jobs_from_briefs(&vec![(plan, "/r/auth.md".to_string(), "/r/DONE.auth".to_string())]);
    assert_eq!(jobs.len(), 1);
    assert_eq!(jobs[0].prompt, mission_prompt("/r/auth.md", "auth", "/r/DONE.auth"));
    assert_eq!(jobs[0].brief_path.as_deref(), Some("/r/auth.md"));
}

#[test]
fn active_session_prefers_the_environment() {
    let pick = codebeacon::tui::conductor::pick_session_id;
    assert_eq!(pick(Some(" s1 \n".into()), Some("s2".into())), Some("s1".to_string()));
    assert_eq!(pick(Some("   ".into()), Some("s2\n".into())), Some("s2".to_string()));
    assert_eq!(pick(None, Some("".into())), None);
    assert_eq!(pick(None, None), None);
}

#[test]
fn conductor_job_carries_the_mission() {
    let job = codebeacon::tui::conductor_job("/w/.codeindex/multi-agent/s1", "ship it");
    assert_eq!(job.block_key, "conductor");
    assert_eq!(job.signal_path, "/w/.codeindex/multi-agent/s1/DONE.conductor");
    assert!(job.brief_path.is_none());
    assert!(job.prompt.ends_with("\n\nMission:\nship it"));
    assert_eq!(job.role, codebeacon::tui::AgentRole::Conductor);
}

#[test]
fn session_startup_decisions() {
    assert_eq!(session_parallel(0), 8);
    assert_eq!(session_parallel(3), 3);
    assert!(shows_mode_picker(true, false));
    assert!(!shows_mode_picker(true, true));
    assert!(!shows_mode_picker(false, false));
    assert!(allows_new_panes(true, SessionMode::Gallery));
    assert!(!allows_new_panes(true, SessionMode::Conductor));
    let meta = conductor_meta("ma-1".into(), "cursor", "m".into());
    assert_eq!((meta.session_id.as_str(), meta.conductor_key.as_str(), meta.provider.as_str()), ("ma-1", "conductor", "cursor"));
    assert_eq!(meta.mode, SessionMode::Conductor);
    let jobs = vec![SessionJob::gallery("a".into(), "/s/DONE.a".into(), "p".into())];
    assert_eq!(dry_run_lines(&jobs, true, false, SessionMode::Gallery), vec!["[dry-run] TUI would open pane=a signal=/s/DONE.a"]);
    assert_eq!(dry_run_lines(&vec![], true, false, SessionMode::Gallery), vec!["[dry-run] multi-agent TUI (mode picker)"]);
    assert_eq!(dry_run_lines(&vec![], true, true, SessionMode::Conductor), vec!["[dry-run] multi-agent TUI (conductor)"]);
    assert!(dry_run_lines(&vec![], false, true, SessionMode::Conductor).is_empty());
}
