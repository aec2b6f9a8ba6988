use codebeacon::loop_coord::artifact::{iteration_file, iteration_file_name, loop_root, session_dir, session_file};
use codebeacon::loop_coord::config::{LoopConfig, ReindexPolicy};
use codebeacon::loop_coord::session::{begin_session, session_id_from_nanos, LoopSession};
use codebeacon::loop_coord::signals::compute_signals;
use codebeacon::mcp::tools::rel_path;
use codebeacon::loop_coord::tick::{
    begin_tick, finish_tick, focus_file, in_repo, plan_tick, loop_end, loop_record, reindex_recommended, resolve_active_files,
    should_reindex,
};

fn test_cfg() -> LoopConfig {
    LoopConfig { stale_warn_threshold: 5, max_iterations: 10, ..LoopConfig::default() }
}

#[test]
fn should_pause_when_stale_exceeds_threshold() {
    let sig = compute_signals(&test_cfg(), 1, 6, false, true);
    assert!(sig.should_pause);
}

#[test]
fn should_stop_at_max_iterations() {
    let sig = compute_signals(&test_cfg(), 10, 0, false, false);
    assert!(sig.should_stop);
}

#[test]
fn no_pause_after_reindex() {
    let sig = compute_signals(&test_cfg(), 1, 6, true, false);
    assert!(!sig.should_pause);
}

#[test]
fn signal_hints_text() {
    let sig = compute_signals(&test_cfg(), 10, 6, false, true);
    assert_eq!(
        sig.hints,
        vec![
            "index is stale — consider re-index or call loop_tick with reindex policy".to_string(),
            "6 stale file(s) exceed threshold (5)".to_string(),
            "max_iterations (10) reached — call loop_end".to_string(),
        ]
    );
    let quiet = compute_signals(&test_cfg(), 2, 4, false, false);
    assert!(quiet.hints.is_empty());
    assert!(!quiet.should_pause && !quiet.should_stop);
}

#[test]
fn reindex_policy_never() {
    let cfg = LoopConfig { reindex: ReindexPolicy::Never, ..LoopConfig::default() };
    assert!(!should_reindex(&cfg, 1, 3));
}

#[test]
fn reindex_policy_if_stale() {
    let cfg = LoopConfig { reindex: ReindexPolicy::IfStale, ..LoopConfig::default() };
    assert!(should_reindex(&cfg, 1, 2));
    assert!(!should_reindex(&cfg, 1, 0));
}

#[test]
fn reindex_policy_every_n() {
    let cfg = LoopConfig { reindex: ReindexPolicy::EveryN, reindex_every_n: 3, ..LoopConfig::default() };
    assert!(should_reindex(&cfg, 3, 0));
    assert!(!should_reindex(&cfg, 2, 0));
}

#[test]
fn reindex_policy_always() {
    let cfg = LoopConfig { reindex: ReindexPolicy::Always, ..LoopConfig::default() };
    assert!(should_reindex(&cfg, 1, 0));
}

#[test]
fn every_n_zero_never_reindexes_and_recommendation() {
    let cfg = LoopConfig { reindex: ReindexPolicy::EveryN, reindex_every_n: 0, ..LoopConfig::default() };
    assert!(!should_reindex(&cfg, 0, 5));
    assert!(reindex_recommended(&cfg, 0));
    let never = LoopConfig { reindex: ReindexPolicy::Never, ..LoopConfig::default() };
    assert!(!reindex_recommended(&never, 0));
    assert!(reindex_recommended(&never, 1));
}

#[test]
fn session_ids_are_twelve_hex_digits() {
    assert_eq!(session_id_from_nanos(0), "000000000000");
    assert_eq!(session_id_from_nanos(255), "0000000000ff");
    assert_eq!(session_id_from_nanos((1u128 << 48) + 0xabc), "000000000abc");
    let s = begin_session("fix login", vec!["src/auth.rs".into()]);
    assert_eq!(s.id.len(), 12);
    assert!(s.id.chars().all(|c| c.is_ascii_hexdigit() && !c.is_ascii_uppercase()));
    assert_eq!(s.iteration, 0);
    assert!(!s.closed);
    assert_eq!(s.primary_file(), Some("src/auth.rs"));
}

fn session() -> LoopSession {
    LoopSession {
        id: "abc".into(),
        goal: "g".into(),
        started_at: "t".into(),
        iteration: 2,
        active_files: vec!["a.rs".into()],
        touched_files: vec![],
        last_tick_at: None,
        closed: false,
    }
}

#[test]
fn record_files_adds_each_once() {
    let mut s = session();
    s.record_files(&vec!["b.rs".into(), "a.rs".into(), "b.rs".into()]);
    assert_eq!(s.touched_files, vec!["b.rs", "a.rs"]);
    assert_eq!(s.active_files, vec!["a.rs", "b.rs"]);
    s.record_files(&vec!["b.rs".into(), "a.rs".into()]);
    assert_eq!(s.touched_files, vec!["b.rs", "a.rs"]);
}

#[test]
fn ticks_and_end() {
    let mut s = session();
    assert!(begin_tick(&mut s).is_ok());
    assert_eq!(s.iteration, 3);
    assert!(s.last_tick_at.is_some());
    assert_eq!(focus_file(None, &s), Some("a.rs".to_string()));
    assert_eq!(focus_file(Some("z.rs"), &s), Some("z.rs".to_string()));
    s.record_files(&vec!["c.rs".into()]);
    let end = loop_end(&mut s, Some("2 stale".into())).unwrap();
    assert_eq!(end.session_id, "abc");
    assert_eq!(end.iterations, 3);
    assert_eq!(end.touched_files, vec!["c.rs"]);
    assert_eq!(end.stale_warning.as_deref(), Some("2 stale"));
    assert!(s.closed);
    assert_eq!(loop_end(&mut s, None).unwrap_err(), "loop session 'abc' is closed");
    assert_eq!(begin_tick(&mut s).unwrap_err(), "loop session 'abc' is closed");
    assert_eq!(s.ensure_open().unwrap_err(), "loop session 'abc' is closed");
}

#[test]
fn storage_paths() {
    assert_eq!(loop_root("/r/.codeindex"), "/r/.codeindex/loop");
    assert_eq!(session_dir("/r/.codeindex", "abc"), "/r/.codeindex/loop/abc");
    assert_eq!(session_file("/r/.codeindex/", "abc"), "/r/.codeindex/loop/abc/session.json");
    assert_eq!(iteration_file_name(7), "iteration-007.json");
    assert_eq!(iteration_file_name(1234), "iteration-1234.json");
    assert_eq!(iteration_file("/r/.codeindex", "abc", 12), "/r/.codeindex/loop/abc/iteration-012.json");
}

#[test]
fn active_files_dedup() {
    assert_eq!(
        resolve_active_files("/repo", Some("a.rs".into()), Some(vec!["b.rs".into(), "a.rs".into(), "b.rs".into()])),
        vec!["a.rs", "b.rs"]
    );
    assert!(resolve_active_files("/repo", None, None).is_empty());
    assert_eq!(in_repo("/repo", "src/x.rs"), "/repo/src/x.rs");
    assert_eq!(in_repo("/repo", "/abs/y.rs"), "/abs/y.rs");
}

#[test]
fn record_answers_and_refuses_closed() {
    let mut s = session();
    let resp = loop_record(&mut s, &vec!["b.rs".into(), "b.rs".into()]).unwrap();
    assert_eq!(resp.session_id, "abc");
    assert_eq!(resp.recorded_files, vec!["b.rs", "b.rs"]);
    assert_eq!(s.touched_files, vec!["b.rs"]);
    assert_eq!(s.active_files, vec!["a.rs", "b.rs"]);
    s.close();
    assert_eq!(loop_record(&mut s, &vec!["c.rs".into()]).unwrap_err(), "loop session 'abc' is closed");
    assert_eq!(s.touched_files, vec!["b.rs"]);
}

#[test]
fn watch_text() {
    assert_eq!(
        codebeacon::loop_coord::watch::watch_prompt("abc"),
        "Call codebeacon loop tick --session abc and continue the task."
    );
    assert_eq!(codebeacon::loop_coord::watch::quote_escape("it's"), "it'\\''s");
    assert_eq!(codebeacon::loop_coord::watch::quote_escape("plain"), "plain");
    assert_eq!(
        codebeacon::loop_coord::watch::watch_script(30, "{}"),
        "while true; do sleep 30; echo 'AGENT_LOOP_TICK_codebeacon {}'; done"
    );
    assert_eq!(
        codebeacon::loop_coord::watch::watch_banner("abc", "5m", 300),
        "Watching session abc every 5m (300s). Press Ctrl+C to stop."
    );
}

#[test]
fn active_files_are_repo_relative() {
    // An absolute path inside the root and its relative form are one file.
    assert_eq!(
        resolve_active_files("/repo", Some("/repo/src/a.rs".into()), Some(vec!["src/a.rs".into(), "./src/b.rs".into()])),
        vec!["src/a.rs", "src/b.rs"]
    );
    // A path outside the root stays absolute.
    assert_eq!(resolve_active_files("/repo", Some("/elsewhere/c.rs".into()), None), vec!["/elsewhere/c.rs"]);
    assert_eq!(rel_path("/repo", "/repo/x/y.rs"), "x/y.rs");
    assert_eq!(rel_path("/repo", "/repo"), "");
    assert_eq!(rel_path("/repo", "/repository/z.rs"), "/repository/z.rs");
}

#[test]
fn record_and_end_keep_the_rest_of_the_session() {
    let mut s = begin_session("fix login", vec!["src/auth.rs".into()]);
    let started = s.started_at.clone();
    s.record_files(&vec!["src/db.rs".into()]);
    assert_eq!(s.goal, "fix login");
    assert_eq!(s.started_at, started);
    assert_eq!(s.last_tick_at, None);
    assert_eq!(s.iteration, 0);
    let id = s.id.clone();
    let resp = loop_end(&mut s, None).unwrap();
    assert!(s.closed);
    assert!(s.last_tick_at.is_some());
    assert_eq!(s.id, id);
    assert_eq!(s.goal, "fix login");
    assert_eq!(s.started_at, started);
    assert_eq!(s.touched_files, vec!["src/db.rs"]);
    assert_eq!(s.active_files, vec!["src/auth.rs", "src/db.rs"]);
    assert_eq!(resp.touched_files, vec!["src/db.rs"]);
}

#[test]
fn tick_plans_and_finishes() {
    let cfg = test_cfg();
    let mut s = begin_session("fix login", vec!["src/auth.rs".into()]);
    let plan = plan_tick(&mut s, &cfg, 3).unwrap();
    assert_eq!(s.iteration, 1);
    assert!(plan.reindex);
    assert!(plan.reindex_recommended);
    let bundle = finish_tick(&s, &cfg, plan, false, 6, None);
    assert_eq!(bundle.iteration, 1);
    assert_eq!(bundle.goal, "fix login");
    assert_eq!(bundle.focus_file, Some("src/auth.rs".to_string()));
    assert_eq!(bundle.signals.stale_count, 6);
    assert!(bundle.signals.should_pause);
    assert!(!bundle.signals.reindexed);
    let bundle = finish_tick(&s, &cfg, plan, true, 0, Some("src/db.rs"));
    assert_eq!(bundle.focus_file, Some("src/db.rs".to_string()));
    assert!(!bundle.signals.should_pause);
    let plan = plan_tick(&mut s, &cfg, 0).unwrap();
    assert!(!plan.reindex);
    assert!(!plan.reindex_recommended);
    loop_end(&mut s, None).unwrap();
    assert!(plan_tick(&mut s, &cfg, 0).is_err());
    assert_eq!(s.iteration, 2);
}

#[test]
fn session_start_is_rfc3339_utc() {
    let s = begin_session("g", vec![]);
    assert!(s.started_at.ends_with("+00:00"), "{}", s.started_at);
    assert_eq!(&s.started_at[4..5], "-");
    assert_eq!(&s.started_at[10..11], "T");
}
