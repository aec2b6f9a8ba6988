use codebeacon::tui::conductor::{ensemble_brief, SpawnRequest};
use codebeacon::tui::pane::PaneStatus;
use codebeacon::tui::session::{
    completion, first_finish, jobs_to_start, plan_ensemble_starts, poll_status, unique_key, Finish,
};

#[test]
fn screen_poll_transitions() {
    assert_eq!(poll_status(PaneStatus::Running, false, true), PaneStatus::WaitingPrompt);
    assert_eq!(poll_status(PaneStatus::Starting, false, true), PaneStatus::WaitingPrompt);
    assert_eq!(poll_status(PaneStatus::WaitingPrompt, false, false), PaneStatus::Running);
    assert_eq!(poll_status(PaneStatus::WaitingPrompt, false, true), PaneStatus::WaitingPrompt);
    assert_eq!(poll_status(PaneStatus::Starting, false, false), PaneStatus::Starting);
    assert_eq!(poll_status(PaneStatus::Running, true, true), PaneStatus::Running);
    assert_eq!(poll_status(PaneStatus::Done, false, true), PaneStatus::Done);
}

#[test]
fn finishes_in_priority_order() {
    assert_eq!(first_finish(Some(false), true, Some(0)), Some(Finish::Store(false)));
    assert_eq!(first_finish(None, true, Some(1)), Some(Finish::Signal));
    assert_eq!(first_finish(None, false, Some(-2)), Some(Finish::Exit(-2)));
    assert_eq!(first_finish(None, false, None), None);
}

#[test]
fn completion_changes() {
    let c = completion(Finish::Exit(-2));
    assert_eq!(c.status, PaneStatus::Failed);
    assert_eq!(c.via, "exit");
    assert_eq!(c.line, "[codebeacon] exit -2");
    assert_eq!(c.agent_status, "failed");
    assert_eq!(c.summary, "exit -2");
    assert_eq!(c.record_done, Some(("process failed", false)));
    let ok = completion(Finish::Exit(0));
    assert_eq!(ok.status, PaneStatus::Done);
    assert_eq!(ok.record_done, Some(("process exit 0", true)));
    let s = completion(Finish::Signal);
    assert_eq!(s.line, "[codebeacon] done (signal)");
    assert_eq!(s.summary, "signal");
    let st = completion(Finish::Store(false));
    assert_eq!(st.line, "[codebeacon] failed");
    assert_eq!(st.via, "session_done");
    assert!(st.record_done.is_none());
    assert_eq!(completion(Finish::Exit(i32::MIN)).summary, "exit -2147483648");
}

#[test]
fn start_slots() {
    assert_eq!(jobs_to_start(1, 3, 5), 2);
    assert_eq!(jobs_to_start(1, 3, 1), 1);
    assert_eq!(jobs_to_start(4, 3, 5), 0);
    assert_eq!(jobs_to_start(0, 0, 5), 0);
}

#[test]
fn fresh_keys() {
    assert_eq!(unique_key(&vec![], "ensemble"), "ensemble-1");
    assert_eq!(
        unique_key(&vec!["ensemble-1".into(), "ensemble-3".into(), "x".into()], "ensemble"),
        "ensemble-2"
    );
    assert_eq!(unique_key(&vec!["e-1".into(), "e-2".into()], "e"), "e-3");
}

#[test]
fn ensemble_requests_become_jobs() {
    let reqs = vec![
        SpawnRequest { id: "s1".into(), prompt: "a".into(), block_key: None, model: None, enqueued_unix: 1 },
        SpawnRequest { id: "s2".into(), prompt: "b".into(), block_key: Some("lead".into()), model: None, enqueued_unix: 2 },
        SpawnRequest { id: "s3".into(), prompt: "c".into(), block_key: None, model: Some("m2".into()), enqueued_unix: 3 },
    ];
    let starts = plan_ensemble_starts(&reqs, &vec!["lead".into()], "m1", "/ma/s");
    assert_eq!(starts.len(), 2);
    assert_eq!(starts[0].job.block_key, "ensemble-1");
    assert_eq!(starts[0].job.signal_path, "/ma/s/DONE.ensemble-1");
    assert_eq!(starts[0].model, "m1");
    assert_eq!(starts[0].job.prompt, ensemble_brief("ensemble-1", "/ma/s/DONE.ensemble-1", "a"));
    assert_eq!(starts[1].job.block_key, "ensemble-2");
    assert_eq!(starts[1].model, "m2");
}
