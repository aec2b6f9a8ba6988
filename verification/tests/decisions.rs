use codebeacon::lsp::client::{body_length, header_step, HeaderStep};
use codebeacon::run_plan::spawn::RunPlanProvider;
use codebeacon::run_plan::wave::{child_action, wave_ranges, wave_size, ChildAction, ChildState};
use codebeacon::tui::conductor::{caller_is_conductor, AgentRole, SessionMode};
use codebeacon::tui::keys::KeyCode;
use codebeacon::tui::session::{job_env, job_mcp_config, JobMcp};
use codebeacon::tui::ui::{mode_picker_step, PickerStep};
use codebeacon::verify_cmd::choose_repo_root;

#[test]
fn waves() {
    assert_eq!(wave_size(0, 5), 5);
    assert_eq!(wave_size(0, 0), 1);
    assert_eq!(wave_size(2, 5), 2);
    assert_eq!(wave_ranges(5, 2), vec![(0, 2), (2, 4), (4, 5)]);
    assert_eq!(wave_ranges(4, 4), vec![(0, 4)]);
    assert!(wave_ranges(0, 3).is_empty());
}

#[test]
fn wave_child_decisions() {
    assert_eq!(child_action(true, true, ChildState::Running), ChildAction::Kill);
    assert_eq!(child_action(false, true, ChildState::Exited(false)), ChildAction::KillAndRecord("signal file", true));
    assert_eq!(child_action(false, false, ChildState::Running), ChildAction::Keep);
    assert_eq!(child_action(false, false, ChildState::Exited(true)), ChildAction::Record("process exit 0", true));
    assert_eq!(child_action(false, false, ChildState::Exited(false)), ChildAction::Record("process failed", false));
    assert_eq!(child_action(false, false, ChildState::WaitFailed), ChildAction::RecordAlways("spawn error", false));
}

#[test]
fn conductor_identity() {
    assert!(!caller_is_conductor(Some("Ensemble"), Some("lead"), "lead"));
    assert!(caller_is_conductor(Some("conductor"), Some("other"), "lead"));
    assert!(caller_is_conductor(Some("soloist"), Some(" lead "), "lead"));
    assert!(!caller_is_conductor(None, Some("e-1"), "lead"));
    assert!(caller_is_conductor(None, Some("  "), "lead"));
    assert!(caller_is_conductor(None, None, "lead"));
}

#[test]
fn job_configuration() {
    assert_eq!(
        job_mcp_config(RunPlanProvider::Claude, Some(("ma-1", "/w/.codeindex/multi-agent/ma-1")), "lead"),
        JobMcp::PerAgent("/w/.codeindex/multi-agent/ma-1/mcp-lead.json".into())
    );
    assert_eq!(job_mcp_config(RunPlanProvider::Cursor, Some(("ma-1", "/d")), "lead"), JobMcp::Shared);
    assert_eq!(job_mcp_config(RunPlanProvider::Claude, None, "lead"), JobMcp::Shared);
    assert!(job_env(None, AgentRole::Conductor, "lead").is_empty());
    let env = job_env(Some("ma-1"), AgentRole::Conductor, "lead");
    assert_eq!(env[1], ("CODEBEACON_MA_ROLE".to_string(), "conductor".to_string()));
}

#[test]
fn mode_picker() {
    assert_eq!(mode_picker_step(0, KeyCode::Char('j')), PickerStep::Move(1));
    assert_eq!(mode_picker_step(1, KeyCode::Down), PickerStep::Move(1));
    assert_eq!(mode_picker_step(1, KeyCode::Up), PickerStep::Move(0));
    assert_eq!(mode_picker_step(1, KeyCode::Enter), PickerStep::Choose(SessionMode::Conductor));
    assert_eq!(mode_picker_step(0, KeyCode::Enter), PickerStep::Choose(SessionMode::Gallery));
    assert_eq!(mode_picker_step(0, KeyCode::Char('q')), PickerStep::Cancel);
    assert_eq!(mode_picker_step(0, KeyCode::Char('z')), PickerStep::Stay);
}

#[test]
fn lsp_headers() {
    assert_eq!(header_step("Content-Length: 42\r\n", None), HeaderStep::More(Some(42)));
    assert_eq!(header_step("Content-Type: x\r\n", Some(7)), HeaderStep::More(Some(7)));
    assert_eq!(header_step("\r\n", Some(7)), HeaderStep::End);
    assert_eq!(header_step("Content-Length: lots", None), HeaderStep::BadLength);
    assert_eq!(body_length(Some(3)), Ok(3));
    assert_eq!(body_length(None), Err("missing Content-Length".to_string()));
}

#[test]
fn repo_choice() {
    assert_eq!(choose_repo_root(Some("/r".into()), &vec![], "/cwd".into()), Ok("/r".to_string()));
    assert_eq!(choose_repo_root(None, &vec!["/a".into()], "/cwd".into()), Ok("/a".to_string()));
    assert_eq!(choose_repo_root(None, &vec![], "/cwd".into()), Ok("/cwd".to_string()));
    assert!(choose_repo_root(None, &vec!["/a".into(), "/b".into()], "/cwd".into()).is_err());
}
