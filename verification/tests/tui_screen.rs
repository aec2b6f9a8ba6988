use codebeacon::tui::layout::{
    no_pane_text, pane_is_view_only, pane_mark, prompt_text, prompt_title, pty_title, sidebar_line,
    sidebar_title, LayoutFocus,
};
use codebeacon::tui::conductor::AgentRole;
use codebeacon::tui::keys::{KeyCode, KeyEvent};
use codebeacon::tui::pane::PaneStatus;
use codebeacon::tui::ui::{
    after_conductor_start, after_gallery_spawn, initial_ui, on_click, on_key, on_poll, PaneInfo,
    UiEffect, UiState,
};

fn key(code: KeyCode) -> KeyEvent {
    KeyEvent { code, control: false }
}

fn pane(k: &str, role: AgentRole, status: PaneStatus) -> PaneInfo {
    PaneInfo { block_key: k.into(), role, status }
}

fn gallery() -> Vec<PaneInfo> {
    vec![
        pane("agent-1", AgentRole::Ensemble, PaneStatus::Running),
        pane("agent-2", AgentRole::Ensemble, PaneStatus::Done),
    ]
}

#[test]
fn navigation_and_quit() {
    let s = initial_ui(false, false);
    let (s, e) = on_key(&s, &gallery(), key(KeyCode::Char('j')), false, true);
    assert_eq!(s.sidebar_idx, 1);
    assert_eq!(e, UiEffect::Nothing);
    let (s, _) = on_key(&s, &gallery(), key(KeyCode::Down), false, true);
    assert_eq!(s.sidebar_idx, 1);
    let (s, e) = on_key(&s, &gallery(), key(KeyCode::Char('Q')), false, true);
    assert_eq!(e, UiEffect::Nothing);
    assert!(s.quit_armed);
    assert_eq!(s.hint, "press Q again to quit");
    let (_, e) = on_key(&s, &gallery(), key(KeyCode::Char('Q')), false, true);
    assert_eq!(e, UiEffect::Quit);
    let (s2, _) = on_key(&s, &gallery(), key(KeyCode::Up), false, true);
    assert!(!s2.quit_armed);
    assert_eq!(s2.sidebar_idx, 0);
}

#[test]
fn attach_detach_and_keys() {
    let s = initial_ui(false, false);
    let (s, _) = on_key(&s, &gallery(), key(KeyCode::Enter), false, true);
    assert!(s.attached);
    let (s, e) = on_key(&s, &gallery(), key(KeyCode::Char('a')), false, true);
    assert_eq!(e, UiEffect::SendBytes(0, vec![b'a']));
    let (s, e) = on_key(&s, &gallery(), KeyEvent { code: KeyCode::Char(']'), control: true }, false, true);
    assert_eq!(e, UiEffect::Nothing);
    assert!(!s.attached);
    assert_eq!(s.hint, "detached");
}

#[test]
fn conductor_rules() {
    let panes = vec![
        pane("lead", AgentRole::Conductor, PaneStatus::Running),
        pane("ensemble-1", AgentRole::Ensemble, PaneStatus::Running),
    ];
    let s = initial_ui(true, false);
    let (s, _) = on_key(&s, &panes, key(KeyCode::Char('j')), true, false);
    let (s, _) = on_key(&s, &panes, key(KeyCode::Enter), true, false);
    assert!(!s.attached);
    assert_eq!(s.hint, "ensemble is view-only — select ♪ conductor to attach");
    let (s, _) = on_key(&s, &panes, key(KeyCode::Char('n')), true, false);
    assert_eq!(s.hint, "conductor mode: use spawn_agent MCP (n disabled)");
    let (s, _) = on_key(&s, &panes, key(KeyCode::Char('k')), true, false);
    let (s, e) = on_key(&s, &panes, key(KeyCode::Char('x')), true, false);
    assert_eq!(e, UiEffect::Nothing);
    assert_eq!(s.hint, "closing conductor quits — press x or Q again");
    let (_, e) = on_key(&s, &panes, key(KeyCode::Char('x')), true, false);
    assert_eq!(e, UiEffect::Quit);
}

#[test]
fn close_pane_moves_selection() {
    let s = UiState { sidebar_idx: 1, ..initial_ui(false, false) };
    let (s, e) = on_key(&s, &gallery(), key(KeyCode::Char('x')), false, true);
    assert_eq!(e, UiEffect::ClosePane(1));
    assert_eq!(s.sidebar_idx, 0);
    assert_eq!(s.hint, "closed agent-2");
}

#[test]
fn prompt_editing_and_submit() {
    let s = initial_ui(false, true);
    let (s, _) = on_key(&s, &vec![], key(KeyCode::Char('n')), false, true);
    assert!(s.prompt_focused && s.awaiting_new);
    let (s, _) = on_key(&s, &vec![], key(KeyCode::Char('h')), false, true);
    let (s, _) = on_key(&s, &vec![], key(KeyCode::Char('i')), false, true);
    let (s, _) = on_key(&s, &vec![], key(KeyCode::Char('x')), false, true);
    let (s, _) = on_key(&s, &vec![], key(KeyCode::Backspace), false, true);
    assert_eq!(s.prompt, "hi");
    let (s, e) = on_key(&s, &vec![], key(KeyCode::Enter), false, true);
    assert_eq!(e, UiEffect::SpawnGallery("hi".into()));
    assert!(!s.prompt_focused && !s.awaiting_new);
    let s = after_gallery_spawn(&s, "agent-1", 1, None);
    assert_eq!(s.sidebar_idx, 0);
    assert_eq!(s.hint, "started agent-1");
}

#[test]
fn conductor_mission_start() {
    let s = initial_ui(true, true);
    assert!(s.prompt_focused && s.awaiting_new);
    assert_eq!(s.hint, "type conductor mission, Enter to start");
    let s = UiState { prompt: "  build it ".into(), ..s };
    let (s, e) = on_key(&s, &vec![], key(KeyCode::Enter), true, false);
    assert_eq!(e, UiEffect::StartConductor("build it".into()));
    let failed = after_conductor_start(&s, Some("boom".into()));
    assert_eq!(failed.hint, "spawn failed: boom");
    assert!(failed.prompt_focused && failed.awaiting_new);
    let ok = after_conductor_start(&s, None);
    assert_eq!(ok.hint, "conductor started");
}

#[test]
fn re_prompt_only_conductor() {
    let panes = vec![pane("lead", AgentRole::Conductor, PaneStatus::Running)];
    let s = UiState { prompt_focused: true, prompt: "again".into(), ..initial_ui(true, false) };
    let (s, e) = on_key(&s, &panes, key(KeyCode::Enter), true, false);
    assert_eq!(e, UiEffect::RePrompt(0, "again".into()));
    assert_eq!(s.hint, "re-prompt sent");
}

#[test]
fn poll_and_click() {
    let s = UiState { sidebar_idx: 1, attached: true, ..initial_ui(false, false) };
    let s = on_poll(&s, &gallery());
    assert!(!s.attached);
    assert_eq!(s.hint, "agent finished — Ctrl+] or arrows to navigate");
    let s = UiState { sidebar_idx: 5, ..s };
    let s = on_poll(&s, &gallery());
    assert_eq!(s.sidebar_idx, 1);
    let s = on_click(&s, &gallery(), 3, 1, false);
    assert_eq!(s.sidebar_idx, 0);
    let s = on_click(&s, &gallery(), 3, 1, false);
    assert!(s.attached);
    let untouched = on_click(&initial_ui(false, false), &gallery(), 30, 1, false);
    assert!(!untouched.attached);
}

#[test]
fn layout_text() {
    assert_eq!(pane_mark(true, PaneStatus::Running, AgentRole::Ensemble, 0), "⏳");
    assert_eq!(pane_mark(false, PaneStatus::WaitingPrompt, AgentRole::Conductor, 0), "?");
    assert_eq!(pane_mark(false, PaneStatus::Running, AgentRole::Conductor, 0), "♪");
    assert_eq!(pane_mark(false, PaneStatus::Done, AgentRole::Ensemble, 3), "✓");
    assert_eq!(sidebar_line("✓", "auth"), "✓ auth");
    assert_eq!(sidebar_title(false, true), " agents (n new) ");
    assert!(pane_is_view_only(true, AgentRole::Ensemble));
    assert!(!pane_is_view_only(true, AgentRole::Conductor));
    assert!(!pane_is_view_only(false, AgentRole::Ensemble));
    assert_eq!(pty_title(false, true), " PTY · view-only ");
    assert_eq!(no_pane_text(false), "No agents yet. Press n to create one.");
    assert_eq!(prompt_title(true, true), " conductor mission (Enter start · Esc cancel) ");
    let mut focus = LayoutFocus {
        sidebar_idx: 0,
        attached: false,
        prompt_focused: true,
        prompt: "fix".into(),
        tick: 0,
        allow_new: true,
        conductor_mode: false,
        hint: "hello".into(),
    };
    assert_eq!(prompt_text(&focus), "> fix_");
    focus.prompt_focused = false;
    assert_eq!(prompt_text(&focus), "hello");
    focus.hint.clear();
    assert_eq!(prompt_text(&focus), "Nav: j/k or ↑↓ · Enter attach · x close · p prompt · Q quit");
}
