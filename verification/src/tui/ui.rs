//! The session screen as a state machine: what a key, a mouse click or a
//! poll does to the selection, the prompt bar and the hint line, and which
//! effect on the panes the caller is to carry out.

use crate::text::{chars_of, concat2, owned, push_char, string_of_range, trim_seq, trim_str};
use crate::tui::conductor::AgentRole;
use crate::tui::keys::{
    attach_action, key_to_pty_bytes, nav_action, nav_action_spec, pty_bytes_spec, AttachAction,
    FocusTarget, KeyCode, KeyEvent, NavAction,
};
use crate::tui::pane::{status_is_terminal, PaneStatus};
use vstd::prelude::*;

verus! {

/// What the screen shows besides the panes themselves.
#[derive(Debug, Clone)]
pub struct UiState {
    pub sidebar_idx: usize,
    pub attached: bool,
    pub prompt_focused: bool,
    pub prompt: String,
    pub hint: String,
    /// A first `Q` (or `x` on the conductor) was pressed; the next one quits.
    pub quit_armed: bool,
    /// The prompt bar is collecting the prompt of a new agent.
    pub awaiting_new: bool,
}

pub struct UiView {
    pub sidebar_idx: usize,
    pub attached: bool,
    pub prompt_focused: bool,
    pub prompt: Seq<char>,
    pub hint: Seq<char>,
    pub quit_armed: bool,
    pub awaiting_new: bool,
}

impl View for UiState {
    type V = UiView;

    open spec fn view(&self) -> UiView {
        UiView {
            sidebar_idx: self.sidebar_idx,
            attached: self.attached,
            prompt_focused: self.prompt_focused,
            prompt: self.prompt@,
            hint: self.hint@,
            quit_armed: self.quit_armed,
            awaiting_new: self.awaiting_new,
        }
    }
}

/// What the screen decisions read about a pane.
#[derive(Debug, Clone)]
pub struct PaneInfo {
    pub block_key: String,
    pub role: AgentRole,
    pub status: PaneStatus,
}

pub struct PaneInfoView {
    pub block_key: Seq<char>,
    pub role: AgentRole,
    pub status: PaneStatus,
}

impl View for PaneInfo {
    type V = PaneInfoView;

    open spec fn view(&self) -> PaneInfoView {
        PaneInfoView { block_key: self.block_key@, role: self.role, status: self.status }
    }
}

pub open spec fn panes_view(v: Seq<PaneInfo>) -> Seq<PaneInfoView> {
    v.map_values(|p: PaneInfo| p@)
}

/// What the caller does to the panes after a step.
#[derive(Debug, Clone, PartialEq, Eq)]
pub enum UiEffect {
    Nothing,
    Quit,
    /// Write these bytes to the pane's terminal.
    SendBytes(usize, Vec<u8>),
    /// Kill the pane, record it as closed by the user, remove it and start queued jobs.
    ClosePane(usize),
    /// Start the conductor with this mission.
    StartConductor(String),
    /// Start a gallery agent with this prompt.
    SpawnGallery(String),
    /// Send this prompt again to the pane.
    RePrompt(usize, String),
}

pub enum EffectView {
    Nothing,
    Quit,
    SendBytes(usize, Seq<u8>),
    ClosePane(usize),
    StartConductor(Seq<char>),
    SpawnGallery(Seq<char>),
    RePrompt(usize, Seq<char>),
}

impl View for UiEffect {
    type V = EffectView;

    open spec fn view(&self) -> EffectView {
        match self {
            UiEffect::Nothing => EffectView::Nothing,
            UiEffect::Quit => EffectView::Quit,
            UiEffect::SendBytes(i, b) => EffectView::SendBytes(*i, b@),
            UiEffect::ClosePane(i) => EffectView::ClosePane(*i),
            UiEffect::StartConductor(t) => EffectView::StartConductor(t@),
            UiEffect::SpawnGallery(t) => EffectView::SpawnGallery(t@),
            UiEffect::RePrompt(i, t) => EffectView::RePrompt(*i, t@),
        }
    }
}

pub const HINT_DETACHED: &'static str = "detached";

pub const HINT_VIEW_ONLY: &'static str = "ensemble is view-only — select ♪ conductor to attach";

pub const HINT_NEW_AGENT: &'static str = "type agent prompt, Enter to spawn";

pub const HINT_NO_NEW_CONDUCTOR: &'static str = "conductor mode: use spawn_agent MCP (n disabled)";

pub const HINT_NO_NEW: &'static str = "n only in multi-agent gallery mode";

pub const HINT_CLOSE_CONDUCTOR: &'static str = "closing conductor quits — press x or Q again";

pub const HINT_REPROMPT_CONDUCTOR_ONLY: &'static str = "re-prompt only on conductor";

pub const HINT_NO_REPROMPT_ENSEMBLE: &'static str = "cannot re-prompt ensemble";

pub const HINT_REPROMPT_SENT: &'static str = "re-prompt sent";

pub const HINT_QUIT_AGAIN: &'static str = "press Q again to quit";

pub const HINT_AGENT_FINISHED: &'static str = "agent finished — Ctrl+] or arrows to navigate";

pub const HINT_CONDUCTOR_MISSION: &'static str = "type conductor mission, Enter to start";

pub const HINT_CONDUCTOR_STARTED: &'static str = "conductor started";

pub const HINT_VIEW_ONLY_SHORT: &'static str = "ensemble is view-only";

// ---------------------------------------------------------------------------
// Model
// ---------------------------------------------------------------------------

/// The pane at `i` is an ensemble member of a conductor session.
pub open spec fn is_ensemble_pane(panes: Seq<PaneInfoView>, i: int, conductor_mode: bool) -> bool {
    conductor_mode && panes[i].role != AgentRole::Conductor
}

/// The selection after closing the selected pane.
pub open spec fn idx_after_close(idx: usize, len: nat) -> usize {
    if idx > 0 && idx >= len - 1 {
        (idx - 1) as usize
    } else {
        idx
    }
}

/// The step of a key press.
pub open spec fn key_step(
    s: UiView,
    panes: Seq<PaneInfoView>,
    key: KeyEvent,
    conductor_mode: bool,
    allow_new: bool,
) -> (UiView, EffectView) {
    let len = panes.len();
    let idx = s.sidebar_idx;
    if s.attached {
        if key.control && key.code == KeyCode::Char(']') {
            (UiView { attached: false, hint: HINT_DETACHED@, ..s }, EffectView::Nothing)
        } else if idx < len {
            (s, EffectView::SendBytes(idx, pty_bytes_spec(key)))
        } else {
            (s, EffectView::Nothing)
        }
    } else {
        let target = if s.prompt_focused {
            FocusTarget::Prompt
        } else {
            FocusTarget::Sidebar
        };
        let calm = UiView { quit_armed: false, ..s };
        match nav_action_spec(key, target) {
            NavAction::SidebarUp => (
                UiView {
                    sidebar_idx: if len > 0 && idx > 0 {
                        (idx - 1) as usize
                    } else {
                        idx
                    },
                    ..calm
                },
                EffectView::Nothing,
            ),
            NavAction::SidebarDown => (
                UiView {
                    sidebar_idx: if len > 0 {
                        if idx + 1 < len - 1 {
                            (idx + 1) as usize
                        } else {
                            (len - 1) as usize
                        }
                    } else {
                        idx
                    },
                    ..calm
                },
                EffectView::Nothing,
            ),
            NavAction::Attach => (
                if idx < len {
                    if is_ensemble_pane(panes, idx as int, conductor_mode) {
                        UiView { attached: false, hint: HINT_VIEW_ONLY@, ..calm }
                    } else {
                        UiView { attached: true, prompt_focused: false, hint: Seq::empty(), ..calm }
                    }
                } else {
                    calm
                },
                EffectView::Nothing,
            ),
            NavAction::NewPane => (
                if allow_new {
                    UiView {
                        prompt_focused: true,
                        awaiting_new: true,
                        prompt: Seq::empty(),
                        hint: HINT_NEW_AGENT@,
                        ..calm
                    }
                } else if conductor_mode {
                    UiView { hint: HINT_NO_NEW_CONDUCTOR@, ..calm }
                } else {
                    UiView { hint: HINT_NO_NEW@, ..calm }
                },
                EffectView::Nothing,
            ),
            NavAction::ClosePane => if idx < len {
                if conductor_mode && panes[idx as int].role == AgentRole::Conductor {
                    if !s.quit_armed {
                        (UiView { quit_armed: true, hint: HINT_CLOSE_CONDUCTOR@, ..s }, EffectView::Nothing)
                    } else {
                        (s, EffectView::Quit)
                    }
                } else {
                    (
                        UiView {
                            sidebar_idx: idx_after_close(idx, len),
                            hint: "closed "@ + panes[idx as int].block_key,
                            ..calm
                        },
                        EffectView::ClosePane(idx),
                    )
                }
            } else {
                (calm, EffectView::Nothing)
            },
            NavAction::FocusPrompt => (
                if conductor_mode && idx < len && panes[idx as int].role != AgentRole::Conductor {
                    UiView { hint: HINT_REPROMPT_CONDUCTOR_ONLY@, ..calm }
                } else {
                    UiView {
                        prompt_focused: true,
                        awaiting_new: false,
                        prompt: Seq::empty(),
                        hint: Seq::empty(),
                        ..calm
                    }
                },
                EffectView::Nothing,
            ),
            NavAction::PromptCancel => (
                UiView { prompt_focused: false, awaiting_new: false, prompt: Seq::empty(), ..calm },
                EffectView::Nothing,
            ),
            NavAction::PromptChar(c) => (UiView { prompt: s.prompt.push(c), ..calm }, EffectView::Nothing),
            NavAction::PromptBackspace => (
                UiView {
                    prompt: if s.prompt.len() > 0 {
                        s.prompt.drop_last()
                    } else {
                        s.prompt
                    },
                    ..calm
                },
                EffectView::Nothing,
            ),
            NavAction::PromptSubmit => {
                let text = trim_seq(s.prompt);
                let closed = UiView { prompt_focused: false, prompt: Seq::empty(), ..s };
                if text.len() == 0 {
                    (closed, EffectView::Nothing)
                } else if conductor_mode && len == 0 && s.awaiting_new {
                    (UiView { awaiting_new: false, quit_armed: false, ..closed }, EffectView::StartConductor(text))
                } else {
                    let next = UiView { awaiting_new: false, quit_armed: false, ..closed };
                    if allow_new && (len == 0 || s.awaiting_new) {
                        (next, EffectView::SpawnGallery(text))
                    } else if idx < len {
                        if is_ensemble_pane(panes, idx as int, conductor_mode) {
                            (UiView { hint: HINT_NO_REPROMPT_ENSEMBLE@, ..next }, EffectView::Nothing)
                        } else {
                            (UiView { hint: HINT_REPROMPT_SENT@, ..next }, EffectView::RePrompt(idx, text))
                        }
                    } else {
                        (next, EffectView::Nothing)
                    }
                }
            },
            NavAction::Quit => if s.quit_armed {
                (s, EffectView::Quit)
            } else {
                (UiView { quit_armed: true, hint: HINT_QUIT_AGAIN@, ..s }, EffectView::Nothing)
            },
            NavAction::Ignore => (calm, EffectView::Nothing),
        }
    }
}

// ---------------------------------------------------------------------------
// Implementation
// ---------------------------------------------------------------------------

fn copy_state(s: &UiState) -> (r: UiState)
    ensures
        r@ == s@,
{
    UiState {
        sidebar_idx: s.sidebar_idx,
        attached: s.attached,
        prompt_focused: s.prompt_focused,
        prompt: s.prompt.clone(),
        hint: s.hint.clone(),
        quit_armed: s.quit_armed,
        awaiting_new: s.awaiting_new,
    }
}

fn pane_is_ensemble(panes: &Vec<PaneInfo>, i: usize, conductor_mode: bool) -> (b: bool)
    requires
        i < panes@.len(),
    ensures
        b == is_ensemble_pane(panes_view(panes@), i as int, conductor_mode),
{
    conductor_mode && match panes[i].role {
        AgentRole::Conductor => false,
        AgentRole::Ensemble => true,
    }
}

/// The step of a key press: the new screen state and the effect to carry out.
pub fn on_key(
    state: &UiState,
    panes: &Vec<PaneInfo>,
    key: KeyEvent,
    conductor_mode: bool,
    allow_new: bool,
) -> (r: (UiState, UiEffect))
    ensures
        (r.0@, r.1@) == key_step(state@, panes_view(panes@), key, conductor_mode, allow_new),
{
    let ghost pv = panes_view(panes@);
    let len = panes.len();
    let idx = state.sidebar_idx;
    let mut s = copy_state(state);
    if state.attached {
        match attach_action(key) {
            AttachAction::Detach => {
                s.attached = false;
                s.hint = owned(HINT_DETACHED);
                return (s, UiEffect::Nothing);
            },
            AttachAction::PassThrough => {
                if idx < len {
                    return (s, UiEffect::SendBytes(idx, key_to_pty_bytes(key)));
                }
                return (s, UiEffect::Nothing);
            },
        }
    }
    let target = if state.prompt_focused {
        FocusTarget::Prompt
    } else {
        FocusTarget::Sidebar
    };
    let action = nav_action(key, target);
    match action {
        NavAction::Quit => {
            if state.quit_armed {
                return (s, UiEffect::Quit);
            }
            s.quit_armed = true;
            s.hint = owned(HINT_QUIT_AGAIN);
            return (s, UiEffect::Nothing);
        },
        NavAction::ClosePane => {
            if idx < len {
                let is_conductor = match panes[idx].role {
                    AgentRole::Conductor => true,
                    AgentRole::Ensemble => false,
                };
                if conductor_mode && is_conductor {
                    if !state.quit_armed {
                        s.quit_armed = true;
                        s.hint = owned(HINT_CLOSE_CONDUCTOR);
                        return (s, UiEffect::Nothing);
                    }
                    return (s, UiEffect::Quit);
                }
                s.sidebar_idx = if idx > 0 && idx >= len - 1 {
                    idx - 1
                } else {
                    idx
                };
                s.hint = concat2("closed ", panes[idx].block_key.as_str());
                s.quit_armed = false;
                assert(pv[idx as int].block_key == panes@[idx as int].block_key@);
                return (s, UiEffect::ClosePane(idx));
            }
            s.quit_armed = false;
            return (s, UiEffect::Nothing);
        },
        NavAction::PromptSubmit => {
            let text = trim_str(state.prompt.as_str());
            s.prompt_focused = false;
            s.prompt = String::new();
            if text.as_str().is_empty() {
                return (s, UiEffect::Nothing);
            }
            if conductor_mode && len == 0 && state.awaiting_new {
                s.awaiting_new = false;
                s.quit_armed = false;
                return (s, UiEffect::StartConductor(text));
            }
            s.awaiting_new = false;
            s.quit_armed = false;
            if allow_new && (len == 0 || state.awaiting_new) {
                return (s, UiEffect::SpawnGallery(text));
            }
            if idx < len {
                if pane_is_ensemble(panes, idx, conductor_mode) {
                    s.hint = owned(HINT_NO_REPROMPT_ENSEMBLE);
                    return (s, UiEffect::Nothing);
                }
                s.hint = owned(HINT_REPROMPT_SENT);
                return (s, UiEffect::RePrompt(idx, text));
            }
            return (s, UiEffect::Nothing);
        },
        _ => {},
    }
    s.quit_armed = false;
    match action {
        NavAction::SidebarUp => {
            if len > 0 && idx > 0 {
                s.sidebar_idx = idx - 1;
            }
        },
        NavAction::SidebarDown => {
            if len > 0 {
                s.sidebar_idx = if len >= 2 && idx < len - 2 {
                    idx + 1
                } else {
                    len - 1
                };
            }
        },
        NavAction::Attach => {
            if idx < len {
                if pane_is_ensemble(panes, idx, conductor_mode) {
                    s.attached = false;
                    s.hint = owned(HINT_VIEW_ONLY);
                } else {
                    s.attached = true;
                    s.prompt_focused = false;
                    s.hint = String::new();
                }
            }
        },
        NavAction::NewPane => {
            if allow_new {
                s.prompt_focused = true;
                s.awaiting_new = true;
                s.prompt = String::new();
                s.hint = owned(HINT_NEW_AGENT);
            } else if conductor_mode {
                s.hint = owned(HINT_NO_NEW_CONDUCTOR);
            } else {
                s.hint = owned(HINT_NO_NEW);
            }
        },
        NavAction::FocusPrompt => {
            if conductor_mode && idx < len && match panes[idx].role {
                AgentRole::Conductor => false,
                AgentRole::Ensemble => true,
            } {
                s.hint = owned(HINT_REPROMPT_CONDUCTOR_ONLY);
            } else {
                s.prompt_focused = true;
                s.awaiting_new = false;
                s.prompt = String::new();
                s.hint = String::new();
            }
        },
        NavAction::PromptCancel => {
            s.prompt_focused = false;
            s.awaiting_new = false;
            s.prompt = String::new();
        },
        NavAction::PromptChar(c) => {
            push_char(&mut s.prompt, c);
        },
        NavAction::PromptBackspace => {
            let chars = chars_of(state.prompt.as_str());
            if chars.len() > 0 {
                s.prompt = string_of_range(&chars, 0, chars.len() - 1);
                assert(s.prompt@ =~= state.prompt@.drop_last());
            }
        },
        _ => {},
    }
    (s, UiEffect::Nothing)
}

/// The screen when a session starts: a conductor session with no pane asks
/// for the conductor's mission.
pub fn initial_ui(conductor_mode: bool, no_panes: bool) -> (r: UiState)
    ensures
        r@.sidebar_idx == 0,
        !r@.attached,
        !r@.quit_armed,
        r@.prompt.len() == 0,
        r@.prompt_focused == (conductor_mode && no_panes),
        r@.awaiting_new == (conductor_mode && no_panes),
        r@.hint == (if conductor_mode && no_panes {
            HINT_CONDUCTOR_MISSION@
        } else {
            Seq::empty()
        }),
{
    let start = conductor_mode && no_panes;
    UiState {
        sidebar_idx: 0,
        attached: false,
        prompt_focused: start,
        prompt: String::new(),
        hint: if start {
            owned(HINT_CONDUCTOR_MISSION)
        } else {
            String::new()
        },
        quit_armed: false,
        awaiting_new: start,
    }
}

/// After a poll: a finished pane is detached from, and the selection is kept
/// on an existing pane.
pub open spec fn poll_step(s: UiView, panes: Seq<PaneInfoView>) -> UiView {
    let len = panes.len();
    let a = if s.attached && s.sidebar_idx < len && status_is_terminal(panes[s.sidebar_idx as int].status) {
        UiView { attached: false, hint: HINT_AGENT_FINISHED@, ..s }
    } else {
        s
    };
    if a.sidebar_idx >= len && len > 0 {
        UiView { sidebar_idx: (len - 1) as usize, ..a }
    } else {
        a
    }
}

pub fn on_poll(state: &UiState, panes: &Vec<PaneInfo>) -> (r: UiState)
    ensures
        r@ == poll_step(state@, panes_view(panes@)),
{
    let mut s = copy_state(state);
    let len = panes.len();
    if s.attached && s.sidebar_idx < len && panes[s.sidebar_idx].status.is_terminal() {
        s.attached = false;
        s.hint = owned(HINT_AGENT_FINISHED);
    }
    if s.sidebar_idx >= len && len > 0 {
        s.sidebar_idx = len - 1;
    }
    s
}

/// A click in the sidebar: on the selected pane it attaches (not to an
/// ensemble member of a conductor session), on another it selects.
pub open spec fn click_step(s: UiView, panes: Seq<PaneInfoView>, column: u16, row: u16, conductor_mode: bool) -> UiView {
    if s.attached || !(column < 22 && row >= 1) {
        s
    } else {
        let i = (row - 1) as usize;
        if i >= panes.len() {
            s
        } else if i == s.sidebar_idx {
            if is_ensemble_pane(panes, i as int, conductor_mode) {
                UiView { hint: HINT_VIEW_ONLY_SHORT@, ..s }
            } else {
                UiView { attached: true, ..s }
            }
        } else {
            UiView { sidebar_idx: i, ..s }
        }
    }
}

pub fn on_click(state: &UiState, panes: &Vec<PaneInfo>, column: u16, row: u16, conductor_mode: bool) -> (r: UiState)
    ensures
        r@ == click_step(state@, panes_view(panes@), column, row, conductor_mode),
{
    let mut s = copy_state(state);
    if state.attached || !(column < 22 && row >= 1) {
        return s;
    }
    let i = (row - 1) as usize;
    if i >= panes.len() {
        return s;
    }
    if i == state.sidebar_idx {
        if pane_is_ensemble(panes, i, conductor_mode) {
            s.hint = owned(HINT_VIEW_ONLY_SHORT);
        } else {
            s.attached = true;
        }
    } else {
        s.sidebar_idx = i;
    }
    s
}

/// After the conductor was started (or failed to start with `error`).
pub fn after_conductor_start(state: &UiState, error: Option<String>) -> (r: UiState)
    ensures
        match error {
            None => r@ == UiView { sidebar_idx: 0, hint: HINT_CONDUCTOR_STARTED@, ..state@ },
            Some(e) => r@ == UiView {
                hint: "spawn failed: "@ + e@,
                prompt_focused: true,
                awaiting_new: true,
                ..state@
            },
        },
{
    let mut s = copy_state(state);
    match error {
        None => {
            s.sidebar_idx = 0;
            s.hint = owned(HINT_CONDUCTOR_STARTED);
        },
        Some(e) => {
            s.hint = concat2("spawn failed: ", e.as_str());
            s.prompt_focused = true;
            s.awaiting_new = true;
        },
    }
    s
}

/// After a gallery agent was started under `block_key` as pane number
/// `pane_count - 1` (or failed to start with `error`).
pub fn after_gallery_spawn(state: &UiState, block_key: &str, pane_count: usize, error: Option<String>) -> (r:
    UiState)
    requires
        error is None ==> pane_count > 0,
    ensures
        match error {
            None => r@ == UiView {
                sidebar_idx: (pane_count - 1) as usize,
                hint: "started "@ + block_key@,
                ..state@
            },
            Some(e) => r@ == UiView { hint: "spawn failed: "@ + e@, ..state@ },
        },
{
    let mut s = copy_state(state);
    match error {
        None => {
            s.sidebar_idx = pane_count - 1;
            s.hint = concat2("started ", block_key);
        },
        Some(e) => {
            s.hint = concat2("spawn failed: ", e.as_str());
        },
    }
    s
}

// ---------------------------------------------------------------------------
// Laws
// ---------------------------------------------------------------------------

/// Quitting takes two presses: a step quits only when a first press armed it.
pub proof fn law_quit_needs_two_presses(
    s: UiView,
    panes: Seq<PaneInfoView>,
    key: KeyEvent,
    conductor_mode: bool,
    allow_new: bool,
)
    ensures
        key_step(s, panes, key, conductor_mode, allow_new).1 is Quit ==> s.quit_armed,
{
}

/// In a conductor session a step never attaches to an ensemble member: if the
/// screen is attached afterwards, it was attached before or the selected pane
/// is the conductor.
pub proof fn law_ensemble_is_view_only(
    s: UiView,
    panes: Seq<PaneInfoView>,
    key: KeyEvent,
    allow_new: bool,
    column: u16,
    row: u16,
)
    ensures
        key_step(s, panes, key, true, allow_new).0.attached && !s.attached ==> key_step(
            s,
            panes,
            key,
            true,
            allow_new,
        ).0.sidebar_idx < panes.len() && panes[key_step(s, panes, key, true, allow_new).0.sidebar_idx as int].role
            == AgentRole::Conductor,
        click_step(s, panes, column, row, true).attached && !s.attached ==> click_step(s, panes, column, row, true).sidebar_idx
            < panes.len() && panes[click_step(s, panes, column, row, true).sidebar_idx as int].role
            == AgentRole::Conductor,
{
}

/// A step keeps the selection on a pane when it was on one: unchanged panes
/// stay selectable, and closing a pane moves the selection onto one that remains.
pub proof fn law_selection_stays_on_a_pane(
    s: UiView,
    panes: Seq<PaneInfoView>,
    key: KeyEvent,
    conductor_mode: bool,
    allow_new: bool,
)
    requires
        s.sidebar_idx < panes.len(),
    ensures
        !(key_step(s, panes, key, conductor_mode, allow_new).1 is ClosePane) ==> key_step(
            s,
            panes,
            key,
            conductor_mode,
            allow_new,
        ).0.sidebar_idx < panes.len(),
        key_step(s, panes, key, conductor_mode, allow_new).1 is ClosePane && panes.len() > 1
            ==> key_step(s, panes, key, conductor_mode, allow_new).0.sidebar_idx < panes.len() - 1,
{
}

} // verus!

verus! {

/// A key of the startup mode picker, whose two lines are Gallery and Conductor.
#[derive(Debug, Clone, Copy, PartialEq, Eq, Structural)]
pub enum PickerStep {
    /// Highlight this line.
    Move(usize),
    Choose(crate::tui::conductor::SessionMode),
    Cancel,
    Stay,
}

pub open spec fn picker_mode(idx: usize) -> crate::tui::conductor::SessionMode {
    if idx == 0 {
        crate::tui::conductor::SessionMode::Gallery
    } else {
        crate::tui::conductor::SessionMode::Conductor
    }
}

pub fn mode_picker_step(idx: usize, code: KeyCode) -> (r: PickerStep)
    requires
        idx < 2,
    ensures
        r == (match code {
            KeyCode::Char('j') | KeyCode::Down => PickerStep::Move(1),
            KeyCode::Char('k') | KeyCode::Up => PickerStep::Move(0),
            KeyCode::Enter => PickerStep::Choose(picker_mode(idx)),
            KeyCode::Esc | KeyCode::Char('q') | KeyCode::Char('Q') => PickerStep::Cancel,
            _ => PickerStep::Stay,
        }),
{
    match code {
        KeyCode::Char('j') | KeyCode::Down => PickerStep::Move(1),
        KeyCode::Char('k') | KeyCode::Up => PickerStep::Move(0),
        KeyCode::Enter => PickerStep::Choose(
            if idx == 0 {
                crate::tui::conductor::SessionMode::Gallery
            } else {
                crate::tui::conductor::SessionMode::Conductor
            },
        ),
        KeyCode::Esc | KeyCode::Char('q') | KeyCode::Char('Q') => PickerStep::Cancel,
        _ => PickerStep::Stay,
    }
}

} // verus!
