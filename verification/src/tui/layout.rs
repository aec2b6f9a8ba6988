//! What the sidebar, focused pane and prompt bar are drawn from, and the text
//! they show.

use crate::text::owned;
use crate::tui::conductor::AgentRole;
use crate::tui::pane::{status_mark, PaneStatus};
use vstd::prelude::*;

verus! {

pub struct LayoutFocus {
    pub sidebar_idx: usize,
    pub attached: bool,
    pub prompt_focused: bool,
    pub prompt: String,
    pub tick: u64,
    pub allow_new: bool,
    pub conductor_mode: bool,
    pub hint: String,
}

pub open spec fn pane_mark_seq(re_prompt_loading: bool, status: PaneStatus, role: AgentRole, tick: u64) -> Seq<char> {
    if re_prompt_loading {
        "⏳"@
    } else if status == PaneStatus::WaitingPrompt {
        "?"@
    } else if role == AgentRole::Conductor {
        "♪"@
    } else {
        status_mark(status, tick)
    }
}

/// The mark before a pane's name in the sidebar: an hourglass while a
/// re-prompt loads, `?` while it waits for input, a note for the conductor,
/// else its status mark.
pub fn pane_mark(re_prompt_loading: bool, status: PaneStatus, role: AgentRole, tick: u64) -> (r: &'static str)
    ensures
        r@ == pane_mark_seq(re_prompt_loading, status, role, tick),
{
    if re_prompt_loading {
        "⏳"
    } else if status == PaneStatus::WaitingPrompt {
        "?"
    } else if role == AgentRole::Conductor {
        "♪"
    } else {
        status.sidebar_mark(tick)
    }
}

/// One sidebar line: the mark, a space, the pane's block key.
pub fn sidebar_line(mark: &str, block_key: &str) -> (r: String)
    ensures
        r@ == mark@ + " "@ + block_key@,
{
    let mut s = owned(mark);
    s.append(" ");
    s.append(block_key);
    s
}

pub fn sidebar_title(conductor_mode: bool, allow_new: bool) -> (r: &'static str)
    ensures
        r@ == if conductor_mode {
            " conductor "@
        } else if allow_new {
            " agents (n new) "@
        } else {
            " agents "@
        },
{
    if conductor_mode {
        " conductor "
    } else if allow_new {
        " agents (n new) "
    } else {
        " agents "
    }
}

/// In a conductor session only the conductor's pane can be attached to.
pub fn pane_is_view_only(conductor_mode: bool, role: AgentRole) -> (b: bool)
    ensures
        b == (conductor_mode && role != AgentRole::Conductor),
{
    conductor_mode && match role {
        AgentRole::Conductor => false,
        AgentRole::Ensemble => true,
    }
}

pub fn pty_title(attached: bool, view_only: bool) -> (r: &'static str)
    ensures
        r@ == if attached {
            " PTY · Ctrl+] detach "@
        } else if view_only {
            " PTY · view-only "@
        } else {
            " PTY · Enter attach "@
        },
{
    if attached {
        " PTY · Ctrl+] detach "
    } else if view_only {
        " PTY · view-only "
    } else {
        " PTY · Enter attach "
    }
}

/// What the pane area shows when there is no pane.
pub fn no_pane_text(conductor_mode: bool) -> (r: &'static str)
    ensures
        r@ == if conductor_mode {
            "No conductor yet. Type a mission below, Enter to start."@
        } else {
            "No agents yet. Press n to create one."@
        },
{
    if conductor_mode {
        "No conductor yet. Type a mission below, Enter to start."
    } else {
        "No agents yet. Press n to create one."
    }
}

pub fn prompt_title(prompt_focused: bool, conductor_mode: bool) -> (r: &'static str)
    ensures
        r@ == if prompt_focused {
            if conductor_mode {
                " conductor mission (Enter start · Esc cancel) "@
            } else {
                " re-prompt (Enter send · Esc cancel) "@
            }
        } else if conductor_mode {
            " Enter attach conductor · x close · Q quit "@
        } else {
            " p = re-prompt · Q quit · hjkl/↑↓ nav "@
        },
{
    if prompt_focused {
        if conductor_mode {
            " conductor mission (Enter start · Esc cancel) "
        } else {
            " re-prompt (Enter send · Esc cancel) "
        }
    } else if conductor_mode {
        " Enter attach conductor · x close · Q quit "
    } else {
        " p = re-prompt · Q quit · hjkl/↑↓ nav "
    }
}

pub open spec fn prompt_text_seq(prompt_focused: bool, prompt: Seq<char>, hint: Seq<char>, conductor_mode: bool) -> Seq<
    char,
> {
    if prompt_focused {
        "> "@ + prompt + "_"@
    } else if hint.len() > 0 {
        hint
    } else if conductor_mode {
        "Nav: j/k · Enter attach conductor · ensemble view-only · Q quit"@
    } else {
        "Nav: j/k or ↑↓ · Enter attach · x close · p prompt · Q quit"@
    }
}

/// The prompt bar's text: the prompt being typed, else the hint, else the
/// keys of the mode.
pub fn prompt_text(focus: &LayoutFocus) -> (r: String)
    ensures
        r@ == prompt_text_seq(focus.prompt_focused, focus.prompt@, focus.hint@, focus.conductor_mode),
{
    if focus.prompt_focused {
        let mut s = owned("> ");
        s.append(focus.prompt.as_str());
        s.append("_");
        s
    } else if crate::text::chars_of(focus.hint.as_str()).len() > 0 {
        focus.hint.clone()
    } else if focus.conductor_mode {
        owned("Nav: j/k · Enter attach conductor · ensemble view-only · Q quit")
    } else {
        owned("Nav: j/k or ↑↓ · Enter attach · x close · p prompt · Q quit")
    }
}

} // verus!
