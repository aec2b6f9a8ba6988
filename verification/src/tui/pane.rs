//! Status of an agent pane and the job that starts one.

use crate::tui::conductor::AgentRole;
use vstd::prelude::*;

verus! {

#[derive(Debug, Clone, Copy, PartialEq, Eq, Structural)]
pub enum PaneStatus {
    Starting,
    Running,
    WaitingPrompt,
    Done,
    Failed,
    TimedOut,
    Closed,
}

pub open spec fn status_label(s: PaneStatus) -> Seq<char> {
    match s {
        PaneStatus::Starting => "starting"@,
        PaneStatus::Running => "running"@,
        PaneStatus::WaitingPrompt => "prompt"@,
        PaneStatus::Done => "done"@,
        PaneStatus::Failed => "failed"@,
        PaneStatus::TimedOut => "timed_out"@,
        PaneStatus::Closed => "closed"@,
    }
}

/// A finished pane: it will not run again.
pub open spec fn status_is_terminal(s: PaneStatus) -> bool {
    s == PaneStatus::Done || s == PaneStatus::Failed || s == PaneStatus::TimedOut || s
        == PaneStatus::Closed
}

/// The sidebar glyph; live panes cycle through four spinner frames with `tick`.
pub open spec fn status_mark(s: PaneStatus, tick: u64) -> Seq<char> {
    match s {
        PaneStatus::Done => "✓"@,
        PaneStatus::Failed | PaneStatus::TimedOut => "✗"@,
        PaneStatus::Closed => "·"@,
        PaneStatus::WaitingPrompt => "?"@,
        PaneStatus::Starting | PaneStatus::Running => if tick % 4 == 0 {
            "⠋"@
        } else if tick % 4 == 1 {
            "⠙"@
        } else if tick % 4 == 2 {
            "⠹"@
        } else {
            "⠸"@
        },
    }
}

impl PaneStatus {
    pub fn label(self) -> (r: &'static str)
        ensures
            r@ == status_label(self),
    {
        match self {
            PaneStatus::Starting => "starting",
            PaneStatus::Running => "running",
            PaneStatus::WaitingPrompt => "prompt",
            PaneStatus::Done => "done",
            PaneStatus::Failed => "failed",
            PaneStatus::TimedOut => "timed_out",
            PaneStatus::Closed => "closed",
        }
    }

    pub fn is_terminal(self) -> (b: bool)
        ensures
            b == status_is_terminal(self),
    {
        match self {
            PaneStatus::Done | PaneStatus::Failed | PaneStatus::TimedOut | PaneStatus::Closed => true,
            _ => false,
        }
    }

    pub fn sidebar_mark(self, tick: u64) -> (r: &'static str)
        ensures
            r@ == status_mark(self, tick),
    {
        match self {
            PaneStatus::Done => "✓",
            PaneStatus::Failed | PaneStatus::TimedOut => "✗",
            PaneStatus::Closed => "·",
            PaneStatus::WaitingPrompt => "?",
            PaneStatus::Starting | PaneStatus::Running => {
                let k = tick % 4;
                if k == 0 {
                    "⠋"
                } else if k == 1 {
                    "⠙"
                } else if k == 2 {
                    "⠹"
                } else {
                    "⠸"
                }
            },
        }
    }
}

/// A live pane shows a spinner and a finished one a fixed glyph: the mark of
/// a terminal status does not depend on the tick.
pub proof fn law_terminal_marks_are_steady(s: PaneStatus, t1: u64, t2: u64)
    requires
        status_is_terminal(s),
    ensures
        status_mark(s, t1) == status_mark(s, t2),
{
}

pub struct PaneJob {
    pub block_key: String,
    pub argv: Vec<String>,
    pub working_dir: String,
    pub signal_path: String,
    /// Extra env for the PTY child (e.g. CODEBEACON_MA_*).
    pub env: Vec<(String, String)>,
    pub role: AgentRole,
}

} // verus!
