//! Nav / Attach key dispatch (hjkl + arrows; attach only intercepts Ctrl+]).

use crate::text::{push_char, ascii_lower_char, to_ascii_lower_char};
use vstd::prelude::*;
use vstd::utf8::encode_utf8;

verus! {

#[derive(Debug, Clone, Copy, PartialEq, Eq, Structural)]
pub enum FocusTarget {
    Sidebar,
    Prompt,
}

#[derive(Debug, Clone, Copy, PartialEq, Eq, Structural)]
pub enum NavAction {
    SidebarUp,
    SidebarDown,
    Attach,
    NewPane,
    ClosePane,
    FocusPrompt,
    Quit,
    PromptSubmit,
    PromptChar(char),
    PromptBackspace,
    PromptCancel,
    /// The key does nothing in this mode.
    Ignore,
}

#[derive(Debug, Clone, Copy, PartialEq, Eq, Structural)]
pub enum AttachAction {
    Detach,
    PassThrough,
}

/// The keys that the session reads from the terminal.
#[derive(Debug, Clone, Copy, PartialEq, Eq, Structural)]
pub enum KeyCode {
    Char(char),
    Enter,
    Backspace,
    Tab,
    Esc,
    Up,
    Down,
    Left,
    Right,
    /// Any key that the session does not act on.
    Other,
}

/// A key press: the key and whether Control was held.
#[derive(Debug, Clone, Copy, PartialEq, Eq, Structural)]
pub struct KeyEvent {
    pub code: KeyCode,
    pub control: bool,
}

/// What a key does in Nav mode.
pub open spec fn nav_action_spec(key: KeyEvent, focus: FocusTarget) -> NavAction {
    if key.control {
        NavAction::Ignore
    } else {
        match focus {
            FocusTarget::Prompt => match key.code {
                KeyCode::Esc => NavAction::PromptCancel,
                KeyCode::Enter => NavAction::PromptSubmit,
                KeyCode::Backspace => NavAction::PromptBackspace,
                KeyCode::Char(c) => NavAction::PromptChar(c),
                _ => NavAction::Ignore,
            },
            FocusTarget::Sidebar => match key.code {
                KeyCode::Char('j') | KeyCode::Down => NavAction::SidebarDown,
                KeyCode::Char('k') | KeyCode::Up => NavAction::SidebarUp,
                KeyCode::Enter => NavAction::Attach,
                KeyCode::Char('n') => NavAction::NewPane,
                KeyCode::Char('x') => NavAction::ClosePane,
                KeyCode::Char('p') => NavAction::FocusPrompt,
                KeyCode::Char('Q') => NavAction::Quit,
                _ => NavAction::Ignore,
            },
        }
    }
}

/// Map a key in Nav mode. `focus` selects sidebar vs bottom prompt bar.
pub fn nav_action(key: KeyEvent, focus: FocusTarget) -> (r: NavAction)
    ensures
        r == nav_action_spec(key, focus),
{
    if key.control {
        return NavAction::Ignore;
    }
    match focus {
        FocusTarget::Prompt => match key.code {
            KeyCode::Esc => NavAction::PromptCancel,
            KeyCode::Enter => NavAction::PromptSubmit,
            KeyCode::Backspace => NavAction::PromptBackspace,
            KeyCode::Char(c) => NavAction::PromptChar(c),
            _ => NavAction::Ignore,
        },
        FocusTarget::Sidebar => match key.code {
            KeyCode::Char('j') | KeyCode::Down => NavAction::SidebarDown,
            KeyCode::Char('k') | KeyCode::Up => NavAction::SidebarUp,
            KeyCode::Enter => NavAction::Attach,
            KeyCode::Char('n') => NavAction::NewPane,
            KeyCode::Char('x') => NavAction::ClosePane,
            KeyCode::Char('p') => NavAction::FocusPrompt,
            KeyCode::Char('Q') => NavAction::Quit,
            _ => NavAction::Ignore,
        },
    }
}

/// Attach mode: only Ctrl+] detaches; everything else passes to the PTY.
pub fn attach_action(key: KeyEvent) -> (r: AttachAction)
    ensures
        r == (if key.control && key.code == KeyCode::Char(']') {
            AttachAction::Detach
        } else {
            AttachAction::PassThrough
        }),
{
    if key.control {
        if let KeyCode::Char(c) = key.code {
            if c == ']' {
                return AttachAction::Detach;
            }
        }
    }
    AttachAction::PassThrough
}

/// The bytes that a key sends to the PTY.
pub open spec fn pty_bytes_spec(key: KeyEvent) -> Seq<u8> {
    match key.code {
        KeyCode::Char(c) => if key.control {
            let lower = ascii_lower_char(c);
            if 'a' <= lower && lower <= 'z' {
                seq![((lower as u32) - ('a' as u32) + 1) as u8]
            } else if c == ']' {
                seq![0x1du8]
            } else {
                Seq::empty()
            }
        } else {
            encode_utf8(seq![c])
        },
        KeyCode::Enter => seq![0x0du8],
        KeyCode::Backspace => seq![0x7fu8],
        KeyCode::Tab => seq![0x09u8],
        KeyCode::Esc => seq![0x1bu8],
        KeyCode::Up => seq![0x1bu8, 0x5bu8, 0x41u8],
        KeyCode::Down => seq![0x1bu8, 0x5bu8, 0x42u8],
        KeyCode::Right => seq![0x1bu8, 0x5bu8, 0x43u8],
        KeyCode::Left => seq![0x1bu8, 0x5bu8, 0x44u8],
        KeyCode::Other => Seq::empty(),
    }
}

/// Encode a key event as bytes for the PTY writer.
pub fn key_to_pty_bytes(key: KeyEvent) -> (r: Vec<u8>)
    ensures
        r@ == pty_bytes_spec(key),
{
    match key.code {
        KeyCode::Char(c) => {
            if key.control {
                let lower = to_ascii_lower_char(c);
                if 'a' <= lower && lower <= 'z' {
                    let b = ((lower as u32) - ('a' as u32) + 1) as u8;
                    vec![b]
                } else if c == ']' {
                    vec![0x1du8]
                } else {
                    Vec::new()
                }
            } else {
                let mut s = String::new();
                push_char(&mut s, c);
                let bytes = s.as_str().as_bytes();
                vstd::slice::slice_to_vec(bytes)
            }
        },
        KeyCode::Enter => vec![0x0du8],
        KeyCode::Backspace => vec![0x7fu8],
        KeyCode::Tab => vec![0x09u8],
        KeyCode::Esc => vec![0x1bu8],
        KeyCode::Up => vec![0x1bu8, 0x5bu8, 0x41u8],
        KeyCode::Down => vec![0x1bu8, 0x5bu8, 0x42u8],
        KeyCode::Right => vec![0x1bu8, 0x5bu8, 0x43u8],
        KeyCode::Left => vec![0x1bu8, 0x5bu8, 0x44u8],
        KeyCode::Other => Vec::new(),
    }
}

} // verus!
