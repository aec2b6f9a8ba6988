//! Heuristic detection of agents waiting for user input.
//!
//! Scans the bottom of the PTY screen for permission / question chrome for
//! each provider.

use crate::run_plan::spawn::RunPlanProvider;
use crate::text::{
    chars_of, contains_seq, ends_with_seq, owned, split_lines, starts_with_seq, str_contains,
    str_ends_with, str_eq, str_starts_with, string_of_range, to_lowercase_str, trim_end_seq,
    trim_end_str, trim_seq, trim_start_seq, trim_start_str, trim_str, unicode_lowercase,
    lines_seq, join_lines, join_with_newlines,
};
use crate::unicode::{byte_len, utf8_len};
use vstd::prelude::*;

verus! {

// ---------------------------------------------------------------------------
// Model
// ---------------------------------------------------------------------------

/// The lines with something besides white space, each without trailing white space.
pub open spec fn nonblank_lines(ls: Seq<Seq<char>>) -> Seq<Seq<char>>
    decreases ls.len(),
{
    if ls.len() == 0 {
        Seq::empty()
    } else {
        let rest = nonblank_lines(ls.drop_last());
        let t = trim_end_seq(ls.last());
        if trim_seq(t).len() > 0 {
            rest.push(t)
        } else {
            rest
        }
    }
}

/// The last `n` elements (all of them when there are fewer).
pub open spec fn last_n<A>(s: Seq<A>, n: nat) -> Seq<A> {
    if s.len() <= n {
        s
    } else {
        s.skip(s.len() - n)
    }
}

/// The bottom twelve non-blank lines of the screen.
pub open spec fn bottom_lines(screen: Seq<char>) -> Seq<Seq<char>> {
    last_n(nonblank_lines(lines_seq(screen)), 12)
}

/// Spinner glyphs: the Braille block and two hexagons.
pub open spec fn is_spinner(c: char) -> bool {
    c == '⬡' || c == '⬢' || ('\u{2800}' <= c && c <= '\u{28FF}')
}

/// A line that starts with a spinner glyph followed by an `-ing` word.
pub open spec fn spinner_line(line: Seq<char>) -> bool {
    let t = trim_start_seq(line);
    t.len() > 0 && is_spinner(t[0]) && contains_seq(unicode_lowercase(t.skip(1)), "ing"@)
}

/// Some line among the last `n` is a spinner line.
pub open spec fn spinner_in_last(ls: Seq<Seq<char>>, n: nat) -> bool {
    exists|i: int| ls.len() - n <= i < ls.len() && 0 <= i && #[trigger] spinner_line(ls[i])
}

pub open spec fn looks_working_seq(lower: Seq<char>, lines: Seq<Seq<char>>) -> bool {
    ||| contains_seq(lower, "ctrl+c to stop"@)
    ||| contains_seq(lower, "working ("@) && contains_seq(lower, "esc to interrupt"@)
    ||| spinner_in_last(lines, 8)
}

pub open spec fn cursor_blocked_seq(lower: Seq<char>) -> bool {
    ||| contains_seq(lower, "waiting for approval"@)
    ||| contains_seq(lower, "run this command?"@)
    ||| contains_seq(lower, "write to this file?"@)
    ||| contains_seq(lower, "(y) (enter)"@)
    ||| contains_seq(lower, "skip (esc or n)"@)
    ||| contains_seq(lower, "run (once) (y)"@)
    ||| contains_seq(lower, "reject & propose changes"@)
    ||| contains_seq(lower, "proceed (y)"@)
}

/// A line of a numbered chooser that offers "yes".
pub open spec fn yes_line(line: Seq<char>) -> bool {
    let t = unicode_lowercase(trim_seq(line));
    ||| starts_with_seq(t, "1. yes"@)
    ||| starts_with_seq(t, "❯ 1. yes"@)
    ||| starts_with_seq(t, "❯ yes"@)
    ||| t == "yes"@
    ||| starts_with_seq(t, "1.yes"@)
}

/// A line of a numbered chooser that offers "no".
pub open spec fn no_line(line: Seq<char>) -> bool {
    let t = unicode_lowercase(trim_seq(line));
    starts_with_seq(t, "2. no"@) || starts_with_seq(t, "❯ 2. no"@)
}

pub open spec fn claude_blocked_seq(lower: Seq<char>, lines: Seq<Seq<char>>) -> bool {
    ||| contains_seq(lower, "do you want to proceed?"@)
    ||| contains_seq(lower, "enter to select"@) && contains_seq(lower, "esc to cancel"@)
    ||| contains_seq(lower, "run a dynamic workflow?"@) && contains_seq(lower, "esc to cancel"@)
    ||| (exists|i: int| 0 <= i < lines.len() && #[trigger] yes_line(lines[i])) && (exists|i: int|
        0 <= i < lines.len() && #[trigger] no_line(lines[i]))
}

pub open spec fn codex_blocked_seq(lower: Seq<char>) -> bool {
    ||| contains_seq(lower, "action required"@)
    ||| contains_seq(lower, "allow command?"@)
    ||| contains_seq(lower, "enter to submit answer"@)
    ||| contains_seq(lower, "enter to submit all"@)
    ||| contains_seq(lower, "press enter to confirm or esc to cancel"@)
    ||| contains_seq(lower, "[y/n]"@)
    ||| contains_seq(lower, "yes (y)"@)
}

pub open spec fn provider_blocked_seq(p: RunPlanProvider, lower: Seq<char>, lines: Seq<Seq<char>>) -> bool {
    match p {
        RunPlanProvider::Cursor => cursor_blocked_seq(lower),
        RunPlanProvider::Claude => claude_blocked_seq(lower, lines),
        RunPlanProvider::Codex => codex_blocked_seq(lower),
    }
}

/// A line that reads as source code rather than prose.
pub open spec fn looks_like_code_seq(line: Seq<char>) -> bool {
    let t = trim_start_seq(line);
    ||| starts_with_seq(t, "fn "@)
    ||| starts_with_seq(t, "pub "@)
    ||| starts_with_seq(t, "let "@)
    ||| starts_with_seq(t, "const "@)
    ||| starts_with_seq(t, "if "@)
    ||| starts_with_seq(t, "for "@)
    ||| starts_with_seq(t, "while "@)
    ||| starts_with_seq(t, "use "@)
    ||| starts_with_seq(t, "import "@)
    ||| starts_with_seq(t, "//"@)
    ||| starts_with_seq(t, "#"@)
    ||| contains_seq(t, "=>"@)
    ||| contains_seq(t, "::"@)
}

/// A conversational question: a known phrase, or a short non-code line ending in `?`.
pub open spec fn question_line(line: Seq<char>) -> bool {
    let t = trim_seq(line);
    let lower = unicode_lowercase(t);
    &&& t.len() > 0
    &&& {
        ||| contains_seq(lower, "waiting for your"@)
        ||| contains_seq(lower, "reply with"@)
        ||| contains_seq(lower, "which option"@)
        ||| contains_seq(lower, "should i "@)
        ||| contains_seq(lower, "do you want"@)
        ||| contains_seq(lower, "would you like"@)
        ||| ends_with_seq(t, "?"@) && utf8_len(t) < 160 && !looks_like_code_seq(t)
    }
}

/// Some line among the last `n` is a question.
pub open spec fn question_in_last(ls: Seq<Seq<char>>, n: nat) -> bool {
    exists|i: int| ls.len() - n <= i < ls.len() && 0 <= i && #[trigger] question_line(ls[i])
}

/// The screen looks like the agent is blocked on the user: its bottom lines
/// are not blank, show no sign of work in progress, and either show the
/// provider's approval chrome or end in a question.
pub open spec fn awaiting_input_seq(screen: Seq<char>, p: RunPlanProvider) -> bool {
    let bottom = bottom_lines(screen);
    let lower = unicode_lowercase(join_lines(bottom));
    &&& bottom.len() > 0
    &&& !looks_working_seq(lower, bottom)
    &&& (provider_blocked_seq(p, lower, bottom) || question_in_last(bottom, 6))
}

// ---------------------------------------------------------------------------
// Laws
// ---------------------------------------------------------------------------

/// The lowercased text of the screen's bottom lines.
pub open spec fn bottom_text(screen: Seq<char>) -> Seq<char> {
    unicode_lowercase(join_lines(bottom_lines(screen)))
}

/// A screen that shows text at its bottom and no sign of work in progress.
pub open spec fn quiet_screen(screen: Seq<char>) -> bool {
    bottom_lines(screen).len() > 0 && !looks_working_seq(bottom_text(screen), bottom_lines(screen))
}

/// Codex is waiting on the user whenever a quiet screen shows one of its
/// approval prompts: an action or command to allow, an answer to submit, a
/// confirmation, or a `[y/n]` / `yes (y)` choice.
pub proof fn law_codex_prompts_await_input(screen: Seq<char>)
    requires
        quiet_screen(screen),
        ({
            let l = bottom_text(screen);
            ||| contains_seq(l, "action required"@)
            ||| contains_seq(l, "allow command?"@)
            ||| contains_seq(l, "enter to submit answer"@)
            ||| contains_seq(l, "enter to submit all"@)
            ||| contains_seq(l, "press enter to confirm or esc to cancel"@)
            ||| contains_seq(l, "[y/n]"@)
            ||| contains_seq(l, "yes (y)"@)
        }),
    ensures
        awaiting_input_seq(screen, RunPlanProvider::Codex),
{
}

/// Cursor is waiting on the user whenever a quiet screen shows one of its
/// approval prompts.
pub proof fn law_cursor_prompts_await_input(screen: Seq<char>)
    requires
        quiet_screen(screen),
        ({
            let l = bottom_text(screen);
            ||| contains_seq(l, "waiting for approval"@)
            ||| contains_seq(l, "run this command?"@)
            ||| contains_seq(l, "write to this file?"@)
            ||| contains_seq(l, "(y) (enter)"@)
            ||| contains_seq(l, "skip (esc or n)"@)
            ||| contains_seq(l, "run (once) (y)"@)
            ||| contains_seq(l, "reject & propose changes"@)
            ||| contains_seq(l, "proceed (y)"@)
        }),
    ensures
        awaiting_input_seq(screen, RunPlanProvider::Cursor),
{
}

/// The third provider is waiting on the user whenever a quiet screen asks
/// whether to proceed, shows a selection to confirm or cancel, or offers a
/// numbered yes / no choice.
pub proof fn law_confirm_prompts_await_input(screen: Seq<char>, y: int, n: int)
    requires
        quiet_screen(screen),
        ({
            let l = bottom_text(screen);
            let b = bottom_lines(screen);
            ||| contains_seq(l, "do you want to proceed?"@)
            ||| contains_seq(l, "enter to select"@) && contains_seq(l, "esc to cancel"@)
            ||| contains_seq(l, "run a dynamic workflow?"@) && contains_seq(l, "esc to cancel"@)
            ||| 0 <= y < b.len() && 0 <= n < b.len() && yes_line(b[y]) && no_line(b[n])
        }),
    ensures
        awaiting_input_seq(screen, RunPlanProvider::Claude),
{
}

/// Whatever the provider, a quiet screen whose bottom lines end in a question
/// is waiting on the user, and a blank screen or one showing work in progress
/// never is.
pub proof fn law_questions_await_and_work_does_not(screen: Seq<char>, p: RunPlanProvider)
    ensures
        quiet_screen(screen) && question_in_last(bottom_lines(screen), 6) ==> awaiting_input_seq(
            screen,
            p,
        ),
        !quiet_screen(screen) ==> !awaiting_input_seq(screen, p),
{
}

/// A screen that shows work in progress (`ctrl+c to stop`, a `working (`
/// status with `esc to interrupt`, or a spinner with an `-ing` word among the
/// last eight lines) is never taken as waiting, whatever the provider.
pub proof fn law_work_in_progress_is_not_waiting(screen: Seq<char>, p: RunPlanProvider, k: int)
    requires
        ({
            let l = bottom_text(screen);
            let b = bottom_lines(screen);
            ||| contains_seq(l, "ctrl+c to stop"@)
            ||| contains_seq(l, "working ("@) && contains_seq(l, "esc to interrupt"@)
            ||| b.len() - 8 <= k < b.len() && 0 <= k && spinner_line(b[k])
        }),
    ensures
        !awaiting_input_seq(screen, p),
{
}

/// The lines of a numbered chooser: `1. Yes`, `❯ 1. Yes`, `❯ Yes`, `Yes`
/// or `1.Yes` offer yes, and `2. No` or `❯ 2. No` offer no, in any case and
/// whatever follows them.
pub proof fn law_chooser_lines(line: Seq<char>)
    ensures
        ({
            let t = unicode_lowercase(trim_seq(line));
            starts_with_seq(t, "1. yes"@) || starts_with_seq(t, "❯ 1. yes"@) || starts_with_seq(
                t,
                "❯ yes"@,
            ) || t == "yes"@ || starts_with_seq(t, "1.yes"@)
        }) ==> yes_line(line),
        ({
            let t = unicode_lowercase(trim_seq(line));
            starts_with_seq(t, "2. no"@) || starts_with_seq(t, "❯ 2. no"@)
        }) ==> no_line(line),
{
}

/// A line that asks the user something is a question: one that waits for
/// the user's reply or asks which option, whether to, or what the user
/// wants, or a short line of prose ending in `?`.
pub proof fn law_question_lines(line: Seq<char>)
    ensures
        ({
            let t = trim_seq(line);
            let l = unicode_lowercase(t);
            t.len() > 0 && (contains_seq(l, "waiting for your"@) || contains_seq(l, "reply with"@)
                || contains_seq(l, "which option"@) || contains_seq(l, "should i "@) || contains_seq(
                l,
                "do you want"@,
            ) || contains_seq(l, "would you like"@) || (ends_with_seq(t, "?"@) && utf8_len(t)
                < 160 && !looks_like_code_seq(t)))
        }) ==> question_line(line),
{
}

// ---------------------------------------------------------------------------
// Implementation
// ---------------------------------------------------------------------------

fn bottom_non_empty(screen: &str) -> (r: Vec<String>)
    ensures
        r.deep_view() == bottom_lines(screen@),
{
    let lines = split_lines(screen);
    let mut kept: Vec<String> = Vec::new();
    let mut i: usize = 0;
    while i < lines.len()
        invariant
            i <= lines@.len(),
            lines.deep_view() == lines_seq(screen@),
            kept.deep_view() == nonblank_lines(lines.deep_view().take(i as int)),
        decreases lines.len() - i,
    {
        let t = trim_end_str(lines[i].as_str());
        let inner = trim_str(t.as_str());
        let ghost before = kept.deep_view();
        assert(lines.deep_view().take(i + 1).drop_last() =~= lines.deep_view().take(i as int));
        assert(lines.deep_view().take(i + 1).last() == lines@[i as int]@);
        if !inner.as_str().is_empty() {
            kept.push(t);
            assert(kept.deep_view() =~= before.push(trim_end_seq(lines@[i as int]@)));
        }
        i += 1;
    }
    assert(lines.deep_view().take(i as int) =~= lines.deep_view());
    if kept.len() <= 12 {
        return kept;
    }
    let start = kept.len() - 12;
    let mut out: Vec<String> = Vec::new();
    let mut j = start;
    while j < kept.len()
        invariant
            start <= j <= kept@.len(),
            start == kept@.len() - 12,
            out.deep_view() == kept.deep_view().subrange(start as int, j as int),
        decreases kept.len() - j,
    {
        let ghost before = out.deep_view();
        let piece = kept[j].clone();
        assert(kept.deep_view()[j as int] == kept@[j as int]@);
        out.push(piece);
        assert(out.deep_view() =~= before.push(piece@));
        assert(out.deep_view() =~= kept.deep_view().subrange(start as int, j + 1));
        j += 1;
    }
    assert(kept.deep_view().subrange(start as int, j as int) =~= kept.deep_view().skip(
        start as int,
    ));
    out
}

fn spinner_char(c: char) -> (b: bool)
    ensures
        b == is_spinner(c),
{
    c == '⬡' || c == '⬢' || ('\u{2800}' <= c && c <= '\u{28FF}')
}

fn is_spinner_line(line: &str) -> (b: bool)
    ensures
        b == spinner_line(line@),
{
    let t = trim_start_str(line);
    let chars = chars_of(t.as_str());
    if chars.len() == 0 {
        return false;
    }
    if !spinner_char(chars[0]) {
        return false;
    }
    let rest = string_of_range(&chars, 1, chars.len());
    assert(rest@ =~= t@.skip(1));
    let lower = to_lowercase_str(rest.as_str());
    str_contains(lower.as_str(), "ing")
}

fn looks_working(lower: &str, lines: &Vec<String>) -> (b: bool)
    ensures
        b == looks_working_seq(lower@, lines.deep_view()),
{
    if str_contains(lower, "ctrl+c to stop") {
        return true;
    }
    if str_contains(lower, "working (") && str_contains(lower, "esc to interrupt") {
        return true;
    }
    let n = lines.len();
    let start = if n > 8 {
        n - 8
    } else {
        0
    };
    let mut i = start;
    while i < n
        invariant
            n == lines@.len(),
            start <= i <= n,
            start as int == if n > 8 {
                n - 8
            } else {
                0
            },
            forall|k: int| start <= k < i ==> !spinner_line(#[trigger] lines.deep_view()[k]),
        decreases n - i,
    {
        assert(lines.deep_view()[i as int] == lines@[i as int]@);
        if is_spinner_line(lines[i].as_str()) {
            assert(spinner_line(lines.deep_view()[i as int]));
            return true;
        }
        i += 1;
    }
    assert(!spinner_in_last(lines.deep_view(), 8));
    false
}

fn cursor_blocked(lower: &str) -> (b: bool)
    ensures
        b == cursor_blocked_seq(lower@),
{
    str_contains(lower, "waiting for approval") || str_contains(lower, "run this command?")
        || str_contains(lower, "write to this file?") || str_contains(lower, "(y) (enter)")
        || str_contains(lower, "skip (esc or n)") || str_contains(lower, "run (once) (y)")
        || str_contains(lower, "reject & propose changes") || str_contains(lower, "proceed (y)")
}

fn codex_blocked(lower: &str) -> (b: bool)
    ensures
        b == codex_blocked_seq(lower@),
{
    str_contains(lower, "action required") || str_contains(lower, "allow command?")
        || str_contains(lower, "enter to submit answer") || str_contains(
        lower,
        "enter to submit all",
    ) || str_contains(lower, "press enter to confirm or esc to cancel") || str_contains(
        lower,
        "[y/n]",
    ) || str_contains(lower, "yes (y)")
}

fn is_yes_line(line: &str) -> (b: bool)
    ensures
        b == yes_line(line@),
{
    let trimmed = trim_str(line);
    let t = to_lowercase_str(trimmed.as_str());
    let t = t.as_str();
    str_starts_with(t, "1. yes") || str_starts_with(t, "❯ 1. yes") || str_starts_with(t, "❯ yes")
        || str_eq(t, "yes") || str_starts_with(t, "1.yes")
}

fn is_no_line(line: &str) -> (b: bool)
    ensures
        b == no_line(line@),
{
    let trimmed = trim_str(line);
    let t = to_lowercase_str(trimmed.as_str());
    str_starts_with(t.as_str(), "2. no") || str_starts_with(t.as_str(), "❯ 2. no")
}

fn claude_blocked(lower: &str, lines: &Vec<String>) -> (b: bool)
    ensures
        b == claude_blocked_seq(lower@, lines.deep_view()),
{
    if str_contains(lower, "do you want to proceed?") {
        return true;
    }
    if str_contains(lower, "enter to select") && str_contains(lower, "esc to cancel") {
        return true;
    }
    if str_contains(lower, "run a dynamic workflow?") && str_contains(lower, "esc to cancel") {
        return true;
    }
    let mut has_yes = false;
    let mut has_no = false;
    let mut i: usize = 0;
    while i < lines.len()
        invariant
            i <= lines@.len(),
            has_yes <==> exists|k: int| 0 <= k < i && #[trigger] yes_line(lines.deep_view()[k]),
            has_no <==> exists|k: int| 0 <= k < i && #[trigger] no_line(lines.deep_view()[k]),
        decreases lines.len() - i,
    {
        assert(lines.deep_view()[i as int] == lines@[i as int]@);
        if is_yes_line(lines[i].as_str()) {
            has_yes = true;
        }
        if is_no_line(lines[i].as_str()) {
            has_no = true;
        }
        i += 1;
    }
    has_yes && has_no
}

fn provider_blocked(p: RunPlanProvider, lower: &str, lines: &Vec<String>) -> (b: bool)
    ensures
        b == provider_blocked_seq(p, lower@, lines.deep_view()),
{
    match p {
        RunPlanProvider::Cursor => cursor_blocked(lower),
        RunPlanProvider::Claude => claude_blocked(lower, lines),
        RunPlanProvider::Codex => codex_blocked(lower),
    }
}

fn looks_like_code(line: &str) -> (b: bool)
    ensures
        b == looks_like_code_seq(line@),
{
    let t = trim_start_str(line);
    let t = t.as_str();
    str_starts_with(t, "fn ") || str_starts_with(t, "pub ") || str_starts_with(t, "let ")
        || str_starts_with(t, "const ") || str_starts_with(t, "if ") || str_starts_with(t, "for ")
        || str_starts_with(t, "while ") || str_starts_with(t, "use ") || str_starts_with(
        t,
        "import ",
    ) || str_starts_with(t, "//") || str_starts_with(t, "#") || str_contains(t, "=>")
        || str_contains(t, "::")
}

fn is_question_line(line: &str) -> (b: bool)
    ensures
        b == question_line(line@),
{
    let ts = trim_str(line);
    let t = ts.as_str();
    if t.is_empty() {
        return false;
    }
    let lower_s = to_lowercase_str(t);
    let lower = lower_s.as_str();
    if str_contains(lower, "waiting for your") || str_contains(lower, "reply with") || str_contains(
        lower,
        "which option",
    ) || str_contains(lower, "should i ") || str_contains(lower, "do you want") || str_contains(
        lower,
        "would you like",
    ) {
        return true;
    }
    if str_ends_with(t, "?") && byte_len(t) < 160 && !looks_like_code(t) {
        return true;
    }
    false
}

fn soft_question(lines: &Vec<String>) -> (b: bool)
    ensures
        b == question_in_last(lines.deep_view(), 6),
{
    let n = lines.len();
    let start = if n > 6 {
        n - 6
    } else {
        0
    };
    let mut i = start;
    while i < n
        invariant
            n == lines@.len(),
            start <= i <= n,
            start as int == if n > 6 {
                n - 6
            } else {
                0
            },
            forall|k: int| start <= k < i ==> !question_line(#[trigger] lines.deep_view()[k]),
        decreases n - i,
    {
        assert(lines.deep_view()[i as int] == lines@[i as int]@);
        if is_question_line(lines[i].as_str()) {
            assert(question_line(lines.deep_view()[i as int]));
            return true;
        }
        i += 1;
    }
    assert(!question_in_last(lines.deep_view(), 6));
    false
}

/// True when the visible screen looks like the agent is blocked on the user.
pub fn detect_awaiting_input(screen: &str, provider: RunPlanProvider) -> (b: bool)
    ensures
        b == awaiting_input_seq(screen@, provider),
{
    let bottom = bottom_non_empty(screen);
    if bottom.len() == 0 {
        return false;
    }
    let joined = join_with_newlines(&bottom);
    let lower = to_lowercase_str(joined.as_str());
    if looks_working(lower.as_str(), &bottom) {
        return false;
    }
    if provider_blocked(provider, lower.as_str(), &bottom) {
        return true;
    }
    soft_question(&bottom)
}

} // verus!
