use codebeacon::run_plan::spawn::RunPlanProvider;
use codebeacon::tui::detect::detect_awaiting_input;

#[test]
fn cursor_approval_is_waiting() {
    let screen = "\
Something happened
waiting for approval
run this command?
(y) (enter)  skip (esc or n)
";
    assert!(detect_awaiting_input(screen, RunPlanProvider::Cursor));
}

#[test]
fn claude_proceed_is_waiting() {
    let screen = "\
Bash(rm -rf /tmp/x)
Do you want to proceed?
❯ 1. Yes
  2. No
";
    assert!(detect_awaiting_input(screen, RunPlanProvider::Claude));
}

#[test]
fn codex_allow_is_waiting() {
    let screen = "\
Allow command?
press enter to confirm or esc to cancel
";
    assert!(detect_awaiting_input(screen, RunPlanProvider::Codex));
}

#[test]
fn spinner_working_not_waiting() {
    let screen = "\
Analyzing repo
⠋ Thinking about next steps
ctrl+c to stop
";
    assert!(!detect_awaiting_input(screen, RunPlanProvider::Cursor));
}

#[test]
fn soft_question_detected() {
    let screen = "\
I can refactor auth two ways.
Which option should I take?
";
    assert!(detect_awaiting_input(screen, RunPlanProvider::Cursor));
}

#[test]
fn code_question_mark_ignored() {
    let screen = "\
fn maybe_login(user: Option<User>) -> Result<()> {
    // what if user is None?
}
";
    assert!(!detect_awaiting_input(screen, RunPlanProvider::Claude));
}

#[test]
fn empty_not_waiting() {
    assert!(!detect_awaiting_input("", RunPlanProvider::Codex));
}

#[test]
fn blank_screen_not_waiting() {
    assert!(!detect_awaiting_input("   \n\t\n\n", RunPlanProvider::Cursor));
}

#[test]
fn spinner_without_ing_word_is_not_work() {
    let screen = "⠙ Done\nShall we continue?\n";
    assert!(detect_awaiting_input(screen, RunPlanProvider::Codex));
}

#[test]
fn codex_working_chrome_wins_over_prompt() {
    let screen = "• Working (12s • esc to interrupt)\nallow command?\n";
    assert!(!detect_awaiting_input(screen, RunPlanProvider::Codex));
}

#[test]
fn claude_yes_without_no_is_not_a_chooser() {
    let screen = "Result\n1. Yes\nok\n";
    assert!(!detect_awaiting_input(screen, RunPlanProvider::Claude));
}

#[test]
fn question_only_counts_in_last_six_lines() {
    let screen = "Proceed?\na\nb\nc\nd\ne\nf\n";
    assert!(!detect_awaiting_input(screen, RunPlanProvider::Cursor));
    let screen2 = "Proceed?\na\nb\nc\nd\ne\n";
    assert!(detect_awaiting_input(screen2, RunPlanProvider::Cursor));
}

#[test]
fn long_question_line_is_ignored() {
    let long = format!("{}?", "x".repeat(200));
    assert!(!detect_awaiting_input(&long, RunPlanProvider::Cursor));
}
