use codebeacon::mcp::conductor::{require_conductor_mode, spawn_agent_request, spawn_reply, status_key, unknown_agent};
use codebeacon::tui::conductor::SessionMode;
use codebeacon::mcp::edit::{security_target, security_text};
use codebeacon::security::analyzer::verify_and_decide;
use codebeacon::mcp::edit::{apply_security_policy, edit_message, edit_not_found_message, edit_text, write_message};
use codebeacon::security::policy::SecurityPolicy;

#[test]
fn edit_replaces_the_first_occurrence() {
    assert_eq!(edit_text("fn old_name() {}", "old_name", "new_name"), Some(("fn new_name() {}".to_string(), 1)));
    assert_eq!(edit_text("a a a", "a", "b"), Some(("b a a".to_string(), 3)));
    assert_eq!(edit_text("aaaa", "aa", "x"), Some(("xaa".to_string(), 2)));
    assert_eq!(edit_text("abc", "", "X"), Some(("Xabc".to_string(), 4)));
}

#[test]
fn edit_reports_missing_text() {
    assert_eq!(edit_text("fn hello() {}", "nonexistent", "replacement"), None);
    assert_eq!(
        edit_not_found_message("lib.rs"),
        "old_string not found in 'lib.rs'. Make sure it matches the file contents exactly."
    );
}

#[test]
fn write_and_edit_messages() {
    assert_eq!(write_message("repo", "src/new.rs", None), "Written: repo/src/new.rs");
    assert_eq!(edit_message("repo", "lib.rs", 1, None), "Edited: repo/lib.rs");
    assert_eq!(
        edit_message("repo", "lib.rs", 3, Some("WARNING: x".into())),
        "Edited: repo/lib.rs (3 occurrences found; replaced the first one)\n\nWARNING: x"
    );
}

#[test]
fn security_policy_blocks_proven_overflow_on_write() {
    let policy = SecurityPolicy { enabled: true, ..Default::default() };
    let err = apply_security_policy("alloc.c", "void* p = malloc(n * sizeof(int));", &policy).unwrap_err();
    assert!(err.contains("CWE-190"), "{err}");
    assert!(err.contains("BLOCKED"), "{err}");
    assert_eq!(apply_security_policy("a.c", "return x + 1;", &policy), Ok(None));
    let off = SecurityPolicy::default();
    assert_eq!(apply_security_policy("alloc.c", "void* p = malloc(n * sizeof(int));", &off), Ok(None));
}

#[test]
fn security_tool_target_and_text() {
    assert_eq!(security_target("/repo", "fragment"), Ok("/repo/fragment".to_string()));
    assert_eq!(security_target("/repo", "src/a.c"), Ok("/repo/src/a.c".to_string()));
    assert!(security_target("/repo", "../etc/passwd").is_err());
    let policy = SecurityPolicy { enabled: true, ..Default::default() };
    let (report, action) = verify_and_decide("/repo/fragment", "return x + 1;", &policy);
    let text = security_text(&report, &action);
    assert!(text.starts_with("No security issues found in `/repo/fragment` ("), "{text}");
    assert!(text.ends_with(" ms)."), "{text}");
    let (report, action) = verify_and_decide("/repo/a.c", "p = malloc(n * 4);", &policy);
    let text = security_text(&report, &action);
    assert!(text.contains("CWE-190"), "{text}");
}

#[test]
fn read_file_heading() {
    assert_eq!(codebeacon::mcp::edit::read_file_text(None, "lib.rs", "fn a() {}"), "# lib.rs\n\nfn a() {}");
    assert_eq!(codebeacon::mcp::edit::read_file_text(Some("core"), "lib.rs", "x"), "# core/lib.rs\n\nx");
}

#[test]
fn conductor_spawn_rules() {
    assert!(require_conductor_mode(SessionMode::Conductor).is_ok());
    assert_eq!(
        require_conductor_mode(SessionMode::Gallery),
        Err("spawn tools are only available in conductor mode".to_string())
    );
    assert_eq!(
        spawn_agent_request(false, Some("go"), None, None, "conductor").unwrap_err(),
        "only the conductor may spawn agents"
    );
    assert_eq!(spawn_agent_request(true, Some("   "), None, None, "conductor").unwrap_err(), "prompt is required");
    assert_eq!(spawn_agent_request(true, None, None, None, "conductor").unwrap_err(), "prompt is required");
    let req = spawn_agent_request(true, Some(" fix auth "), Some(" auth "), Some(""), "conductor").unwrap();
    assert_eq!(req.prompt, "fix auth");
    assert_eq!(req.block_key.as_deref(), Some("auth"));
    assert_eq!(req.model, None);
    assert!(req.id.starts_with("spawn-"));
    assert!(spawn_reply(&req).starts_with("enqueued spawn id=spawn-"));
    assert!(spawn_reply(&req).ends_with(" block_key=auth"));
    let own = spawn_agent_request(true, Some("x"), Some("conductor"), Some("gpt"), "conductor").unwrap();
    assert_eq!(own.block_key, None);
    assert_eq!(own.model.as_deref(), Some("gpt"));
    assert_eq!(status_key(Some(" auth ")), Ok("auth".to_string()));
    assert_eq!(status_key(Some("  ")), Err("block_key is required".to_string()));
    assert_eq!(unknown_agent("zz"), "unknown agent `zz`");
}

#[test]
fn editing_a_text_into_itself_changes_nothing() {
    assert_eq!(edit_text("let a = b;", "b", "b"), Some(("let a = b;".to_string(), 1)));
    let (updated, _) = edit_text("x = old; y = old;", "old", "newer").unwrap();
    assert_eq!(&updated[..4], "x = ");
    assert_eq!(&updated[4..9], "newer");
    assert_eq!(updated.len(), "x = old; y = old;".len() - 3 + 5);
}
