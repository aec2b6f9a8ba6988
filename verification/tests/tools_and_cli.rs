use codebeacon::mcp::server::workspace_start_from_env;
use codebeacon::cli::{parse_interval_checked, parse_interval_secs, resolve_single_root};
use codebeacon::lsp::client::{encode_message, file_uri, incoming_step, path_to_uri, uri_for, IncomingStep, MessageId};
use codebeacon::mcp::tools::{normalize_path, safe_path};
use codebeacon::mcp::{file_uri_path, uri_to_path};
use codebeacon::security::policy::SecurityPolicy;
use codebeacon::verify_cmd::{exit_code_for_action, verify_output};

#[test]
fn encodes_message_with_content_length() {
    let body = r#"{"jsonrpc":"2.0","id":1,"method":"test"}"#;
    let encoded = encode_message(body);
    assert!(encoded.starts_with("Content-Length: "));
    assert!(encoded.contains("\r\n\r\n"));
    assert!(encoded.ends_with(body));
    let expected_len = body.len().to_string();
    assert!(encoded.contains(&expected_len));
}

#[test]
fn encode_message_counts_bytes() {
    assert_eq!(encode_message("é"), "Content-Length: 2\r\n\r\né");
    assert_eq!(encode_message(""), "Content-Length: 0\r\n\r\n");
}

#[test]
fn next_id_increments() {
    let mut id = MessageId::new();
    assert_eq!(id.next(), 1);
    assert_eq!(id.next(), 2);
    assert_eq!(id.next(), 3);
}

#[test]
fn file_uris_escape_space_and_hash() {
    assert_eq!(file_uri("/tmp/a b#c"), "file:///tmp/a%20b%23c");
    assert_eq!(path_to_uri("/this/path/does/not/exist ever"), "file:///this/path/does/not/exist%20ever");
    assert!(path_to_uri("/tmp").starts_with("file:///"));
}

#[test]
fn uri_to_path_parses_unix_file_uri() {
    let result = uri_to_path("file:///tmp");
    assert!(result.is_some(), "expected /tmp to parse and exist");
    assert_eq!(result.unwrap(), "/tmp");
}

#[test]
fn uri_to_path_returns_none_for_nonexistent() {
    let result = uri_to_path("file:///this/path/does/not/exist/ever");
    assert!(result.is_none());
}

#[test]
fn file_uri_path_strips_scheme() {
    assert_eq!(file_uri_path("file:///home/u/p"), Some("/home/u/p".to_string()));
    assert_eq!(file_uri_path("http://x"), None);
    assert!(uri_to_path("http:///tmp").is_none());
}

#[test]
fn normalize_resolves_dots() {
    assert_eq!(normalize_path("/a/./b/../c"), "/a/c");
    assert_eq!(normalize_path("a//b/"), "a/b");
    assert_eq!(normalize_path("./x"), "x");
    assert_eq!(normalize_path("/.."), "");
    assert_eq!(normalize_path("/a/../../b"), "b");
}

#[test]
fn write_file_denied_outside_repo() {
    let err = safe_path("/repo", "../etc/passwd").unwrap_err();
    assert_eq!(err, "Path '../etc/passwd' escapes the repo root — path traversal denied.");
    assert!(safe_path("/repo", "/etc/passwd").is_err());
}

#[test]
fn safe_path_accepts_paths_inside() {
    assert_eq!(safe_path("/repo", "src/../lib/x.rs"), Ok("/repo/lib/x.rs".to_string()));
    assert_eq!(safe_path("/repo", "/repo/a.rs"), Ok("/repo/a.rs".to_string()));
    assert_eq!(safe_path("/repo", "."), Ok("/repo".to_string()));
    assert!(safe_path("/repo", "a/../../repo2/x").is_err());
}

#[test]
fn intervals() {
    assert_eq!(parse_interval_secs("30s"), Ok(30));
    assert_eq!(parse_interval_secs(" 5M "), Ok(300));
    assert_eq!(parse_interval_secs("2h"), Ok(7200));
    assert_eq!(parse_interval_secs("1d"), Ok(86400));
    assert_eq!(parse_interval_secs("45"), Ok(45));
    assert_eq!(parse_interval_secs("xs"), Err("invalid seconds".to_string()));
    assert_eq!(parse_interval_secs("5y"), Err("interval must be like 30s, 5m, 2h".to_string()));
}

#[test]
fn single_root_choice() {
    assert_eq!(resolve_single_root(Some("/r".into()), &vec!["/a".into()]), Some("/r".to_string()));
    assert_eq!(resolve_single_root(None, &vec!["/a".into(), "/b".into()]), Some("/a".to_string()));
    assert_eq!(resolve_single_root(None, &vec![]), None);
}

fn enabled() -> SecurityPolicy {
    SecurityPolicy { enabled: true, ..Default::default() }
}

#[test]
fn verify_cli_blocks_vulnerable_malloc() {
    let out = verify_output("int* p = malloc(n * sizeof(int));", Some("alloc.c"), &enabled());
    assert_eq!(out.report.sites_checked, 1);
    assert!(!out.report.findings.is_empty());
    assert_eq!(out.action, "block");
    assert!(out.message.is_some());
    assert_eq!(out.report.path, "alloc.c");
    assert_eq!(exit_code_for_action(out.action), 1);
}

#[test]
fn verify_cli_allows_safe_code() {
    let out = verify_output("return x + 1;", None, &enabled());
    assert_eq!(out.action, "allow");
    assert!(out.report.findings.is_empty());
    assert_eq!(out.report.path, "fragment");
    assert!(out.message.is_none());
    assert_eq!(exit_code_for_action(out.action), 0);
    assert_eq!(exit_code_for_action("warn"), 0);
}

#[test]
fn uri_round_trips_plain_paths() {
    let uri = file_uri("/repo/src/main.rs");
    assert_eq!(codebeacon::lsp::parser::uri_to_path(&uri), "/repo/src/main.rs");
    assert_eq!(file_uri_path(&uri), Some("/repo/src/main.rs".to_string()));
    // A space is escaped on the way out and not decoded on the way back.
    let spaced = file_uri("/repo/a b.rs");
    assert_eq!(codebeacon::lsp::parser::uri_to_path(&spaced), "/repo/a%20b.rs");
}

#[test]
fn interval_too_long_is_reported() {
    assert_eq!(parse_interval_checked("18446744073709551615m"), None);
    assert_eq!(parse_interval_checked("18446744073709551615"), Some(Ok(u64::MAX)));
    assert_eq!(parse_interval_checked("2h"), Some(Ok(7200)));
    assert_eq!(parse_interval_checked("h"), Some(Err("invalid hours".to_string())));
}

#[test]
fn report_output_defaults() {
    let o = codebeacon::report::ReportOptions::resolve("/tmp".into(), None);
    assert_eq!(o.output, "/tmp/CODEBEACON_REPORT.md");
    let o = codebeacon::report::ReportOptions::resolve("/no/such/dir/here".into(), None);
    assert_eq!(o.output, "/no/such/dir/here/.codebeacon/CODEBEACON_REPORT.md");
    let o = codebeacon::report::ReportOptions::resolve("/r".into(), Some("out.md".into()));
    assert_eq!((o.root.as_str(), o.output.as_str()), ("/r", "out.md"));
}

#[test]
fn roots_from_override_or_discovery() {
    assert_eq!(codebeacon::cli::resolve_roots(Some("/r".into()), true, "/w", vec![]), Ok(vec!["/r".to_string()]));
    assert_eq!(
        codebeacon::cli::resolve_roots(Some("/r".into()), false, "/w", vec![]),
        Err("--root '/r' is not a directory".to_string())
    );
    assert_eq!(
        codebeacon::cli::resolve_roots(None, false, "/w", vec!["/w/a".into()]),
        Ok(vec!["/w/a".to_string()])
    );
    let err = codebeacon::cli::resolve_roots(None, false, "/w", vec![]).unwrap_err();
    assert_eq!(
        err,
        "Could not find any git repo at or under '/w'.\nMake sure the directory (or one of its children) contains a .git folder,\nor use --root to point at a git repo / workspace directory."
    );
}

#[test]
fn language_server_messages_while_waiting() {
    assert_eq!(incoming_step(true, true, Some(7), 3), IncomingStep::AnswerServer);
    assert_eq!(incoming_step(false, true, Some(3), 3), IncomingStep::TakeResult);
    assert_eq!(incoming_step(false, true, Some(2), 3), IncomingStep::Skip);
    assert_eq!(incoming_step(true, false, None, 3), IncomingStep::Skip);
}

#[test]
fn uri_for_prefers_canonical_path() {
    assert_eq!(uri_for("rel/a b", Some("/abs/rel/a b".into())), "file:///abs/rel/a%20b");
    assert_eq!(uri_for("/x#y", None), "file:///x%23y");
}

#[test]
fn workspace_start_prefers_project_dir() {
    assert_eq!(workspace_start_from_env(Some("/p".into()), Some("/c".into()), "/cwd".into()), "/p");
    assert_eq!(workspace_start_from_env(Some("  ".into()), Some("/c".into()), "/cwd".into()), "/c");
    assert_eq!(workspace_start_from_env(None, None, "/cwd".into()), "/cwd");
}
