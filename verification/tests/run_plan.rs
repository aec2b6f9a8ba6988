use codebeacon::run_plan::{dry_run_spawn_line, plan_paths, run_banner, run_dir, run_summary};
use codebeacon::run_plan::brief::brief_text;
use codebeacon::run_plan::discover::{plan_block_key, sanitize_block_key, PlanDoc};
use codebeacon::run_plan::spawn::{
    build_agent_argv, first_found, mission_prompt, resolve_agent_bin, CODEX_MISSING, CURSOR_AGENT_MISSING, CLAUDE_MISSING, resolve_claude_bin, resolve_codex_bin,
    AgentArgvOpts, RunPlanProvider,
};

#[test]
fn provider_parse() {
    assert_eq!(RunPlanProvider::parse("cursor").unwrap(), RunPlanProvider::Cursor);
    assert_eq!(RunPlanProvider::parse("anthropic").unwrap(), RunPlanProvider::Claude);
    assert_eq!(RunPlanProvider::parse("codex").unwrap(), RunPlanProvider::Codex);
    assert!(RunPlanProvider::parse("nope").is_err());
}

#[test]
fn provider_parse_aliases_and_case() {
    assert_eq!(RunPlanProvider::parse("AGENT").unwrap(), RunPlanProvider::Cursor);
    assert_eq!(RunPlanProvider::parse("cli:Anthropic").unwrap(), RunPlanProvider::Claude);
    assert_eq!(
        RunPlanProvider::parse("Nope"),
        Err("unknown provider `nope` (expected cursor | anthropic | codex)".to_string())
    );
    for p in [RunPlanProvider::Cursor, RunPlanProvider::Claude, RunPlanProvider::Codex] {
        assert_eq!(RunPlanProvider::parse(p.as_str()).unwrap(), p);
    }
}

#[test]
fn mission_prompt_text() {
    let expected = format!(
        "Read ONLY {} (mission brief). Then WRITE CODE — do not narrate. \
         Implement ONLY plan block `{}` in this workspace. \
         Prefer Edit/StrReplace. \
         MCP (optional): server name is exactly `codebeacon`. \
         If missing / \"not found\", skip MCP — do not explore MCP catalogs. \
         When MCP works: claim_path → edit → release_path; finish with session_done. \
         When finished REQUIRED: (1) MCP session_done block_key=`{}` ok=true summary≤1 line if MCP works \
         AND (2) Bash `touch {}` then print a line that is exactly: CBDONE {}. \
         If stuck: one short question max — otherwise silence until done.",
        "/run/auth.md", "auth", "auth", "/run/signals/DONE.auth", "auth"
    );
    assert_eq!(mission_prompt("/run/auth.md", "auth", "/run/signals/DONE.auth"), expected);
}

#[test]
fn brief_text_matches_template() {
    let plan = PlanDoc { path: "plans/auth.md".into(), block_key: "auth".into(), body: "\n# auth\nDo it.\n\n".into() };
    let text = brief_text(&plan, "", "auth", "/s/DONE.auth");
    let expected = format!(
        r#"# Codebeacon run-plan brief

## block_key

`{block_key}`

## Shared prompt

{prompt}

## Plan (`{plan_name}`)

{body}

## File locks (MCP codebeacon) — optional

Server name is exactly `codebeacon`. If lock tools are missing / MCP errors "not found", skip locks — do not explore MCP catalogs.

Before editing a shared path: call `claim_path` with path + block_key=`{block_key}` + intent.
If held: call `await_path` then retry claim.
After finishing that path: call `release_path` with a short summary.
When the whole plan is complete: call `session_done` with block_key=`{block_key}`, ok=true, and a short summary.
If blocked: `session_done` with ok=false.

Also required when finished: Bash `touch {signal}` then print a line that is exactly: `CBDONE {block_key}`.
"#,
        block_key = "auth",
        prompt = "(none — implement the plan as written)",
        plan_name = "plans/auth.md",
        body = "# auth\nDo it.",
        signal = "/s/DONE.auth",
    );
    assert_eq!(text, expected);
    let with_prompt = brief_text(&plan, "be brief", "auth", "/s/DONE.auth");
    assert!(with_prompt.contains("## Shared prompt\n\nbe brief\n\n## Plan"));
}

#[test]
fn argv_cursor_with_model() {
    let opts = AgentArgvOpts {
        provider: RunPlanProvider::Cursor,
        workspace: "/ws",
        model: "gpt",
        prompt: "go",
        mcp_config: None,
        interactive: false,
    };
    assert_eq!(
        build_agent_argv(&opts, "agent"),
        vec!["agent", "--workspace", "/ws", "--force", "--approve-mcps", "--model", "gpt", "go"]
    );
}

#[test]
fn argv_claude_headless_and_interactive() {
    let mut opts = AgentArgvOpts {
        provider: RunPlanProvider::Claude,
        workspace: "/ws",
        model: "",
        prompt: "go",
        mcp_config: Some("/ws/mcp.json"),
        interactive: false,
    };
    assert_eq!(
        build_agent_argv(&opts, "anthropic"),
        vec![
            "anthropic",
            "--print",
            "--permission-mode",
            "bypassPermissions",
            "--mcp-config",
            "/ws/mcp.json",
            "--strict-mcp-config",
            "go"
        ]
    );
    opts.interactive = true;
    opts.mcp_config = None;
    assert_eq!(
        build_agent_argv(&opts, "anthropic"),
        vec!["anthropic", "--permission-mode", "bypassPermissions", "go"]
    );
}

#[test]
fn interactive_claude_omits_print() {
    let opts = AgentArgvOpts {
        provider: RunPlanProvider::Claude,
        workspace: "/ws",
        model: "",
        prompt: "hi",
        mcp_config: None,
        interactive: true,
    };
    let argv = build_agent_argv(&opts, "/usr/bin/anthropic");
    assert!(!argv.iter().any(|a| a == "--print"));
    assert_eq!(argv.last().unwrap(), "hi");
}

#[test]
fn argv_codex_headless_and_interactive() {
    let mut opts = AgentArgvOpts {
        provider: RunPlanProvider::Codex,
        workspace: "/ws",
        model: "o3",
        prompt: "go",
        mcp_config: None,
        interactive: false,
    };
    assert_eq!(
        build_agent_argv(&opts, "codex"),
        vec![
            "codex",
            "exec",
            "--full-auto",
            "--sandbox",
            "workspace-write",
            "--cd",
            "/ws",
            "--skip-git-repo-check",
            "--model",
            "o3",
            "go"
        ]
    );
    opts.interactive = true;
    assert_eq!(
        build_agent_argv(&opts, "codex"),
        vec!["codex", "--cd", "/ws", "--skip-git-repo-check", "--model", "o3", "go"]
    );
}

#[test]
fn resolve_bins_prefer_environment() {
    assert_eq!(resolve_agent_bin(Some("/opt/agent".into())), Ok("/opt/agent".to_string()));
    assert_eq!(
        resolve_claude_bin(Some(String::new()), Some("/opt/anthropic-code".into())),
        Ok("/opt/anthropic-code".to_string())
    );
    assert_eq!(
        resolve_claude_bin(Some("/a".into()), Some("/b".into())),
        Ok("/a".to_string())
    );
    assert_eq!(resolve_codex_bin(Some("/x/codex".into())), Ok("/x/codex".to_string()));
}

#[test]
fn sanitize_and_plan_keys() {
    assert_eq!(sanitize_block_key("a/b\\c:d e"), "a_b_c_d_e");
    assert_eq!(plan_block_key("auth.md"), Some("auth".to_string()));
    assert_eq!(plan_block_key("my plan.v2.md"), Some("my_plan.v2".to_string()));
    assert_eq!(plan_block_key("notes.txt"), None);
    assert_eq!(plan_block_key(".md"), None);
    assert_eq!(plan_block_key("README"), None);
    assert_eq!(plan_block_key(".."), None);
}

#[test]
fn run_texts_and_paths() {
    assert_eq!(run_dir("/w", "1700"), "/w/.codeindex/run-plan/1700");
    assert_eq!(
        plan_paths("/w/.codeindex/run-plan/1700", "auth"),
        ("/w/.codeindex/run-plan/1700/auth.md".to_string(), "/w/.codeindex/run-plan/1700/signals/DONE.auth".to_string())
    );
    assert_eq!(
        run_banner(3, RunPlanProvider::Codex, 0, true, "1700"),
        "[codebeacon] run-plan: 3 plan(s), provider=codex, parallel=all, dry_run=true, run=1700"
    );
    assert_eq!(
        run_banner(3, RunPlanProvider::Cursor, 2, false, "9"),
        "[codebeacon] run-plan: 3 plan(s), provider=cursor, parallel=2, dry_run=false, run=9"
    );
    assert_eq!(
        dry_run_spawn_line(RunPlanProvider::Codex, "auth", "/b.md", "/s"),
        "[dry-run] would spawn codex for block=auth brief=/b.md signal=/s"
    );
    assert_eq!(run_summary(&vec![true, false, true]), "[codebeacon] run-plan done: 2 ok, 1 failed/timed_out");
    assert_eq!(run_summary(&vec![]), "[codebeacon] run-plan done: 0 ok, 0 failed/timed_out");
}

#[test]
fn first_found_takes_earliest_lookup() {
    assert_eq!(first_found(&vec![None, Some("/b/x".into()), Some("/c/x".into())]), Some("/b/x".to_string()));
    assert_eq!(first_found(&vec![None, None]), None);
    assert_eq!(first_found(&vec![]), None);
}

#[test]
fn resolve_bins_fall_back_to_path() {
    match resolve_codex_bin(None) {
        Ok(p) => assert!(p.to_ascii_lowercase().contains("codex")),
        Err(e) => assert_eq!(e, CODEX_MISSING),
    }
    match resolve_agent_bin(Some(String::new())) {
        Ok(p) => assert!(p.to_ascii_lowercase().contains("agent")),
        Err(e) => assert_eq!(e, CURSOR_AGENT_MISSING),
    }
    assert_eq!(resolve_claude_bin(None, Some(String::new())), Err(CLAUDE_MISSING.to_string()));
}
