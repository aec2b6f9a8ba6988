use codebeacon::mcp::server::{handshake_step, pick_workspace_start, repo_name, rpc_route, served_repos, should_send, HandshakeStep, RpcRoute};
use codebeacon::mcp::protocol::route_tool;
use codebeacon::mcp::protocol::tool_list;

fn names(fs: bool, security: bool, intelligence: bool, looping: bool, locks: bool, docs: bool, conductor: bool) -> Vec<&'static str> {
    tool_list(fs, security, intelligence, looping, locks, docs, conductor).iter().map(|t| t.name).collect()
}

#[test]
fn tool_list_includes_locks_when_enabled() {
    let names1 = names(false, false, false, false, true, false, false);
    assert!(names1.contains(&"claim_path"));
    assert!(names1.contains(&"session_done"));
    let names2 = names(false, false, false, false, false, false, false);
    assert!(!names2.contains(&"claim_path"));
}

#[test]
fn tool_list_includes_docs_when_enabled() {
    let names = names(false, false, false, false, false, true, false);
    assert!(names.contains(&"query_docs"));
    assert!(names.contains(&"resolve_doc"));
    assert!(names.contains(&"docs_status"));
    assert!(names.contains(&"update_docs"));
}

#[test]
fn tool_list_includes_conductor_when_enabled() {
    let names = names(false, false, false, false, false, false, true);
    assert!(names.contains(&"spawn_agent"));
    assert!(names.contains(&"list_agents"));
    assert!(names.contains(&"agent_status"));
}

#[test]
fn core_tools_come_first_and_groups_follow_in_order() {
    let core = names(false, false, false, false, false, false, false);
    assert_eq!(core.len(), 12);
    assert_eq!(core[0], "get_context");
    assert_eq!(core[11], "get_hotspots");
    let all = names(true, true, true, true, true, true, true);
    assert_eq!(all.len(), 44);
    assert_eq!(&all[..12], &core[..]);
    assert_eq!(all[12], "read_file");
    assert_eq!(all[16], "verify_security");
    assert_eq!(all[43], "agent_status");
    let mut sorted = all.clone();
    sorted.sort();
    sorted.dedup();
    assert_eq!(sorted.len(), 44);
}

#[test]
fn every_schema_is_a_json_object_schema() {
    for t in tool_list(true, true, true, true, true, true, true) {
        let v: serde_json::Value = serde_json::from_str(t.input_schema).unwrap();
        assert_eq!(v["type"], "object", "{}", t.name);
        assert!(v["properties"].is_object(), "{}", t.name);
        assert!(!t.description.is_empty());
    }
    let security = tool_list(false, true, false, false, false, false, false);
    let schema: serde_json::Value = serde_json::from_str(security[12].input_schema).unwrap();
    assert_eq!(schema["required"].as_array().map(|a| a.len()), Some(1));
    assert_eq!(schema["required"][0], "content");
}

#[test]
fn routing_checks_file_system_switch_and_known_names() {
    assert_eq!(route_tool("get_context", false), Ok(()));
    assert_eq!(route_tool("agent_status", false), Ok(()));
    assert_eq!(route_tool("write_file", true), Ok(()));
    assert_eq!(
        route_tool("write_file", false),
        Err("File-system tools are disabled. Restart codebeacon with `--fs-tools` to enable them.".to_string())
    );
    assert_eq!(route_tool("frobnicate", true), Err("unknown tool: frobnicate".to_string()));
}

#[test]
fn server_routes_methods_and_walks_the_handshake() {
    assert_eq!(rpc_route("initialize"), RpcRoute::Initialize);
    assert_eq!(rpc_route("initialized"), RpcRoute::Initialized);
    assert_eq!(rpc_route("tools/list"), RpcRoute::ToolsList);
    assert_eq!(rpc_route("tools/call"), RpcRoute::ToolsCall);
    assert_eq!(rpc_route("ping"), RpcRoute::NotFound);
    assert_eq!(handshake_step("initialize", Some(true), false, false), (true, HandshakeStep::ReplyInitialize));
    assert_eq!(handshake_step("initialize", None, true, false), (true, HandshakeStep::ReplyInitialize));
    assert_eq!(handshake_step("initialized", None, true, false), (true, HandshakeStep::AskRoots));
    assert_eq!(handshake_step("initialized", None, true, true), (true, HandshakeStep::Done));
    assert_eq!(handshake_step("initialized", None, false, false), (false, HandshakeStep::Done));
    assert_eq!(handshake_step("tools/call", None, true, false), (true, HandshakeStep::DoneReplay));
    assert!(should_send(true, false));
    assert!(should_send(false, true));
    assert!(!should_send(false, false));
}

#[test]
fn server_workspace_and_repository_names() {
    assert_eq!(pick_workspace_start(Some("/a".into()), Some("/b".into())), Some("/a".to_string()));
    assert_eq!(pick_workspace_start(None, Some("/b".into())), Some("/b".to_string()));
    assert_eq!(pick_workspace_start(None, None), None);
    assert_eq!(served_repos(vec![], "/w".into()), vec!["/w"]);
    assert_eq!(served_repos(vec!["/w/a".into(), "/w/b".into()], "/w".into()), vec!["/w/a", "/w/b"]);
    assert_eq!(repo_name("/home/me/project"), "project");
    assert_eq!(repo_name("/home/me/project/"), "project");
    assert_eq!(repo_name("/"), "repo");
    assert_eq!(repo_name("/home/.."), "repo");
}

#[test]
fn routes_tools_list() {
    assert_eq!(rpc_route("tools/list"), RpcRoute::ToolsList);
    // Without a tool context every feature is off: the core tools only.
    let names = names(false, false, false, false, false, false, false);
    assert!(names.len() >= 12);
    assert!(names.contains(&"query_context"));
    assert!(names.contains(&"shortest_path"));
    assert!(names.contains(&"hotspots"));
}

#[test]
fn routes_unknown_method_to_error() {
    assert_eq!(rpc_route("unknown/method"), RpcRoute::NotFound);
    assert_eq!(codebeacon::mcp::server::METHOD_NOT_FOUND, -32601);
}

#[test]
fn more_features_only_add_tools() {
    let some = names(true, false, false, false, true, false, false);
    let all = names(true, true, true, true, true, true, true);
    assert!(some.iter().all(|n| all.contains(n)));
    assert!(all.len() > some.len());
}
