//! The decisions of the MCP stdio server: routing a JSON-RPC method, the
//! handshake before the tool loop, which replies are sent, and where the
//! workspace starts.

use crate::mcp::tools::{components, components_seq, ComponentView, PathComponent};
use crate::text::{owned, str_eq, trim_seq, trim_str};
use vstd::prelude::*;

verus! {

pub const PARSE_ERROR: i32 = -32700;
pub const METHOD_NOT_FOUND: i32 = -32601;
pub const INTERNAL_ERROR: i32 = -32603;
pub const PROTOCOL_VERSION: &'static str = "2024-11-05";
/// The id of the server's own `roots/list` request.
pub const ROOTS_REQUEST_ID: u64 = 9001;

/// What the server does with a request.
#[derive(Debug, Clone, Copy, PartialEq, Eq, Structural)]
pub enum RpcRoute {
    Initialize,
    Initialized,
    ToolsList,
    ToolsCall,
    NotFound,
}

pub open spec fn rpc_route_spec(method: Seq<char>) -> RpcRoute {
    if method == "initialize"@ {
        RpcRoute::Initialize
    } else if method == "initialized"@ {
        RpcRoute::Initialized
    } else if method == "tools/list"@ {
        RpcRoute::ToolsList
    } else if method == "tools/call"@ {
        RpcRoute::ToolsCall
    } else {
        RpcRoute::NotFound
    }
}

pub fn rpc_route(method: &str) -> (r: RpcRoute)
    ensures
        r == rpc_route_spec(method@),
{
    if str_eq(method, "initialize") {
        RpcRoute::Initialize
    } else if str_eq(method, "initialized") {
        RpcRoute::Initialized
    } else if str_eq(method, "tools/list") {
        RpcRoute::ToolsList
    } else if str_eq(method, "tools/call") {
        RpcRoute::ToolsCall
    } else {
        RpcRoute::NotFound
    }
}

/// A reply goes out when it answers a request with an id, or reports an error.
pub fn should_send(has_id: bool, is_error: bool) -> (b: bool)
    ensures
        b == (has_id || is_error),
{
    has_id || is_error
}

/// What one message of the handshake leads to.
#[derive(Debug, Clone, Copy, PartialEq, Eq, Structural)]
pub enum HandshakeStep {
    /// Answer `initialize` and keep reading.
    ReplyInitialize,
    /// Ask the client for its roots, read the answer, and end the handshake.
    AskRoots,
    /// End the handshake.
    Done,
    /// End the handshake and handle this message as the first of the tool loop.
    DoneReplay,
}

/// One step of the handshake. `client_has_roots` is what the client declared
/// so far; `roots_capability` is what this message declares, when it carries
/// parameters; `root_given` tells whether the workspace root was given on the
/// command line. Answers the new declaration and the step.
pub fn handshake_step(method: &str, roots_capability: Option<bool>, client_has_roots: bool, root_given: bool) -> (r: (
    bool,
    HandshakeStep,
))
    ensures
        r == (match rpc_route_spec(method@) {
            RpcRoute::Initialize => (
                match roots_capability {
                    Some(b) => b,
                    None => client_has_roots,
                },
                HandshakeStep::ReplyInitialize,
            ),
            RpcRoute::Initialized => (
                client_has_roots,
                if !root_given && client_has_roots {
                    HandshakeStep::AskRoots
                } else {
                    HandshakeStep::Done
                },
            ),
            _ => (client_has_roots, HandshakeStep::DoneReplay),
        }),
{
    match rpc_route(method) {
        RpcRoute::Initialize => (
            match roots_capability {
                Some(b) => b,
                None => client_has_roots,
            },
            HandshakeStep::ReplyInitialize,
        ),
        RpcRoute::Initialized => (
            client_has_roots,
            if !root_given && client_has_roots {
                HandshakeStep::AskRoots
            } else {
                HandshakeStep::Done
            },
        ),
        _ => (client_has_roots, HandshakeStep::DoneReplay),
    }
}

/// Where the workspace starts: the root given on the command line, else the
/// first root the client listed; `None` leaves it to the environment.
pub fn pick_workspace_start(root_given: Option<String>, client_root: Option<String>) -> (r: Option<String>)
    ensures
        r == (match root_given {
            Some(p) => Some(p),
            None => client_root,
        }),
{
    match root_given {
        Some(p) => Some(p),
        None => client_root,
    }
}

/// A workspace named in the environment counts when it is not blank.
pub open spec fn named_workspace(v: Option<Seq<char>>) -> Option<Seq<char>> {
    match v {
        Some(p) => if trim_seq(p).len() > 0 {
            Some(p)
        } else {
            None
        },
        None => None,
    }
}

/// The workspace start when neither the command line nor the client names
/// one: `$CLAUDE_PROJECT_DIR`, else `$CURSOR_WORKSPACE` (given as
/// `project_dir` and `cursor_workspace`), else the current directory.
pub fn workspace_start_from_env(
    project_dir: Option<String>,
    cursor_workspace: Option<String>,
    cwd: String,
) -> (r: String)
    ensures
        r@ == (match named_workspace(project_dir.deep_view()) {
            Some(p) => p,
            None => match named_workspace(cursor_workspace.deep_view()) {
                Some(p) => p,
                None => cwd@,
            },
        }),
{
    if let Some(p) = project_dir {
        if !trim_str(p.as_str()).as_str().is_empty() {
            return p;
        }
    }
    if let Some(p) = cursor_workspace {
        if !trim_str(p.as_str()).as_str().is_empty() {
            return p;
        }
    }
    cwd
}

/// The repositories served: those found under the start, or the start itself
/// when none is found.
pub fn served_repos(discovered: Vec<String>, start: String) -> (r: Vec<String>)
    ensures
        r@ == (if discovered@.len() == 0 {
            seq![start]
        } else {
            discovered@
        }),
{
    if discovered.len() == 0 {
        let mut v = Vec::new();
        v.push(start);
        v
    } else {
        discovered
    }
}

/// A repository's name: the last component of its root when that is a name
/// (`Path::file_name`), else `repo`.
pub open spec fn repo_name_seq(root: Seq<char>) -> Seq<char> {
    let cs = components_seq(root);
    if cs.len() > 0 && cs.last() is Normal {
        cs.last()->Normal_0
    } else {
        "repo"@
    }
}

pub fn repo_name(root: &str) -> (r: String)
    ensures
        r@ == repo_name_seq(root@),
{
    let cs = components(root);
    if cs.len() > 0 {
        let last = &cs[cs.len() - 1];
        assert(crate::mcp::tools::comps_view(cs@)[cs@.len() - 1] == last@);
        match last {
            PathComponent::Normal(n) => {
                return n.clone();
            },
            _ => {},
        }
    }
    owned("repo")
}

} // verus!
