//! The MCP protocol's error objects and the list of tools the server offers.
//!
//! Each tool has a name, a description and an input schema given as JSON text;
//! which tools are listed depends on the features that are switched on.

use vstd::prelude::*;

verus! {

#[derive(Debug, Clone)]
pub struct McpError {
    pub code: i32,
    pub message: String,
}

/// One tool of the server.
#[derive(Debug, Clone, Copy)]
pub struct ToolSpec {
    pub name: &'static str,
    pub description: &'static str,
    /// The tool's input schema, as JSON text.
    pub input_schema: &'static str,
}

pub struct ToolView {
    pub name: Seq<char>,
    pub description: Seq<char>,
    pub input_schema: Seq<char>,
}

impl View for ToolSpec {
    type V = ToolView;

    open spec fn view(&self) -> ToolView {
        ToolView { name: self.name@, description: self.description@, input_schema: self.input_schema@ }
    }
}

pub open spec fn tool_views(s: Seq<ToolSpec>) -> Seq<ToolView> {
    s.map_values(|t: ToolSpec| t@)
}

pub open spec fn tool_names(s: Seq<ToolView>) -> Seq<Seq<char>> {
    s.map_values(|t: ToolView| t.name)
}
pub const GET_CONTEXT_DESCRIPTION: &'static str = "Returns relevance-sorted code index (L0 summary). Prefer over grep/Read. Graphify equivalent: browse graph concepts.";
pub const GET_CONTEXT_SCHEMA: &'static str = "{\"type\": \"object\", \"properties\": {\"files\": {\"type\": \"array\", \"items\": {\"type\": \"string\"}}, \"repo\": {\"type\": \"string\", \"description\": \"Repo name to query (only needed in a multi-repo workspace)\"}, \"compact\": {\"type\": \"boolean\", \"description\": \"Return token-compressed response with dictionary refs. Default from [compact] enabled in .codeindex.toml (true). Set false for local LLMs.\"}}, \"required\": []}";

pub const DRILL_PACKAGE_DESCRIPTION: &'static str = "Returns detailed file and symbol listing for a package. Use 'repo/package' notation or the `repo` argument in multi-repo workspaces.";
pub const DRILL_PACKAGE_SCHEMA: &'static str = "{\"type\": \"object\", \"properties\": {\"name\": {\"type\": \"string\", \"description\": \"Package name, or 'repo/package' in a multi-repo workspace\"}, \"repo\": {\"type\": \"string\", \"description\": \"Repo name to search (only needed in a multi-repo workspace)\"}, \"compact\": {\"type\": \"boolean\", \"description\": \"Return token-compressed response with dictionary refs. Default from [compact] enabled in .codeindex.toml (true). Set false for local LLMs.\"}}, \"required\": [\"name\"]}";

pub const FIND_REFERENCES_DESCRIPTION: &'static str = "Find all usages of a symbol across the codebase (all repos by default; use `repo` to scope to one).";
pub const FIND_REFERENCES_SCHEMA: &'static str = "{\"type\": \"object\", \"properties\": {\"symbol\": {\"type\": \"string\"}, \"file\": {\"type\": \"string\", \"description\": \"Absolute or repo-relative file path (enables LSP lookup)\"}, \"line\": {\"type\": \"integer\", \"description\": \"0-based line of the symbol (required with file)\"}, \"character\": {\"type\": \"integer\", \"description\": \"0-based character offset (required with file)\"}, \"repo\": {\"type\": \"string\", \"description\": \"Repo name to search (only needed in a multi-repo workspace)\"}, \"compact\": {\"type\": \"boolean\", \"description\": \"Return token-compressed response with dictionary refs. Default from [compact] enabled in .codeindex.toml (true). Set false for local LLMs.\"}}, \"required\": [\"symbol\"]}";

pub const FIND_DEFINITION_DESCRIPTION: &'static str = "Find where a symbol is defined (all repos by default; use `repo` to scope to one).";
pub const FIND_DEFINITION_SCHEMA: &'static str = "{\"type\": \"object\", \"properties\": {\"symbol\": {\"type\": \"string\"}, \"file\": {\"type\": \"string\", \"description\": \"Absolute or repo-relative file path (enables LSP lookup)\"}, \"line\": {\"type\": \"integer\", \"description\": \"0-based line of the symbol (required with file)\"}, \"character\": {\"type\": \"integer\", \"description\": \"0-based character offset (required with file)\"}, \"repo\": {\"type\": \"string\", \"description\": \"Repo name to search (only needed in a multi-repo workspace)\"}, \"compact\": {\"type\": \"boolean\", \"description\": \"Return token-compressed response with dictionary refs. Default from [compact] enabled in .codeindex.toml (true). Set false for local LLMs.\"}}, \"required\": [\"symbol\"]}";

pub const GET_DEPENDENTS_DESCRIPTION: &'static str = "List files that depend on the given file (impact analysis). Graphify equivalent: reverse neighbors.";
pub const GET_DEPENDENTS_SCHEMA: &'static str = "{\"type\": \"object\", \"properties\": {\"file\": {\"type\": \"string\", \"description\": \"File path, or 'repo/path' in a multi-repo workspace\"}, \"repo\": {\"type\": \"string\", \"description\": \"Repo name to search (only needed in a multi-repo workspace)\"}}, \"required\": [\"file\"]}";

pub const INIT_WORKSPACE_DESCRIPTION: &'static str = "Build (or rebuild) the code index for the workspace. Call this when get_context reports that no index exists yet.";
pub const INIT_WORKSPACE_SCHEMA: &'static str = "{\"type\": \"object\", \"properties\": {\"repo\": {\"type\": \"string\", \"description\": \"Repo name to index (only needed in a multi-repo workspace; omit to index all repos)\"}}, \"required\": []}";

pub const QUERY_CONTEXT_DESCRIPTION: &'static str = "Search packages, symbols, and files by keywords (Graphify equivalent: query_graph).";
pub const QUERY_CONTEXT_SCHEMA: &'static str = "{\"type\": \"object\", \"properties\": {\"question\": {\"type\": \"string\", \"description\": \"Search query / keywords\"}, \"repo\": {\"type\": \"string\", \"description\": \"Repo name (multi-repo workspace)\"}, \"compact\": {\"type\": \"boolean\", \"description\": \"Return token-compressed response with dictionary refs. Default from [compact] enabled in .codeindex.toml (true). Set false for local LLMs.\"}}, \"required\": [\"question\"]}";

pub const SHORTEST_PATH_DESCRIPTION: &'static str = "Shortest dependency path between two files/symbols (Graphify equivalent: graphify path).";
pub const SHORTEST_PATH_SCHEMA: &'static str = "{\"type\": \"object\", \"properties\": {\"from\": {\"type\": \"string\"}, \"to\": {\"type\": \"string\"}, \"repo\": {\"type\": \"string\"}, \"compact\": {\"type\": \"boolean\", \"description\": \"Return token-compressed response with dictionary refs. Default from [compact] enabled in .codeindex.toml (true). Set false for local LLMs.\"}}, \"required\": [\"from\", \"to\"]}";

pub const HOTSPOTS_DESCRIPTION: &'static str = "Top files by reverse-dependency count (Graphify equivalent: god_nodes).";
pub const HOTSPOTS_SCHEMA: &'static str = "{\"type\": \"object\", \"properties\": {\"limit\": {\"type\": \"integer\", \"description\": \"Max results (default 10)\"}, \"repo\": {\"type\": \"string\"}}, \"required\": []}";

pub const GET_REPORT_DESCRIPTION: &'static str = "Returns CODEBEACON_REPORT.md (MCP resource equivalent: codebeacon://report).";
pub const GET_REPORT_SCHEMA: &'static str = "{\"type\": \"object\", \"properties\": {\"repo\": {\"type\": \"string\"}}, \"required\": []}";

pub const GET_INDEX_SUMMARY_DESCRIPTION: &'static str = "Returns index.json L0 summary (MCP resource equivalent: codebeacon://index).";
pub const GET_INDEX_SUMMARY_SCHEMA: &'static str = "{\"type\": \"object\", \"properties\": {\"repo\": {\"type\": \"string\"}, \"compact\": {\"type\": \"boolean\", \"description\": \"Return token-compressed response with dictionary refs. Default from [compact] enabled in .codeindex.toml (true). Set false for local LLMs.\"}}, \"required\": []}";

pub const GET_HOTSPOTS_DESCRIPTION: &'static str = "Alias for hotspots (MCP resource equivalent: codebeacon://hotspots).";
pub const GET_HOTSPOTS_SCHEMA: &'static str = "{\"type\": \"object\", \"properties\": {\"limit\": {\"type\": \"integer\"}, \"repo\": {\"type\": \"string\"}}, \"required\": []}";

pub const READ_FILE_DESCRIPTION: &'static str = "Read the contents of a file in the workspace.";
pub const READ_FILE_SCHEMA: &'static str = "{\"type\": \"object\", \"properties\": {\"path\": {\"type\": \"string\", \"description\": \"Path relative to the repo root (or absolute)\"}, \"repo\": {\"type\": \"string\", \"description\": \"Repo name (only needed in a multi-repo workspace)\"}}, \"required\": [\"path\"]}";

pub const WRITE_FILE_DESCRIPTION: &'static str = "Create or overwrite a file in the workspace. Creates parent directories if needed.";
pub const WRITE_FILE_SCHEMA: &'static str = "{\"type\": \"object\", \"properties\": {\"path\": {\"type\": \"string\", \"description\": \"Path relative to the repo root\"}, \"content\": {\"type\": \"string\", \"description\": \"Full file content to write\"}, \"repo\": {\"type\": \"string\", \"description\": \"Repo name (required if multiple repos in workspace)\"}}, \"required\": [\"path\", \"content\"]}";

pub const EDIT_FILE_DESCRIPTION: &'static str = "Replace the first occurrence of old_string with new_string in a file. Fails if old_string is not found — make sure it matches the file exactly.";
pub const EDIT_FILE_SCHEMA: &'static str = "{\"type\": \"object\", \"properties\": {\"path\": {\"type\": \"string\", \"description\": \"Path relative to the repo root\"}, \"old_string\": {\"type\": \"string\", \"description\": \"Exact string to find in the file\"}, \"new_string\": {\"type\": \"string\", \"description\": \"Replacement string\"}, \"repo\": {\"type\": \"string\", \"description\": \"Repo name (required if multiple repos in workspace)\"}}, \"required\": [\"path\", \"old_string\", \"new_string\"]}";

pub const LIST_DIRECTORY_DESCRIPTION: &'static str = "List files and subdirectories at a path in the workspace.";
pub const LIST_DIRECTORY_SCHEMA: &'static str = "{\"type\": \"object\", \"properties\": {\"path\": {\"type\": \"string\", \"description\": \"Directory path relative to the repo root (defaults to repo root)\"}, \"repo\": {\"type\": \"string\", \"description\": \"Repo name (only needed in a multi-repo workspace)\"}}, \"required\": []}";

pub const VERIFY_SECURITY_DESCRIPTION: &'static str = "Run security verification on a code fragment without writing to disk. Checks CWE-190/131/191/369/680 (Z3) and optional pattern CWEs per policy. Returns SAT witness, UNSAT proof, or pattern-only warnings.";
pub const VERIFY_SECURITY_SCHEMA: &'static str = "{\"type\": \"object\", \"properties\": {\"content\": {\"type\": \"string\", \"description\": \"Code fragment to verify (e.g. the new_string from an edit)\"}, \"path\": {\"type\": \"string\", \"description\": \"File path for context (defaults to 'fragment')\"}, \"repo\": {\"type\": \"string\", \"description\": \"Repo name (required if multiple repos in workspace)\"}}, \"required\": [\"content\"]}";

pub const FOCUS_CONTEXT_DESCRIPTION: &'static str = "Subgraph around a file for edit-time context (anchor package, neighbors, symbols).";
pub const FOCUS_CONTEXT_SCHEMA: &'static str = "{\"type\": \"object\", \"properties\": {\"file\": {\"type\": \"string\", \"description\": \"File path or dict ref (p1)\"}, \"radius\": {\"type\": \"integer\", \"description\": \"BFS hop cap (default from [intelligence] focus_default_radius)\"}, \"repo\": {\"type\": \"string\"}, \"compact\": {\"type\": \"boolean\", \"description\": \"Return token-compressed response with dictionary refs. Default from [compact] enabled in .codeindex.toml (true). Set false for local LLMs.\"}}, \"required\": [\"file\"]}";

pub const TASK_CONTEXT_DESCRIPTION: &'static str = "Keyword search plus package drill summary for a task (e.g. 'login bug').";
pub const TASK_CONTEXT_SCHEMA: &'static str = "{\"type\": \"object\", \"properties\": {\"question\": {\"type\": \"string\"}, \"file\": {\"type\": \"string\", \"description\": \"Optional file for proximity boost\"}, \"limit\": {\"type\": \"integer\", \"description\": \"Max matches (default 10)\"}, \"repo\": {\"type\": \"string\"}, \"compact\": {\"type\": \"boolean\", \"description\": \"Return token-compressed response with dictionary refs. Default from [compact] enabled in .codeindex.toml (true). Set false for local LLMs.\"}}, \"required\": [\"question\"]}";

pub const CHANGE_IMPACT_DESCRIPTION: &'static str = "Blast radius before changing a symbol (definitions, references, dependent files, risk tier).";
pub const CHANGE_IMPACT_SCHEMA: &'static str = "{\"type\": \"object\", \"properties\": {\"symbol\": {\"type\": \"string\"}, \"file\": {\"type\": \"string\", \"description\": \"Scope to package containing this file\"}, \"exact\": {\"type\": \"boolean\", \"description\": \"Exact symbol name match (default true)\"}, \"repo\": {\"type\": \"string\"}, \"compact\": {\"type\": \"boolean\", \"description\": \"Return token-compressed response with dictionary refs. Default from [compact] enabled in .codeindex.toml (true). Set false for local LLMs.\"}}, \"required\": [\"symbol\"]}";

pub const INDEX_STATUS_DESCRIPTION: &'static str = "Index freshness vs working tree (stale files, git dirty count).";
pub const INDEX_STATUS_SCHEMA: &'static str = "{\"type\": \"object\", \"properties\": {\"repo\": {\"type\": \"string\"}}, \"required\": []}";

pub const PACKAGE_CONVENTIONS_DESCRIPTION: &'static str = "Convention fingerprint for a package (error style, logging, async, test patterns).";
pub const PACKAGE_CONVENTIONS_SCHEMA: &'static str = "{\"type\": \"object\", \"properties\": {\"package\": {\"type\": \"string\"}, \"repo\": {\"type\": \"string\"}, \"compact\": {\"type\": \"boolean\", \"description\": \"Return token-compressed response with dictionary refs. Default from [compact] enabled in .codeindex.toml (true). Set false for local LLMs.\"}}, \"required\": [\"package\"]}";

pub const SIMILAR_SYMBOLS_DESCRIPTION: &'static str = "Lightweight symbol similarity by kind and signature token overlap.";
pub const SIMILAR_SYMBOLS_SCHEMA: &'static str = "{\"type\": \"object\", \"properties\": {\"symbol\": {\"type\": \"string\"}, \"file\": {\"type\": \"string\"}, \"limit\": {\"type\": \"integer\", \"description\": \"Max results (default 5)\"}, \"repo\": {\"type\": \"string\"}}, \"required\": [\"symbol\"]}";

pub const API_SURFACE_DESCRIPTION: &'static str = "Public exports for a package (language-specific heuristics).";
pub const API_SURFACE_SCHEMA: &'static str = "{\"type\": \"object\", \"properties\": {\"package\": {\"type\": \"string\"}, \"repo\": {\"type\": \"string\"}, \"compact\": {\"type\": \"boolean\", \"description\": \"Return token-compressed response with dictionary refs. Default from [compact] enabled in .codeindex.toml (true). Set false for local LLMs.\"}}, \"required\": [\"package\"]}";

pub const WHY_FILE_DESCRIPTION: &'static str = "Git history and dependency context for a file.";
pub const WHY_FILE_SCHEMA: &'static str = "{\"type\": \"object\", \"properties\": {\"file\": {\"type\": \"string\"}, \"repo\": {\"type\": \"string\"}}, \"required\": [\"file\"]}";

pub const FRAGILE_FILES_DESCRIPTION: &'static str = "High-churn files with many dependents (hotspots × git churn).";
pub const FRAGILE_FILES_SCHEMA: &'static str = "{\"type\": \"object\", \"properties\": {\"limit\": {\"type\": \"integer\", \"description\": \"Max results (default 10)\"}, \"repo\": {\"type\": \"string\"}}, \"required\": []}";

pub const LOOP_BEGIN_DESCRIPTION: &'static str = "Start a loop context session for iterative agent work.";
pub const LOOP_BEGIN_SCHEMA: &'static str = "{\"type\": \"object\", \"properties\": {\"goal\": {\"type\": \"string\", \"description\": \"Task goal / prompt context\"}, \"file\": {\"type\": \"string\", \"description\": \"Primary active file\"}, \"files\": {\"type\": \"array\", \"items\": {\"type\": \"string\"}}, \"tick\": {\"type\": \"boolean\", \"description\": \"Run first loop_tick immediately (default true)\"}, \"repo\": {\"type\": \"string\"}, \"compact\": {\"type\": \"boolean\", \"description\": \"Return token-compressed response with dictionary refs. Default from [compact] enabled in .codeindex.toml (true). Set false for local LLMs.\"}}, \"required\": [\"goal\"]}";

pub const LOOP_TICK_DESCRIPTION: &'static str = "Next loop iteration: index status, focus context, reindex policy, signals.";
pub const LOOP_TICK_SCHEMA: &'static str = "{\"type\": \"object\", \"properties\": {\"session_id\": {\"type\": \"string\"}, \"file\": {\"type\": \"string\"}, \"repo\": {\"type\": \"string\"}, \"compact\": {\"type\": \"boolean\", \"description\": \"Return token-compressed response with dictionary refs. Default from [compact] enabled in .codeindex.toml (true). Set false for local LLMs.\"}}, \"required\": [\"session_id\"]}";

pub const LOOP_RECORD_DESCRIPTION: &'static str = "Record files touched after an edit; optional change_impact for symbol.";
pub const LOOP_RECORD_SCHEMA: &'static str = "{\"type\": \"object\", \"properties\": {\"session_id\": {\"type\": \"string\"}, \"files\": {\"type\": \"array\", \"items\": {\"type\": \"string\"}}, \"symbol\": {\"type\": \"string\"}, \"repo\": {\"type\": \"string\"}}, \"required\": [\"session_id\", \"files\"]}";

pub const LOOP_END_DESCRIPTION: &'static str = "Close loop session and return summary.";
pub const LOOP_END_SCHEMA: &'static str = "{\"type\": \"object\", \"properties\": {\"session_id\": {\"type\": \"string\"}, \"repo\": {\"type\": \"string\"}}, \"required\": [\"session_id\"]}";

pub const CLAIM_PATH_DESCRIPTION: &'static str = "Claim a path for exclusive edit (multi-agent locks). Same block_key renews the lease. If tools missing, skip locks.";
pub const CLAIM_PATH_SCHEMA: &'static str = "{\"type\": \"object\", \"properties\": {\"path\": {\"type\": \"string\"}, \"intent\": {\"type\": \"string\"}, \"block_key\": {\"type\": \"string\", \"description\": \"Agent/task id or run-plan stem\"}}, \"required\": [\"path\", \"block_key\"]}";

pub const RELEASE_PATH_DESCRIPTION: &'static str = "Release a claimed path and publish a DONE summary for await_path.";
pub const RELEASE_PATH_SCHEMA: &'static str = "{\"type\": \"object\", \"properties\": {\"path\": {\"type\": \"string\"}, \"summary\": {\"type\": \"string\"}, \"block_key\": {\"type\": \"string\"}}, \"required\": [\"path\", \"block_key\"]}";

pub const AWAIT_PATH_DESCRIPTION: &'static str = "Wait until a path is free or has a DONE summary (or timeout).";
pub const AWAIT_PATH_SCHEMA: &'static str = "{\"type\": \"object\", \"properties\": {\"path\": {\"type\": \"string\"}, \"block_key\": {\"type\": \"string\"}, \"timeout_ms\": {\"type\": \"integer\"}, \"poll_ms\": {\"type\": \"integer\"}}, \"required\": [\"path\", \"block_key\"]}";

pub const LIST_LOCKS_DESCRIPTION: &'static str = "List active path claims.";
pub const LIST_LOCKS_SCHEMA: &'static str = "{\"type\": \"object\", \"properties\": {}, \"required\": []}";

pub const LIST_DONE_DESCRIPTION: &'static str = "List released paths with DONE summaries.";
pub const LIST_DONE_SCHEMA: &'static str = "{\"type\": \"object\", \"properties\": {}, \"required\": []}";

pub const SESSION_DONE_DESCRIPTION: &'static str = "Mark a parallel-agent / run-plan session finished. Drops remaining claims for this block_key.";
pub const SESSION_DONE_SCHEMA: &'static str = "{\"type\": \"object\", \"properties\": {\"block_key\": {\"type\": \"string\"}, \"summary\": {\"type\": \"string\"}, \"ok\": {\"type\": \"boolean\"}}, \"required\": [\"block_key\", \"ok\"]}";

pub const LIST_SESSIONS_DESCRIPTION: &'static str = "List lock sessions (running / done / failed / timed_out).";
pub const LIST_SESSIONS_SCHEMA: &'static str = "{\"type\": \"object\", \"properties\": {}, \"required\": []}";

pub const QUERY_DOCS_DESCRIPTION: &'static str = "Keyword search over indexed markdown docs (headings + snippets). Use when documentation context is needed.";
pub const QUERY_DOCS_SCHEMA: &'static str = "{\"type\": \"object\", \"properties\": {\"question\": {\"type\": \"string\"}, \"limit\": {\"type\": \"integer\", \"description\": \"Max results (default 10)\"}, \"repo\": {\"type\": \"string\"}}, \"required\": [\"question\"]}";

pub const RESOLVE_DOC_DESCRIPTION: &'static str = "Resolve a docs anchor to a content slice. Syntax: path | path::## Heading | path::Symbol | path#N-M";
pub const RESOLVE_DOC_SCHEMA: &'static str = "{\"type\": \"object\", \"properties\": {\"reference\": {\"type\": \"string\", \"description\": \"e.g. docs/design.md::## Auth Flow\"}, \"repo\": {\"type\": \"string\"}}, \"required\": [\"reference\"]}";

pub const DOCS_STATUS_DESCRIPTION: &'static str = "List stale documentation sections and broken codebeacon links.";
pub const DOCS_STATUS_SCHEMA: &'static str = "{\"type\": \"object\", \"properties\": {\"repo\": {\"type\": \"string\"}}, \"required\": []}";

pub const UPDATE_DOCS_DESCRIPTION: &'static str = "Build an update brief for stale (or a specific) doc section. Does not write markdown — the agent applies the brief.";
pub const UPDATE_DOCS_SCHEMA: &'static str = "{\"type\": \"object\", \"properties\": {\"section\": {\"type\": \"string\", \"description\": \"Section id or substring; omit for all stale sections\"}, \"repo\": {\"type\": \"string\"}}, \"required\": []}";

pub const SPAWN_AGENT_DESCRIPTION: &'static str = "Conductor only: enqueue an ensemble agent. The multi-agent TUI polls and opens a new pane.";
pub const SPAWN_AGENT_SCHEMA: &'static str = "{\"type\": \"object\", \"properties\": {\"prompt\": {\"type\": \"string\", \"description\": \"Task for the ensemble member\"}, \"block_key\": {\"type\": \"string\", \"description\": \"Optional id for the new ensemble agent\"}, \"model\": {\"type\": \"string\", \"description\": \"Optional model override\"}}, \"required\": [\"prompt\"]}";

pub const LIST_AGENTS_DESCRIPTION: &'static str = "List conductor + ensemble agents in the active multi-agent session.";
pub const LIST_AGENTS_SCHEMA: &'static str = "{\"type\": \"object\", \"properties\": {}, \"required\": []}";

pub const AGENT_STATUS_DESCRIPTION: &'static str = "Status of one ensemble (or conductor) agent by block_key.";
pub const AGENT_STATUS_SCHEMA: &'static str = "{\"type\": \"object\", \"properties\": {\"block_key\": {\"type\": \"string\"}}, \"required\": [\"block_key\"]}";

/// The tools that are always listed.
pub open spec fn core_tool_group() -> Seq<ToolView> {
    seq![
        ToolView { name: "get_context"@, description: GET_CONTEXT_DESCRIPTION@, input_schema: GET_CONTEXT_SCHEMA@ },
        ToolView { name: "drill_package"@, description: DRILL_PACKAGE_DESCRIPTION@, input_schema: DRILL_PACKAGE_SCHEMA@ },
        ToolView { name: "find_references"@, description: FIND_REFERENCES_DESCRIPTION@, input_schema: FIND_REFERENCES_SCHEMA@ },
        ToolView { name: "find_definition"@, description: FIND_DEFINITION_DESCRIPTION@, input_schema: FIND_DEFINITION_SCHEMA@ },
        ToolView { name: "get_dependents"@, description: GET_DEPENDENTS_DESCRIPTION@, input_schema: GET_DEPENDENTS_SCHEMA@ },
        ToolView { name: "init_workspace"@, description: INIT_WORKSPACE_DESCRIPTION@, input_schema: INIT_WORKSPACE_SCHEMA@ },
        ToolView { name: "query_context"@, description: QUERY_CONTEXT_DESCRIPTION@, input_schema: QUERY_CONTEXT_SCHEMA@ },
        ToolView { name: "shortest_path"@, description: SHORTEST_PATH_DESCRIPTION@, input_schema: SHORTEST_PATH_SCHEMA@ },
        ToolView { name: "hotspots"@, description: HOTSPOTS_DESCRIPTION@, input_schema: HOTSPOTS_SCHEMA@ },
        ToolView { name: "get_report"@, description: GET_REPORT_DESCRIPTION@, input_schema: GET_REPORT_SCHEMA@ },
        ToolView { name: "get_index_summary"@, description: GET_INDEX_SUMMARY_DESCRIPTION@, input_schema: GET_INDEX_SUMMARY_SCHEMA@ },
        ToolView { name: "get_hotspots"@, description: GET_HOTSPOTS_DESCRIPTION@, input_schema: GET_HOTSPOTS_SCHEMA@ },
    ]
}

fn core_tool_specs() -> (r: Vec<ToolSpec>)
    ensures
        tool_views(r@) == core_tool_group(),
{
    let r = vec![
        ToolSpec { name: "get_context", description: GET_CONTEXT_DESCRIPTION, input_schema: GET_CONTEXT_SCHEMA },
        ToolSpec { name: "drill_package", description: DRILL_PACKAGE_DESCRIPTION, input_schema: DRILL_PACKAGE_SCHEMA },
        ToolSpec { name: "find_references", description: FIND_REFERENCES_DESCRIPTION, input_schema: FIND_REFERENCES_SCHEMA },
        ToolSpec { name: "find_definition", description: FIND_DEFINITION_DESCRIPTION, input_schema: FIND_DEFINITION_SCHEMA },
        ToolSpec { name: "get_dependents", description: GET_DEPENDENTS_DESCRIPTION, input_schema: GET_DEPENDENTS_SCHEMA },
        ToolSpec { name: "init_workspace", description: INIT_WORKSPACE_DESCRIPTION, input_schema: INIT_WORKSPACE_SCHEMA },
        ToolSpec { name: "query_context", description: QUERY_CONTEXT_DESCRIPTION, input_schema: QUERY_CONTEXT_SCHEMA },
        ToolSpec { name: "shortest_path", description: SHORTEST_PATH_DESCRIPTION, input_schema: SHORTEST_PATH_SCHEMA },
        ToolSpec { name: "hotspots", description: HOTSPOTS_DESCRIPTION, input_schema: HOTSPOTS_SCHEMA },
        ToolSpec { name: "get_report", description: GET_REPORT_DESCRIPTION, input_schema: GET_REPORT_SCHEMA },
        ToolSpec { name: "get_index_summary", description: GET_INDEX_SUMMARY_DESCRIPTION, input_schema: GET_INDEX_SUMMARY_SCHEMA },
        ToolSpec { name: "get_hotspots", description: GET_HOTSPOTS_DESCRIPTION, input_schema: GET_HOTSPOTS_SCHEMA },
    ];
    assert(tool_views(r@) =~= core_tool_group());
    r
}

/// The file-system tools.
pub open spec fn fs_tool_group() -> Seq<ToolView> {
    seq![
        ToolView { name: "read_file"@, description: READ_FILE_DESCRIPTION@, input_schema: READ_FILE_SCHEMA@ },
        ToolView { name: "write_file"@, description: WRITE_FILE_DESCRIPTION@, input_schema: WRITE_FILE_SCHEMA@ },
        ToolView { name: "edit_file"@, description: EDIT_FILE_DESCRIPTION@, input_schema: EDIT_FILE_SCHEMA@ },
        ToolView { name: "list_directory"@, description: LIST_DIRECTORY_DESCRIPTION@, input_schema: LIST_DIRECTORY_SCHEMA@ },
    ]
}

fn fs_tool_specs() -> (r: Vec<ToolSpec>)
    ensures
        tool_views(r@) == fs_tool_group(),
{
    let r = vec![
        ToolSpec { name: "read_file", description: READ_FILE_DESCRIPTION, input_schema: READ_FILE_SCHEMA },
        ToolSpec { name: "write_file", description: WRITE_FILE_DESCRIPTION, input_schema: WRITE_FILE_SCHEMA },
        ToolSpec { name: "edit_file", description: EDIT_FILE_DESCRIPTION, input_schema: EDIT_FILE_SCHEMA },
        ToolSpec { name: "list_directory", description: LIST_DIRECTORY_DESCRIPTION, input_schema: LIST_DIRECTORY_SCHEMA },
    ];
    assert(tool_views(r@) =~= fs_tool_group());
    r
}

/// The security verification tool.
pub open spec fn security_tool_group() -> Seq<ToolView> {
    seq![
        ToolView { name: "verify_security"@, description: VERIFY_SECURITY_DESCRIPTION@, input_schema: VERIFY_SECURITY_SCHEMA@ },
    ]
}

fn security_tool_specs() -> (r: Vec<ToolSpec>)
    ensures
        tool_views(r@) == security_tool_group(),
{
    let r = vec![
        ToolSpec { name: "verify_security", description: VERIFY_SECURITY_DESCRIPTION, input_schema: VERIFY_SECURITY_SCHEMA },
    ];
    assert(tool_views(r@) =~= security_tool_group());
    r
}

/// The code-intelligence tools.
pub open spec fn intelligence_tool_group() -> Seq<ToolView> {
    seq![
        ToolView { name: "focus_context"@, description: FOCUS_CONTEXT_DESCRIPTION@, input_schema: FOCUS_CONTEXT_SCHEMA@ },
        ToolView { name: "task_context"@, description: TASK_CONTEXT_DESCRIPTION@, input_schema: TASK_CONTEXT_SCHEMA@ },
        ToolView { name: "change_impact"@, description: CHANGE_IMPACT_DESCRIPTION@, input_schema: CHANGE_IMPACT_SCHEMA@ },
        ToolView { name: "index_status"@, description: INDEX_STATUS_DESCRIPTION@, input_schema: INDEX_STATUS_SCHEMA@ },
        ToolView { name: "package_conventions"@, description: PACKAGE_CONVENTIONS_DESCRIPTION@, input_schema: PACKAGE_CONVENTIONS_SCHEMA@ },
        ToolView { name: "similar_symbols"@, description: SIMILAR_SYMBOLS_DESCRIPTION@, input_schema: SIMILAR_SYMBOLS_SCHEMA@ },
        ToolView { name: "api_surface"@, description: API_SURFACE_DESCRIPTION@, input_schema: API_SURFACE_SCHEMA@ },
        ToolView { name: "why_file"@, description: WHY_FILE_DESCRIPTION@, input_schema: WHY_FILE_SCHEMA@ },
        ToolView { name: "fragile_files"@, description: FRAGILE_FILES_DESCRIPTION@, input_schema: FRAGILE_FILES_SCHEMA@ },
    ]
}

fn intelligence_tool_specs() -> (r: Vec<ToolSpec>)
    ensures
        tool_views(r@) == intelligence_tool_group(),
{
    let r = vec![
        ToolSpec { name: "focus_context", description: FOCUS_CONTEXT_DESCRIPTION, input_schema: FOCUS_CONTEXT_SCHEMA },
        ToolSpec { name: "task_context", description: TASK_CONTEXT_DESCRIPTION, input_schema: TASK_CONTEXT_SCHEMA },
        ToolSpec { name: "change_impact", description: CHANGE_IMPACT_DESCRIPTION, input_schema: CHANGE_IMPACT_SCHEMA },
        ToolSpec { name: "index_status", description: INDEX_STATUS_DESCRIPTION, input_schema: INDEX_STATUS_SCHEMA },
        ToolSpec { name: "package_conventions", description: PACKAGE_CONVENTIONS_DESCRIPTION, input_schema: PACKAGE_CONVENTIONS_SCHEMA },
        ToolSpec { name: "similar_symbols", description: SIMILAR_SYMBOLS_DESCRIPTION, input_schema: SIMILAR_SYMBOLS_SCHEMA },
        ToolSpec { name: "api_surface", description: API_SURFACE_DESCRIPTION, input_schema: API_SURFACE_SCHEMA },
        ToolSpec { name: "why_file", description: WHY_FILE_DESCRIPTION, input_schema: WHY_FILE_SCHEMA },
        ToolSpec { name: "fragile_files", description: FRAGILE_FILES_DESCRIPTION, input_schema: FRAGILE_FILES_SCHEMA },
    ];
    assert(tool_views(r@) =~= intelligence_tool_group());
    r
}

/// The loop-session tools.
pub open spec fn loop_tool_group() -> Seq<ToolView> {
    seq![
        ToolView { name: "loop_begin"@, description: LOOP_BEGIN_DESCRIPTION@, input_schema: LOOP_BEGIN_SCHEMA@ },
        ToolView { name: "loop_tick"@, description: LOOP_TICK_DESCRIPTION@, input_schema: LOOP_TICK_SCHEMA@ },
        ToolView { name: "loop_record"@, description: LOOP_RECORD_DESCRIPTION@, input_schema: LOOP_RECORD_SCHEMA@ },
        ToolView { name: "loop_end"@, description: LOOP_END_DESCRIPTION@, input_schema: LOOP_END_SCHEMA@ },
    ]
}

fn loop_tool_specs() -> (r: Vec<ToolSpec>)
    ensures
        tool_views(r@) == loop_tool_group(),
{
    let r = vec![
        ToolSpec { name: "loop_begin", description: LOOP_BEGIN_DESCRIPTION, input_schema: LOOP_BEGIN_SCHEMA },
        ToolSpec { name: "loop_tick", description: LOOP_TICK_DESCRIPTION, input_schema: LOOP_TICK_SCHEMA },
        ToolSpec { name: "loop_record", description: LOOP_RECORD_DESCRIPTION, input_schema: LOOP_RECORD_SCHEMA },
        ToolSpec { name: "loop_end", description: LOOP_END_DESCRIPTION, input_schema: LOOP_END_SCHEMA },
    ];
    assert(tool_views(r@) =~= loop_tool_group());
    r
}

/// The path-lock and session tools.
pub open spec fn lock_tool_group() -> Seq<ToolView> {
    seq![
        ToolView { name: "claim_path"@, description: CLAIM_PATH_DESCRIPTION@, input_schema: CLAIM_PATH_SCHEMA@ },
        ToolView { name: "release_path"@, description: RELEASE_PATH_DESCRIPTION@, input_schema: RELEASE_PATH_SCHEMA@ },
        ToolView { name: "await_path"@, description: AWAIT_PATH_DESCRIPTION@, input_schema: AWAIT_PATH_SCHEMA@ },
        ToolView { name: "list_locks"@, description: LIST_LOCKS_DESCRIPTION@, input_schema: LIST_LOCKS_SCHEMA@ },
        ToolView { name: "list_done"@, description: LIST_DONE_DESCRIPTION@, input_schema: LIST_DONE_SCHEMA@ },
        ToolView { name: "session_done"@, description: SESSION_DONE_DESCRIPTION@, input_schema: SESSION_DONE_SCHEMA@ },
        ToolView { name: "list_sessions"@, description: LIST_SESSIONS_DESCRIPTION@, input_schema: LIST_SESSIONS_SCHEMA@ },
    ]
}

fn lock_tool_specs() -> (r: Vec<ToolSpec>)
    ensures
        tool_views(r@) == lock_tool_group(),
{
    let r = vec![
        ToolSpec { name: "claim_path", description: CLAIM_PATH_DESCRIPTION, input_schema: CLAIM_PATH_SCHEMA },
        ToolSpec { name: "release_path", description: RELEASE_PATH_DESCRIPTION, input_schema: RELEASE_PATH_SCHEMA },
        ToolSpec { name: "await_path", description: AWAIT_PATH_DESCRIPTION, input_schema: AWAIT_PATH_SCHEMA },
        ToolSpec { name: "list_locks", description: LIST_LOCKS_DESCRIPTION, input_schema: LIST_LOCKS_SCHEMA },
        ToolSpec { name: "list_done", description: LIST_DONE_DESCRIPTION, input_schema: LIST_DONE_SCHEMA },
        ToolSpec { name: "session_done", description: SESSION_DONE_DESCRIPTION, input_schema: SESSION_DONE_SCHEMA },
        ToolSpec { name: "list_sessions", description: LIST_SESSIONS_DESCRIPTION, input_schema: LIST_SESSIONS_SCHEMA },
    ];
    assert(tool_views(r@) =~= lock_tool_group());
    r
}

/// The documentation tools.
pub open spec fn docs_tool_group() -> Seq<ToolView> {
    seq![
        ToolView { name: "query_docs"@, description: QUERY_DOCS_DESCRIPTION@, input_schema: QUERY_DOCS_SCHEMA@ },
        ToolView { name: "resolve_doc"@, description: RESOLVE_DOC_DESCRIPTION@, input_schema: RESOLVE_DOC_SCHEMA@ },
        ToolView { name: "docs_status"@, description: DOCS_STATUS_DESCRIPTION@, input_schema: DOCS_STATUS_SCHEMA@ },
        ToolView { name: "update_docs"@, description: UPDATE_DOCS_DESCRIPTION@, input_schema: UPDATE_DOCS_SCHEMA@ },
    ]
}

fn docs_tool_specs() -> (r: Vec<ToolSpec>)
    ensures
        tool_views(r@) == docs_tool_group(),
{
    let r = vec![
        ToolSpec { name: "query_docs", description: QUERY_DOCS_DESCRIPTION, input_schema: QUERY_DOCS_SCHEMA },
        ToolSpec { name: "resolve_doc", description: RESOLVE_DOC_DESCRIPTION, input_schema: RESOLVE_DOC_SCHEMA },
        ToolSpec { name: "docs_status", description: DOCS_STATUS_DESCRIPTION, input_schema: DOCS_STATUS_SCHEMA },
        ToolSpec { name: "update_docs", description: UPDATE_DOCS_DESCRIPTION, input_schema: UPDATE_DOCS_SCHEMA },
    ];
    assert(tool_views(r@) =~= docs_tool_group());
    r
}

/// The multi-agent conductor tools.
pub open spec fn conductor_tool_group() -> Seq<ToolView> {
    seq![
        ToolView { name: "spawn_agent"@, description: SPAWN_AGENT_DESCRIPTION@, input_schema: SPAWN_AGENT_SCHEMA@ },
        ToolView { name: "list_agents"@, description: LIST_AGENTS_DESCRIPTION@, input_schema: LIST_AGENTS_SCHEMA@ },
        ToolView { name: "agent_status"@, description: AGENT_STATUS_DESCRIPTION@, input_schema: AGENT_STATUS_SCHEMA@ },
    ]
}

fn conductor_tool_specs() -> (r: Vec<ToolSpec>)
    ensures
        tool_views(r@) == conductor_tool_group(),
{
    let r = vec![
        ToolSpec { name: "spawn_agent", description: SPAWN_AGENT_DESCRIPTION, input_schema: SPAWN_AGENT_SCHEMA },
        ToolSpec { name: "list_agents", description: LIST_AGENTS_DESCRIPTION, input_schema: LIST_AGENTS_SCHEMA },
        ToolSpec { name: "agent_status", description: AGENT_STATUS_DESCRIPTION, input_schema: AGENT_STATUS_SCHEMA },
    ];
    assert(tool_views(r@) =~= conductor_tool_group());
    r
}

/// The tools listed for a set of switched-on features: the core tools, then
/// each enabled group in a fixed order.
pub open spec fn tool_list_spec(
    fs_tools: bool,
    security: bool,
    intelligence: bool,
    loop_enabled: bool,
    locks_enabled: bool,
    docs_enabled: bool,
    conductor_enabled: bool,
) -> Seq<ToolView> {
    core_tool_group()
        + (if fs_tools { fs_tool_group() } else { Seq::empty() })
        + (if security { security_tool_group() } else { Seq::empty() })
        + (if intelligence { intelligence_tool_group() } else { Seq::empty() })
        + (if loop_enabled { loop_tool_group() } else { Seq::empty() })
        + (if locks_enabled { lock_tool_group() } else { Seq::empty() })
        + (if docs_enabled { docs_tool_group() } else { Seq::empty() })
        + (if conductor_enabled { conductor_tool_group() } else { Seq::empty() })
}

fn append_tools(tools: &mut Vec<ToolSpec>, more: Vec<ToolSpec>)
    ensures
        tool_views(final(tools)@) == tool_views(old(tools)@) + tool_views(more@),
{
    let mut more = more;
    let ghost added = more@;
    tools.append(&mut more);
    assert(tool_views(tools@) =~= tool_views(old(tools)@) + tool_views(added));
}

/// The tools the server lists, given which features are switched on.
pub fn tool_list(
    fs_tools: bool,
    security: bool,
    intelligence: bool,
    loop_enabled: bool,
    locks_enabled: bool,
    docs_enabled: bool,
    conductor_enabled: bool,
) -> (r: Vec<ToolSpec>)
    ensures
        tool_views(r@) == tool_list_spec(fs_tools, security, intelligence, loop_enabled, locks_enabled, docs_enabled, conductor_enabled),
{
    let mut tools = core_tool_specs();
    let ghost before = tool_views(tools@);
    if fs_tools {
        append_tools(&mut tools, fs_tool_specs());
    }
    assert(tool_views(tools@) =~= before + (if fs_tools { fs_tool_group() } else { Seq::empty() }));
    let ghost before = tool_views(tools@);
    if security {
        append_tools(&mut tools, security_tool_specs());
    }
    assert(tool_views(tools@) =~= before + (if security { security_tool_group() } else { Seq::empty() }));
    let ghost before = tool_views(tools@);
    if intelligence {
        append_tools(&mut tools, intelligence_tool_specs());
    }
    assert(tool_views(tools@) =~= before + (if intelligence { intelligence_tool_group() } else { Seq::empty() }));
    let ghost before = tool_views(tools@);
    if loop_enabled {
        append_tools(&mut tools, loop_tool_specs());
    }
    assert(tool_views(tools@) =~= before + (if loop_enabled { loop_tool_group() } else { Seq::empty() }));
    let ghost before = tool_views(tools@);
    if locks_enabled {
        append_tools(&mut tools, lock_tool_specs());
    }
    assert(tool_views(tools@) =~= before + (if locks_enabled { lock_tool_group() } else { Seq::empty() }));
    let ghost before = tool_views(tools@);
    if docs_enabled {
        append_tools(&mut tools, docs_tool_specs());
    }
    assert(tool_views(tools@) =~= before + (if docs_enabled { docs_tool_group() } else { Seq::empty() }));
    let ghost before = tool_views(tools@);
    if conductor_enabled {
        append_tools(&mut tools, conductor_tool_specs());
    }
    assert(tool_views(tools@) =~= before + (if conductor_enabled { conductor_tool_group() } else { Seq::empty() }));
    tools
}

/// Whatever is switched on, the list starts with the core tools; with nothing
/// switched on it holds them alone.
pub proof fn law_core_tools_lead_the_list(
    fs_tools: bool,
    security: bool,
    intelligence: bool,
    loop_enabled: bool,
    locks_enabled: bool,
    docs_enabled: bool,
    conductor_enabled: bool,
)
    ensures
        tool_list_spec(
            fs_tools,
            security,
            intelligence,
            loop_enabled,
            locks_enabled,
            docs_enabled,
            conductor_enabled,
        ).take(core_tool_group().len() as int) == core_tool_group(),
        tool_list_spec(false, false, false, false, false, false, false) == core_tool_group(),
{
    let l = tool_list_spec(
        fs_tools,
        security,
        intelligence,
        loop_enabled,
        locks_enabled,
        docs_enabled,
        conductor_enabled,
    );
    assert(l.take(core_tool_group().len() as int) =~= core_tool_group());
    assert(tool_list_spec(false, false, false, false, false, false, false) =~= core_tool_group());
}

proof fn lemma_concat_contains(a: Seq<ToolView>, b: Seq<ToolView>, x: ToolView)
    ensures
        (a + b).contains(x) <==> a.contains(x) || b.contains(x),
{
    if (a + b).contains(x) {
        let i = choose|i: int| 0 <= i < (a + b).len() && (a + b)[i] == x;
        if i < a.len() {
            assert(a[i] == x);
        } else {
            assert(b[i - a.len()] == x);
        }
    }
    if a.contains(x) {
        let i = choose|i: int| 0 <= i < a.len() && a[i] == x;
        assert((a + b)[i] == x);
    }
    if b.contains(x) {
        let i = choose|i: int| 0 <= i < b.len() && b[i] == x;
        assert((a + b)[a.len() + i] == x);
    }
}

pub open spec fn group_if(on: bool, g: Seq<ToolView>) -> Seq<ToolView> {
    if on {
        g
    } else {
        Seq::empty()
    }
}

/// Switching more features on only adds tools: a tool listed with some
/// features (in the order of `tool_list`'s flags) is listed with any set of
/// features that includes them.
pub proof fn law_features_only_add_tools(f: Seq<bool>, g: Seq<bool>, t: ToolView)
    requires
        f.len() == 7,
        g.len() == 7,
        forall|i: int| 0 <= i < 7 ==> f[i] ==> g[i],
        tool_list_spec(f[0], f[1], f[2], f[3], f[4], f[5], f[6]).contains(t),
    ensures
        tool_list_spec(g[0], g[1], g[2], g[3], g[4], g[5], g[6]).contains(t),
{
    let a0 = core_tool_group();
    let b0 = core_tool_group();
    lemma_concat_contains(a0, group_if(f[0], fs_tool_group()), t);
    lemma_concat_contains(b0, group_if(g[0], fs_tool_group()), t);
    let a1 = a0 + group_if(f[0], fs_tool_group());
    let b1 = b0 + group_if(g[0], fs_tool_group());
    assert(a1.contains(t) ==> b1.contains(t)) by {
        if group_if(f[0], fs_tool_group()).contains(t) {
            assert(g[0]);
        }
    }
    lemma_concat_contains(a1, group_if(f[1], security_tool_group()), t);
    lemma_concat_contains(b1, group_if(g[1], security_tool_group()), t);
    let a2 = a1 + group_if(f[1], security_tool_group());
    let b2 = b1 + group_if(g[1], security_tool_group());
    assert(a2.contains(t) ==> b2.contains(t)) by {
        if group_if(f[1], security_tool_group()).contains(t) {
            assert(g[1]);
        }
    }
    lemma_concat_contains(a2, group_if(f[2], intelligence_tool_group()), t);
    lemma_concat_contains(b2, group_if(g[2], intelligence_tool_group()), t);
    let a3 = a2 + group_if(f[2], intelligence_tool_group());
    let b3 = b2 + group_if(g[2], intelligence_tool_group());
    assert(a3.contains(t) ==> b3.contains(t)) by {
        if group_if(f[2], intelligence_tool_group()).contains(t) {
            assert(g[2]);
        }
    }
    lemma_concat_contains(a3, group_if(f[3], loop_tool_group()), t);
    lemma_concat_contains(b3, group_if(g[3], loop_tool_group()), t);
    let a4 = a3 + group_if(f[3], loop_tool_group());
    let b4 = b3 + group_if(g[3], loop_tool_group());
    assert(a4.contains(t) ==> b4.contains(t)) by {
        if group_if(f[3], loop_tool_group()).contains(t) {
            assert(g[3]);
        }
    }
    lemma_concat_contains(a4, group_if(f[4], lock_tool_group()), t);
    lemma_concat_contains(b4, group_if(g[4], lock_tool_group()), t);
    let a5 = a4 + group_if(f[4], lock_tool_group());
    let b5 = b4 + group_if(g[4], lock_tool_group());
    assert(a5.contains(t) ==> b5.contains(t)) by {
        if group_if(f[4], lock_tool_group()).contains(t) {
            assert(g[4]);
        }
    }
    lemma_concat_contains(a5, group_if(f[5], docs_tool_group()), t);
    lemma_concat_contains(b5, group_if(g[5], docs_tool_group()), t);
    let a6 = a5 + group_if(f[5], docs_tool_group());
    let b6 = b5 + group_if(g[5], docs_tool_group());
    assert(a6.contains(t) ==> b6.contains(t)) by {
        if group_if(f[5], docs_tool_group()).contains(t) {
            assert(g[5]);
        }
    }
    lemma_concat_contains(a6, group_if(f[6], conductor_tool_group()), t);
    lemma_concat_contains(b6, group_if(g[6], conductor_tool_group()), t);
    let a7 = a6 + group_if(f[6], conductor_tool_group());
    let b7 = b6 + group_if(g[6], conductor_tool_group());
    assert(a7.contains(t) ==> b7.contains(t)) by {
        if group_if(f[6], conductor_tool_group()).contains(t) {
            assert(g[6]);
        }
    }
    assert(a7 =~= tool_list_spec(f[0], f[1], f[2], f[3], f[4], f[5], f[6]));
    assert(b7 =~= tool_list_spec(g[0], g[1], g[2], g[3], g[4], g[5], g[6]));
}

// ---------------------------------------------------------------------------
// Routing a tool call
// ---------------------------------------------------------------------------

pub const FS_TOOLS_DISABLED: &'static str = "File-system tools are disabled. Restart codebeacon with `--fs-tools` to enable them.";

pub open spec fn is_fs_tool(name: Seq<char>) -> bool {
    tool_names(fs_tool_group()).contains(name)
}

/// Every tool the server knows, whatever is switched on.
pub open spec fn known_tools() -> Seq<Seq<char>> {
    tool_names(tool_list_spec(true, true, true, true, true, true, true))
}

/// Whether a call of tool `name` goes through: a file-system tool only when
/// those are switched on; any other known tool always; an unknown name never.
pub open spec fn route_spec(name: Seq<char>, fs_tools: bool) -> Result<(), Seq<char>> {
    if is_fs_tool(name) {
        if fs_tools {
            Ok(())
        } else {
            Err(FS_TOOLS_DISABLED@)
        }
    } else if known_tools().contains(name) {
        Ok(())
    } else {
        Err("unknown tool: "@ + name)
    }
}

fn listed(tools: &Vec<ToolSpec>, name: &str) -> (b: bool)
    ensures
        b == tool_names(tool_views(tools@)).contains(name@),
{
    let ghost names = tool_names(tool_views(tools@));
    let mut i: usize = 0;
    while i < tools.len()
        invariant
            i <= tools@.len(),
            names == tool_names(tool_views(tools@)),
            forall|j: int| 0 <= j < i ==> names[j] != name@,
        decreases tools.len() - i,
    {
        assert(names[i as int] == tools@[i as int].name@);
        if crate::text::str_eq(tools[i].name, name) {
            assert(names.contains(name@)) by {
                assert(names[i as int] == name@);
            }
            return true;
        }
        i += 1;
    }
    false
}

/// Check a tool call before it is dispatched to its handler.
pub fn route_tool(name: &str, fs_tools: bool) -> (r: Result<(), String>)
    ensures
        match r {
            Ok(()) => route_spec(name@, fs_tools) is Ok,
            Err(e) => route_spec(name@, fs_tools) == Err::<(), Seq<char>>(e@),
        },
{
    let fs = fs_tool_specs();
    if listed(&fs, name) {
        if fs_tools {
            Ok(())
        } else {
            Err(crate::text::owned(FS_TOOLS_DISABLED))
        }
    } else {
        let all = tool_list(true, true, true, true, true, true, true);
        if listed(&all, name) {
            Ok(())
        } else {
            Err(crate::text::concat2("unknown tool: ", name))
        }
    }
}

} // verus!
