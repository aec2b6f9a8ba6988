pub mod cli;
pub mod clock;
pub mod loop_coord;
pub mod lsp;
pub mod matching;
pub mod mcp;
pub mod order;
pub mod paths;
pub mod query;
pub mod report;
pub mod run_plan;
pub mod security;
pub mod text;
pub mod tui;
pub mod types;
pub mod unicode;
pub mod verify_cmd;
