//! Language-server client support: message framing, request ids, file URIs
//! and index records from responses.

pub mod client;
pub mod parser;
pub mod pool;
