//! MCP server support: file URIs of the client and paths confined to a repository.

pub mod conductor;
pub mod edit;
pub mod listing;
pub mod lookup;
pub mod protocol;
pub mod server;
pub mod tools;

use crate::lsp::client::{file_uri_seq, lemma_escape_plain, needs_no_escape};
use crate::text::{strip_prefix_seq, strip_prefix_str};
use vstd::prelude::*;

verus! {

/// The path of a `file://` URI (Unix form: the rest of the URI after the scheme).
pub open spec fn file_uri_path_seq(uri: Seq<char>) -> Option<Seq<char>> {
    strip_prefix_seq(uri, "file://"@)
}

pub fn file_uri_path(uri: &str) -> (r: Option<String>)
    ensures
        r.deep_view() == file_uri_path_seq(uri@),
{
    strip_prefix_str(uri, "file://")
}

/// Calls `Path::exists`. The answer depends on the file system; nothing is
/// promised of it.
#[verifier::external_body]
pub(crate) fn path_exists(path: &str) -> bool {
    std::path::Path::new(path).exists()
}

/// The path of a `file://` URI when it names something that exists.
pub fn uri_to_path(uri: &str) -> (r: Option<String>)
    ensures
        file_uri_path_seq(uri@) is None ==> r is None,
        r matches Some(p) ==> file_uri_path_seq(uri@) == Some(p@),
{
    let p = file_uri_path(uri)?;
    if path_exists(p.as_str()) {
        Some(p)
    } else {
        None
    }
}

/// The path of the `file://` URI of a path with no space or `#` is that path.
pub proof fn law_file_uri_path_round_trip(p: Seq<char>)
    requires
        needs_no_escape(p),
    ensures
        file_uri_path_seq(file_uri_seq(p)) == Some(p),
{
    lemma_escape_plain(p);
    reveal_strlit("file://");
    let u = "file://"@ + p;
    assert(u.take(7) =~= "file://"@);
    assert(u.skip(7) =~= p);
}

} // verus!
