//! Request ids, message framing and file URIs for the language-server client.

use crate::text::{chars_of, concat2, decimal_seq, decimal_string_usize, owned, push_char};
use crate::unicode::{byte_len, utf8_len};
use vstd::prelude::*;

verus! {

/// Ids of the requests sent to one server, counting up from 1.
pub struct MessageId(pub u64);

impl MessageId {
    pub fn new() -> (r: MessageId)
        ensures
            r.0 == 0,
    {
        MessageId(0)
    }

    /// The next id: one more than the last one handed out.
    pub fn next(&mut self) -> (r: u64)
        requires
            old(self).0 < u64::MAX,
        ensures
            r == old(self).0 + 1,
            final(self).0 == r,
    {
        self.0 = self.0 + 1;
        self.0
    }
}

/// Each id handed out is one more than the one before, so no id repeats.
pub proof fn law_ids_increase(before: u64, first: u64, second: u64)
    requires
        first == before + 1,
        second == first + 1,
    ensures
        first < second,
        second == before + 2,
{
}

/// A message framed with its byte length, as the language-server protocol sends it.
pub open spec fn framed_seq(body: Seq<char>) -> Seq<char> {
    "Content-Length: "@ + decimal_seq(utf8_len(body)) + "\r\n\r\n"@ + body
}

pub fn encode_message(body: &str) -> (r: String)
    ensures
        r@ == framed_seq(body@),
{
    let n = byte_len(body);
    let len = decimal_string_usize(n);
    let mut s = concat2("Content-Length: ", len.as_str());
    s.append("\r\n\r\n");
    s.append(body);
    s
}

/// Spaces and `#` escaped as `%20` and `%23`; every other character kept.
pub open spec fn uri_escape(s: Seq<char>) -> Seq<char>
    decreases s.len(),
{
    if s.len() == 0 {
        Seq::empty()
    } else {
        let rest = uri_escape(s.drop_last());
        let c = s.last();
        if c == ' ' {
            rest + "%20"@
        } else if c == '#' {
            rest + "%23"@
        } else {
            rest.push(c)
        }
    }
}

/// Neither a space nor `#`: the characters a URI escapes.
pub open spec fn needs_no_escape(p: Seq<char>) -> bool {
    forall|i: int| 0 <= i < p.len() ==> p[i] != ' ' && p[i] != '#'
}

/// A path that needs no escape is its own escape.
pub proof fn lemma_escape_plain(p: Seq<char>)
    requires
        needs_no_escape(p),
    ensures
        uri_escape(p) == p,
    decreases p.len(),
{
    if p.len() > 0 {
        lemma_escape_plain(p.drop_last());
        assert(p.drop_last().push(p.last()) =~= p);
    }
}

pub open spec fn file_uri_seq(path: Seq<char>) -> Seq<char> {
    "file://"@ + uri_escape(path)
}

/// The `file://` URI of an absolute path.
pub fn file_uri(path: &str) -> (r: String)
    ensures
        r@ == file_uri_seq(path@),
{
    proof {
        reveal_strlit("%20");
        reveal_strlit("%23");
    }
    let chars = chars_of(path);
    let mut out = owned("file://");
    let ghost head = out@;
    let mut i: usize = 0;
    while i < chars.len()
        invariant
            chars@ == path@,
            i <= chars@.len(),
            head == "file://"@,
            out@ == head + uri_escape(path@.take(i as int)),
        decreases chars.len() - i,
    {
        let c = chars[i];
        assert(path@.take(i + 1).drop_last() =~= path@.take(i as int));
        if c == ' ' {
            out.append("%20");
        } else if c == '#' {
            out.append("%23");
        } else {
            push_char(&mut out, c);
        }
        assert(out@ =~= head + uri_escape(path@.take(i + 1)));
        i += 1;
    }
    assert(path@.take(i as int) =~= path@);
    out
}

/// Calls `Path::canonicalize`. The answer depends on the file system;
/// nothing is promised of it.
#[verifier::external_body]
fn canonical_path(path: &str) -> Option<String> {
    std::path::Path::new(path).canonicalize().ok().map(|p| p.to_string_lossy().into_owned())
}

/// The URI of `path` given what canonicalising it gave: of the canonical form
/// when there is one, else of `path` itself.
pub open spec fn uri_for_seq(path: Seq<char>, canonical: Option<Seq<char>>) -> Seq<char> {
    match canonical {
        Some(a) => file_uri_seq(a),
        None => file_uri_seq(path),
    }
}

pub fn uri_for(path: &str, canonical: Option<String>) -> (r: String)
    ensures
        r@ == uri_for_seq(path@, canonical.deep_view()),
{
    match canonical {
        Some(abs) => file_uri(abs.as_str()),
        None => file_uri(path),
    }
}

/// The `file://` URI of `path`: of its canonical form when the file system
/// gives one, else of `path` itself.
pub fn path_to_uri(path: &str) -> (r: String)
    ensures
        exists|canonical: Option<Seq<char>>| r@ == uri_for_seq(path@, canonical),
{
    let canonical = canonical_path(path);
    uri_for(path, canonical)
}

} // verus!

verus! {

/// What one header line of a server message tells the reader.
#[derive(Debug, Clone, Copy, PartialEq, Eq, Structural)]
pub enum HeaderStep {
    /// The blank line: the body follows.
    End,
    /// Another header; the content length known so far.
    More(Option<usize>),
    /// A `Content-Length` whose value is no `usize`.
    BadLength,
}

/// `str::parse::<usize>`.
pub open spec fn parse_usize_seq(s: Seq<char>) -> Option<usize> {
    match crate::text::parse_unsigned(s, usize::MAX as nat) {
        Some(v) => Some(v as usize),
        None => None,
    }
}

pub open spec fn header_step_spec(line: Seq<char>, length: Option<usize>) -> HeaderStep {
    let t = crate::text::trim_seq(line);
    if t.len() == 0 {
        HeaderStep::End
    } else {
        match crate::text::strip_prefix_seq(t, "Content-Length: "@) {
            Some(v) => match parse_usize_seq(v) {
                Some(n) => HeaderStep::More(Some(n)),
                None => HeaderStep::BadLength,
            },
            None => HeaderStep::More(length),
        }
    }
}

fn parse_usize(s: &str) -> (r: Option<usize>)
    ensures
        r == parse_usize_seq(s@),
{
    match crate::text::parse_u64(s) {
        Some(n) => {
            if (n as u128) <= (usize::MAX as u128) {
                Some(n as usize)
            } else {
                None
            }
        },
        None => {
            assert(crate::text::parse_unsigned(s@, u64::MAX as nat) is None);
            None
        },
    }
}

/// Read one header line, given the content length seen so far.
pub fn header_step(line: &str, length: Option<usize>) -> (r: HeaderStep)
    ensures
        r == header_step_spec(line@, length),
{
    let t = crate::text::trim_str(line);
    if t.as_str().is_empty() {
        return HeaderStep::End;
    }
    match crate::text::strip_prefix_str(t.as_str(), "Content-Length: ") {
        Some(v) => match parse_usize(v.as_str()) {
            Some(n) => HeaderStep::More(Some(n)),
            None => HeaderStep::BadLength,
        },
        None => HeaderStep::More(length),
    }
}

/// The body length once the headers ended.
pub fn body_length(length: Option<usize>) -> (r: Result<usize, String>)
    ensures
        match length {
            Some(n) => r == Ok::<usize, String>(n),
            None => r matches Err(e) && e@ == "missing Content-Length"@,
        },
{
    match length {
        Some(n) => Ok(n),
        None => Err(owned("missing Content-Length")),
    }
}

/// What a client waiting for the answer to request `ours` does with an
/// incoming message.
#[derive(Debug, Clone, Copy, PartialEq, Eq, Structural)]
pub enum IncomingStep {
    /// A request from the server (it has a method and an id): answer it with a
    /// null result and keep waiting.
    AnswerServer,
    /// The answer to our request: take its result.
    TakeResult,
    /// Anything else (a notification, another answer): keep waiting.
    Skip,
}

/// The step for a message with (or without) a `method`, an `id` at all, and
/// that id read as an unsigned integer.
pub fn incoming_step(has_method: bool, has_id: bool, id_u64: Option<u64>, ours: u64) -> (r: IncomingStep)
    ensures
        r == if has_method && has_id {
            IncomingStep::AnswerServer
        } else if id_u64 == Some(ours) {
            IncomingStep::TakeResult
        } else {
            IncomingStep::Skip
        },
{
    if has_method && has_id {
        IncomingStep::AnswerServer
    } else {
        match id_u64 {
            Some(v) => if v == ours {
                IncomingStep::TakeResult
            } else {
                IncomingStep::Skip
            },
            None => IncomingStep::Skip,
        }
    }
}

} // verus!
