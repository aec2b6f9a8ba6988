//! The text of `loop watch`: the prompt an agent is nudged with, quoted for a
//! shell, and the shell loop that repeats it.

use crate::text::{chars_of, decimal_seq, decimal_string, owned, push_char};
use vstd::prelude::*;

verus! {

pub open spec fn watch_prompt_seq(session: Seq<char>) -> Seq<char> {
    "Call codebeacon loop tick --session "@ + session + " and continue the task."@
}

/// The instruction the watch loop repeats for a session.
pub fn watch_prompt(session: &str) -> (r: String)
    ensures
        r@ == watch_prompt_seq(session@),
{
    let mut s = owned("Call codebeacon loop tick --session ");
    s.append(session);
    s.append(" and continue the task.");
    s
}

/// Every `'` written as `'\''`, so that the text can stand inside a
/// single-quoted shell word.
pub open spec fn quote_escape_seq(s: Seq<char>) -> Seq<char>
    decreases s.len(),
{
    if s.len() == 0 {
        Seq::empty()
    } else {
        let rest = quote_escape_seq(s.drop_last());
        if s.last() == '\'' {
            rest + "'\\''"@
        } else {
            rest.push(s.last())
        }
    }
}

pub fn quote_escape(s: &str) -> (r: String)
    ensures
        r@ == quote_escape_seq(s@),
{
    let chars = chars_of(s);
    let mut out = String::new();
    let mut i: usize = 0;
    while i < chars.len()
        invariant
            chars@ == s@,
            i <= chars@.len(),
            out@ == quote_escape_seq(s@.take(i as int)),
        decreases chars.len() - i,
    {
        let c = chars[i];
        assert(s@.take(i + 1).drop_last() =~= s@.take(i as int));
        if c == '\'' {
            out.append("'\\''");
        } else {
            push_char(&mut out, c);
        }
        i += 1;
    }
    assert(s@.take(i as int) =~= s@);
    out
}

pub open spec fn watch_script_seq(secs: u64, prompt_escaped: Seq<char>) -> Seq<char> {
    "while true; do sleep "@ + decimal_seq(secs as nat) + "; echo 'AGENT_LOOP_TICK_codebeacon "@
        + prompt_escaped + "'; done"@
}

/// The shell loop that prints the tick line every `secs` seconds.
pub fn watch_script(secs: u64, prompt_escaped: &str) -> (r: String)
    ensures
        r@ == watch_script_seq(secs, prompt_escaped@),
{
    let mut s = owned("while true; do sleep ");
    let n = decimal_string(secs);
    s.append(n.as_str());
    s.append("; echo 'AGENT_LOOP_TICK_codebeacon ");
    s.append(prompt_escaped);
    s.append("'; done");
    s
}

pub open spec fn watch_banner_seq(session: Seq<char>, interval: Seq<char>, secs: u64) -> Seq<char> {
    "Watching session "@ + session + " every "@ + interval + " ("@ + decimal_seq(secs as nat)
        + "s). Press Ctrl+C to stop."@
}

/// The line printed when watching starts.
pub fn watch_banner(session: &str, interval: &str, secs: u64) -> (r: String)
    ensures
        r@ == watch_banner_seq(session@, interval@, secs),
{
    let mut s = owned("Watching session ");
    s.append(session);
    s.append(" every ");
    s.append(interval);
    s.append(" (");
    let n = decimal_string(secs);
    s.append(n.as_str());
    s.append("s). Press Ctrl+C to stop.");
    s
}

} // verus!
