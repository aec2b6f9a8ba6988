//! The decisions of the conductor's MCP tools: who may spawn agents, which
//! arguments a spawn keeps, and what the tools answer.

use crate::text::{chars_of, concat2, owned, str_eq, trim_seq, trim_str};
use crate::tui::conductor::{id_from, make_spawn_request, SessionMode, SpawnRequest};
use crate::text::decimal_seq;
use vstd::prelude::*;

verus! {

pub const NO_SESSION: &'static str = "no active multi-agent session (set CODEBEACON_MA_SESSION or run `codebeacon multi-agent --mode conductor`)";

pub const NOT_CONDUCTOR_MODE: &'static str = "spawn tools are only available in conductor mode";

pub const ONLY_CONDUCTOR_SPAWNS: &'static str = "only the conductor may spawn agents";

pub const PROMPT_REQUIRED: &'static str = "prompt is required";

pub const BLOCK_KEY_REQUIRED: &'static str = "block_key is required";

/// The conductor's tools work only in a conductor session.
pub fn require_conductor_mode(mode: SessionMode) -> (r: Result<(), String>)
    ensures
        match r {
            Ok(()) => mode == SessionMode::Conductor,
            Err(e) => mode != SessionMode::Conductor && e@ == NOT_CONDUCTOR_MODE@,
        },
{
    match mode {
        SessionMode::Conductor => Ok(()),
        SessionMode::Gallery => Err(owned(NOT_CONDUCTOR_MODE)),
    }
}

fn trimmed_arg(a: Option<&str>) -> (r: Option<String>)
    ensures
        r.deep_view() == id_from(
            match a {
                Some(s) => Some(s@),
                None => None,
            },
        ),
{
    match a {
        Some(s) => {
            let t = trim_str(s);
            if chars_of(t.as_str()).len() > 0 {
                Some(t)
            } else {
                None
            }
        },
        None => None,
    }
}

pub open spec fn opt_str(a: Option<&str>) -> Option<Seq<char>> {
    match a {
        Some(s) => Some(s@),
        None => None,
    }
}

/// The block key a spawn keeps: the argument trimmed, none when that is empty
/// or names the conductor itself.
pub open spec fn spawn_block_key(a: Option<Seq<char>>, conductor_key: Seq<char>) -> Option<Seq<char>> {
    match id_from(a) {
        Some(k) => if k == conductor_key {
            None
        } else {
            Some(k)
        },
        None => None,
    }
}

/// The prompt a spawn asks for: the argument trimmed (an absent one is empty).
pub open spec fn spawn_prompt(a: Option<Seq<char>>) -> Seq<char> {
    match a {
        Some(p) => trim_seq(p),
        None => Seq::empty(),
    }
}

/// The request a `spawn_agent` call enqueues: refused to any caller but the
/// conductor and for an empty prompt; else the trimmed prompt, the block key
/// unless it is empty or the conductor's, and the model unless it is empty,
/// stamped with the current time.
pub fn spawn_agent_request(
    caller_is_conductor: bool,
    prompt: Option<&str>,
    block_key: Option<&str>,
    model: Option<&str>,
    conductor_key: &str,
) -> (r: Result<SpawnRequest, String>)
    ensures
        if !caller_is_conductor {
            r matches Err(e) && e@ == ONLY_CONDUCTOR_SPAWNS@
        } else if spawn_prompt(opt_str(prompt)).len() == 0 {
            r matches Err(e) && e@ == PROMPT_REQUIRED@
        } else {
            r matches Ok(req) && {
                &&& req@.prompt == spawn_prompt(opt_str(prompt))
                &&& req@.block_key == spawn_block_key(opt_str(block_key), conductor_key@)
                &&& req@.model == id_from(opt_str(model))
                &&& exists|t: u64| req@.id == "spawn-"@ + decimal_seq(t as nat)
            }
        },
{
    if !caller_is_conductor {
        return Err(owned(ONLY_CONDUCTOR_SPAWNS));
    }
    let p = match prompt {
        Some(s) => trim_str(s),
        None => {
            return Err(owned(PROMPT_REQUIRED));
        },
    };
    if chars_of(p.as_str()).len() == 0 {
        return Err(owned(PROMPT_REQUIRED));
    }
    let key = match trimmed_arg(block_key) {
        Some(k) => if str_eq(k.as_str(), conductor_key) {
            None
        } else {
            Some(k)
        },
        None => None,
    };
    let m = trimmed_arg(model);
    Ok(make_spawn_request(p, key, m))
}

pub open spec fn spawn_reply_seq(id: Seq<char>, block_key: Option<Seq<char>>) -> Seq<char> {
    "enqueued spawn id="@ + id + match block_key {
        Some(k) => " block_key="@ + k,
        None => Seq::empty(),
    }
}

/// What `spawn_agent` answers once the request is queued.
pub fn spawn_reply(req: &SpawnRequest) -> (r: String)
    ensures
        r@ == spawn_reply_seq(req@.id, req@.block_key),
{
    let mut s = concat2("enqueued spawn id=", req.id.as_str());
    match &req.block_key {
        Some(k) => {
            s.append(" block_key=");
            s.append(k.as_str());
        },
        None => {},
    }
    s
}

/// The block key `agent_status` asks about: the argument trimmed, required.
pub fn status_key(arg: Option<&str>) -> (r: Result<String, String>)
    ensures
        match id_from(opt_str(arg)) {
            Some(k) => r matches Ok(s) && s@ == k,
            None => r matches Err(e) && e@ == BLOCK_KEY_REQUIRED@,
        },
{
    match trimmed_arg(arg) {
        Some(k) => Ok(k),
        None => Err(owned(BLOCK_KEY_REQUIRED)),
    }
}

/// The error for a block key with no record.
pub fn unknown_agent(key: &str) -> (r: String)
    ensures
        r@ == "unknown agent `"@ + key@ + "`"@,
{
    let mut s = concat2("unknown agent `", key);
    s.append("`");
    s
}

} // verus!
