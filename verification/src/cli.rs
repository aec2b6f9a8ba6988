//! Command-line values: intervals such as `30s` or `5m`, and the choice of repository.

use crate::text::{owned, parse_u64, parse_u64_seq, strip_suffix_seq, strip_suffix_str, to_lowercase_str, trim_seq, trim_str, unicode_lowercase};
use vstd::prelude::*;

verus! {

/// The interval text as it is read: trimmed, then lowercased.
pub open spec fn interval_text(s: Seq<char>) -> Seq<char> {
    unicode_lowercase(trim_seq(s))
}

/// The unit suffix that applies, with its length in seconds and its error text.
pub open spec fn interval_unit(t: Seq<char>) -> Option<(Seq<char>, nat, Seq<char>)> {
    if strip_suffix_seq(t, "s"@) is Some {
        Some((strip_suffix_seq(t, "s"@)->0, 1, "invalid seconds"@))
    } else if strip_suffix_seq(t, "m"@) is Some {
        Some((strip_suffix_seq(t, "m"@)->0, 60, "invalid minutes"@))
    } else if strip_suffix_seq(t, "h"@) is Some {
        Some((strip_suffix_seq(t, "h"@)->0, 3600, "invalid hours"@))
    } else if strip_suffix_seq(t, "d"@) is Some {
        Some((strip_suffix_seq(t, "d"@)->0, 86400, "invalid days"@))
    } else {
        None
    }
}

/// The number of seconds an interval names, or the error text.
pub open spec fn interval_seq(s: Seq<char>) -> Result<nat, Seq<char>> {
    let t = interval_text(s);
    match interval_unit(t) {
        Some((num, unit, err)) => match parse_u64_seq(num) {
            Some(n) => Ok((n as nat) * unit),
            None => Err(err),
        },
        None => match parse_u64_seq(t) {
            Some(n) => Ok(n as nat),
            None => Err("interval must be like 30s, 5m, 2h"@),
        },
    }
}

/// The interval of `s`, or its error text; `None` when it names more seconds
/// than 64 bits hold.
pub fn parse_interval_checked(s: &str) -> (r: Option<Result<u64, String>>)
    ensures
        match interval_seq(s@) {
            Ok(n) => if n <= u64::MAX {
                r == Some(Ok::<u64, String>(n as u64))
            } else {
                r is None
            },
            Err(e) => r matches Some(Err(m)) && m@ == e,
        },
{
    let trimmed = trim_str(s);
    let lower = to_lowercase_str(trimmed.as_str());
    let t = lower.as_str();
    let (num, unit, err): (String, u64, &str) = if let Some(n) = strip_suffix_str(t, "s") {
        (n, 1, "invalid seconds")
    } else if let Some(n) = strip_suffix_str(t, "m") {
        (n, 60, "invalid minutes")
    } else if let Some(n) = strip_suffix_str(t, "h") {
        (n, 3600, "invalid hours")
    } else if let Some(n) = strip_suffix_str(t, "d") {
        (n, 86400, "invalid days")
    } else {
        return match parse_u64(t) {
            Some(n) => Some(Ok(n)),
            None => Some(Err(owned("interval must be like 30s, 5m, 2h"))),
        };
    };
    match parse_u64(num.as_str()) {
        Some(n) => {
            if n > u64::MAX / unit {
                assert(n * unit > u64::MAX) by (nonlinear_arith)
                    requires
                        n > u64::MAX / unit,
                        unit > 0,
                ;
                None
            } else {
                assert(n * unit <= u64::MAX) by (nonlinear_arith)
                    requires
                        n <= u64::MAX / unit,
                        unit > 0,
                ;
                Some(Ok(n * unit))
            }
        },
        None => Some(Err(owned(err))),
    }
}

/// Parse `30s`, `5m`, `2h`, `1d` or a bare number of seconds.
pub fn parse_interval_secs(s: &str) -> (r: Result<u64, String>)
    requires
        interval_seq(s@) matches Ok(n) ==> n <= u64::MAX,
    ensures
        match interval_seq(s@) {
            Ok(n) => r == Ok::<u64, String>(n as u64),
            Err(e) => r matches Err(m) && m@ == e,
        },
{
    match parse_interval_checked(s) {
        Some(r) => r,
        None => Ok(0),
    }
}

/// The repository a single-repository command works on: the one given, else
/// the first one found.
pub fn resolve_single_root(override_path: Option<String>, found: &Vec<String>) -> (r: Option<String>)
    ensures
        match override_path {
            Some(p) => r == Some(p),
            None => match r {
                Some(p) => found@.len() > 0 && p@ == found@[0]@,
                None => found@.len() == 0,
            },
        },
{
    match override_path {
        Some(p) => Some(p),
        None => if found.len() > 0 {
            Some(found[0].clone())
        } else {
            None
        },
    }
}

pub open spec fn no_repo_message(start: Seq<char>) -> Seq<char> {
    "Could not find any git repo at or under '"@ + start
        + "'.\nMake sure the directory (or one of its children) contains a .git folder,\nor use --root to point at a git repo / workspace directory."@
}

/// The repositories a command works on: the root given, when it is a
/// directory; else those found from the start, which must not be none.
pub fn resolve_roots(override_path: Option<String>, override_is_dir: bool, start: &str, discovered: Vec<String>) -> (r:
    Result<Vec<String>, String>)
    ensures
        match override_path {
            Some(p) => if override_is_dir {
                r matches Ok(v) && v@ == seq![p]
            } else {
                r matches Err(e) && e@ == "--root '"@ + p@ + "' is not a directory"@
            },
            None => if discovered@.len() == 0 {
                r matches Err(e) && e@ == no_repo_message(start@)
            } else {
                r matches Ok(v) && v@ == discovered@
            },
        },
{
    match override_path {
        Some(p) => {
            if !override_is_dir {
                let mut e = owned("--root '");
                e.append(p.as_str());
                e.append("' is not a directory");
                return Err(e);
            }
            let mut v = Vec::new();
            v.push(p);
            Ok(v)
        },
        None => {
            if discovered.len() == 0 {
                let mut e = owned("Could not find any git repo at or under '");
                e.append(start);
                e.append(
                    "'.\nMake sure the directory (or one of its children) contains a .git folder,\nor use --root to point at a git repo / workspace directory.",
                );
                return Err(e);
            }
            Ok(discovered)
        },
    }
}

} // verus!
