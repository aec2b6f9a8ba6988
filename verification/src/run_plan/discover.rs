//! Plan markdown files of a directory: which files count and their block keys.

use crate::text::{chars_of, push_char, string_of_range};
use vstd::prelude::*;

verus! {

#[derive(Debug, Clone)]
pub struct PlanDoc {
    pub path: String,
    pub block_key: String,
    pub body: String,
}

/// Path separators, `:` and spaces become `_`.
pub open spec fn sanitize_char(c: char) -> char {
    if c == '/' || c == '\\' || c == ':' || c == ' ' {
        '_'
    } else {
        c
    }
}

pub open spec fn sanitize_seq(s: Seq<char>) -> Seq<char> {
    s.map_values(|c: char| sanitize_char(c))
}

/// A block key safe to use in file names, from a plan file's stem.
pub fn sanitize_block_key(stem: &str) -> (r: String)
    ensures
        r@ == sanitize_seq(stem@),
{
    let chars = chars_of(stem);
    let mut out = String::new();
    let mut i: usize = 0;
    while i < chars.len()
        invariant
            chars@ == stem@,
            i <= chars@.len(),
            out@ == sanitize_seq(stem@.take(i as int)),
        decreases chars.len() - i,
    {
        let c = chars[i];
        let d = if c == '/' || c == '\\' || c == ':' || c == ' ' {
            '_'
        } else {
            c
        };
        push_char(&mut out, d);
        assert(sanitize_seq(stem@.take(i + 1)) =~= sanitize_seq(stem@.take(i as int)).push(d));
        i += 1;
    }
    assert(stem@.take(i as int) =~= stem@);
    out
}

/// Index of the last `.` in `s`, if any.
pub open spec fn last_dot(s: Seq<char>) -> Option<int>
    decreases s.len(),
{
    if s.len() == 0 {
        None
    } else if s.last() == '.' {
        Some(s.len() - 1)
    } else {
        last_dot(s.drop_last())
    }
}

/// Stem and extension of a file name as `Path::file_stem` / `Path::extension`
/// read them: split at the last `.` unless it is the first character (or the
/// name is `..`).
pub open spec fn split_extension(name: Seq<char>) -> (Seq<char>, Option<Seq<char>>) {
    if name == ".."@ {
        (name, None)
    } else {
        match last_dot(name) {
            None => (name, None),
            Some(i) => if i == 0 {
                (name, None)
            } else {
                (name.take(i), Some(name.skip(i + 1)))
            },
        }
    }
}

/// The block key of a plan file: markdown files only, keyed by their sanitized stem.
pub open spec fn plan_key_seq(name: Seq<char>) -> Option<Seq<char>> {
    let (stem, ext) = split_extension(name);
    if ext == Some("md"@) {
        Some(sanitize_seq(stem))
    } else {
        None
    }
}

/// The block key of the plan file `file_name` (a name without directories),
/// or `None` when it is not a `.md` file.
pub fn plan_block_key(file_name: &str) -> (r: Option<String>)
    ensures
        r.deep_view() == plan_key_seq(file_name@),
{
    proof {
        reveal_strlit("..");
        reveal_strlit("md");
    }
    let chars = chars_of(file_name);
    let n = chars.len();
    if n == 2 && chars[0] == '.' && chars[1] == '.' {
        assert(file_name@ =~= ".."@);
        return None;
    }
    assert(file_name@ != ".."@);
    let mut i = n;
    assert(file_name@.take(n as int) =~= file_name@);
    while i > 0
        invariant
            chars@ == file_name@,
            i <= n == chars@.len(),
            last_dot(file_name@) == last_dot(file_name@.take(i as int)),
        ensures
            i > 0 ==> chars@[i - 1] == '.',
            last_dot(file_name@) == last_dot(file_name@.take(i as int)),
            i <= n,
        decreases i,
    {
        if chars[i - 1] == '.' {
            break;
        }
        assert(file_name@.take(i as int).drop_last() =~= file_name@.take(i - 1));
        i -= 1;
    }
    if i <= 1 {
        // no dot, or only a leading one
        assert(file_name@.take(0) =~= Seq::<char>::empty());
        return None;
    }
    let dot = i - 1;
    assert(last_dot(file_name@) == Some(dot as int));
    let ext = string_of_range(&chars, i, n);
    if !(n - i == 2 && chars[i] == 'm' && chars[i + 1] == 'd') {
        assert(ext@ != "md"@) by {
            if ext@ == "md"@ {
                assert(ext@.len() == 2);
                assert(ext@[0] == 'm' && ext@[1] == 'd');
                assert(chars@[i as int] == ext@[0]);
                assert(chars@[i + 1] == ext@[1]);
            }
        }
        return None;
    }
    assert(ext@ =~= "md"@);
    let stem = string_of_range(&chars, 0, dot);
    assert(stem@ =~= file_name@.take(dot as int));
    Some(sanitize_block_key(stem.as_str()))
}

} // verus!
