//! Symbol lookups over the package records of the index: the definition
//! lookup and the reference fallback of the MCP tools, and their answers.

use crate::text::{
    contains_seq, decimal_seq, decimal_string, join_lines, join_with_newlines, owned,
    str_contains, str_eq,
};
use crate::types::{FileEntry, PackageDetail, SymbolEntry};
use vstd::prelude::*;

verus! {

/// Which symbols a lookup reports.
#[derive(Debug, Clone, Copy, PartialEq, Eq, Structural)]
pub enum LookupKind {
    /// The symbols named exactly as asked.
    Definition,
    /// Every symbol whose name contains the text asked for.
    ReferenceFallback,
}

pub open spec fn selects(kind: LookupKind, name: Seq<char>, symbol: Seq<char>) -> bool {
    match kind {
        LookupKind::Definition => name == symbol,
        LookupKind::ReferenceFallback => contains_seq(name, symbol),
    }
}

/// `prefix path:line — signature`, marked as a fallback for references.
pub open spec fn lookup_line(kind: LookupKind, prefix: Seq<char>, path: Seq<char>, sym: SymbolEntry) -> Seq<char> {
    let base = prefix + path + ":"@ + decimal_seq(sym.line as nat) + " — "@ + sym.signature@;
    match kind {
        LookupKind::Definition => base,
        LookupKind::ReferenceFallback => base + " [index fallback]"@,
    }
}

pub open spec fn symbol_lines(
    kind: LookupKind,
    prefix: Seq<char>,
    symbol: Seq<char>,
    path: Seq<char>,
    syms: Seq<SymbolEntry>,
) -> Seq<Seq<char>>
    decreases syms.len(),
{
    if syms.len() == 0 {
        Seq::empty()
    } else {
        let rest = symbol_lines(kind, prefix, symbol, path, syms.drop_last());
        if selects(kind, syms.last().name@, symbol) {
            rest.push(lookup_line(kind, prefix, path, syms.last()))
        } else {
            rest
        }
    }
}

pub open spec fn file_lines(kind: LookupKind, prefix: Seq<char>, symbol: Seq<char>, files: Seq<FileEntry>) -> Seq<
    Seq<char>,
>
    decreases files.len(),
{
    if files.len() == 0 {
        Seq::empty()
    } else {
        file_lines(kind, prefix, symbol, files.drop_last()) + symbol_lines(
            kind,
            prefix,
            symbol,
            files.last().path@,
            files.last().symbols@,
        )
    }
}

/// The lines of a lookup: packages, files and symbols in order.
pub open spec fn package_lines(
    kind: LookupKind,
    prefix: Seq<char>,
    symbol: Seq<char>,
    pkgs: Seq<PackageDetail>,
) -> Seq<Seq<char>>
    decreases pkgs.len(),
{
    if pkgs.len() == 0 {
        Seq::empty()
    } else {
        package_lines(kind, prefix, symbol, pkgs.drop_last()) + file_lines(
            kind,
            prefix,
            symbol,
            pkgs.last().files@,
        )
    }
}

fn lookup_line_of(kind: LookupKind, prefix: &str, path: &str, sym: &SymbolEntry) -> (r: String)
    ensures
        r@ == lookup_line(kind, prefix@, path@, *sym),
{
    let mut s = owned(prefix);
    s.append(path);
    s.append(":");
    let line = decimal_string(sym.line as u64);
    s.append(line.as_str());
    s.append(" — ");
    s.append(sym.signature.as_str());
    if kind == LookupKind::ReferenceFallback {
        s.append(" [index fallback]");
    }
    s
}

fn selects_exec(kind: LookupKind, name: &str, symbol: &str) -> (b: bool)
    ensures
        b == selects(kind, name@, symbol@),
{
    match kind {
        LookupKind::Definition => str_eq(name, symbol),
        LookupKind::ReferenceFallback => str_contains(name, symbol),
    }
}

fn lookup_in_file(kind: LookupKind, prefix: &str, symbol: &str, file: &FileEntry, out: &mut Vec<String>)
    ensures
        final(out).deep_view() == old(out).deep_view() + symbol_lines(
            kind,
            prefix@,
            symbol@,
            file.path@,
            file.symbols@,
        ),
{
    let ghost start = out.deep_view();
    let mut i: usize = 0;
    while i < file.symbols.len()
        invariant
            i <= file.symbols@.len(),
            out.deep_view() == start + symbol_lines(
                kind,
                prefix@,
                symbol@,
                file.path@,
                file.symbols@.take(i as int),
            ),
        decreases file.symbols.len() - i,
    {
        let sym = &file.symbols[i];
        assert(file.symbols@.take(i + 1).drop_last() =~= file.symbols@.take(i as int));
        assert(file.symbols@.take(i + 1).last() == *sym);
        if selects_exec(kind, sym.name.as_str(), symbol) {
            let line = lookup_line_of(kind, prefix, file.path.as_str(), sym);
            let ghost before = out.deep_view();
            out.push(line);
            assert(out.deep_view() =~= before.push(line@));
        }
        i += 1;
    }
    assert(file.symbols@.take(i as int) =~= file.symbols@);
}

/// Look `symbol` up in the package records: one line per selected symbol,
/// `prefix path:line — signature` (with ` [index fallback]` for references),
/// packages, files and symbols in order.
pub fn index_lookup(kind: LookupKind, symbol: &str, prefix: &str, packages: &Vec<PackageDetail>) -> (r: Vec<
    String,
>)
    ensures
        r.deep_view() == package_lines(kind, prefix@, symbol@, packages@),
{
    let mut out: Vec<String> = Vec::new();
    let mut p: usize = 0;
    while p < packages.len()
        invariant
            p <= packages@.len(),
            out.deep_view() == package_lines(kind, prefix@, symbol@, packages@.take(p as int)),
        decreases packages.len() - p,
    {
        let pkg = &packages[p];
        let ghost at_pkg = out.deep_view();
        let mut f: usize = 0;
        while f < pkg.files.len()
            invariant
                f <= pkg.files@.len(),
                out.deep_view() == at_pkg + file_lines(kind, prefix@, symbol@, pkg.files@.take(f as int)),
            decreases pkg.files.len() - f,
        {
            let ghost before = out.deep_view();
            lookup_in_file(kind, prefix, symbol, &pkg.files[f], &mut out);
            assert(pkg.files@.take(f + 1).drop_last() =~= pkg.files@.take(f as int));
            assert(pkg.files@.take(f + 1).last() == pkg.files@[f as int]);
            assert(out.deep_view() =~= at_pkg + file_lines(kind, prefix@, symbol@, pkg.files@.take(f + 1)));
            f += 1;
        }
        assert(pkg.files@.take(f as int) =~= pkg.files@);
        assert(packages@.take(p + 1).drop_last() =~= packages@.take(p as int));
        assert(packages@.take(p + 1).last() == *pkg);
        p += 1;
    }
    assert(packages@.take(p as int) =~= packages@);
    out
}

pub open spec fn lookup_answer_seq(kind: LookupKind, symbol: Seq<char>, found: Seq<Seq<char>>) -> Seq<char> {
    if found.len() == 0 {
        match kind {
            LookupKind::Definition => "Definition of '"@ + symbol + "' not found"@,
            LookupKind::ReferenceFallback => "No references found for '"@ + symbol + "'"@,
        }
    } else {
        join_lines(found)
    }
}

/// The text a lookup answers: its lines joined, or a not-found message.
pub fn lookup_answer(kind: LookupKind, symbol: &str, found: &Vec<String>) -> (r: String)
    ensures
        r@ == lookup_answer_seq(kind, symbol@, found.deep_view()),
{
    if found.len() == 0 {
        let mut s = match kind {
            LookupKind::Definition => owned("Definition of '"),
            LookupKind::ReferenceFallback => owned("No references found for '"),
        };
        s.append(symbol);
        match kind {
            LookupKind::Definition => s.append("' not found"),
            LookupKind::ReferenceFallback => s.append("'"),
        }
        s
    } else {
        join_with_newlines(found)
    }
}

/// The index of the first `/` in `s`, if any.
pub open spec fn first_slash(s: Seq<char>) -> Option<int> {
    if exists|i: int| 0 <= i < s.len() && s[i] == '/' && forall|j: int| 0 <= j < i ==> s[j] != '/' {
        Some(choose|i: int| 0 <= i < s.len() && s[i] == '/' && forall|j: int| 0 <= j < i ==> s[j] != '/')
    } else {
        None
    }
}

/// A file named as `repo/path` when its first segment is a known repository:
/// that repository and the rest of the path; else the given filter and the
/// whole name.
pub open spec fn repo_hint_seq(file: Seq<char>, repos: Seq<Seq<char>>, filter: Option<Seq<char>>) -> (
    Option<Seq<char>>,
    Seq<char>,
) {
    match first_slash(file) {
        Some(i) => if repos.contains(file.take(i)) {
            (Some(file.take(i)), file.skip(i + 1))
        } else {
            (filter, file)
        },
        None => (filter, file),
    }
}

pub fn split_repo_hint(file: &str, repos: &Vec<String>, filter: Option<&str>) -> (r: (Option<String>, String))
    ensures
        (r.0.deep_view(), r.1@) == repo_hint_seq(
            file@,
            repos.deep_view(),
            match filter {
                Some(f) => Some(f@),
                None => None,
            },
        ),
{
    let chars = crate::text::chars_of(file);
    let mut i: usize = 0;
    while i < chars.len() && chars[i] != '/'
        invariant
            chars@ == file@,
            i <= chars@.len(),
            forall|j: int| 0 <= j < i ==> file@[j] != '/',
        decreases chars.len() - i,
    {
        i += 1;
    }
    let fallback = (
        match filter {
            Some(f) => Some(owned(f)),
            None => None,
        },
        owned(file),
    );
    if i == chars.len() {
        assert(first_slash(file@) is None);
        return fallback;
    }
    assert(first_slash(file@) == Some(i as int)) by {
        assert forall|k: int|
            0 <= k < file@.len() && file@[k] == '/' && (forall|j: int| 0 <= j < k ==> file@[j] != '/') implies k
            == i by {
            if k < i {
            } else if k > i {
                assert(file@[i as int] != '/');
            }
        }
    }
    let head = crate::text::string_of_range(&chars, 0, i);
    assert(chars@.subrange(0, i as int) =~= file@.take(i as int));
    let mut k: usize = 0;
    let mut known = false;
    while k < repos.len()
        invariant
            k <= repos@.len(),
            known <==> exists|j: int| 0 <= j < k && repos.deep_view()[j] == head@,
        decreases repos.len() - k,
    {
        assert(repos.deep_view()[k as int] == repos@[k as int]@);
        if repos[k] == head {
            known = true;
        }
        k += 1;
    }
    assert(known <==> repos.deep_view().contains(head@));
    if known {
        let rest = crate::text::string_of_range(&chars, i + 1, chars.len());
        assert(chars@.subrange(i + 1, chars@.len() as int) =~= file@.skip(i + 1));
        (Some(head), rest)
    } else {
        fallback
    }
}

// ---------------------------------------------------------------------------
// Choosing repositories
// ---------------------------------------------------------------------------

/// The positions of the repositories a request covers: those named as the
/// filter asks, or all of them without a filter.
pub open spec fn repos_for_seq(names: Seq<Seq<char>>, filter: Option<Seq<char>>) -> Seq<usize>
    decreases names.len(),
{
    if names.len() == 0 {
        Seq::empty()
    } else {
        let rest = repos_for_seq(names.drop_last(), filter);
        let i = (names.len() - 1) as usize;
        match filter {
            Some(f) => if names.last() == f {
                rest.push(i)
            } else {
                rest
            },
            None => rest.push(i),
        }
    }
}

pub open spec fn opt_view(o: Option<&str>) -> Option<Seq<char>> {
    match o {
        Some(s) => Some(s@),
        None => None,
    }
}

pub fn repos_for(names: &Vec<String>, filter: Option<&str>) -> (r: Vec<usize>)
    ensures
        r@ == repos_for_seq(names.deep_view(), opt_view(filter)),
{
    let mut out: Vec<usize> = Vec::new();
    let mut i: usize = 0;
    while i < names.len()
        invariant
            i <= names@.len(),
            out@ == repos_for_seq(names.deep_view().take(i as int), opt_view(filter)),
        decreases names.len() - i,
    {
        assert(names.deep_view().take(i + 1).drop_last() =~= names.deep_view().take(i as int));
        assert(names.deep_view().take(i + 1).last() == names@[i as int]@);
        let keep = match filter {
            Some(f) => crate::text::str_eq(names[i].as_str(), f),
            None => true,
        };
        if keep {
            out.push(i);
        }
        i += 1;
    }
    assert(names.deep_view().take(i as int) =~= names.deep_view());
    out
}

/// The `repo` argument scopes a call: with a filter, exactly the repositories
/// of that name are covered, in order; without one, all of them.
pub proof fn law_repo_filter_scopes_call(names: Seq<Seq<char>>, filter: Option<Seq<char>>)
    requires
        names.len() <= usize::MAX,
    ensures
        forall|i: int|
            0 <= i < repos_for_seq(names, filter).len() ==> #[trigger] repos_for_seq(names, filter)[i]
                < names.len() && (filter matches Some(f) ==> names[repos_for_seq(names, filter)[i] as int]
                == f),
        forall|j: int|
            0 <= j < names.len() && (filter matches Some(f) ==> #[trigger] names[j] == f) ==> repos_for_seq(
                names,
                filter,
            ).contains(j as usize),
        filter is None ==> repos_for_seq(names, filter).len() == names.len(),
    decreases names.len(),
{
    if names.len() > 0 {
        let rest = names.drop_last();
        law_repo_filter_scopes_call(rest, filter);
        let r = repos_for_seq(names, filter);
        let r0 = repos_for_seq(rest, filter);
        let last = (names.len() - 1) as usize;
        let keep = match filter {
            Some(f) => names.last() == f,
            None => true,
        };
        assert(r == if keep {
            r0.push(last)
        } else {
            r0
        });
        assert(last == names.len() - 1);
        assert forall|i: int| 0 <= i < r.len() implies #[trigger] r[i] < names.len() && (filter matches Some(
            f,
        ) ==> names[r[i] as int] == f) by {
            if i < r0.len() {
                assert(r[i] == r0[i]);
                assert(names[r0[i] as int] == rest[r0[i] as int]);
            } else {
                assert(r[i] == last);
            }
        }
        assert forall|j: int|
            0 <= j < names.len() && (filter matches Some(f) ==> #[trigger] names[j] == f) implies r.contains(j as usize) by {
            if j < rest.len() {
                assert(rest[j] == names[j]);
                let k = choose|k: int| 0 <= k < r0.len() && r0[k] == j as usize;
                assert(r[k] == r0[k]);
            } else {
                assert(keep);
                assert(r[r.len() - 1] == j as usize);
            }
        }
    }
}

pub const MANY_REPOS_FOR_WRITE: &'static str = "Multiple repos in workspace. Use the `repo` argument to specify which one to write to.";

pub open spec fn write_repo_seq(names: Seq<Seq<char>>, filter: Option<Seq<char>>) -> Result<usize, Seq<char>> {
    let sel = repos_for_seq(names, filter);
    if sel.len() == 0 {
        Err(
            "No repo found matching filter '"@ + match filter {
                Some(f) => f,
                None => "(none)"@,
            } + "'"@,
        )
    } else if sel.len() == 1 {
        Ok(sel[0])
    } else {
        Err(MANY_REPOS_FOR_WRITE@)
    }
}

/// The one repository a write goes to: it must be the only one the filter
/// leaves.
pub fn single_repo_for_write(names: &Vec<String>, filter: Option<&str>) -> (r: Result<usize, String>)
    ensures
        match r {
            Ok(i) => write_repo_seq(names.deep_view(), opt_view(filter)) == Ok::<usize, Seq<char>>(i),
            Err(e) => write_repo_seq(names.deep_view(), opt_view(filter)) == Err::<usize, Seq<char>>(e@),
        },
{
    let sel = repos_for(names, filter);
    if sel.len() == 0 {
        let mut s = owned("No repo found matching filter '");
        match filter {
            Some(f) => s.append(f),
            None => s.append("(none)"),
        }
        s.append("'");
        Err(s)
    } else if sel.len() == 1 {
        Ok(sel[0])
    } else {
        Err(owned(MANY_REPOS_FOR_WRITE))
    }
}

} // verus!
