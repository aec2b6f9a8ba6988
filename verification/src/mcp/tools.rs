//! Paths that file tools may touch: lexical normalisation and confinement to
//! the repository root.

use crate::loop_coord::tick::{in_repo, in_repo_seq};
use crate::paths::{join_seq, path_join};
use crate::text::{chars_of, concat3, owned, str_eq, string_of_range};
use vstd::prelude::*;

verus! {

/// One component of a Unix path, as `Path::components` yields them.
#[derive(Debug, Clone, PartialEq, Eq)]
pub enum PathComponent {
    Root,
    Current,
    Parent,
    Normal(String),
}

pub enum ComponentView {
    Root,
    Current,
    Parent,
    Normal(Seq<char>),
}

impl View for PathComponent {
    type V = ComponentView;

    open spec fn view(&self) -> ComponentView {
        match self {
            PathComponent::Root => ComponentView::Root,
            PathComponent::Current => ComponentView::Current,
            PathComponent::Parent => ComponentView::Parent,
            PathComponent::Normal(s) => ComponentView::Normal(s@),
        }
    }
}

pub open spec fn comps_view(v: Seq<PathComponent>) -> Seq<ComponentView> {
    v.map_values(|c: PathComponent| c@)
}

// ---------------------------------------------------------------------------
// Components
// ---------------------------------------------------------------------------

/// The pieces between slashes from index `i` on, `cur` being the piece in progress.
pub open spec fn pieces_from(s: Seq<char>, i: int, cur: Seq<char>) -> Seq<Seq<char>>
    decreases s.len() - i,
{
    if i >= s.len() {
        seq![cur]
    } else if s[i] == '/' {
        seq![cur] + pieces_from(s, i + 1, Seq::empty())
    } else {
        pieces_from(s, i + 1, cur.push(s[i]))
    }
}

/// `s` split at every `/`, empty pieces included.
pub open spec fn slash_pieces(s: Seq<char>) -> Seq<Seq<char>> {
    pieces_from(s, 0, Seq::empty())
}

pub open spec fn is_rooted(p: Seq<char>) -> bool {
    p.len() > 0 && p[0] == '/'
}

/// The component that piece `k` contributes: empty pieces and `.` vanish,
/// except a leading `.` of a relative path.
pub open spec fn piece_component(piece: Seq<char>, k: int, rooted: bool) -> Seq<ComponentView> {
    if piece.len() == 0 {
        Seq::empty()
    } else if piece == "."@ {
        if k == 0 && !rooted {
            seq![ComponentView::Current]
        } else {
            Seq::empty()
        }
    } else if piece == ".."@ {
        seq![ComponentView::Parent]
    } else {
        seq![ComponentView::Normal(piece)]
    }
}

pub open spec fn comps_of_pieces(pieces: Seq<Seq<char>>, rooted: bool) -> Seq<ComponentView>
    decreases pieces.len(),
{
    if pieces.len() == 0 {
        Seq::empty()
    } else {
        comps_of_pieces(pieces.drop_last(), rooted) + piece_component(
            pieces.last(),
            pieces.len() - 1,
            rooted,
        )
    }
}

/// `Path::components` of a Unix path.
pub open spec fn components_seq(p: Seq<char>) -> Seq<ComponentView> {
    let rooted = is_rooted(p);
    (if rooted {
        seq![ComponentView::Root]
    } else {
        Seq::empty()
    }) + comps_of_pieces(slash_pieces(p), rooted)
}

fn split_slashes(s: &str) -> (r: Vec<String>)
    ensures
        r.deep_view() == slash_pieces(s@),
{
    let chars = chars_of(s);
    let mut out: Vec<String> = Vec::new();
    let mut start: usize = 0;
    let mut i: usize = 0;
    assert(chars@.subrange(0, 0) =~= Seq::<char>::empty());
    assert(out.deep_view() + slash_pieces(s@) =~= slash_pieces(s@));
    while i < chars.len()
        invariant
            chars@ == s@,
            start <= i <= chars@.len(),
            out.deep_view() + pieces_from(chars@, i as int, chars@.subrange(start as int, i as int))
                == slash_pieces(s@),
        decreases chars.len() - i,
    {
        let ghost cur = chars@.subrange(start as int, i as int);
        if chars[i] == '/' {
            let ghost before = out.deep_view();
            let piece = string_of_range(&chars, start, i);
            out.push(piece);
            assert(out.deep_view() =~= before + seq![cur]);
            assert(chars@.subrange(i + 1, i + 1) =~= Seq::<char>::empty());
            assert(before + seq![cur] + pieces_from(chars@, i + 1, Seq::empty()) =~= before + (
            seq![cur] + pieces_from(chars@, i + 1, Seq::empty())));
            start = i + 1;
        } else {
            assert(chars@.subrange(start as int, i + 1) =~= cur.push(chars@[i as int]));
        }
        i += 1;
    }
    let ghost before = out.deep_view();
    let piece = string_of_range(&chars, start, i);
    out.push(piece);
    assert(out.deep_view() =~= before + seq![chars@.subrange(start as int, i as int)]);
    out
}

fn piece_to_component(piece: &str, k: usize, rooted: bool) -> (r: Option<PathComponent>)
    ensures
        match r {
            Some(c) => piece_component(piece@, k as int, rooted) == seq![c@],
            None => piece_component(piece@, k as int, rooted) == Seq::<ComponentView>::empty(),
        },
{
    if piece.is_empty() {
        None
    } else if str_eq(piece, ".") {
        if k == 0 && !rooted {
            Some(PathComponent::Current)
        } else {
            None
        }
    } else if str_eq(piece, "..") {
        Some(PathComponent::Parent)
    } else {
        Some(PathComponent::Normal(owned(piece)))
    }
}

/// `Path::components` of a Unix path.
pub fn components(p: &str) -> (r: Vec<PathComponent>)
    ensures
        comps_view(r@) == components_seq(p@),
{
    let chars = chars_of(p);
    let rooted = chars.len() > 0 && chars[0] == '/';
    let mut out: Vec<PathComponent> = Vec::new();
    if rooted {
        out.push(PathComponent::Root);
    }
    let ghost head = comps_view(out@);
    assert(head =~= (if rooted {
        seq![ComponentView::Root]
    } else {
        Seq::<ComponentView>::empty()
    }));
    let pieces = split_slashes(p);
    let mut k: usize = 0;
    while k < pieces.len()
        invariant
            k <= pieces@.len(),
            pieces.deep_view() == slash_pieces(p@),
            rooted == is_rooted(p@),
            comps_view(out@) == head + comps_of_pieces(pieces.deep_view().take(k as int), rooted),
        decreases pieces.len() - k,
    {
        let ghost before = comps_view(out@);
        assert(pieces.deep_view().take(k + 1).drop_last() =~= pieces.deep_view().take(k as int));
        assert(pieces.deep_view().take(k + 1).last() == pieces@[k as int]@);
        match piece_to_component(pieces[k].as_str(), k, rooted) {
            Some(c) => {
                out.push(c);
                assert(comps_view(out@) =~= before + seq![c@]);
            },
            None => {
                assert(comps_view(out@) =~= before + Seq::<ComponentView>::empty());
            },
        }
        k += 1;
    }
    assert(pieces.deep_view().take(k as int) =~= pieces.deep_view());
    out
}

// ---------------------------------------------------------------------------
// Normalisation
// ---------------------------------------------------------------------------

/// Lexical normalisation: `..` drops the component before it (if any), `.` vanishes.
pub open spec fn normalize_comps(cs: Seq<ComponentView>) -> Seq<ComponentView>
    decreases cs.len(),
{
    if cs.len() == 0 {
        Seq::empty()
    } else {
        let prev = normalize_comps(cs.drop_last());
        match cs.last() {
            ComponentView::Parent => if prev.len() > 0 {
                prev.drop_last()
            } else {
                prev
            },
            ComponentView::Current => prev,
            other => prev.push(other),
        }
    }
}

pub open spec fn component_text(c: ComponentView) -> Seq<char> {
    match c {
        ComponentView::Root => "/"@,
        ComponentView::Current => "."@,
        ComponentView::Parent => ".."@,
        ComponentView::Normal(s) => s,
    }
}

/// The path that `PathBuf::from_iter` builds from components.
pub open spec fn render(cs: Seq<ComponentView>) -> Seq<char>
    decreases cs.len(),
{
    if cs.len() == 0 {
        Seq::empty()
    } else {
        join_seq(render(cs.drop_last()), component_text(cs.last()))
    }
}

fn copy_component(c: &PathComponent) -> (r: PathComponent)
    ensures
        r@ == c@,
{
    match c {
        PathComponent::Root => PathComponent::Root,
        PathComponent::Current => PathComponent::Current,
        PathComponent::Parent => PathComponent::Parent,
        PathComponent::Normal(s) => PathComponent::Normal(s.clone()),
    }
}

fn normalize_components(cs: &Vec<PathComponent>) -> (r: Vec<PathComponent>)
    ensures
        comps_view(r@) == normalize_comps(comps_view(cs@)),
{
    let mut out: Vec<PathComponent> = Vec::new();
    let mut i: usize = 0;
    while i < cs.len()
        invariant
            i <= cs@.len(),
            comps_view(out@) == normalize_comps(comps_view(cs@).take(i as int)),
        decreases cs.len() - i,
    {
        let ghost before = comps_view(out@);
        assert(comps_view(cs@).take(i + 1).drop_last() =~= comps_view(cs@).take(i as int));
        assert(comps_view(cs@).take(i + 1).last() == cs@[i as int]@);
        match &cs[i] {
            PathComponent::Parent => {
                if out.len() > 0 {
                    out.pop();
                    assert(comps_view(out@) =~= before.drop_last());
                }
            },
            PathComponent::Current => {},
            other => {
                out.push(copy_component(other));
                assert(comps_view(out@) =~= before.push(cs@[i as int]@));
            },
        }
        i += 1;
    }
    assert(comps_view(cs@).take(i as int) =~= comps_view(cs@));
    out
}

fn render_components(cs: &Vec<PathComponent>) -> (r: String)
    ensures
        r@ == render(comps_view(cs@)),
{
    proof {
        reveal_strlit("/");
        reveal_strlit(".");
        reveal_strlit("..");
    }
    let mut out = String::new();
    let mut i: usize = 0;
    while i < cs.len()
        invariant
            i <= cs@.len(),
            out@ == render(comps_view(cs@).take(i as int)),
        decreases cs.len() - i,
    {
        assert(comps_view(cs@).take(i + 1).drop_last() =~= comps_view(cs@).take(i as int));
        assert(comps_view(cs@).take(i + 1).last() == cs@[i as int]@);
        let next = match &cs[i] {
            PathComponent::Root => path_join(out.as_str(), "/"),
            PathComponent::Current => path_join(out.as_str(), "."),
            PathComponent::Parent => path_join(out.as_str(), ".."),
            PathComponent::Normal(s) => path_join(out.as_str(), s.as_str()),
        };
        out = next;
        i += 1;
    }
    assert(comps_view(cs@).take(i as int) =~= comps_view(cs@));
    out
}

/// The lexically normalised form of a path.
pub open spec fn normalize_path_seq(p: Seq<char>) -> Seq<char> {
    render(normalize_comps(components_seq(p)))
}

/// Resolve `.` and `..` without touching the file system.
pub fn normalize_path(path: &str) -> (r: String)
    ensures
        r@ == normalize_path_seq(path@),
{
    let cs = components(path);
    let n = normalize_components(&cs);
    render_components(&n)
}

// ---------------------------------------------------------------------------
// Confinement
// ---------------------------------------------------------------------------

/// `prefix` is a prefix of `cs` (what `Path::starts_with` compares).
pub open spec fn comps_start_with(cs: Seq<ComponentView>, prefix: Seq<ComponentView>) -> bool {
    prefix.len() <= cs.len() && cs.take(prefix.len() as int) == prefix
}

/// The normalised components of `user_path` taken from `repo_root`.
pub open spec fn resolved_comps(repo_root: Seq<char>, user_path: Seq<char>) -> Seq<ComponentView> {
    normalize_comps(components_seq(in_repo_seq(repo_root, user_path)))
}

pub open spec fn escape_message(user_path: Seq<char>) -> Seq<char> {
    "Path '"@ + user_path + "' escapes the repo root — path traversal denied."@
}

fn component_eq(a: &PathComponent, b: &PathComponent) -> (r: bool)
    ensures
        r == (a@ == b@),
{
    match (a, b) {
        (PathComponent::Root, PathComponent::Root) => true,
        (PathComponent::Current, PathComponent::Current) => true,
        (PathComponent::Parent, PathComponent::Parent) => true,
        (PathComponent::Normal(x), PathComponent::Normal(y)) => str_eq(x.as_str(), y.as_str()),
        _ => false,
    }
}

fn starts_with_components(cs: &Vec<PathComponent>, prefix: &Vec<PathComponent>) -> (r: bool)
    ensures
        r == comps_start_with(comps_view(cs@), comps_view(prefix@)),
{
    if prefix.len() > cs.len() {
        return false;
    }
    let mut i: usize = 0;
    while i < prefix.len()
        invariant
            prefix@.len() <= cs@.len(),
            i <= prefix@.len(),
            forall|k: int| 0 <= k < i ==> #[trigger] comps_view(cs@)[k] == comps_view(prefix@)[k],
        decreases prefix.len() - i,
    {
        if !component_eq(&cs[i], &prefix[i]) {
            assert(comps_view(cs@).take(prefix@.len() as int)[i as int] != comps_view(prefix@)[i as int]);
            return false;
        }
        i += 1;
    }
    assert(comps_view(cs@).take(prefix@.len() as int) =~= comps_view(prefix@));
    true
}

/// `abs` relative to `root`, as `Path::strip_prefix` shows it: the path made of
/// the components after the root's when `abs` lies under `root` (empty when it
/// is the root), else `abs` unchanged.
pub open spec fn rel_path_seq(root: Seq<char>, abs: Seq<char>) -> Seq<char> {
    let cs = components_seq(abs);
    let rc = components_seq(root);
    if comps_start_with(cs, rc) {
        render(cs.skip(rc.len() as int))
    } else {
        abs
    }
}

pub fn rel_path(root: &str, abs: &str) -> (r: String)
    ensures
        r@ == rel_path_seq(root@, abs@),
{
    let cs = components(abs);
    let rc = components(root);
    if !starts_with_components(&cs, &rc) {
        return owned(abs);
    }
    let mut rest: Vec<PathComponent> = Vec::new();
    let mut i: usize = rc.len();
    while i < cs.len()
        invariant
            rc@.len() <= i <= cs@.len(),
            rest@.len() == i - rc@.len(),
            forall|k: int| 0 <= k < rest@.len() ==> #[trigger] rest@[k]@ == cs@[k + rc@.len()]@,
        decreases cs.len() - i,
    {
        let c = copy_component(&cs[i]);
        rest.push(c);
        i += 1;
    }
    assert(comps_view(rest@) =~= comps_view(cs@).skip(rc@.len() as int));
    render_components(&rest)
}

/// What resolving `user_path` inside `repo_root` gives: the normalised path
/// when it stays inside the root, else the refusal.
pub open spec fn safe_path_spec(repo_root: Seq<char>, user_path: Seq<char>) -> Result<Seq<char>, Seq<char>> {
    if comps_start_with(resolved_comps(repo_root, user_path), components_seq(repo_root)) {
        Ok(render(resolved_comps(repo_root, user_path)))
    } else {
        Err(escape_message(user_path))
    }
}

pub open spec fn string_result_view(r: Result<String, String>) -> Result<Seq<char>, Seq<char>> {
    match r {
        Ok(p) => Ok(p@),
        Err(e) => Err(e@),
    }
}

/// Resolve a user-supplied path relative to `repo_root`, ensuring the result
/// stays inside `repo_root`. Returns the absolute, normalised path on success.
pub fn safe_path(repo_root: &str, user_path: &str) -> (r: Result<String, String>)
    ensures
        match r {
            Ok(p) => comps_start_with(resolved_comps(repo_root@, user_path@), components_seq(
                repo_root@,
            )) && p@ == render(resolved_comps(repo_root@, user_path@)),
            Err(e) => !comps_start_with(
                resolved_comps(repo_root@, user_path@),
                components_seq(repo_root@),
            ) && e@ == escape_message(user_path@),
        },
{
    let abs = in_repo(repo_root, user_path);
    let cs = components(abs.as_str());
    let resolved = normalize_components(&cs);
    let root = components(repo_root);
    if !starts_with_components(&resolved, &root) {
        return Err(concat3("Path '", user_path, "' escapes the repo root — path traversal denied."));
    }
    Ok(render_components(&resolved))
}

/// Normalised components hold no `.` and no `..`: an accepted path cannot
/// climb back out of the root it starts with.
pub proof fn law_normalized_has_no_dots(cs: Seq<ComponentView>)
    ensures
        forall|i: int|
            0 <= i < normalize_comps(cs).len() ==> !(#[trigger] normalize_comps(cs)[i] is Parent)
                && !(normalize_comps(cs)[i] is Current),
    decreases cs.len(),
{
    if cs.len() > 0 {
        law_normalized_has_no_dots(cs.drop_last());
        let prev = normalize_comps(cs.drop_last());
        assert forall|i: int| 0 <= i < normalize_comps(cs).len() implies !(#[trigger] normalize_comps(
            cs,
        )[i] is Parent) && !(normalize_comps(cs)[i] is Current) by {
            if i < prev.len() {
                assert(normalize_comps(cs)[i] == prev[i]);
            }
        }
    }
}

/// Every path that `safe_path` accepts is the repository root's components
/// followed only by plain names: it lies inside the root.
pub proof fn law_safe_path_stays_inside(repo_root: Seq<char>, user_path: Seq<char>)
    requires
        comps_start_with(resolved_comps(repo_root, user_path), components_seq(repo_root)),
    ensures
        forall|i: int|
            components_seq(repo_root).len() <= i < resolved_comps(repo_root, user_path).len()
                ==> #[trigger] resolved_comps(repo_root, user_path)[i] is Normal || resolved_comps(
                repo_root,
                user_path,
            )[i] is Root,
{
    let cs = components_seq(in_repo_seq(repo_root, user_path));
    law_normalized_has_no_dots(cs);
}

} // verus!
