//! A loop session: goal, iteration count and the files it works on.

use crate::clock::{now_rfc3339, unix_now_nanos};
use crate::text::{concat3, owned, push_char};
use vstd::prelude::*;

verus! {

#[derive(Debug, Clone)]
pub struct LoopSession {
    pub id: String,
    pub goal: String,
    pub started_at: String,
    pub iteration: u32,
    pub active_files: Vec<String>,
    pub touched_files: Vec<String>,
    pub last_tick_at: Option<String>,
    pub closed: bool,
}

// ---------------------------------------------------------------------------
// Session ids
// ---------------------------------------------------------------------------

pub open spec fn pow16(k: nat) -> nat
    decreases k,
{
    if k == 0 {
        1
    } else {
        16 * pow16((k - 1) as nat)
    }
}

pub open spec fn hex_char(d: nat) -> char {
    if d < 10 {
        ((48 + d) as u32) as char
    } else {
        ((87 + d) as u32) as char
    }
}

/// The lowest `width` hex digits of `v`, most significant first, lowercase.
pub open spec fn hex_digits(v: nat, width: nat) -> Seq<char> {
    Seq::new(width, |i: int| hex_char((v / pow16((width - 1 - i) as nat)) % 16))
}

/// Session ids are the nanosecond clock reduced to 48 bits, in twelve hex digits.
pub open spec fn session_id_seq(nanos: u128) -> Seq<char> {
    hex_digits((nanos % 0x1_0000_0000_0000u128) as nat, 12)
}

/// The session id of a session started at `nanos` nanoseconds after the epoch.
pub fn session_id_from_nanos(nanos: u128) -> (r: String)
    ensures
        r@ == session_id_seq(nanos),
{
    let v: u64 = (nanos % 0x1_0000_0000_0000u128) as u64;
    let mut pow: u64 = 17592186044416;
    let mut s = String::new();
    let mut i: u64 = 0;
    assert(pow16(11) == 17592186044416) by {
        reveal_with_fuel(pow16, 12);
    }
    while i < 12
        invariant
            i <= 12,
            v == (nanos % 0x1_0000_0000_0000u128) as nat,
            pow as nat == pow16((11 - i) as nat) || i == 12,
            pow > 0,
            s@ == hex_digits(v as nat, 12).take(i as int),
        decreases 12 - i,
    {
        let d: u64 = (v / pow) % 16;
        let c = if d < 10 {
            ((48 + d) as u8) as char
        } else {
            ((87 + d) as u8) as char
        };
        assert(c == hex_char(d as nat));
        push_char(&mut s, c);
        assert(s@ =~= hex_digits(v as nat, 12).take(i + 1));
        if i < 11 {
            assert(pow16((11 - i) as nat) == 16 * pow16((11 - (i + 1)) as nat));
            pow = pow / 16;
        }
        i += 1;
    }
    assert(hex_digits(v as nat, 12).take(12) =~= hex_digits(v as nat, 12));
    s
}

/// A fresh session id read from the system clock.
pub fn new_session_id() -> (r: String)
    ensures
        exists|t: u128| r@ == session_id_seq(t),
{
    session_id_from_nanos(unix_now_nanos())
}

/// A new open session at iteration 0 that has touched nothing yet.
pub fn begin_session(goal: &str, active_files: Vec<String>) -> (r: LoopSession)
    ensures
        exists|t: u128| r.id@ == session_id_seq(t),
        r.goal@ == goal@,
        r.iteration == 0,
        r.active_files@ == active_files@,
        r.touched_files@.len() == 0,
        r.last_tick_at is None,
        !r.closed,
{
    LoopSession {
        id: new_session_id(),
        goal: owned(goal),
        started_at: now_rfc3339(),
        iteration: 0,
        active_files,
        touched_files: Vec::new(),
        last_tick_at: None,
        closed: false,
    }
}

// ---------------------------------------------------------------------------
// File lists
// ---------------------------------------------------------------------------

/// `list` with each of `files` appended unless already present.
pub open spec fn add_missing(list: Seq<Seq<char>>, files: Seq<Seq<char>>) -> Seq<Seq<char>>
    decreases files.len(),
{
    if files.len() == 0 {
        list
    } else {
        let prev = add_missing(list, files.drop_last());
        if prev.contains(files.last()) {
            prev
        } else {
            prev.push(files.last())
        }
    }
}

pub open spec fn closed_message(id: Seq<char>) -> Seq<char> {
    "loop session '"@ + id + "' is closed"@
}

fn list_contains(v: &Vec<String>, s: &String) -> (b: bool)
    ensures
        b == v.deep_view().contains(s@),
{
    let mut i: usize = 0;
    while i < v.len()
        invariant
            i <= v@.len(),
            forall|k: int| 0 <= k < i ==> v.deep_view()[k] != s@,
        decreases v.len() - i,
    {
        assert(v.deep_view()[i as int] == v@[i as int]@);
        if v[i] == *s {
            assert(v.deep_view()[i as int] == s@);
            return true;
        }
        i += 1;
    }
    false
}

fn add_if_missing(v: &mut Vec<String>, s: &String)
    ensures
        final(v).deep_view() == (if old(v).deep_view().contains(s@) {
            old(v).deep_view()
        } else {
            old(v).deep_view().push(s@)
        }),
{
    if !list_contains(v, s) {
        let ghost before = v.deep_view();
        v.push(s.clone());
        assert(v.deep_view() =~= before.push(s@));
    }
}

impl LoopSession {
    /// `Ok` while the session is open.
    pub fn ensure_open(&self) -> (r: Result<(), String>)
        ensures
            match r {
                Ok(_) => !self.closed,
                Err(e) => self.closed && e@ == closed_message(self.id@),
            },
    {
        if self.closed {
            return Err(concat3("loop session '", self.id.as_str(), "' is closed"));
        }
        Ok(())
    }

    /// Count one more iteration and stamp the tick time.
    pub fn bump_iteration(&mut self)
        requires
            old(self).iteration < u32::MAX,
        ensures
            final(self).iteration == old(self).iteration + 1,
            final(self).last_tick_at is Some,
            final(self).id == old(self).id,
            final(self).goal == old(self).goal,
            final(self).active_files == old(self).active_files,
            final(self).touched_files == old(self).touched_files,
            final(self).closed == old(self).closed,
    {
        self.iteration = self.iteration + 1;
        self.last_tick_at = Some(now_rfc3339());
    }

    /// Add the files not yet listed to both the touched and the active files.
    pub fn record_files(&mut self, files: &Vec<String>)
        ensures
            final(self).touched_files.deep_view() == add_missing(
                old(self).touched_files.deep_view(),
                files.deep_view(),
            ),
            final(self).active_files.deep_view() == add_missing(
                old(self).active_files.deep_view(),
                files.deep_view(),
            ),
            final(self).id == old(self).id,
            final(self).goal == old(self).goal,
            final(self).started_at == old(self).started_at,
            final(self).iteration == old(self).iteration,
            final(self).last_tick_at == old(self).last_tick_at,
            final(self).closed == old(self).closed,
    {
        let ghost touched0 = self.touched_files.deep_view();
        let ghost active0 = self.active_files.deep_view();
        let ghost id0 = self.id;
        let ghost goal0 = self.goal;
        let ghost started0 = self.started_at;
        let ghost tick0 = self.last_tick_at;
        let ghost it0 = self.iteration;
        let ghost closed0 = self.closed;
        let mut i: usize = 0;
        while i < files.len()
            invariant
                i <= files@.len(),
                self.touched_files.deep_view() == add_missing(touched0, files.deep_view().take(i as int)),
                self.active_files.deep_view() == add_missing(active0, files.deep_view().take(i as int)),
                self.id == id0,
                self.goal == goal0,
                self.started_at == started0,
                self.last_tick_at == tick0,
                self.iteration == it0,
                self.closed == closed0,
            decreases files.len() - i,
        {
            let f = &files[i];
            add_if_missing(&mut self.touched_files, f);
            add_if_missing(&mut self.active_files, f);
            assert(files.deep_view().take(i + 1).drop_last() =~= files.deep_view().take(i as int));
            assert(files.deep_view().take(i + 1).last() == f@);
            i += 1;
        }
        assert(files.deep_view().take(i as int) =~= files.deep_view());
    }

    /// Close the session and stamp the time.
    pub fn close(&mut self)
        ensures
            final(self).closed,
            final(self).last_tick_at is Some,
            final(self).id == old(self).id,
            final(self).goal == old(self).goal,
            final(self).started_at == old(self).started_at,
            final(self).iteration == old(self).iteration,
            final(self).touched_files == old(self).touched_files,
            final(self).active_files == old(self).active_files,
    {
        self.closed = true;
        self.last_tick_at = Some(now_rfc3339());
    }

    /// The first active file.
    pub fn primary_file(&self) -> (r: Option<&str>)
        ensures
            match r {
                Some(f) => self.active_files@.len() > 0 && f@ == self.active_files@[0]@,
                None => self.active_files@.len() == 0,
            },
    {
        if self.active_files.len() == 0 {
            None
        } else {
            Some(self.active_files[0].as_str())
        }
    }
}

// ---------------------------------------------------------------------------
// Laws
// ---------------------------------------------------------------------------

pub open spec fn no_duplicates(s: Seq<Seq<char>>) -> bool {
    forall|i: int, j: int| 0 <= i < j < s.len() ==> #[trigger] s[i] != #[trigger] s[j]
}

/// Recording files keeps what was listed, in order, and lists every recorded file.
pub proof fn law_record_files_covers(list: Seq<Seq<char>>, files: Seq<Seq<char>>)
    ensures
        add_missing(list, files).len() >= list.len(),
        add_missing(list, files).take(list.len() as int) == list,
        forall|k: int| 0 <= k < files.len() ==> add_missing(list, files).contains(#[trigger] files[k]),
        forall|x: Seq<char>| #[trigger] add_missing(list, files).contains(x) ==> list.contains(x)
            || files.contains(x),
    decreases files.len(),
{
    if files.len() > 0 {
        let prev = add_missing(list, files.drop_last());
        law_record_files_covers(list, files.drop_last());
        assert forall|k: int| 0 <= k < files.len() implies add_missing(list, files).contains(
            #[trigger] files[k],
        ) by {
            if k < files.len() - 1 {
                assert(files.drop_last()[k] == files[k]);
                let j = choose|j: int| 0 <= j < prev.len() && prev[j] == files[k];
                if !prev.contains(files.last()) {
                    assert(prev.push(files.last())[j] == files[k]);
                }
            } else {
                if !prev.contains(files.last()) {
                    assert(prev.push(files.last())[prev.len() as int] == files.last());
                }
            }
        }
        assert forall|x: Seq<char>| #[trigger] add_missing(list, files).contains(x) implies list.contains(x)
            || files.contains(x) by {
            if prev.contains(x) {
                if files.drop_last().contains(x) {
                    let j = choose|j: int| 0 <= j < files.drop_last().len() && files.drop_last()[j] == x;
                    assert(files[j] == x);
                }
            } else {
                assert(x == files.last());
                assert(files[files.len() - 1] == x);
            }
        }
        if !prev.contains(files.last()) {
            assert(prev.push(files.last()).take(list.len() as int) =~= prev.take(list.len() as int));
        }
    }
}

/// Recording files never lists a file twice when none was listed twice before.
pub proof fn law_record_files_no_duplicates(list: Seq<Seq<char>>, files: Seq<Seq<char>>)
    requires
        no_duplicates(list),
    ensures
        no_duplicates(add_missing(list, files)),
    decreases files.len(),
{
    if files.len() > 0 {
        law_record_files_no_duplicates(list, files.drop_last());
        let prev = add_missing(list, files.drop_last());
        if !prev.contains(files.last()) {
            let next = prev.push(files.last());
            assert forall|i: int, j: int| 0 <= i < j < next.len() implies #[trigger] next[i]
                != #[trigger] next[j] by {
                if j == prev.len() {
                    assert(next[i] == prev[i]);
                }
            }
        }
    }
}

/// Recording the same files a second time changes nothing.
pub proof fn law_record_files_idempotent(list: Seq<Seq<char>>, files: Seq<Seq<char>>)
    ensures
        add_missing(add_missing(list, files), files) == add_missing(list, files),
{
    let once = add_missing(list, files);
    law_record_files_covers(list, files);
    lemma_add_present(once, files);
}

/// Adding files that are all present already changes nothing.
proof fn lemma_add_present(list: Seq<Seq<char>>, files: Seq<Seq<char>>)
    requires
        forall|k: int| 0 <= k < files.len() ==> list.contains(#[trigger] files[k]),
    ensures
        add_missing(list, files) == list,
    decreases files.len(),
{
    if files.len() > 0 {
        assert forall|k: int| 0 <= k < files.drop_last().len() implies list.contains(
            #[trigger] files.drop_last()[k],
        ) by {
            assert(files.drop_last()[k] == files[k]);
        }
        lemma_add_present(list, files.drop_last());
        assert(list.contains(files[files.len() - 1]));
    }
}

} // verus!
