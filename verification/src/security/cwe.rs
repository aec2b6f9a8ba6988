//! CWE identifiers and default enablement sets.

use crate::text::{
    all_ascii_digits, is_white_space, lemma_trim_of_plain, owned, starts_with_seq, trim_seq,
    trim_start_matches_seq, trim_start_matches_str, trim_str,
};
use vstd::prelude::*;

verus! {

/// Checks backed by exact overflow queries, enabled by default.
pub open spec fn default_z3_cwes() -> Seq<Seq<char>> {
    seq!["190"@, "131"@, "191"@, "369"@, "680"@]
}

/// Pattern-only checks (opt-in via configuration).
pub open spec fn pattern_cwes() -> Seq<Seq<char>> {
    seq!["78"@, "134"@, "502"@, "798"@, "22"@]
}

/// The identifiers enabled by default: those of the exact checks.
pub fn default_enabled_cwes() -> (r: Vec<String>)
    ensures
        r.deep_view() == default_z3_cwes(),
{
    let r = vec![owned("190"), owned("131"), owned("191"), owned("369"), owned("680")];
    assert(r.deep_view() =~= default_z3_cwes());
    r
}

/// `CWE-190`, `cwe-190` and ` 190 ` all normalize to `190`.
pub open spec fn normalize_cwe_seq(id: Seq<char>) -> Seq<char> {
    trim_start_matches_seq(trim_start_matches_seq(trim_seq(id), "CWE-"@), "cwe-"@)
}

pub fn normalize_cwe_id(id: &str) -> (r: String)
    ensures
        r@ == normalize_cwe_seq(id@),
{
    let t = trim_str(id);
    let a = trim_start_matches_str(t.as_str(), "CWE-");
    trim_start_matches_str(a.as_str(), "cwe-")
}

/// An identifier is its number: `CWE-<n>`, `cwe-<n>` and `<n>` all name CWE
/// `<n>`, for every decimal number `<n>`.
pub proof fn law_cwe_prefix_is_dropped(d: Seq<char>)
    requires
        d.len() > 0,
        all_ascii_digits(d),
    ensures
        normalize_cwe_seq("CWE-"@ + d) == d,
        normalize_cwe_seq("cwe-"@ + d) == d,
        normalize_cwe_seq(d) == d,
{
    reveal_strlit("CWE-");
    reveal_strlit("cwe-");
    let up = "CWE-"@ + d;
    let low = "cwe-"@ + d;
    assert(!is_white_space(d[0]) && !is_white_space(d[d.len() - 1]));
    lemma_trim_of_plain(d);
    assert(up[0] == 'C' && up[up.len() - 1] == d[d.len() - 1]);
    lemma_trim_of_plain(up);
    assert(low[0] == 'c' && low[low.len() - 1] == d[d.len() - 1]);
    lemma_trim_of_plain(low);
    assert(!starts_with_seq(d, "CWE-"@)) by {
        if starts_with_seq(d, "CWE-"@) {
            assert(d.take(4)[0] == 'C');
        }
    }
    assert(!starts_with_seq(d, "cwe-"@)) by {
        if starts_with_seq(d, "cwe-"@) {
            assert(d.take(4)[0] == 'c');
        }
    }
    assert(starts_with_seq(up, "CWE-"@)) by {
        assert(up.take(4) =~= "CWE-"@);
    }
    assert(up.skip(4) =~= d);
    assert(!starts_with_seq(low, "CWE-"@)) by {
        if starts_with_seq(low, "CWE-"@) {
            assert(low.take(4)[0] == 'c');
        }
    }
    assert(starts_with_seq(low, "cwe-"@)) by {
        assert(low.take(4) =~= "cwe-"@);
    }
    assert(low.skip(4) =~= d);
    assert(trim_start_matches_seq(d, "CWE-"@) == d);
    assert(trim_start_matches_seq(d, "cwe-"@) == d);
    assert(trim_start_matches_seq(up, "CWE-"@) == trim_start_matches_seq(up.skip(4), "CWE-"@));
    assert(trim_start_matches_seq(low, "CWE-"@) == low);
    assert(trim_start_matches_seq(low, "cwe-"@) == trim_start_matches_seq(low.skip(4), "cwe-"@));
}

} // verus!
