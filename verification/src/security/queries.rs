//! Exact decisions of the 64-bit overflow, underflow and division queries
//! attached to each extracted site, with a concrete exploit input whenever
//! one exists.

use crate::security::sites::{AllocationSite, BufferCopySite, DivisionSite, ShiftSite, SubtractionSite, TwoVarMulSite};
use crate::text::{decimal_seq, decimal_string, owned};
use vstd::arithmetic::div_mod::lemma_fundamental_div_mod_converse;
use vstd::arithmetic::power2::{lemma2_to64, lemma_pow2_strictly_increases, pow2};
use vstd::prelude::*;

verus! {

/// Result of deciding one query on a security site.
#[derive(Debug, Clone, PartialEq, Eq)]
pub enum Z3Outcome {
    Vulnerable { witness: String },
    Safe,
    Unknown { reason: String },
    /// The site is out of scope; the caller keeps PatternOnly.
    Skipped,
}

/// Mathematical model of a [`Z3Outcome`].
pub enum OutcomeView {
    Vulnerable(Seq<char>),
    Safe,
    Unknown(Seq<char>),
    Skipped,
}

impl View for Z3Outcome {
    type V = OutcomeView;

    open spec fn view(&self) -> OutcomeView {
        match self {
            Z3Outcome::Vulnerable { witness } => OutcomeView::Vulnerable(witness@),
            Z3Outcome::Safe => OutcomeView::Safe,
            Z3Outcome::Unknown { reason } => OutcomeView::Unknown(reason@),
            Z3Outcome::Skipped => OutcomeView::Skipped,
        }
    }
}

// ---------------------------------------------------------------------------
// The queries
// ---------------------------------------------------------------------------

pub open spec fn two64() -> int {
    0x1_0000_0000_0000_0000
}

/// Reduction modulo 2^64 (unsigned 64-bit wrap-around).
pub open spec fn wrap64(x: int) -> int {
    x % two64()
}

/// `n * k` wraps around: the 64-bit product is smaller than `n > 0`.
pub open spec fn mul_wraps(n: u64, k: u64) -> bool {
    n > 0 && wrap64(n * k) < n
}

/// Both factors positive and the 64-bit product smaller than `a`.
pub open spec fn two_var_wraps(a: u64, b: u64) -> bool {
    a > 0 && b > 0 && wrap64(a * b) < a
}

/// 64-bit `n << s` (zero once the shift reaches the width).
pub open spec fn shl64(n: u64, s: u32) -> int {
    if s >= 64 {
        0
    } else {
        wrap64(n * pow2(s as nat))
    }
}

/// `n << s` loses bits: the shifted value is smaller than `n > 0`.
pub open spec fn shl_wraps(n: u64, s: u32) -> bool {
    n > 0 && shl64(n, s) < n
}

/// `n - k` underflows.
pub open spec fn sub_underflows(n: u64, k: u64) -> bool {
    n < k
}

pub proof fn lemma_max_times(k: int)
    requires
        2 <= k < two64(),
    ensures
        wrap64((two64() - 1) * k) == two64() - k,
{
    let t = two64();
    let x = (t - 1) * k;
    assert(x == (k - 1) * t + (t - k)) by (nonlinear_arith)
        requires
            x == (t - 1) * k,
    ;
    lemma_fundamental_div_mod_converse(x, t, k - 1, t - k);
}

/// A factor `k >= 2` always admits a wrapping `n` (namely `u64::MAX`); a
/// factor of 1 never does.
pub proof fn law_mul_query(k: u64)
    ensures
        k >= 2 ==> mul_wraps(u64::MAX, k),
        k == 1 ==> forall|n: u64| !mul_wraps(n, k),
{
    if k >= 2 {
        lemma_max_times(k as int);
    }
    if k == 1 {
        assert forall|n: u64| !mul_wraps(n, k) by {
            lemma_fundamental_div_mod_converse(n * k, two64(), 0, n as int);
        }
    }
}

/// Two positive factors can always wrap: `u64::MAX * 2`.
pub proof fn law_two_var_query()
    ensures
        two_var_wraps(u64::MAX, 2),
{
    lemma_max_times(2);
}

/// A shift by at least one bit loses bits of `u64::MAX`; a shift by zero
/// never loses any.
pub proof fn law_shift_query(s: u32)
    ensures
        s >= 1 ==> shl_wraps(u64::MAX, s),
        s == 0 ==> forall|n: u64| !shl_wraps(n, s),
{
    if s >= 1 && s < 64 {
        lemma2_to64();
        lemma_pow2_strictly_increases(0, s as nat);
        lemma_pow2_strictly_increases(s as nat, 64);
        lemma_max_times(pow2(s as nat) as int);
    }
    if s == 0 {
        lemma2_to64();
        assert forall|n: u64| !shl_wraps(n, s) by {
            lemma_fundamental_div_mod_converse(n * pow2(0), two64(), 0, n as int);
        }
    }
}

/// A positive subtractor underflows at `n = 0`; zero never underflows.
pub proof fn law_sub_query(k: u64)
    ensures
        k > 0 ==> sub_underflows(0, k),
        k == 0 ==> forall|n: u64| !sub_underflows(n, k),
{
}

// ---------------------------------------------------------------------------
// Outcomes
// ---------------------------------------------------------------------------

/// `{var}={n} ({var}*{k} overflows 64-bit)`
pub open spec fn mul_witness(var: Seq<char>, n: u64, k: u64) -> Seq<char> {
    var + "="@ + decimal_seq(n as nat) + " ("@ + var + "*"@ + decimal_seq(k as nat)
        + " overflows 64-bit)"@
}

pub open spec fn mul_outcome(var: Seq<char>, k: u64) -> OutcomeView {
    if k == 0 {
        OutcomeView::Unknown("element size is zero"@)
    } else if k >= 2 {
        OutcomeView::Vulnerable(mul_witness(var, u64::MAX, k))
    } else {
        OutcomeView::Safe
    }
}

/// `{a}={x}, {b}={y} ({a}*{b} overflows 64-bit)`
pub open spec fn two_var_witness(a: Seq<char>, b: Seq<char>, x: u64, y: u64) -> Seq<char> {
    a + "="@ + decimal_seq(x as nat) + ", "@ + b + "="@ + decimal_seq(y as nat) + " ("@ + a + "*"@
        + b + " overflows 64-bit)"@
}

/// `{var}={n} ({var}<<{s} overflows 64-bit)`
pub open spec fn shift_witness(var: Seq<char>, n: u64, s: u32) -> Seq<char> {
    var + "="@ + decimal_seq(n as nat) + " ("@ + var + "<<"@ + decimal_seq(s as nat)
        + " overflows 64-bit)"@
}

pub open spec fn shift_outcome(var: Seq<char>, s: u32) -> OutcomeView {
    if s >= 1 {
        OutcomeView::Vulnerable(shift_witness(var, u64::MAX, s))
    } else {
        OutcomeView::Safe
    }
}

/// `{var}={n} ({var}-{k} underflows 64-bit)`
pub open spec fn sub_witness(var: Seq<char>, n: u64, k: u64) -> Seq<char> {
    var + "="@ + decimal_seq(n as nat) + " ("@ + var + "-"@ + decimal_seq(k as nat)
        + " underflows 64-bit)"@
}

pub open spec fn sub_outcome(var: Seq<char>, k: u64) -> OutcomeView {
    if k > 0 {
        OutcomeView::Vulnerable(sub_witness(var, 0, k))
    } else {
        OutcomeView::Safe
    }
}

/// `{divisor}=0 (division by zero)`
pub open spec fn div_witness(divisor: Seq<char>) -> Seq<char> {
    divisor + "=0 (division by zero)"@
}

fn mul_outcome_exec(var: &String, k: u64) -> (r: Z3Outcome)
    ensures
        r@ == mul_outcome(var@, k),
        k != 0 ==> ((r@ is Vulnerable) <==> exists|n: u64| mul_wraps(n, k)),
        k != 0 ==> ((r@ is Safe) <==> !exists|n: u64| mul_wraps(n, k)),
{
    proof {
        law_mul_query(k);
    }
    if k == 0 {
        return Z3Outcome::Unknown { reason: owned("element size is zero") };
    }
    if k >= 2 {
        let mut w = var.clone();
        w.append("=");
        let n = decimal_string(u64::MAX);
        w.append(n.as_str());
        w.append(" (");
        w.append(var.as_str());
        w.append("*");
        let ks = decimal_string(k);
        w.append(ks.as_str());
        w.append(" overflows 64-bit)");
        Z3Outcome::Vulnerable { witness: w }
    } else {
        Z3Outcome::Safe
    }
}

/// Multiplication by the element size in an allocation.
pub fn prove_mul_overflow(site: &AllocationSite, timeout_ms: u64) -> (r: Z3Outcome)
    ensures
        r@ == mul_outcome(site.var@, site.elem_size),
        site.elem_size != 0 ==> ((r@ is Vulnerable) <==> exists|n: u64|
            mul_wraps(n, site.elem_size)),
{
    mul_outcome_exec(&site.var, site.elem_size)
}

/// Multiplication by the element size in a `memcpy` / `memset` length.
pub fn prove_buffer_copy_overflow(site: &BufferCopySite, timeout_ms: u64) -> (r: Z3Outcome)
    ensures
        r@ == mul_outcome(site.var@, site.elem_size),
        site.elem_size != 0 ==> ((r@ is Vulnerable) <==> exists|n: u64|
            mul_wraps(n, site.elem_size)),
{
    mul_outcome_exec(&site.var, site.elem_size)
}

/// The product of two unconstrained variables.
pub fn prove_two_var_mul(site: &TwoVarMulSite, timeout_ms: u64) -> (r: Z3Outcome)
    ensures
        r@ == OutcomeView::Vulnerable(two_var_witness(site.var_a@, site.var_b@, u64::MAX, 2)),
        two_var_wraps(u64::MAX, 2),
{
    proof {
        law_two_var_query();
    }
    let mut w = site.var_a.clone();
    w.append("=");
    let x = decimal_string(u64::MAX);
    w.append(x.as_str());
    w.append(", ");
    w.append(site.var_b.as_str());
    w.append("=");
    let y = decimal_string(2);
    w.append(y.as_str());
    w.append(" (");
    w.append(site.var_a.as_str());
    w.append("*");
    w.append(site.var_b.as_str());
    w.append(" overflows 64-bit)");
    Z3Outcome::Vulnerable { witness: w }
}

/// A left shift by a literal amount.
pub fn prove_shift_overflow(site: &ShiftSite, timeout_ms: u64) -> (r: Z3Outcome)
    ensures
        r@ == shift_outcome(site.var@, site.shift),
        (r@ is Vulnerable) <==> exists|n: u64| shl_wraps(n, site.shift),
{
    proof {
        law_shift_query(site.shift);
    }
    if site.shift >= 1 {
        let mut w = site.var.clone();
        w.append("=");
        let n = decimal_string(u64::MAX);
        w.append(n.as_str());
        w.append(" (");
        w.append(site.var.as_str());
        w.append("<<");
        let s = decimal_string(site.shift as u64);
        w.append(s.as_str());
        w.append(" overflows 64-bit)");
        Z3Outcome::Vulnerable { witness: w }
    } else {
        Z3Outcome::Safe
    }
}

/// A subtraction of a literal.
pub fn prove_underflow(site: &SubtractionSite, timeout_ms: u64) -> (r: Z3Outcome)
    ensures
        r@ == sub_outcome(site.var@, site.subtractor),
        (r@ is Vulnerable) <==> exists|n: u64| sub_underflows(n, site.subtractor),
{
    proof {
        law_sub_query(site.subtractor);
    }
    if site.subtractor > 0 {
        let mut w = site.var.clone();
        w.append("=");
        let n = decimal_string(0);
        w.append(n.as_str());
        w.append(" (");
        w.append(site.var.as_str());
        w.append("-");
        let k = decimal_string(site.subtractor);
        w.append(k.as_str());
        w.append(" underflows 64-bit)");
        Z3Outcome::Vulnerable { witness: w }
    } else {
        Z3Outcome::Safe
    }
}

/// A division by a variable: the divisor can always be zero.
pub fn prove_div_zero(site: &DivisionSite, timeout_ms: u64) -> (r: Z3Outcome)
    ensures
        r@ == OutcomeView::Vulnerable(div_witness(site.divisor_var@)),
{
    let mut w = site.divisor_var.clone();
    w.append("=0 (division by zero)");
    Z3Outcome::Vulnerable { witness: w }
}

/// CWE-190: multiplication overflow in an allocation size.
pub fn prove_cwe190(site: &AllocationSite, timeout_ms: u64) -> (r: Z3Outcome)
    ensures
        r@ == mul_outcome(site.var@, site.elem_size),
{
    prove_mul_overflow(site, timeout_ms)
}

} // verus!
