//! Unit-tagged exact scalar values.
//!
//! NMEA numeric fields are decimal literals.  Instead of a lossy float, a
//! parsed field is kept exactly: [`Dec`] is a signed decimal (mantissa and
//! power-of-ten scale), [`Rat`] is a signed rational used for angles whose
//! value involves a division by sixty.  The unit wrappers `Degree`, `Minute`,
//! `Second`, `Meter` and `Knot` are distinct types so that values in
//! different units cannot be confused.

use vstd::prelude::*;
use vstd::arithmetic::div_mod::lemma_mod_multiples_basic;
use vstd::arithmetic::mul::lemma_mul_equality_converse;

verus! {

/// An exact signed decimal: the value is `mantissa / 10^scale`, negated when
/// `neg` is set.
///
/// Decoded values are canonical: the fraction carries no trailing zero
/// (`scale == 0 || mantissa % 10 != 0`) and zero is never negative, so two
/// decoded values are structurally equal exactly when they denote the same
/// number.
#[derive(Debug, PartialEq, Eq, Structural, Clone, Copy)]
pub struct Dec {
    pub neg: bool,
    pub mantissa: u64,
    pub scale: u32,
}

/// An exact signed rational: the value is `num / den`, negated when `neg` is
/// set.  `den` is always positive.
#[derive(Debug, PartialEq, Eq, Structural, Clone, Copy)]
pub struct Rat {
    pub neg: bool,
    pub num: u128,
    pub den: u128,
}

/// An angle in degrees.
#[derive(Debug, PartialEq, Eq, Structural, Clone, Copy)]
pub struct Degree(pub Rat);

/// A duration in minutes.
#[derive(Debug, PartialEq, Eq, Structural, Clone, Copy)]
pub struct Minute(pub Dec);

/// A duration in seconds.
#[derive(Debug, PartialEq, Eq, Structural, Clone, Copy)]
pub struct Second(pub Dec);

/// A distance in meters.
#[derive(Debug, PartialEq, Eq, Structural, Clone, Copy)]
pub struct Meter(pub Dec);

/// A speed in knots.
#[derive(Debug, PartialEq, Eq, Structural, Clone, Copy)]
pub struct Knot(pub Dec);

/// `10^n`.
pub open spec fn pow10(n: nat) -> nat
    decreases n,
{
    if n == 0 {
        1
    } else {
        10 * pow10((n - 1) as nat)
    }
}

pub proof fn lemma_pow10_monotonic(a: nat, b: nat)
    requires
        a <= b,
    ensures
        pow10(a) <= pow10(b),
    decreases b,
{
    if a < b {
        lemma_pow10_monotonic(a, (b - 1) as nat);
        assert(pow10(b) == 10 * pow10((b - 1) as nat));
    }
}

/// Well-formedness of a rational: a positive denominator, and no negative
/// zero.
pub open spec fn rat_wf(r: Rat) -> bool {
    r.den > 0 && (r.neg ==> r.num > 0)
}

/// Well-formedness of a decimal: canonical scale and no negative zero.
pub open spec fn dec_wf(d: Dec) -> bool {
    (d.scale == 0 || d.mantissa % 10 != 0) && (d.neg ==> d.mantissa > 0)
}

/// The canonical form of a decimal `mantissa / 10^scale`: trailing zeros of
/// the fraction are dropped and a zero loses its sign.
pub open spec fn spec_canon(mantissa: u64, scale: u32) -> (u64, u32)
    decreases scale,
{
    if scale > 0 && mantissa % 10 == 0 {
        spec_canon(mantissa / 10, (scale - 1) as u32)
    } else {
        (mantissa, scale)
    }
}

pub open spec fn spec_dec(neg: bool, mantissa: u64, scale: u32) -> Dec {
    let (m, s) = spec_canon(mantissa, scale);
    Dec { neg: neg && m > 0, mantissa: m, scale: s }
}

impl Dec {
    /// Builds the canonical decimal denoting `mantissa / 10^scale`, negated
    /// when `neg` is set.
    pub fn new(neg: bool, mantissa: u64, scale: u32) -> (r: Dec)
        ensures
            r == spec_dec(neg, mantissa, scale),
            dec_wf(r),
            r.scale <= scale,
    {
        let mut m = mantissa;
        let mut s = scale;
        while s > 0 && m % 10 == 0
            invariant
                spec_canon(m, s) == spec_canon(mantissa, scale),
            decreases s,
        {
            m = m / 10;
            s = s - 1;
        }
        proof {
            lemma_canon_wf(mantissa, scale);
            lemma_canon_scale_le(mantissa, scale);
        }
        Dec { neg: neg && m > 0, mantissa: m, scale: s }
    }
}

/// The largest power of ten a 64-bit mantissa denominator may need.
pub proof fn lemma_pow10_19()
    ensures
        pow10(19) == 10_000_000_000_000_000_000,
{
    reveal_with_fuel(pow10, 20);
}

pub proof fn lemma_pow10_pos(n: nat)
    ensures
        pow10(n) >= 1,
    decreases n,
{
    if n > 0 {
        lemma_pow10_pos((n - 1) as nat);
    }
}

/// Computes `10^n`.
pub fn pow10_u64(n: u32) -> (r: u64)
    requires
        n <= 19,
    ensures
        r == pow10(n as nat),
{
    let mut r: u64 = 1;
    let mut k: u32 = 0;
    while k < n
        invariant
            k <= n <= 19,
            r == pow10(k as nat),
        decreases n - k,
    {
        proof {
            lemma_pow10_monotonic((k + 1) as nat, 19);
            lemma_pow10_19();
            assert(pow10((k + 1) as nat) == 10 * pow10(k as nat));
        }
        r = r * 10;
        k = k + 1;
    }
    r
}

/// Canonicalization never deepens the fraction.
pub proof fn lemma_canon_scale_le(mantissa: u64, scale: u32)
    ensures
        spec_canon(mantissa, scale).1 <= scale,
    decreases scale,
{
    if scale > 0 && mantissa % 10 == 0 {
        lemma_canon_scale_le(mantissa / 10, (scale - 1) as u32);
    }
}

pub proof fn lemma_canon_wf(mantissa: u64, scale: u32)
    ensures
        spec_canon(mantissa, scale).1 == 0 || spec_canon(mantissa, scale).0 % 10 != 0,
    decreases scale,
{
    if scale > 0 && mantissa % 10 == 0 {
        lemma_canon_wf(mantissa / 10, (scale - 1) as u32);
    }
}

/// The signed numerator of a decimal; the value it denotes is this over
/// `10^scale`.
pub open spec fn dec_num(d: Dec) -> int {
    if d.neg {
        -(d.mantissa as int)
    } else {
        d.mantissa as int
    }
}

pub proof fn lemma_pow10_mul(x: nat, y: nat)
    ensures
        pow10(x + y) == pow10(x) * pow10(y),
    decreases y,
{
    if y == 0 {
        assert(pow10(x) * 1 == pow10(x)) by (nonlinear_arith);
    } else {
        lemma_pow10_mul(x, (y - 1) as nat);
        assert(pow10(x + y) == 10 * pow10((x + y - 1) as nat));
        assert(10 * (pow10(x) * pow10((y - 1) as nat)) == pow10(x) * (10 * pow10(
            (y - 1) as nat,
        ))) by (nonlinear_arith);
    }
}

proof fn lemma_dec_eq_exact_le(a: Dec, b: Dec)
    requires
        dec_wf(a),
        dec_wf(b),
        a.scale <= b.scale,
        (a.mantissa as int) * pow10(b.scale as nat) == (b.mantissa as int) * pow10(a.scale as nat),
    ensures
        a.mantissa == b.mantissa,
        a.scale == b.scale,
{
    let am = a.mantissa as int;
    let bm = b.mantissa as int;
    let d = (b.scale - a.scale) as nat;
    let p = pow10(a.scale as nat) as int;
    let t = pow10(d) as int;
    lemma_pow10_pos(a.scale as nat);
    lemma_pow10_pos(d);
    lemma_pow10_mul(a.scale as nat, d);
    assert(p * (am * t) == p * bm) by (nonlinear_arith)
        requires
            am * (p * t) == bm * p,
    ;
    lemma_mul_equality_converse(p, am * t, bm);
    if d > 0 {
        assert(pow10(d) == 10 * pow10((d - 1) as nat));
        let t1 = pow10((d - 1) as nat) as int;
        assert(bm == (am * t1) * 10) by (nonlinear_arith)
            requires
                am * t == bm,
                t == 10 * t1,
        ;
        lemma_mod_multiples_basic(am * t1, 10);
        assert(bm % 10 == 0);
        assert(false);
    }
    assert(am * 1 == am) by (nonlinear_arith);
}

/// Exact equality: two well-formed decimals that denote the same number
/// (stated by cross-multiplication over their power-of-ten denominators)
/// are one and the same representation.
pub proof fn lemma_dec_eq_exact(a: Dec, b: Dec)
    requires
        dec_wf(a),
        dec_wf(b),
        dec_num(a) * pow10(b.scale as nat) == dec_num(b) * pow10(a.scale as nat),
    ensures
        a == b,
{
    lemma_pow10_pos(a.scale as nat);
    lemma_pow10_pos(b.scale as nat);
    let p = pow10(a.scale as nat) as int;
    let q = pow10(b.scale as nat) as int;
    let am = a.mantissa as int;
    let bm = b.mantissa as int;
    if a.neg && !b.neg {
        assert(dec_num(a) * q < 0) by (nonlinear_arith)
            requires
                dec_num(a) < 0,
                q > 0,
        ;
        assert(dec_num(b) * p >= 0) by (nonlinear_arith)
            requires
                dec_num(b) >= 0,
                p > 0,
        ;
    }
    if !a.neg && b.neg {
        assert(dec_num(a) * q >= 0) by (nonlinear_arith)
            requires
                dec_num(a) >= 0,
                q > 0,
        ;
        assert(dec_num(b) * p < 0) by (nonlinear_arith)
            requires
                dec_num(b) < 0,
                p > 0,
        ;
    }
    assert(a.neg == b.neg);
    assert(am * q == bm * p) by (nonlinear_arith)
        requires
            dec_num(a) * q == dec_num(b) * p,
            dec_num(a) == if a.neg {
                -am
            } else {
                am
            },
            dec_num(b) == if b.neg {
                -bm
            } else {
                bm
            },
            a.neg == b.neg,
    ;
    if a.scale <= b.scale {
        lemma_dec_eq_exact_le(a, b);
    } else {
        lemma_dec_eq_exact_le(b, a);
    }
}

} // verus!
