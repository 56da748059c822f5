//! Degree and distance fields.
//!
//! A raw degree field is the decimal value as written.  A scaled degree
//! field divides the written value by one hundred.  A position degree field
//! reads the `DDMM.MMMM` layout: the value divided by one hundred has its
//! integer part taken as whole degrees and its remainder, times one hundred,
//! as minutes; the final angle is whole degrees plus minutes over sixty,
//! kept as an exact rational.  Latitude and longitude are a position degree
//! followed by a hemisphere indicator whose sign (negative for South or
//! West) is folded into the angle exactly once.

use vstd::prelude::*;
use vstd::arithmetic::div_mod::lemma_fundamental_div_mod;
use vstd::arithmetic::div_mod::lemma_mod_bound;
use vstd::arithmetic::mul::lemma_mul_inequality;
use crate::errors::DecodeError;
use crate::errors::DecodeErrorV;
use crate::fields::cardinality::EastWest;
use crate::fields::cardinality::NorthSouth;
use crate::fields::cardinality::spec_parse_east_west_indicator;
use crate::fields::cardinality::spec_parse_north_south_indicator;
use crate::fields::cardinality::parse_east_west_indicator;
use crate::fields::cardinality::parse_north_south_indicator;
use crate::tokens::spec_scan_number;
use crate::tokens::spec_scan_token;
use crate::tokens::scan_number;
use crate::tokens::scan_token;
use crate::tokens::tok_end;
use crate::units::Dec;
use crate::units::Degree;
use crate::units::Meter;
use crate::units::Minute;
use crate::units::Rat;
use crate::units::Second;
use crate::units::dec_wf;
use crate::units::lemma_pow10_pos;
use crate::units::pow10;
use crate::units::pow10_u64;
use crate::units::rat_wf;

verus! {

/// The rational a decimal denotes: `mantissa / 10^scale`.
pub open spec fn spec_rat_of_dec(d: Dec) -> Rat
    recommends
        d.scale <= 19,
{
    Rat { neg: d.neg, num: d.mantissa as u128, den: pow10(d.scale as nat) as u128 }
}

fn rat_of_dec(d: Dec) -> (r: Rat)
    requires
        d.scale <= 18,
        dec_wf(d),
    ensures
        r == spec_rat_of_dec(d),
        rat_wf(r),
{
    proof {
        lemma_pow10_pos(d.scale as nat);
        crate::units::lemma_pow10_monotonic(d.scale as nat, 19);
        crate::units::lemma_pow10_19();
    }
    let den = pow10_u64(d.scale) as u128;
    Rat { neg: d.neg, num: d.mantissa as u128, den }
}

/// The rational a decimal denotes after division by one hundred.
pub open spec fn spec_rat_of_dec_scaled(d: Dec) -> Rat
    recommends
        d.scale <= 18,
{
    Rat { neg: d.neg, num: d.mantissa as u128, den: (100 * pow10(d.scale as nat)) as u128 }
}

fn rat_of_dec_scaled(d: Dec) -> (r: Rat)
    requires
        d.scale <= 18,
        dec_wf(d),
    ensures
        r == spec_rat_of_dec_scaled(d),
        rat_wf(r),
{
    proof {
        lemma_pow10_pos(d.scale as nat);
        crate::units::lemma_pow10_monotonic(d.scale as nat, 19);
        crate::units::lemma_pow10_19();
    }
    let den = (pow10_u64(d.scale) as u128) * 100;
    Rat { neg: d.neg, num: d.mantissa as u128, den }
}

/// The angle the `DDMM.MMMM` layout denotes, as an exact rational: with
/// `v = mantissa / 10^scale`, the whole degrees are `floor(v / 100)` and the
/// remainder over `60 * 10^scale` is the minutes part over sixty.
pub open spec fn spec_position_rat(neg: bool, mantissa: u64, scale: u32) -> Rat
    recommends
        scale <= 18,
{
    let p = pow10((scale + 2) as nat);
    let whole = (mantissa as nat) / p;
    let rem = (mantissa as nat) % p;
    let den = 60 * pow10(scale as nat);
    let num = whole * den + rem;
    Rat { neg: neg && num > 0, num: num as u128, den: den as u128 }
}

fn position_rat(neg: bool, mantissa: u64, scale: u32) -> (r: Rat)
    requires
        scale <= 18,
    ensures
        r == spec_position_rat(neg, mantissa, scale),
        rat_wf(r),
{
    let q = pow10_u64(scale);
    proof {
        lemma_pow10_pos(scale as nat);
        crate::units::lemma_pow10_monotonic(scale as nat, 19);
        crate::units::lemma_pow10_19();
        assert(pow10((scale + 2) as nat) == 10 * pow10((scale + 1) as nat));
        assert(pow10((scale + 1) as nat) == 10 * pow10(scale as nat));
    }
    let p: u128 = (q as u128) * 100;
    let whole: u128 = (mantissa as u128) / p;
    let rem: u128 = (mantissa as u128) % p;
    let den: u128 = (q as u128) * 60;
    proof {
        lemma_fundamental_div_mod(mantissa as int, p as int);
        lemma_mod_bound(mantissa as int, p as int);
        assert(p * whole <= mantissa as int);
        lemma_mul_inequality(den as int, p as int, whole as int);
        assert(whole as int * den as int <= whole as int * p as int);
        assert(whole as int * p as int == p as int * whole as int)
            by (nonlinear_arith);
    }
    let num: u128 = whole * den + rem;
    Rat { neg: neg && num > 0, num, den }
}

/// Flips the sign of an angle; a zero angle stays unsigned.
pub open spec fn spec_negate_rat(r: Rat) -> Rat {
    if r.num > 0 {
        Rat { neg: !r.neg, num: r.num, den: r.den }
    } else {
        r
    }
}

/// What the optional raw degree field yields: the decimal value as written,
/// tagged as degrees.
pub open spec fn spec_parse_raw_degree(s: Seq<u8>, c: int) -> Result<
    (int, Option<Degree>),
    DecodeErrorV,
> {
    match spec_scan_number(s, c) {
        Err(e) => Err(e),
        Ok((c2, v)) => Ok(
            (
                c2,
                match v {
                    Some(d) => Some(Degree(spec_rat_of_dec(d))),
                    None => None,
                },
            ),
        ),
    }
}

/// Consumes an optional degree field whose decimal value is taken as-is
/// (course and variation style fields).
pub fn parse_raw_degree(s: &[u8], c: usize) -> (r: Result<(usize, Option<Degree>), DecodeError>)
    requires
        c <= s@.len() + 1,
        s@.len() < usize::MAX,
    ensures
        (match r {
            Ok((c2, v)) => spec_parse_raw_degree(s@, c as int) == Ok::<_, DecodeErrorV>((
                c2 as int,
                v,
            )),
            Err(e) => spec_parse_raw_degree(s@, c as int) == Err::<(int, Option<Degree>), _>(e@),
        }),
        (match r {
            Ok(p) => p.0 <= s@.len() + 1,
            _ => true,
        }),
{
    match scan_number(s, c) {
        Ok((c2, Some(d))) => Ok((c2, Some(Degree(rat_of_dec(d))))),
        Ok((c2, None)) => Ok((c2, None)),
        Err(e) => Err(e),
    }
}

/// What the optional scaled degree field yields: the decimal value divided
/// by one hundred (compact magnetic-variation encoding).
pub open spec fn spec_parse_degree(s: Seq<u8>, c: int) -> Result<
    (int, Option<Degree>),
    DecodeErrorV,
> {
    match spec_scan_number(s, c) {
        Err(e) => Err(e),
        Ok((c2, v)) => Ok(
            (
                c2,
                match v {
                    Some(d) => Some(Degree(spec_rat_of_dec_scaled(d))),
                    None => None,
                },
            ),
        ),
    }
}

/// Consumes an optional degree field whose decimal value is divided by one
/// hundred.
pub fn parse_degree(s: &[u8], c: usize) -> (r: Result<(usize, Option<Degree>), DecodeError>)
    requires
        c <= s@.len() + 1,
        s@.len() < usize::MAX,
    ensures
        (match r {
            Ok((c2, v)) => spec_parse_degree(s@, c as int) == Ok::<_, DecodeErrorV>((c2 as int, v)),
            Err(e) => spec_parse_degree(s@, c as int) == Err::<(int, Option<Degree>), _>(e@),
        }),
        (match r {
            Ok(p) => p.0 <= s@.len() + 1,
            _ => true,
        }),
{
    match scan_number(s, c) {
        Ok((c2, Some(d))) => Ok((c2, Some(Degree(rat_of_dec_scaled(d))))),
        Ok((c2, None)) => Ok((c2, None)),
        Err(e) => Err(e),
    }
}

/// What the optional position degree field (`DDMM.MMMM`) yields.
pub open spec fn spec_parse_position_degree(s: Seq<u8>, c: int) -> Result<
    (int, Option<Degree>),
    DecodeErrorV,
> {
    match spec_scan_number(s, c) {
        Err(e) => Err(e),
        Ok((c2, v)) => Ok(
            (
                c2,
                match v {
                    Some(d) => Some(Degree(spec_position_rat(d.neg, d.mantissa, d.scale))),
                    None => None,
                },
            ),
        ),
    }
}

/// Consumes an optional position degree field in the `DDMM.MMMM` layout.
pub fn parse_position_degree(s: &[u8], c: usize) -> (r: Result<
    (usize, Option<Degree>),
    DecodeError,
>)
    requires
        c <= s@.len() + 1,
        s@.len() < usize::MAX,
    ensures
        (match r {
            Ok((c2, v)) => spec_parse_position_degree(s@, c as int) == Ok::<_, DecodeErrorV>((
                c2 as int,
                v,
            )),
            Err(e) => spec_parse_position_degree(s@, c as int) == Err::<
                (int, Option<Degree>),
                _,
            >(e@),
        }),
        (match r {
            Ok(p) => p.0 <= s@.len() + 1,
            _ => true,
        }),
{
    match scan_number(s, c) {
        Ok((c2, Some(d))) => Ok((c2, Some(Degree(position_rat(d.neg, d.mantissa, d.scale))))),
        Ok((c2, None)) => Ok((c2, None)),
        Err(e) => Err(e),
    }
}

/// What the latitude pair of fields yields: a position degree and the
/// mandatory North/South indicator, the sign folded in (negative South).
pub open spec fn spec_parse_latitude(s: Seq<u8>, c: int) -> Result<
    (int, Option<Degree>),
    DecodeErrorV,
> {
    match spec_parse_position_degree(s, c) {
        Err(e) => Err(e),
        Ok((c1, od)) => match spec_parse_north_south_indicator(s, c1) {
            Err(e) => Err(e),
            Ok((c2, ns)) => Ok(
                (
                    c2,
                    match od {
                        Some(Degree(r)) => Some(
                            Degree(
                                match ns {
                                    NorthSouth::North => r,
                                    NorthSouth::South => spec_negate_rat(r),
                                },
                            ),
                        ),
                        None => None,
                    },
                ),
            ),
        },
    }
}

/// Consumes the latitude field pair.
pub fn parse_latitude(s: &[u8], c: usize) -> (r: Result<(usize, Option<Degree>), DecodeError>)
    requires
        c <= s@.len() + 1,
        s@.len() < usize::MAX,
    ensures
        (match r {
            Ok((c2, v)) => spec_parse_latitude(s@, c as int) == Ok::<_, DecodeErrorV>((
                c2 as int,
                v,
            )),
            Err(e) => spec_parse_latitude(s@, c as int) == Err::<(int, Option<Degree>), _>(e@),
        }),
        (match r {
            Ok(p) => p.0 <= s@.len() + 1,
            _ => true,
        }),
{
    let (c1, od) = match parse_position_degree(s, c) {
        Ok(x) => x,
        Err(e) => {
            return Err(e);
        },
    };
    let (c2, ns) = match parse_north_south_indicator(s, c1) {
        Ok(x) => x,
        Err(e) => {
            return Err(e);
        },
    };
    let v = match od {
        Some(d) => Some(
            match ns {
                NorthSouth::North => d,
                NorthSouth::South => Degree(negate_rat(d.0)),
            },
        ),
        None => None,
    };
    Ok((c2, v))
}

fn negate_rat(r: Rat) -> (o: Rat)
    ensures
        o == spec_negate_rat(r),
{
    if r.num > 0 {
        Rat { neg: !r.neg, num: r.num, den: r.den }
    } else {
        r
    }
}

/// What the longitude pair of fields yields: a position degree and the
/// mandatory East/West indicator, the sign folded in (negative West).
pub open spec fn spec_parse_longitude(s: Seq<u8>, c: int) -> Result<
    (int, Option<Degree>),
    DecodeErrorV,
> {
    match spec_parse_position_degree(s, c) {
        Err(e) => Err(e),
        Ok((c1, od)) => match spec_parse_east_west_indicator(s, c1) {
            Err(e) => Err(e),
            Ok((c2, ew)) => Ok(
                (
                    c2,
                    match od {
                        Some(Degree(r)) => Some(
                            Degree(
                                match ew {
                                    EastWest::East => r,
                                    EastWest::West => spec_negate_rat(r),
                                },
                            ),
                        ),
                        None => None,
                    },
                ),
            ),
        },
    }
}

/// Consumes the longitude field pair.
pub fn parse_longitude(s: &[u8], c: usize) -> (r: Result<(usize, Option<Degree>), DecodeError>)
    requires
        c <= s@.len() + 1,
        s@.len() < usize::MAX,
    ensures
        (match r {
            Ok((c2, v)) => spec_parse_longitude(s@, c as int) == Ok::<_, DecodeErrorV>((
                c2 as int,
                v,
            )),
            Err(e) => spec_parse_longitude(s@, c as int) == Err::<(int, Option<Degree>), _>(e@),
        }),
        (match r {
            Ok(p) => p.0 <= s@.len() + 1,
            _ => true,
        }),
{
    let (c1, od) = match parse_position_degree(s, c) {
        Ok(x) => x,
        Err(e) => {
            return Err(e);
        },
    };
    let (c2, ew) = match parse_east_west_indicator(s, c1) {
        Ok(x) => x,
        Err(e) => {
            return Err(e);
        },
    };
    let v = match od {
        Some(d) => Some(
            match ew {
                EastWest::East => d,
                EastWest::West => Degree(negate_rat(d.0)),
            },
        ),
        None => None,
    };
    Ok((c2, v))
}

/// What the optional minute field yields.
pub open spec fn spec_parse_minute(s: Seq<u8>, c: int) -> Result<
    (int, Option<Minute>),
    DecodeErrorV,
> {
    match spec_scan_number(s, c) {
        Err(e) => Err(e),
        Ok((c2, v)) => Ok(
            (
                c2,
                match v {
                    Some(d) => Some(Minute(d)),
                    None => None,
                },
            ),
        ),
    }
}

/// Consumes the optional duration-in-minutes field.
pub fn parse_minute(s: &[u8], c: usize) -> (r: Result<(usize, Option<Minute>), DecodeError>)
    requires
        c <= s@.len() + 1,
        s@.len() < usize::MAX,
    ensures
        (match r {
            Ok((c2, v)) => spec_parse_minute(s@, c as int) == Ok::<_, DecodeErrorV>((c2 as int, v)),
            Err(e) => spec_parse_minute(s@, c as int) == Err::<(int, Option<Minute>), _>(e@),
        }),
        (match r {
            Ok(p) => p.0 <= s@.len() + 1,
            _ => true,
        }),
{
    match scan_number(s, c) {
        Ok((c2, Some(d))) => Ok((c2, Some(Minute(d)))),
        Ok((c2, None)) => Ok((c2, None)),
        Err(e) => Err(e),
    }
}

/// What the optional second field yields; unlike the other numeric fields a
/// missing final field is tolerated and yields absence.
pub open spec fn spec_parse_second(s: Seq<u8>, c: int) -> Result<
    (int, Option<Second>),
    DecodeErrorV,
> {
    if c > s.len() {
        Ok((c, None))
    } else {
        match spec_scan_number(s, c) {
            Err(e) => Err(e),
            Ok((c2, v)) => Ok(
                (
                    c2,
                    match v {
                        Some(d) => Some(Second(d)),
                        None => None,
                    },
                ),
            ),
        }
    }
}

/// Consumes the optional duration-in-seconds field.
pub fn parse_second(s: &[u8], c: usize) -> (r: Result<(usize, Option<Second>), DecodeError>)
    requires
        c <= s@.len() + 1,
        s@.len() < usize::MAX,
    ensures
        (match r {
            Ok((c2, v)) => spec_parse_second(s@, c as int) == Ok::<_, DecodeErrorV>((c2 as int, v)),
            Err(e) => spec_parse_second(s@, c as int) == Err::<(int, Option<Second>), _>(e@),
        }),
        (match r {
            Ok(p) => p.0 <= s@.len() + 1,
            _ => true,
        }),
{
    if c > s.len() {
        return Ok((c, None));
    }
    match scan_number(s, c) {
        Ok((c2, Some(d))) => Ok((c2, Some(Second(d)))),
        Ok((c2, None)) => Ok((c2, None)),
        Err(e) => Err(e),
    }
}

/// What the optional meter field yields.
pub open spec fn spec_parse_meter(s: Seq<u8>, c: int) -> Result<
    (int, Option<Meter>),
    DecodeErrorV,
> {
    match spec_scan_number(s, c) {
        Err(e) => Err(e),
        Ok((c2, v)) => Ok(
            (
                c2,
                match v {
                    Some(d) => Some(Meter(d)),
                    None => None,
                },
            ),
        ),
    }
}

/// Consumes an optional distance-in-meters field.
pub fn parse_meter(s: &[u8], c: usize) -> (r: Result<(usize, Option<Meter>), DecodeError>)
    requires
        c <= s@.len() + 1,
        s@.len() < usize::MAX,
    ensures
        (match r {
            Ok((c2, v)) => spec_parse_meter(s@, c as int) == Ok::<_, DecodeErrorV>((c2 as int, v)),
            Err(e) => spec_parse_meter(s@, c as int) == Err::<(int, Option<Meter>), _>(e@),
        }),
        (match r {
            Ok(p) => p.0 <= s@.len() + 1,
            _ => true,
        }),
{
    match scan_number(s, c) {
        Ok((c2, Some(d))) => Ok((c2, Some(Meter(d)))),
        Ok((c2, None)) => Ok((c2, None)),
        Err(e) => Err(e),
    }
}

/// Consumes the final distance-in-meters field of a fixed pipeline.
pub fn parse_last_meter(s: &[u8], c: usize) -> (r: Result<(usize, Option<Meter>), DecodeError>)
    requires
        c <= s@.len() + 1,
        s@.len() < usize::MAX,
    ensures
        (match r {
            Ok((c2, v)) => spec_parse_meter(s@, c as int) == Ok::<_, DecodeErrorV>((c2 as int, v)),
            Err(e) => spec_parse_meter(s@, c as int) == Err::<(int, Option<Meter>), _>(e@),
        }),
        (match r {
            Ok(p) => p.0 <= s@.len() + 1,
            _ => true,
        }),
{
    parse_meter(s, c)
}

/// What the mandatory meter unit tag yields: the field must hold exactly
/// `M` and must be followed by its comma.
pub open spec fn spec_ensure_meter(s: Seq<u8>, c: int) -> Result<(int, ()), DecodeErrorV> {
    match spec_scan_token(s, c) {
        Err(e) => Err(e),
        Ok((c2, t)) => if t =~= seq![77u8] && tok_end(s, c) < s.len() {
            Ok((c2, ()))
        } else {
            Err(DecodeErrorV::MalformedField(c, t))
        },
    }
}

/// Consumes the mandatory `M` unit tag together with its comma.
pub fn ensure_meter(s: &[u8], c: usize) -> (r: Result<(usize, ()), DecodeError>)
    requires
        c <= s@.len() + 1,
        s@.len() < usize::MAX,
    ensures
        (match r {
            Ok((c2, v)) => spec_ensure_meter(s@, c as int) == Ok::<_, DecodeErrorV>((c2 as int, v)),
            Err(e) => spec_ensure_meter(s@, c as int) == Err::<(int, ()), _>(e@),
        }),
        (match r {
            Ok(p) => p.0 <= s@.len() + 1,
            _ => true,
        }),
{
    let (c2, t) = match scan_token(s, c) {
        Ok(x) => x,
        Err(e) => {
            return Err(e);
        },
    };
    if t.len() == 1 && t[0] == 77 && c2 <= s.len() {
        assert(t@ =~= seq![77u8]);
        Ok((c2, ()))
    } else {
        Err(DecodeError::MalformedField(c, t))
    }
}

/// What the twelve sequential residual fields yield.
pub open spec fn spec_parse_residuals_rec(s: Seq<u8>, c: int, n: nat) -> Result<
    (int, Seq<Option<Meter>>),
    DecodeErrorV,
>
    decreases n,
{
    if n == 0 {
        Ok((c, Seq::empty()))
    } else {
        match spec_parse_meter(s, c) {
            Err(e) => Err(e),
            Ok((c1, om)) => match spec_parse_residuals_rec(s, c1, (n - 1) as nat) {
                Err(e) => Err(e),
                Ok((c2, rest)) => Ok((c2, seq![om] + rest)),
            },
        }
    }
}

/// What the residual array of a range-residual sentence yields: exactly
/// twelve positional optional meter values.
pub open spec fn spec_parse_residuals(s: Seq<u8>, c: int) -> Result<
    (int, Seq<Option<Meter>>),
    DecodeErrorV,
> {
    spec_parse_residuals_rec(s, c, 12)
}

/// The fixed arity of the residual pipeline: a successful run of `n`
/// sequential meter fields yields exactly `n` slots, whether filled or
/// empty — at the sentence level, always twelve.
pub proof fn lemma_residuals_arity(s: Seq<u8>, c: int, n: nat)
    ensures
        (match spec_parse_residuals_rec(s, c, n) {
            Ok((c2, v)) => v.len() == n,
            Err(e) => true,
        }),
    decreases n,
{
    if n > 0 {
        match spec_parse_meter(s, c) {
            Err(e) => {},
            Ok((c1, om)) => {
                lemma_residuals_arity(s, c1, (n - 1) as nat);
            },
        }
    }
}

/// Consumes the twelve sequential range-residual fields.
pub fn parse_residuals(s: &[u8], c: usize) -> (r: Result<
    (usize, Vec<Option<Meter>>),
    DecodeError,
>)
    requires
        c <= s@.len() + 1,
        s@.len() < usize::MAX,
    ensures
        (match r {
            Ok((c2, v)) => spec_parse_residuals(s@, c as int) == Ok::<_, DecodeErrorV>((
                c2 as int,
                v@,
            )) && v@.len() == 12,
            Err(e) => spec_parse_residuals(s@, c as int) == Err::<
                (int, Seq<Option<Meter>>),
                _,
            >(e@),
        }),
        (match r {
            Ok(p) => p.0 <= s@.len() + 1,
            _ => true,
        }),
{
    let mut v: Vec<Option<Meter>> = Vec::new();
    let mut ci = c;
    let mut i: usize = 0;
    while i < 12
        invariant
            0 <= i <= 12,
            ci <= s@.len() + 1,
            s@.len() < usize::MAX,
            v@.len() == i,
            (match spec_parse_residuals_rec(s@, ci as int, (12 - i) as nat) {
                Ok((ce, tail)) => spec_parse_residuals(s@, c as int) == Ok::<_, DecodeErrorV>(
                    (ce, v@ + tail),
                ),
                Err(e) => spec_parse_residuals(s@, c as int) == Err::<
                    (int, Seq<Option<Meter>>),
                    _,
                >(e),
            }),
        decreases 12 - i,
    {
        let ghost n_left = (12 - i) as nat;
        match parse_meter(s, ci) {
            Ok((c1, om)) => {
                proof {
                    assert(spec_parse_residuals_rec(s@, ci as int, n_left) == (
                    match spec_parse_residuals_rec(s@, c1 as int, (n_left - 1) as nat) {
                        Err(e) => Err::<(int, Seq<Option<Meter>>), DecodeErrorV>(e),
                        Ok((c2, rest)) => Ok((c2, seq![om] + rest)),
                    }));
                }
                let ghost old_v = v@;
                v.push(om);
                proof {
                    assert(v@ == old_v.push(om));
                    match spec_parse_residuals_rec(s@, c1 as int, (n_left - 1) as nat) {
                        Err(e) => {},
                        Ok((c2, rest)) => {
                            assert(old_v + (seq![om] + rest) =~= v@ + rest);
                        },
                    }
                }
                ci = c1;
            },
            Err(e) => {
                return Err(e);
            },
        }
        i = i + 1;
    }
    assert(spec_parse_residuals_rec(s@, ci as int, 0) == Ok::<_, DecodeErrorV>((
        ci as int,
        Seq::<Option<Meter>>::empty(),
    )));
    assert(v@ + Seq::<Option<Meter>>::empty() =~= v@);
    Ok((ci, v))
}

} // verus!
