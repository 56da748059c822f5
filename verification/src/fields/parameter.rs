//! Enumeration-valued fields: envelope type, validity status, positioning
//! mode, navigational status, residual computation method and unit tags.

use vstd::prelude::*;
use crate::errors::DecodeError;
use crate::errors::DecodeErrorV;
use crate::tokens::spec_scan_token;
use crate::tokens::scan_token;

verus! {

/// The envelope of a sentence: `$` for a parametric sentence, `!` for an
/// encapsulation sentence.
#[derive(Debug, PartialEq, Eq, Structural, Clone, Copy)]
pub enum SentenceType {
    Parametric,
    Encapsulation,
}

/// Data validity: `A` valid, `V` invalid.
#[derive(Debug, PartialEq, Eq, Structural, Clone, Copy)]
pub enum Status {
    DataValid,
    DataInvalid,
}

/// How a position solution was computed.
#[derive(Debug, PartialEq, Eq, Structural, Clone, Copy)]
pub enum Fix {
    NoFix,
    AutonomousGNSSFix,
    DifferentialGNSSFix,
    EstimatedDeadReckoningFix,
    RTKFloat,
    RTKFixed,
}

/// The navigational status indicator.
#[derive(Debug, PartialEq, Eq, Structural, Clone, Copy)]
pub enum NavigationalStatus {
    Safe,
    Caution,
    Unsafe,
    NotValid,
}

/// Whether range residuals were used in or computed after the position fix.
#[derive(Debug, PartialEq, Eq, Structural, Clone, Copy)]
pub enum ComputationMethod {
    InGGA,
    AfterGGA,
}

/// The unit tag of a course-over-ground field.
#[derive(Debug, PartialEq, Eq, Structural, Clone, Copy)]
pub enum CourseOverGroundUnit {
    DegreesTrue,
    DegreesMagnetic,
}

/// The unit tag of a speed-over-ground field.
#[derive(Debug, PartialEq, Eq, Structural, Clone, Copy)]
pub enum SpeedOverGroundUnit {
    Knots,
    KilometersPerHour,
}

/// Whether a byte is a positioning-mode character.
pub open spec fn fix_char(b: u8) -> bool {
    b == 78 || b == 65 || b == 68 || b == 69 || b == 70 || b == 82
}

/// The positioning mode a character names (`N`, `A`, `D`, `E`, `F`, `R`).
pub open spec fn fix_of(b: u8) -> Fix {
    if b == 65 {
        Fix::AutonomousGNSSFix
    } else if b == 68 {
        Fix::DifferentialGNSSFix
    } else if b == 69 {
        Fix::EstimatedDeadReckoningFix
    } else if b == 70 {
        Fix::RTKFloat
    } else if b == 82 {
        Fix::RTKFixed
    } else {
        Fix::NoFix
    }
}

fn fix_lookup(b: u8) -> (f: Fix)
    ensures
        f == fix_of(b),
{
    if b == 65 {
        Fix::AutonomousGNSSFix
    } else if b == 68 {
        Fix::DifferentialGNSSFix
    } else if b == 69 {
        Fix::EstimatedDeadReckoningFix
    } else if b == 70 {
        Fix::RTKFloat
    } else if b == 82 {
        Fix::RTKFixed
    } else {
        Fix::NoFix
    }
}

/// What the mandatory status field yields: `A` or `V`, anything else is
/// malformed.
pub open spec fn spec_parse_status(s: Seq<u8>, c: int) -> Result<(int, Status), DecodeErrorV> {
    match spec_scan_token(s, c) {
        Err(e) => Err(e),
        Ok((c2, t)) => if t =~= seq![65u8] {
            Ok((c2, Status::DataValid))
        } else if t =~= seq![86u8] {
            Ok((c2, Status::DataInvalid))
        } else {
            Err(DecodeErrorV::MalformedField(c, t))
        },
    }
}

/// Consumes the mandatory data-validity status field.
pub fn parse_status(s: &[u8], c: usize) -> (r: Result<(usize, Status), DecodeError>)
    requires
        c <= s@.len() + 1,
        s@.len() < usize::MAX,
    ensures
        (match r {
            Ok((c2, v)) => spec_parse_status(s@, c as int) == Ok::<_, DecodeErrorV>((c2 as int, v)),
            Err(e) => spec_parse_status(s@, c as int) == Err::<(int, Status), _>(e@),
        }),
        (match r {
            Ok(p) => p.0 <= s@.len() + 1,
            _ => true,
        }),
{
    let (c2, t) = match scan_token(s, c) {
        Ok(x) => x,
        Err(e) => {
            return Err(e);
        },
    };
    if t.len() == 1 && t[0] == 65 {
        assert(t@ =~= seq![65u8]);
        Ok((c2, Status::DataValid))
    } else if t.len() == 1 && t[0] == 86 {
        assert(t@ =~= seq![86u8]);
        Ok((c2, Status::DataInvalid))
    } else {
        Err(DecodeError::MalformedField(c, t))
    }
}

/// What the mandatory positioning-mode field yields: one mode character.
pub open spec fn spec_parse_pos_mode(s: Seq<u8>, c: int) -> Result<(int, Fix), DecodeErrorV> {
    match spec_scan_token(s, c) {
        Err(e) => Err(e),
        Ok((c2, t)) => if t.len() == 1 && fix_char(t[0]) {
            Ok((c2, fix_of(t[0])))
        } else {
            Err(DecodeErrorV::MalformedField(c, t))
        },
    }
}

/// Consumes the mandatory positioning-mode field.
pub fn parse_pos_mode(s: &[u8], c: usize) -> (r: Result<(usize, Fix), DecodeError>)
    requires
        c <= s@.len() + 1,
        s@.len() < usize::MAX,
    ensures
        (match r {
            Ok((c2, v)) => spec_parse_pos_mode(s@, c as int) == Ok::<_, DecodeErrorV>((
                c2 as int,
                v,
            )),
            Err(e) => spec_parse_pos_mode(s@, c as int) == Err::<(int, Fix), _>(e@),
        }),
        (match r {
            Ok(p) => p.0 <= s@.len() + 1,
            _ => true,
        }),
{
    let (c2, t) = match scan_token(s, c) {
        Ok(x) => x,
        Err(e) => {
            return Err(e);
        },
    };
    if t.len() == 1 {
        let b = t[0];
        if b == 78 || b == 65 || b == 68 || b == 69 || b == 70 || b == 82 {
            return Ok((c2, fix_lookup(b)));
        }
    }
    Err(DecodeError::MalformedField(c, t))
}

/// What the multi-character positioning-mode field yields: one mode per
/// character, an empty field giving an empty list.
pub open spec fn spec_parse_pos_mode_vec(s: Seq<u8>, c: int) -> Result<
    (int, Seq<Fix>),
    DecodeErrorV,
> {
    match spec_scan_token(s, c) {
        Err(e) => Err(e),
        Ok((c2, t)) => if forall|k: int| 0 <= k < t.len() ==> fix_char(t[k]) {
            Ok((c2, Seq::new(t.len(), |k: int| fix_of(t[k]))))
        } else {
            Err(DecodeErrorV::MalformedField(c, t))
        },
    }
}

/// Consumes the positioning-mode field that carries one mode character per
/// navigation system.
pub fn parse_pos_mode_vec(s: &[u8], c: usize) -> (r: Result<(usize, Vec<Fix>), DecodeError>)
    requires
        c <= s@.len() + 1,
        s@.len() < usize::MAX,
    ensures
        (match r {
            Ok((c2, v)) => spec_parse_pos_mode_vec(s@, c as int) == Ok::<_, DecodeErrorV>((
                c2 as int,
                v@,
            )),
            Err(e) => spec_parse_pos_mode_vec(s@, c as int) == Err::<(int, Seq<Fix>), _>(e@),
        }),
        (match r {
            Ok(p) => p.0 <= s@.len() + 1,
            _ => true,
        }),
{
    let (c2, t) = match scan_token(s, c) {
        Ok(x) => x,
        Err(e) => {
            return Err(e);
        },
    };
    let n = t.len();
    let mut v: Vec<Fix> = Vec::new();
    let mut k: usize = 0;
    while k < n
        invariant
            0 <= k <= n == t@.len(),
            spec_scan_token(s@, c as int) == Ok::<_, DecodeErrorV>((c2 as int, t@)),
            forall|q: int| 0 <= q < k ==> fix_char(t@[q]),
            v@ =~= Seq::new(k as nat, |q: int| fix_of(t@[q])),
        decreases n - k,
    {
        let b = t[k];
        if !(b == 78 || b == 65 || b == 68 || b == 69 || b == 70 || b == 82) {
            assert(!fix_char(t@[k as int]));
            assert(!(forall|q: int| 0 <= q < t@.len() ==> fix_char(t@[q])));
            return Err(DecodeError::MalformedField(c, t));
        }
        v.push(fix_lookup(b));
        k = k + 1;
    }
    assert(v@ =~= Seq::new(t@.len(), |q: int| fix_of(t@[q])));
    Ok((c2, v))
}

/// What the mandatory navigational-status field yields (`S`, `C`, `U`, `V`).
pub open spec fn spec_parse_navigational_status(s: Seq<u8>, c: int) -> Result<
    (int, NavigationalStatus),
    DecodeErrorV,
> {
    match spec_scan_token(s, c) {
        Err(e) => Err(e),
        Ok((c2, t)) => if t =~= seq![83u8] {
            Ok((c2, NavigationalStatus::Safe))
        } else if t =~= seq![67u8] {
            Ok((c2, NavigationalStatus::Caution))
        } else if t =~= seq![85u8] {
            Ok((c2, NavigationalStatus::Unsafe))
        } else if t =~= seq![86u8] {
            Ok((c2, NavigationalStatus::NotValid))
        } else {
            Err(DecodeErrorV::MalformedField(c, t))
        },
    }
}

/// Consumes the mandatory navigational-status field.
pub fn parse_navigational_status(s: &[u8], c: usize) -> (r: Result<
    (usize, NavigationalStatus),
    DecodeError,
>)
    requires
        c <= s@.len() + 1,
        s@.len() < usize::MAX,
    ensures
        (match r {
            Ok((c2, v)) => spec_parse_navigational_status(s@, c as int) == Ok::<_, DecodeErrorV>((
                c2 as int,
                v,
            )),
            Err(e) => spec_parse_navigational_status(s@, c as int) == Err::<
                (int, NavigationalStatus),
                _,
            >(e@),
        }),
        (match r {
            Ok(p) => p.0 <= s@.len() + 1,
            _ => true,
        }),
{
    let (c2, t) = match scan_token(s, c) {
        Ok(x) => x,
        Err(e) => {
            return Err(e);
        },
    };
    if t.len() == 1 && t[0] == 83 {
        assert(t@ =~= seq![83u8]);
        Ok((c2, NavigationalStatus::Safe))
    } else if t.len() == 1 && t[0] == 67 {
        assert(t@ =~= seq![67u8]);
        Ok((c2, NavigationalStatus::Caution))
    } else if t.len() == 1 && t[0] == 85 {
        assert(t@ =~= seq![85u8]);
        Ok((c2, NavigationalStatus::Unsafe))
    } else if t.len() == 1 && t[0] == 86 {
        assert(t@ =~= seq![86u8]);
        Ok((c2, NavigationalStatus::NotValid))
    } else {
        Err(DecodeError::MalformedField(c, t))
    }
}

/// What the optional computation-method field yields: `0` residuals used in
/// the fix, `1` residuals recomputed after it.
pub open spec fn spec_parse_computation_method(s: Seq<u8>, c: int) -> Result<
    (int, Option<ComputationMethod>),
    DecodeErrorV,
> {
    match spec_scan_token(s, c) {
        Err(e) => Err(e),
        Ok((c2, t)) => if t.len() == 0 {
            Ok((c2, None))
        } else if t =~= seq![48u8] {
            Ok((c2, Some(ComputationMethod::InGGA)))
        } else if t =~= seq![49u8] {
            Ok((c2, Some(ComputationMethod::AfterGGA)))
        } else {
            Err(DecodeErrorV::MalformedField(c, t))
        },
    }
}

/// Consumes the optional residual-computation-method field.
pub fn parse_computation_method(s: &[u8], c: usize) -> (r: Result<
    (usize, Option<ComputationMethod>),
    DecodeError,
>)
    requires
        c <= s@.len() + 1,
        s@.len() < usize::MAX,
    ensures
        (match r {
            Ok((c2, v)) => spec_parse_computation_method(s@, c as int) == Ok::<_, DecodeErrorV>((
                c2 as int,
                v,
            )),
            Err(e) => spec_parse_computation_method(s@, c as int) == Err::<
                (int, Option<ComputationMethod>),
                _,
            >(e@),
        }),
        (match r {
            Ok(p) => p.0 <= s@.len() + 1,
            _ => true,
        }),
{
    let (c2, t) = match scan_token(s, c) {
        Ok(x) => x,
        Err(e) => {
            return Err(e);
        },
    };
    if t.len() == 0 {
        Ok((c2, None))
    } else if t.len() == 1 && t[0] == 48 {
        assert(t@ =~= seq![48u8]);
        Ok((c2, Some(ComputationMethod::InGGA)))
    } else if t.len() == 1 && t[0] == 49 {
        assert(t@ =~= seq![49u8]);
        Ok((c2, Some(ComputationMethod::AfterGGA)))
    } else {
        Err(DecodeError::MalformedField(c, t))
    }
}

/// What the optional course unit field yields: `T` degrees true, `M` degrees
/// magnetic.
pub open spec fn spec_parse_course_over_ground_unit(s: Seq<u8>, c: int) -> Result<
    (int, Option<CourseOverGroundUnit>),
    DecodeErrorV,
> {
    match spec_scan_token(s, c) {
        Err(e) => Err(e),
        Ok((c2, t)) => if t.len() == 0 {
            Ok((c2, None))
        } else if t =~= seq![84u8] {
            Ok((c2, Some(CourseOverGroundUnit::DegreesTrue)))
        } else if t =~= seq![77u8] {
            Ok((c2, Some(CourseOverGroundUnit::DegreesMagnetic)))
        } else {
            Err(DecodeErrorV::MalformedField(c, t))
        },
    }
}

/// Consumes the optional course-over-ground unit field.
pub fn parse_course_over_ground_unit(s: &[u8], c: usize) -> (r: Result<
    (usize, Option<CourseOverGroundUnit>),
    DecodeError,
>)
    requires
        c <= s@.len() + 1,
        s@.len() < usize::MAX,
    ensures
        (match r {
            Ok((c2, v)) => spec_parse_course_over_ground_unit(s@, c as int) == Ok::<
                _,
                DecodeErrorV,
            >((c2 as int, v)),
            Err(e) => spec_parse_course_over_ground_unit(s@, c as int) == Err::<
                (int, Option<CourseOverGroundUnit>),
                _,
            >(e@),
        }),
        (match r {
            Ok(p) => p.0 <= s@.len() + 1,
            _ => true,
        }),
{
    let (c2, t) = match scan_token(s, c) {
        Ok(x) => x,
        Err(e) => {
            return Err(e);
        },
    };
    if t.len() == 0 {
        Ok((c2, None))
    } else if t.len() == 1 && t[0] == 84 {
        assert(t@ =~= seq![84u8]);
        Ok((c2, Some(CourseOverGroundUnit::DegreesTrue)))
    } else if t.len() == 1 && t[0] == 77 {
        assert(t@ =~= seq![77u8]);
        Ok((c2, Some(CourseOverGroundUnit::DegreesMagnetic)))
    } else {
        Err(DecodeError::MalformedField(c, t))
    }
}

/// What the optional speed unit field yields: `N` knots, `K` kilometers per
/// hour.
pub open spec fn spec_parse_speed_over_ground_unit(s: Seq<u8>, c: int) -> Result<
    (int, Option<SpeedOverGroundUnit>),
    DecodeErrorV,
> {
    match spec_scan_token(s, c) {
        Err(e) => Err(e),
        Ok((c2, t)) => if t.len() == 0 {
            Ok((c2, None))
        } else if t =~= seq![78u8] {
            Ok((c2, Some(SpeedOverGroundUnit::Knots)))
        } else if t =~= seq![75u8] {
            Ok((c2, Some(SpeedOverGroundUnit::KilometersPerHour)))
        } else {
            Err(DecodeErrorV::MalformedField(c, t))
        },
    }
}

/// Consumes the optional speed-over-ground unit field.
pub fn parse_speed_over_ground_unit(s: &[u8], c: usize) -> (r: Result<
    (usize, Option<SpeedOverGroundUnit>),
    DecodeError,
>)
    requires
        c <= s@.len() + 1,
        s@.len() < usize::MAX,
    ensures
        (match r {
            Ok((c2, v)) => spec_parse_speed_over_ground_unit(s@, c as int) == Ok::<
                _,
                DecodeErrorV,
            >((c2 as int, v)),
            Err(e) => spec_parse_speed_over_ground_unit(s@, c as int) == Err::<
                (int, Option<SpeedOverGroundUnit>),
                _,
            >(e@),
        }),
        (match r {
            Ok(p) => p.0 <= s@.len() + 1,
            _ => true,
        }),
{
    let (c2, t) = match scan_token(s, c) {
        Ok(x) => x,
        Err(e) => {
            return Err(e);
        },
    };
    if t.len() == 0 {
        Ok((c2, None))
    } else if t.len() == 1 && t[0] == 78 {
        assert(t@ =~= seq![78u8]);
        Ok((c2, Some(SpeedOverGroundUnit::Knots)))
    } else if t.len() == 1 && t[0] == 75 {
        assert(t@ =~= seq![75u8]);
        Ok((c2, Some(SpeedOverGroundUnit::KilometersPerHour)))
    } else {
        Err(DecodeError::MalformedField(c, t))
    }
}

} // verus!
