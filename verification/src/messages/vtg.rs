//! Course over ground and ground speed.

use vstd::prelude::*;
use crate::errors::DecodeError;
use crate::errors::DecodeErrorV;
use crate::fields::parameter::CourseOverGroundUnit;
use crate::fields::parameter::Fix;
use crate::fields::parameter::SpeedOverGroundUnit;
use crate::fields::parameter::spec_parse_course_over_ground_unit;
use crate::fields::parameter::spec_parse_pos_mode;
use crate::fields::parameter::spec_parse_speed_over_ground_unit;
use crate::fields::parameter::parse_course_over_ground_unit;
use crate::fields::parameter::parse_pos_mode;
use crate::fields::parameter::parse_speed_over_ground_unit;
use crate::tokens::spec_scan_number;
use crate::tokens::scan_number;
use crate::units::Dec;

verus! {

/// Course over ground and ground speed.
#[derive(Debug, PartialEq, Eq, Structural, Clone, Copy)]
pub struct VTGMessage {
    /// Course over ground, true
    pub cogt: Option<Dec>,
    /// Unit tag of the true course
    pub cogt_unit: Option<CourseOverGroundUnit>,
    /// Course over ground, magnetic
    pub cogm: Option<Dec>,
    /// Unit tag of the magnetic course
    pub cogm_unit: Option<CourseOverGroundUnit>,
    /// Speed over ground in knots
    pub sogn: Option<Dec>,
    /// Unit tag of the speed in knots
    pub sogn_unit: Option<SpeedOverGroundUnit>,
    /// Speed over ground in kilometers per hour
    pub sogk: Option<Dec>,
    /// Unit tag of the speed in kilometers per hour
    pub sogk_unit: Option<SpeedOverGroundUnit>,
    /// Positioning mode
    pub pos_mode: Fix,
}

/// What the VTG field pipeline yields, in field order.
pub open spec fn spec_parse_vtg(s: Seq<u8>) -> Result<(int, VTGMessage), DecodeErrorV> {
    match spec_scan_number(s, 0) {
        Err(e) => Err(e),
        Ok((c1, cogt)) => match spec_parse_course_over_ground_unit(s, c1) {
            Err(e) => Err(e),
            Ok((c2, cogt_unit)) => match spec_scan_number(s, c2) {
                Err(e) => Err(e),
                Ok((c3, cogm)) => match spec_parse_course_over_ground_unit(s, c3) {
                    Err(e) => Err(e),
                    Ok((c4, cogm_unit)) => match spec_scan_number(s, c4) {
                        Err(e) => Err(e),
                        Ok((c5, sogn)) => match spec_parse_speed_over_ground_unit(s, c5) {
                            Err(e) => Err(e),
                            Ok((c6, sogn_unit)) => match spec_scan_number(s, c6) {
                                Err(e) => Err(e),
                                Ok((c7, sogk)) => match spec_parse_speed_over_ground_unit(s, c7) {
                                    Err(e) => Err(e),
                                    Ok((c8, sogk_unit)) => match spec_parse_pos_mode(s, c8) {
                                        Err(e) => Err(e),
                                        Ok((c9, pos_mode)) => Ok(
                                            (
                                                c9,
                                                VTGMessage {
                                                    cogt,
                                                    cogt_unit,
                                                    cogm,
                                                    cogm_unit,
                                                    sogn,
                                                    sogn_unit,
                                                    sogk,
                                                    sogk_unit,
                                                    pos_mode,
                                                },
                                            ),
                                        ),
                                    },
                                },
                            },
                        },
                    },
                },
            },
        },
    }
}

/// Decodes a VTG payload, returning the cursor past the consumed fields.
pub fn parse_vtg(s: &[u8]) -> (r: Result<(usize, VTGMessage), DecodeError>)
    requires
        s@.len() < usize::MAX,
    ensures
        (match r {
            Ok((c, m)) => spec_parse_vtg(s@) == Ok::<_, DecodeErrorV>((c as int, m)),
            Err(e) => spec_parse_vtg(s@) == Err::<(int, VTGMessage), _>(e@),
        }),
{
    let (c1, cogt) = match scan_number(s, 0) {
        Ok(x) => x,
        Err(e) => {
            return Err(e);
        },
    };
    let (c2, cogt_unit) = match parse_course_over_ground_unit(s, c1) {
        Ok(x) => x,
        Err(e) => {
            return Err(e);
        },
    };
    let (c3, cogm) = match scan_number(s, c2) {
        Ok(x) => x,
        Err(e) => {
            return Err(e);
        },
    };
    let (c4, cogm_unit) = match parse_course_over_ground_unit(s, c3) {
        Ok(x) => x,
        Err(e) => {
            return Err(e);
        },
    };
    let (c5, sogn) = match scan_number(s, c4) {
        Ok(x) => x,
        Err(e) => {
            return Err(e);
        },
    };
    let (c6, sogn_unit) = match parse_speed_over_ground_unit(s, c5) {
        Ok(x) => x,
        Err(e) => {
            return Err(e);
        },
    };
    let (c7, sogk) = match scan_number(s, c6) {
        Ok(x) => x,
        Err(e) => {
            return Err(e);
        },
    };
    let (c8, sogk_unit) = match parse_speed_over_ground_unit(s, c7) {
        Ok(x) => x,
        Err(e) => {
            return Err(e);
        },
    };
    let (c9, pos_mode) = match parse_pos_mode(s, c8) {
        Ok(x) => x,
        Err(e) => {
            return Err(e);
        },
    };
    Ok((c9, VTGMessage { cogt, cogt_unit, cogm, cogm_unit, sogn, sogn_unit, sogk, sogk_unit, pos_mode }))
}

} // verus!
