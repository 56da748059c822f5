//! Recommended minimum data.
//!
//! This sentence kind keeps the compact layout: an unsigned scaled degree
//! and a separate hemisphere indicator for latitude and longitude, both
//! retained unmodified — the sign is not folded into the angle here.

use vstd::prelude::*;
use crate::errors::DecodeError;
use crate::errors::DecodeErrorV;
use crate::fields::cardinality::EastWest;
use crate::fields::cardinality::NorthSouth;
use crate::fields::cardinality::spec_parse_east_west_indicator;
use crate::fields::cardinality::spec_parse_maybe_east_west_indicator;
use crate::fields::cardinality::spec_parse_north_south_indicator;
use crate::fields::cardinality::parse_east_west_indicator;
use crate::fields::cardinality::parse_maybe_east_west_indicator;
use crate::fields::cardinality::parse_north_south_indicator;
use crate::fields::distance::spec_parse_degree;
use crate::fields::distance::spec_parse_raw_degree;
use crate::fields::distance::parse_degree;
use crate::fields::distance::parse_raw_degree;
use crate::fields::parameter::Fix;
use crate::fields::parameter::NavigationalStatus;
use crate::fields::parameter::Status;
use crate::fields::parameter::spec_parse_navigational_status;
use crate::fields::parameter::spec_parse_pos_mode;
use crate::fields::parameter::spec_parse_status;
use crate::fields::parameter::parse_navigational_status;
use crate::fields::parameter::parse_pos_mode;
use crate::fields::parameter::parse_status;
use crate::fields::speed::spec_parse_knot;
use crate::fields::speed::parse_knot;
use crate::fields::time::Date;
use crate::fields::time::Time;
use crate::fields::time::spec_parse_date;
use crate::fields::time::spec_parse_time;
use crate::fields::time::parse_date;
use crate::fields::time::parse_time;
use crate::units::Degree;
use crate::units::Knot;

verus! {

/// Recommended minimum data.
#[derive(Debug, PartialEq, Eq, Structural, Clone, Copy)]
pub struct RMCMessage {
    /// UTC time
    pub time: Option<Time>,
    /// Data validity status
    pub status: Status,
    /// Latitude, unsigned
    pub lat: Option<Degree>,
    /// North/South indicator
    pub ns: NorthSouth,
    /// Longitude, unsigned
    pub lon: Option<Degree>,
    /// East/West indicator
    pub ew: EastWest,
    /// Speed over ground
    pub spd: Option<Knot>,
    /// Course over ground
    pub cog: Option<Degree>,
    /// Date of the position fix
    pub date: Option<Date>,
    /// Magnetic variation value
    pub mv: Option<Degree>,
    /// Magnetic variation E/W indicator
    pub mv_ew: Option<EastWest>,
    /// Mode indicator
    pub pos_mode: Fix,
    /// Navigational status indicator
    pub nav_status: NavigationalStatus,
}

/// What the RMC field pipeline yields, in field order.
pub open spec fn spec_parse_rmc(s: Seq<u8>) -> Result<(int, RMCMessage), DecodeErrorV> {
    match spec_parse_time(s, 0) {
        Err(e) => Err(e),
        Ok((c1, time)) => match spec_parse_status(s, c1) {
            Err(e) => Err(e),
            Ok((c2, status)) => match spec_parse_degree(s, c2) {
                Err(e) => Err(e),
                Ok((c3, lat)) => match spec_parse_north_south_indicator(s, c3) {
                    Err(e) => Err(e),
                    Ok((c4, ns)) => match spec_parse_degree(s, c4) {
                        Err(e) => Err(e),
                        Ok((c5, lon)) => match spec_parse_east_west_indicator(s, c5) {
                            Err(e) => Err(e),
                            Ok((c6, ew)) => match spec_parse_knot(s, c6) {
                                Err(e) => Err(e),
                                Ok((c7, spd)) => match spec_parse_raw_degree(s, c7) {
                                    Err(e) => Err(e),
                                    Ok((c8, cog)) => match spec_parse_date(s, c8) {
                                        Err(e) => Err(e),
                                        Ok((c9, date)) => match spec_parse_degree(s, c9) {
                                            Err(e) => Err(e),
                                            Ok((c10, mv)) => match spec_parse_maybe_east_west_indicator(
                                                s,
                                                c10,
                                            ) {
                                                Err(e) => Err(e),
                                                Ok((c11, mv_ew)) => match spec_parse_pos_mode(
                                                    s,
                                                    c11,
                                                ) {
                                                    Err(e) => Err(e),
                                                    Ok((c12, pos_mode)) => match spec_parse_navigational_status(
                                                        s,
                                                        c12,
                                                    ) {
                                                        Err(e) => Err(e),
                                                        Ok((c13, nav_status)) => Ok(
                                                            (
                                                                c13,
                                                                RMCMessage {
                                                                    time,
                                                                    status,
                                                                    lat,
                                                                    ns,
                                                                    lon,
                                                                    ew,
                                                                    spd,
                                                                    cog,
                                                                    date,
                                                                    mv,
                                                                    mv_ew,
                                                                    pos_mode,
                                                                    nav_status,
                                                                },
                                                            ),
                                                        ),
                                                    },
                                                },
                                            },
                                        },
                                    },
                                },
                            },
                        },
                    },
                },
            },
        },
    }
}

/// Decodes an RMC payload, returning the cursor past the consumed fields.
pub fn parse_rmc(s: &[u8]) -> (r: Result<(usize, RMCMessage), DecodeError>)
    requires
        s@.len() < usize::MAX,
    ensures
        (match r {
            Ok((c, m)) => spec_parse_rmc(s@) == Ok::<_, DecodeErrorV>((c as int, m)),
            Err(e) => spec_parse_rmc(s@) == Err::<(int, RMCMessage), _>(e@),
        }),
{
    let (c1, time) = match parse_time(s, 0) {
        Ok(x) => x,
        Err(e) => {
            return Err(e);
        },
    };
    let (c2, status) = match parse_status(s, c1) {
        Ok(x) => x,
        Err(e) => {
            return Err(e);
        },
    };
    let (c3, lat) = match parse_degree(s, c2) {
        Ok(x) => x,
        Err(e) => {
            return Err(e);
        },
    };
    let (c4, ns) = match parse_north_south_indicator(s, c3) {
        Ok(x) => x,
        Err(e) => {
            return Err(e);
        },
    };
    let (c5, lon) = match parse_degree(s, c4) {
        Ok(x) => x,
        Err(e) => {
            return Err(e);
        },
    };
    let (c6, ew) = match parse_east_west_indicator(s, c5) {
        Ok(x) => x,
        Err(e) => {
            return Err(e);
        },
    };
    let (c7, spd) = match parse_knot(s, c6) {
        Ok(x) => x,
        Err(e) => {
            return Err(e);
        },
    };
    let (c8, cog) = match parse_raw_degree(s, c7) {
        Ok(x) => x,
        Err(e) => {
            return Err(e);
        },
    };
    let (c9, date) = match parse_date(s, c8) {
        Ok(x) => x,
        Err(e) => {
            return Err(e);
        },
    };
    let (c10, mv) = match parse_degree(s, c9) {
        Ok(x) => x,
        Err(e) => {
            return Err(e);
        },
    };
    let (c11, mv_ew) = match parse_maybe_east_west_indicator(s, c10) {
        Ok(x) => x,
        Err(e) => {
            return Err(e);
        },
    };
    let (c12, pos_mode) = match parse_pos_mode(s, c11) {
        Ok(x) => x,
        Err(e) => {
            return Err(e);
        },
    };
    let (c13, nav_status) = match parse_navigational_status(s, c12) {
        Ok(x) => x,
        Err(e) => {
            return Err(e);
        },
    };
    Ok(
        (
            c13,
            RMCMessage {
                time,
                status,
                lat,
                ns,
                lon,
                ew,
                spd,
                cog,
                date,
                mv,
                mv_ew,
                pos_mode,
                nav_status,
            },
        ),
    )
}

} // verus!
