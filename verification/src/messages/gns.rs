//! GNSS fix data.
//!
//! This sentence kind keeps the compact layout: an unsigned scaled degree
//! and a separate hemisphere indicator for latitude and longitude, both
//! retained unmodified.

use vstd::prelude::*;
use crate::errors::DecodeError;
use crate::errors::DecodeErrorV;
use crate::fields::cardinality::EastWest;
use crate::fields::cardinality::NorthSouth;
use crate::fields::cardinality::spec_parse_maybe_east_west_indicator;
use crate::fields::cardinality::spec_parse_maybe_north_south_indicator;
use crate::fields::cardinality::parse_maybe_east_west_indicator;
use crate::fields::cardinality::parse_maybe_north_south_indicator;
use crate::fields::distance::spec_parse_degree;
use crate::fields::distance::spec_parse_meter;
use crate::fields::distance::spec_parse_second;
use crate::fields::distance::parse_degree;
use crate::fields::distance::parse_meter;
use crate::fields::distance::parse_second;
use crate::fields::parameter::Fix;
use crate::fields::parameter::Status;
use crate::fields::parameter::spec_parse_pos_mode_vec;
use crate::fields::parameter::spec_parse_status;
use crate::fields::parameter::parse_pos_mode_vec;
use crate::fields::parameter::parse_status;
use crate::fields::time::Time;
use crate::fields::time::spec_parse_time;
use crate::fields::time::parse_time;
use crate::tokens::spec_scan_number;
use crate::tokens::spec_scan_u8;
use crate::tokens::scan_number;
use crate::tokens::scan_u8;
use crate::units::Dec;
use crate::units::Degree;
use crate::units::Meter;
use crate::units::Second;

verus! {

/// GNSS fix data.
#[derive(Debug, PartialEq, Eq, Clone)]
pub struct GNSMessage {
    /// UTC time
    pub time: Option<Time>,
    /// Latitude, unsigned
    pub lat: Option<Degree>,
    /// North/South indicator
    pub ns: Option<NorthSouth>,
    /// Longitude, unsigned
    pub lon: Option<Degree>,
    /// East/West indicator
    pub ew: Option<EastWest>,
    /// Positioning mode, one entry per navigation system
    pub pos_mode: Vec<Fix>,
    /// Number of satellites used
    pub num_sv: Option<u8>,
    /// Horizontal dilution of precision
    pub hdop: Option<Dec>,
    /// Altitude above mean sea level
    pub alt: Option<Meter>,
    /// Geoid separation
    pub sep: Option<Meter>,
    /// Age of differential corrections
    pub diff_age: Option<Second>,
    /// Identifier of the station providing differential corrections
    pub diff_station: Option<u8>,
    /// Navigational status indicator
    pub nav_status: Status,
}

/// The mathematical image of a [`GNSMessage`].
pub struct GNSMessageV {
    pub time: Option<Time>,
    pub lat: Option<Degree>,
    pub ns: Option<NorthSouth>,
    pub lon: Option<Degree>,
    pub ew: Option<EastWest>,
    pub pos_mode: Seq<Fix>,
    pub num_sv: Option<u8>,
    pub hdop: Option<Dec>,
    pub alt: Option<Meter>,
    pub sep: Option<Meter>,
    pub diff_age: Option<Second>,
    pub diff_station: Option<u8>,
    pub nav_status: Status,
}

impl View for GNSMessage {
    type V = GNSMessageV;

    open spec fn view(&self) -> GNSMessageV {
        GNSMessageV {
            time: self.time,
            lat: self.lat,
            ns: self.ns,
            lon: self.lon,
            ew: self.ew,
            pos_mode: self.pos_mode@,
            num_sv: self.num_sv,
            hdop: self.hdop,
            alt: self.alt,
            sep: self.sep,
            diff_age: self.diff_age,
            diff_station: self.diff_station,
            nav_status: self.nav_status,
        }
    }
}

/// What the GNS field pipeline yields, in field order.
pub open spec fn spec_parse_gns(s: Seq<u8>) -> Result<(int, GNSMessageV), DecodeErrorV> {
    match spec_parse_time(s, 0) {
        Err(e) => Err(e),
        Ok((c1, time)) => match spec_parse_degree(s, c1) {
            Err(e) => Err(e),
            Ok((c2, lat)) => match spec_parse_maybe_north_south_indicator(s, c2) {
                Err(e) => Err(e),
                Ok((c3, ns)) => match spec_parse_degree(s, c3) {
                    Err(e) => Err(e),
                    Ok((c4, lon)) => match spec_parse_maybe_east_west_indicator(s, c4) {
                        Err(e) => Err(e),
                        Ok((c5, ew)) => match spec_parse_pos_mode_vec(s, c5) {
                            Err(e) => Err(e),
                            Ok((c6, pos_mode)) => match spec_scan_u8(s, c6) {
                                Err(e) => Err(e),
                                Ok((c7, num_sv)) => match spec_scan_number(s, c7) {
                                    Err(e) => Err(e),
                                    Ok((c8, hdop)) => match spec_parse_meter(s, c8) {
                                        Err(e) => Err(e),
                                        Ok((c9, alt)) => match spec_parse_meter(s, c9) {
                                            Err(e) => Err(e),
                                            Ok((c10, sep)) => match spec_parse_second(s, c10) {
                                                Err(e) => Err(e),
                                                Ok((c11, diff_age)) => match spec_scan_u8(
                                                    s,
                                                    c11,
                                                ) {
                                                    Err(e) => Err(e),
                                                    Ok((c12, diff_station)) => match spec_parse_status(
                                                        s,
                                                        c12,
                                                    ) {
                                                        Err(e) => Err(e),
                                                        Ok((c13, nav_status)) => Ok(
                                                            (
                                                                c13,
                                                                GNSMessageV {
                                                                    time,
                                                                    lat,
                                                                    ns,
                                                                    lon,
                                                                    ew,
                                                                    pos_mode,
                                                                    num_sv,
                                                                    hdop,
                                                                    alt,
                                                                    sep,
                                                                    diff_age,
                                                                    diff_station,
                                                                    nav_status,
                                                                },
                                                            ),
                                                        ),
                                                    },
                                                },
                                            },
                                        },
                                    },
                                },
                            },
                        },
                    },
                },
            },
        },
    }
}

/// Decodes a GNS payload, returning the cursor past the consumed fields.
pub fn parse_gns(s: &[u8]) -> (r: Result<(usize, GNSMessage), DecodeError>)
    requires
        s@.len() < usize::MAX,
    ensures
        (match r {
            Ok((c, m)) => spec_parse_gns(s@) == Ok::<_, DecodeErrorV>((c as int, m@)),
            Err(e) => spec_parse_gns(s@) == Err::<(int, GNSMessageV), _>(e@),
        }),
{
    let (c1, time) = match parse_time(s, 0) {
        Ok(x) => x,
        Err(e) => {
            return Err(e);
        },
    };
    let (c2, lat) = match parse_degree(s, c1) {
        Ok(x) => x,
        Err(e) => {
            return Err(e);
        },
    };
    let (c3, ns) = match parse_maybe_north_south_indicator(s, c2) {
        Ok(x) => x,
        Err(e) => {
            return Err(e);
        },
    };
    let (c4, lon) = match parse_degree(s, c3) {
        Ok(x) => x,
        Err(e) => {
            return Err(e);
        },
    };
    let (c5, ew) = match parse_maybe_east_west_indicator(s, c4) {
        Ok(x) => x,
        Err(e) => {
            return Err(e);
        },
    };
    let (c6, pos_mode) = match parse_pos_mode_vec(s, c5) {
        Ok(x) => x,
        Err(e) => {
            return Err(e);
        },
    };
    let (c7, num_sv) = match scan_u8(s, c6) {
        Ok(x) => x,
        Err(e) => {
            return Err(e);
        },
    };
    let (c8, hdop) = match scan_number(s, c7) {
        Ok(x) => x,
        Err(e) => {
            return Err(e);
        },
    };
    let (c9, alt) = match parse_meter(s, c8) {
        Ok(x) => x,
        Err(e) => {
            return Err(e);
        },
    };
    let (c10, sep) = match parse_meter(s, c9) {
        Ok(x) => x,
        Err(e) => {
            return Err(e);
        },
    };
    let (c11, diff_age) = match parse_second(s, c10) {
        Ok(x) => x,
        Err(e) => {
            return Err(e);
        },
    };
    let (c12, diff_station) = match scan_u8(s, c11) {
        Ok(x) => x,
        Err(e) => {
            return Err(e);
        },
    };
    let (c13, nav_status) = match parse_status(s, c12) {
        Ok(x) => x,
        Err(e) => {
            return Err(e);
        },
    };
    Ok(
        (
            c13,
            GNSMessage {
                time,
                lat,
                ns,
                lon,
                ew,
                pos_mode,
                num_sv,
                hdop,
                alt,
                sep,
                diff_age,
                diff_station,
                nav_status,
            },
        ),
    )
}

} // verus!
