//! GNSS pseudorange error statistics.

use vstd::prelude::*;
use crate::errors::DecodeError;
use crate::errors::DecodeErrorV;
use crate::fields::distance::spec_parse_meter;
use crate::fields::distance::spec_parse_raw_degree;
use crate::fields::distance::parse_meter;
use crate::fields::distance::parse_raw_degree;
use crate::fields::time::Time;
use crate::fields::time::spec_parse_time;
use crate::fields::time::parse_time;
use crate::units::Degree;
use crate::units::Meter;

verus! {

/// GNSS pseudorange error statistics.
#[derive(Debug, PartialEq, Eq, Structural, Clone, Copy)]
pub struct GSTMessage {
    /// UTC time of associated position fix
    pub time: Option<Time>,
    /// RMS value of the standard deviation of the ranges
    pub range_rms: Option<Meter>,
    /// Standard deviation of semi-major axis
    pub std_major: Option<Meter>,
    /// Standard deviation of semi-minor axis
    pub std_minor: Option<Meter>,
    /// Orientation of semi-major axis
    pub orient: Option<Degree>,
    /// Standard deviation of latitude error
    pub std_lat: Option<Meter>,
    /// Standard deviation of longitude error
    pub std_lon: Option<Meter>,
    /// Standard deviation of altitude error
    pub std_alt: Option<Meter>,
}

/// What the GST field pipeline yields, in field order.
pub open spec fn spec_parse_gst(s: Seq<u8>) -> Result<(int, GSTMessage), DecodeErrorV> {
    match spec_parse_time(s, 0) {
        Err(e) => Err(e),
        Ok((c1, time)) => match spec_parse_meter(s, c1) {
            Err(e) => Err(e),
            Ok((c2, range_rms)) => match spec_parse_meter(s, c2) {
                Err(e) => Err(e),
                Ok((c3, std_major)) => match spec_parse_meter(s, c3) {
                    Err(e) => Err(e),
                    Ok((c4, std_minor)) => match spec_parse_raw_degree(s, c4) {
                        Err(e) => Err(e),
                        Ok((c5, orient)) => match spec_parse_meter(s, c5) {
                            Err(e) => Err(e),
                            Ok((c6, std_lat)) => match spec_parse_meter(s, c6) {
                                Err(e) => Err(e),
                                Ok((c7, std_lon)) => match spec_parse_meter(s, c7) {
                                    Err(e) => Err(e),
                                    Ok((c8, std_alt)) => Ok(
                                        (
                                            c8,
                                            GSTMessage {
                                                time,
                                                range_rms,
                                                std_major,
                                                std_minor,
                                                orient,
                                                std_lat,
                                                std_lon,
                                                std_alt,
                                            },
                                        ),
                                    ),
                                },
                            },
                        },
                    },
                },
            },
        },
    }
}

/// Decodes a GST payload, returning the cursor past the consumed fields.
pub fn parse_gst(s: &[u8]) -> (r: Result<(usize, GSTMessage), DecodeError>)
    requires
        s@.len() < usize::MAX,
    ensures
        (match r {
            Ok((c, m)) => spec_parse_gst(s@) == Ok::<_, DecodeErrorV>((c as int, m)),
            Err(e) => spec_parse_gst(s@) == Err::<(int, GSTMessage), _>(e@),
        }),
{
    let (c1, time) = match parse_time(s, 0) {
        Ok(x) => x,
        Err(e) => {
            return Err(e);
        },
    };
    let (c2, range_rms) = match parse_meter(s, c1) {
        Ok(x) => x,
        Err(e) => {
            return Err(e);
        },
    };
    let (c3, std_major) = match parse_meter(s, c2) {
        Ok(x) => x,
        Err(e) => {
            return Err(e);
        },
    };
    let (c4, std_minor) = match parse_meter(s, c3) {
        Ok(x) => x,
        Err(e) => {
            return Err(e);
        },
    };
    let (c5, orient) = match parse_raw_degree(s, c4) {
        Ok(x) => x,
        Err(e) => {
            return Err(e);
        },
    };
    let (c6, std_lat) = match parse_meter(s, c5) {
        Ok(x) => x,
        Err(e) => {
            return Err(e);
        },
    };
    let (c7, std_lon) = match parse_meter(s, c6) {
        Ok(x) => x,
        Err(e) => {
            return Err(e);
        },
    };
    let (c8, std_alt) = match parse_meter(s, c7) {
        Ok(x) => x,
        Err(e) => {
            return Err(e);
        },
    };
    Ok((c8, GSTMessage { time, range_rms, std_major, std_minor, orient, std_lat, std_lon, std_alt }))
}

} // verus!
