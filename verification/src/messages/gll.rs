//! Latitude and longitude, with time of position fix and status.

use vstd::prelude::*;
use crate::errors::DecodeError;
use crate::errors::DecodeErrorV;
use crate::fields::distance::spec_parse_latitude;
use crate::fields::distance::spec_parse_longitude;
use crate::fields::distance::parse_latitude;
use crate::fields::distance::parse_longitude;
use crate::fields::parameter::Fix;
use crate::fields::parameter::Status;
use crate::fields::parameter::spec_parse_pos_mode;
use crate::fields::parameter::spec_parse_status;
use crate::fields::parameter::parse_pos_mode;
use crate::fields::parameter::parse_status;
use crate::fields::time::Time;
use crate::fields::time::spec_parse_time;
use crate::fields::time::parse_time;
use crate::units::Degree;

verus! {

/// Latitude and longitude, with time of position fix and status.
#[derive(Debug, PartialEq, Eq, Structural, Clone, Copy)]
pub struct GLLMessage {
    /// Latitude
    pub lat: Option<Degree>,
    /// Longitude
    pub lon: Option<Degree>,
    /// UTC time
    pub time: Option<Time>,
    /// Data validity status
    pub status: Status,
    /// Positioning mode
    pub pos_mode: Fix,
}

/// What the GLL field pipeline yields: latitude, longitude, time, status
/// and positioning mode, in that order.
pub open spec fn spec_parse_gll(s: Seq<u8>) -> Result<(int, GLLMessage), DecodeErrorV> {
    match spec_parse_latitude(s, 0) {
        Err(e) => Err(e),
        Ok((c1, lat)) => match spec_parse_longitude(s, c1) {
            Err(e) => Err(e),
            Ok((c2, lon)) => match spec_parse_time(s, c2) {
                Err(e) => Err(e),
                Ok((c3, time)) => match spec_parse_status(s, c3) {
                    Err(e) => Err(e),
                    Ok((c4, status)) => match spec_parse_pos_mode(s, c4) {
                        Err(e) => Err(e),
                        Ok((c5, pos_mode)) => Ok(
                            (c5, GLLMessage { lat, lon, time, status, pos_mode }),
                        ),
                    },
                },
            },
        },
    }
}

/// Decodes a GLL payload, returning the cursor past the consumed fields.
pub fn parse_gll(s: &[u8]) -> (r: Result<(usize, GLLMessage), DecodeError>)
    requires
        s@.len() < usize::MAX,
    ensures
        (match r {
            Ok((c, m)) => spec_parse_gll(s@) == Ok::<_, DecodeErrorV>((c as int, m)),
            Err(e) => spec_parse_gll(s@) == Err::<(int, GLLMessage), _>(e@),
        }),
        (match r {
            Ok(p) => p.0 <= s@.len() + 1,
            _ => true,
        }),
{
    let (c1, lat) = match parse_latitude(s, 0) {
        Ok(x) => x,
        Err(e) => {
            return Err(e);
        },
    };
    let (c2, lon) = match parse_longitude(s, c1) {
        Ok(x) => x,
        Err(e) => {
            return Err(e);
        },
    };
    let (c3, time) = match parse_time(s, c2) {
        Ok(x) => x,
        Err(e) => {
            return Err(e);
        },
    };
    let (c4, status) = match parse_status(s, c3) {
        Ok(x) => x,
        Err(e) => {
            return Err(e);
        },
    };
    let (c5, pos_mode) = match parse_pos_mode(s, c4) {
        Ok(x) => x,
        Err(e) => {
            return Err(e);
        },
    };
    Ok((c5, GLLMessage { lat, lon, time, status, pos_mode }))
}

} // verus!
