//! GNSS range residuals.

use vstd::prelude::*;
use crate::errors::DecodeError;
use crate::errors::DecodeErrorV;
use crate::fields::distance::spec_parse_residuals;
use crate::fields::distance::parse_residuals;
use crate::fields::identity::parse_signal;
use crate::fields::identity::parse_system;
use crate::fields::parameter::ComputationMethod;
use crate::fields::parameter::spec_parse_computation_method;
use crate::fields::parameter::parse_computation_method;
use crate::fields::time::Time;
use crate::fields::time::spec_parse_time;
use crate::fields::time::parse_time;
use crate::tokens::spec_scan_u8;
use crate::units::Meter;

verus! {

/// GNSS range residuals.
#[derive(Debug, PartialEq, Eq, Clone)]
pub struct GRSMessage {
    /// UTC time of associated position fix
    pub time: Option<Time>,
    /// Computation method used
    pub mode: Option<ComputationMethod>,
    /// Range residuals for the satellites used in navigation, twelve
    /// positional slots
    pub residuals: Vec<Option<Meter>>,
    /// GNSS system identifier
    pub system_id: Option<u8>,
    /// GNSS signal identifier
    pub signal_id: Option<u8>,
}

/// The mathematical image of a [`GRSMessage`].
pub struct GRSMessageV {
    pub time: Option<Time>,
    pub mode: Option<ComputationMethod>,
    pub residuals: Seq<Option<Meter>>,
    pub system_id: Option<u8>,
    pub signal_id: Option<u8>,
}

impl View for GRSMessage {
    type V = GRSMessageV;

    open spec fn view(&self) -> GRSMessageV {
        GRSMessageV {
            time: self.time,
            mode: self.mode,
            residuals: self.residuals@,
            system_id: self.system_id,
            signal_id: self.signal_id,
        }
    }
}

/// What the GRS field pipeline yields, in field order.
pub open spec fn spec_parse_grs(s: Seq<u8>) -> Result<(int, GRSMessageV), DecodeErrorV> {
    match spec_parse_time(s, 0) {
        Err(e) => Err(e),
        Ok((c1, time)) => match spec_parse_computation_method(s, c1) {
            Err(e) => Err(e),
            Ok((c2, mode)) => match spec_parse_residuals(s, c2) {
                Err(e) => Err(e),
                Ok((c3, residuals)) => match spec_scan_u8(s, c3) {
                    Err(e) => Err(e),
                    Ok((c4, system_id)) => match spec_scan_u8(s, c4) {
                        Err(e) => Err(e),
                        Ok((c5, signal_id)) => Ok(
                            (c5, GRSMessageV { time, mode, residuals, system_id, signal_id }),
                        ),
                    },
                },
            },
        },
    }
}

/// Decodes a GRS payload, returning the cursor past the consumed fields.
pub fn parse_grs(s: &[u8]) -> (r: Result<(usize, GRSMessage), DecodeError>)
    requires
        s@.len() < usize::MAX,
    ensures
        (match r {
            Ok((c, m)) => spec_parse_grs(s@) == Ok::<_, DecodeErrorV>((c as int, m@))
                && m.residuals@.len() == 12,
            Err(e) => spec_parse_grs(s@) == Err::<(int, GRSMessageV), _>(e@),
        }),
{
    let (c1, time) = match parse_time(s, 0) {
        Ok(x) => x,
        Err(e) => {
            return Err(e);
        },
    };
    let (c2, mode) = match parse_computation_method(s, c1) {
        Ok(x) => x,
        Err(e) => {
            return Err(e);
        },
    };
    let (c3, residuals) = match parse_residuals(s, c2) {
        Ok(x) => x,
        Err(e) => {
            return Err(e);
        },
    };
    let (c4, system_id) = match parse_system(s, c3) {
        Ok(x) => x,
        Err(e) => {
            return Err(e);
        },
    };
    let (c5, signal_id) = match parse_signal(s, c4) {
        Ok(x) => x,
        Err(e) => {
            return Err(e);
        },
    };
    Ok((c5, GRSMessage { time, mode, residuals, system_id, signal_id }))
}

} // verus!
