//! Speed fields.

use vstd::prelude::*;
use crate::errors::DecodeError;
use crate::errors::DecodeErrorV;
use crate::tokens::spec_scan_number;
use crate::tokens::scan_number;
use crate::units::Knot;

verus! {

/// What the optional speed field yields: the exact decimal tagged as knots.
pub open spec fn spec_parse_knot(s: Seq<u8>, c: int) -> Result<(int, Option<Knot>), DecodeErrorV> {
    match spec_scan_number(s, c) {
        Err(e) => Err(e),
        Ok((c2, v)) => Ok(
            (
                c2,
                match v {
                    Some(d) => Some(Knot(d)),
                    None => None,
                },
            ),
        ),
    }
}

/// Consumes the optional speed-in-knots field.
pub fn parse_knot(s: &[u8], c: usize) -> (r: Result<(usize, Option<Knot>), DecodeError>)
    requires
        c <= s@.len() + 1,
        s@.len() < usize::MAX,
    ensures
        (match r {
            Ok((c2, v)) => spec_parse_knot(s@, c as int) == Ok::<_, DecodeErrorV>((c2 as int, v)),
            Err(e) => spec_parse_knot(s@, c as int) == Err::<(int, Option<Knot>), _>(e@),
        }),
        (match r {
            Ok(p) => p.0 <= s@.len() + 1,
            _ => true,
        }),
{
    match scan_number(s, c) {
        Ok((c2, Some(d))) => Ok((c2, Some(Knot(d)))),
        Ok((c2, None)) => Ok((c2, None)),
        Err(e) => Err(e),
    }
}

} // verus!
