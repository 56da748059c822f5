//! Poll of a standard message when the talker is GN.

use vstd::prelude::*;
use crate::errors::DecodeError;
use crate::errors::DecodeErrorV;
use crate::tokens::spec_scan_token;
use crate::tokens::scan_token;

verus! {

/// Poll a standard message if the current talker is GN.
#[derive(Debug, PartialEq, Eq, Clone)]
pub struct GNQMessage {
    /// Message identifier of the message to be polled, copied out of the
    /// payload.
    pub msg_id: Vec<u8>,
}

/// The mathematical image of a [`GNQMessage`].
pub struct GNQMessageV {
    pub msg_id: Seq<u8>,
}

impl View for GNQMessage {
    type V = GNQMessageV;

    open spec fn view(&self) -> GNQMessageV {
        GNQMessageV { msg_id: self.msg_id@ }
    }
}

/// What the GNQ field pipeline yields: the polled message identifier.
pub open spec fn spec_parse_gnq(s: Seq<u8>) -> Result<(int, GNQMessageV), DecodeErrorV> {
    match spec_scan_token(s, 0) {
        Err(e) => Err(e),
        Ok((c, t)) => Ok((c, GNQMessageV { msg_id: t })),
    }
}

/// Decodes a GNQ payload, returning the cursor past the consumed fields.
pub fn parse_gnq(s: &[u8]) -> (r: Result<(usize, GNQMessage), DecodeError>)
    requires
        s@.len() < usize::MAX,
    ensures
        (match r {
            Ok((c, m)) => spec_parse_gnq(s@) == Ok::<_, DecodeErrorV>((c as int, m@)),
            Err(e) => spec_parse_gnq(s@) == Err::<(int, GNQMessageV), _>(e@),
        }),
{
    match scan_token(s, 0) {
        Ok((c, t)) => Ok((c, GNQMessage { msg_id: t })),
        Err(e) => Err(e),
    }
}

} // verus!
