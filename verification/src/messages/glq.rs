//! Poll of a standard message when the talker is GL.

use vstd::prelude::*;
use crate::errors::DecodeError;
use crate::errors::DecodeErrorV;
use crate::tokens::spec_scan_token;
use crate::tokens::scan_token;

verus! {

/// Poll a standard message if the current talker is GL.
#[derive(Debug, PartialEq, Eq, Clone)]
pub struct GLQMessage {
    /// Message identifier of the message to be polled, copied out of the
    /// payload.
    pub msg_id: Vec<u8>,
}

/// The mathematical image of a [`GLQMessage`].
pub struct GLQMessageV {
    pub msg_id: Seq<u8>,
}

impl View for GLQMessage {
    type V = GLQMessageV;

    open spec fn view(&self) -> GLQMessageV {
        GLQMessageV { msg_id: self.msg_id@ }
    }
}

/// What the GLQ field pipeline yields: the polled message identifier.
pub open spec fn spec_parse_glq(s: Seq<u8>) -> Result<(int, GLQMessageV), DecodeErrorV> {
    match spec_scan_token(s, 0) {
        Err(e) => Err(e),
        Ok((c, t)) => Ok((c, GLQMessageV { msg_id: t })),
    }
}

/// Decodes a GLQ payload, returning the cursor past the consumed fields.
pub fn parse_glq(s: &[u8]) -> (r: Result<(usize, GLQMessage), DecodeError>)
    requires
        s@.len() < usize::MAX,
    ensures
        (match r {
            Ok((c, m)) => spec_parse_glq(s@) == Ok::<_, DecodeErrorV>((c as int, m@)),
            Err(e) => spec_parse_glq(s@) == Err::<(int, GLQMessageV), _>(e@),
        }),
{
    match scan_token(s, 0) {
        Ok((c, t)) => Ok((c, GLQMessage { msg_id: t })),
        Err(e) => Err(e),
    }
}

} // verus!
