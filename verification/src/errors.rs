//! The typed errors of the decoder.
//!
//! Every failed decode returns exactly one of these values; no partially
//! decoded sentence is ever produced.

use vstd::prelude::*;
use crate::fields::identity::MessageType;

verus! {

/// A terminal decode error.
#[derive(Debug, PartialEq, Eq, Clone)]
pub enum DecodeError {
    /// The input was empty.
    EmptyInput,
    /// The input did not start with `$` or `!`, or held no `*` checksum
    /// delimiter.
    InvalidEnvelope,
    /// The checksummed data span was too short to hold the two-character
    /// talker code and the three-character message identifier.
    UnrecognizedTalkerLength,
    /// The message identifier is not in the registry of supported sentence
    /// kinds (or was not followed by its comma).
    UnsupportedMessageType(MessageType),
    /// A field failed to parse: the byte offset of the field within the span
    /// handed to the failing decoder, and the raw text of the field.  An
    /// offset one past that span with empty text means the decoder ran out
    /// of input.
    MalformedField(usize, Vec<u8>),
    /// The XOR-fold of the data span did not equal the transmitted checksum.
    ChecksumMismatch,
    /// Bytes were left over: after the checksum and CRLF, or after the last
    /// field of the message.
    TrailingData,
}

/// The mathematical image of a [`DecodeError`].
pub enum DecodeErrorV {
    EmptyInput,
    InvalidEnvelope,
    UnrecognizedTalkerLength,
    UnsupportedMessageType(MessageType),
    MalformedField(int, Seq<u8>),
    ChecksumMismatch,
    TrailingData,
}

impl View for DecodeError {
    type V = DecodeErrorV;

    open spec fn view(&self) -> DecodeErrorV {
        match self {
            DecodeError::EmptyInput => DecodeErrorV::EmptyInput,
            DecodeError::InvalidEnvelope => DecodeErrorV::InvalidEnvelope,
            DecodeError::UnrecognizedTalkerLength => DecodeErrorV::UnrecognizedTalkerLength,
            DecodeError::UnsupportedMessageType(m) => DecodeErrorV::UnsupportedMessageType(*m),
            DecodeError::MalformedField(pos, raw) => DecodeErrorV::MalformedField(*pos as int, raw@),
            DecodeError::ChecksumMismatch => DecodeErrorV::ChecksumMismatch,
            DecodeError::TrailingData => DecodeErrorV::TrailingData,
        }
    }
}

} // verus!
