//! The top-level entry point: envelope validation, checksum check,
//! header extraction and message dispatch.
//!
//! A sentence reads `<'$' or '!'><talker:2><id:3>,<payload>*<checksum:2hex>\r\n`.
//! The data span — everything between the envelope character and the `*` —
//! is XOR-folded and held against the transmitted two-hex-digit checksum
//! before anything else is read; exactly CRLF must follow the checksum; the
//! selected message decoder must consume the whole payload.

use vstd::prelude::*;
use vstd::slice::slice_subrange;
use crate::errors::DecodeError;
use crate::errors::DecodeErrorV;
use crate::fields::identity::MessageType;
use crate::fields::identity::Talker;
use crate::fields::identity::talker_of;
use crate::fields::identity::talker_lookup;
use crate::fields::parameter::SentenceType;
use crate::messages::gll::spec_parse_gll;
use crate::messages::gll::parse_gll;
use crate::messages::glq::spec_parse_glq;
use crate::messages::glq::parse_glq;
use crate::messages::gnq::spec_parse_gnq;
use crate::messages::gnq::parse_gnq;
use crate::messages::gns::spec_parse_gns;
use crate::messages::gns::parse_gns;
use crate::messages::grs::spec_parse_grs;
use crate::messages::grs::parse_grs;
use crate::messages::gst::spec_parse_gst;
use crate::messages::gst::parse_gst;
use crate::messages::rmc::spec_parse_rmc;
use crate::messages::rmc::parse_rmc;
use crate::messages::vtg::spec_parse_vtg;
use crate::messages::vtg::parse_vtg;
use crate::sentence::structs::Message;
use crate::sentence::structs::MessageV;
use crate::sentence::structs::Sentence;
use crate::sentence::structs::SentenceV;
use crate::tokens::find_byte;
use crate::tokens::first_at;
use crate::tokens::lemma_first_at;

verus! {

/// The XOR-fold of a byte span.
pub open spec fn xor_fold(s: Seq<u8>) -> u8
    decreases s.len(),
{
    if s.len() == 0 {
        0
    } else {
        xor_fold(s.drop_last()) ^ s.last()
    }
}

/// XOR-folds the bytes of `s[a..b)`.
pub fn xor_range(s: &[u8], a: usize, b: usize) -> (r: u8)
    requires
        a <= b,
        b <= s@.len(),
    ensures
        r == xor_fold(s@.subrange(a as int, b as int)),
{
    let mut acc: u8 = 0;
    let mut k = a;
    while k < b
        invariant
            a <= k <= b <= s@.len(),
            acc == xor_fold(s@.subrange(a as int, k as int)),
        decreases b - k,
    {
        proof {
            let sub = s@.subrange(a as int, (k + 1) as int);
            assert(sub.drop_last() =~= s@.subrange(a as int, k as int));
            assert(sub.last() == s@[k as int]);
        }
        acc = acc ^ s[k];
        k = k + 1;
    }
    proof {
        assert(s@.subrange(a as int, b as int) =~= s@.subrange(a as int, k as int));
    }
    acc
}

/// Whether the XOR-fold of the data span equals the transmitted checksum.
pub fn sentence_is_valid(data: &[u8], checksum: u8) -> (r: bool)
    ensures
        r == (xor_fold(data@) == checksum),
{
    proof {
        assert(data@.subrange(0, data@.len() as int) =~= data@);
    }
    let x = xor_range(data, 0, data.len());
    x == checksum
}

pub open spec fn is_hex_digit(b: u8) -> bool {
    (48 <= b && b <= 57) || (65 <= b && b <= 70) || (97 <= b && b <= 102)
}

/// The value of one hexadecimal digit.
pub open spec fn hex_val(b: u8) -> nat {
    if 48 <= b && b <= 57 {
        (b - 48) as nat
    } else if 65 <= b && b <= 70 {
        (b - 55) as nat
    } else if 97 <= b && b <= 102 {
        (b - 87) as nat
    } else {
        0
    }
}

fn hex_val_of(b: u8) -> (r: u8)
    requires
        is_hex_digit(b),
    ensures
        r == hex_val(b),
{
    if 48 <= b && b <= 57 {
        b - 48
    } else if 65 <= b && b <= 70 {
        b - 55
    } else {
        b - 87
    }
}

/// What reading a checksum text yields: the value of its first two
/// hexadecimal digits; a shorter or non-hexadecimal text is malformed.
pub open spec fn spec_decode_cs(t: Seq<u8>) -> Result<u8, DecodeErrorV> {
    if t.len() < 2 {
        Err(DecodeErrorV::MalformedField(0, t))
    } else if !is_hex_digit(t[0]) || !is_hex_digit(t[1]) {
        Err(DecodeErrorV::MalformedField(0, t.subrange(0, 2)))
    } else {
        Ok((16 * hex_val(t[0]) + hex_val(t[1])) as u8)
    }
}

/// Reads the transmitted checksum from the start of `s`.
pub fn decode_cs(s: &[u8]) -> (r: Result<u8, DecodeError>)
    ensures
        (match r {
            Ok(v) => spec_decode_cs(s@) == Ok::<_, DecodeErrorV>(v),
            Err(e) => spec_decode_cs(s@) == Err::<u8, _>(e@),
        }),
{
    if s.len() < 2 {
        return Err(DecodeError::MalformedField(0, vstd::slice::slice_to_vec(s)));
    }
    let b0 = s[0];
    let b1 = s[1];
    if !((48 <= b0 && b0 <= 57) || (65 <= b0 && b0 <= 70) || (97 <= b0 && b0 <= 102)) || !((48
        <= b1 && b1 <= 57) || (65 <= b1 && b1 <= 70) || (97 <= b1 && b1 <= 102)) {
        return Err(
            DecodeError::MalformedField(0, vstd::slice::slice_to_vec(slice_subrange(s, 0, 2))),
        );
    }
    Ok(16 * hex_val_of(b0) + hex_val_of(b1))
}

/// What scanning for the terminator and reading the checksum yields: the
/// index of the carriage return and the value of the two hexadecimal digits
/// that open the span before it.
pub open spec fn spec_parse_checksum(s: Seq<u8>) -> Result<(int, u8), DecodeErrorV> {
    let j = first_at(s, 13, 0, s.len() as int);
    if j == s.len() {
        Err(DecodeErrorV::MalformedField(0, s))
    } else {
        match spec_decode_cs(s.subrange(0, j)) {
            Ok(v) => Ok((j, v)),
            Err(e) => Err(e),
        }
    }
}

/// Reads the transmitted checksum: the text up to the carriage return,
/// decoded through [`decode_cs`].
pub fn parse_checksum(s: &[u8]) -> (r: Result<(usize, u8), DecodeError>)
    ensures
        (match r {
            Ok((j, v)) => spec_parse_checksum(s@) == Ok::<_, DecodeErrorV>((j as int, v)),
            Err(e) => spec_parse_checksum(s@) == Err::<(int, u8), _>(e@),
        }),
{
    let n = s.len();
    let j = find_byte(s, 13, 0, n);
    proof {
        lemma_first_at(s@, 13, 0, n as int);
    }
    if j == n {
        return Err(DecodeError::MalformedField(0, vstd::slice::slice_to_vec(s)));
    }
    match decode_cs(slice_subrange(s, 0, j)) {
        Ok(v) => Ok((j, v)),
        Err(e) => Err(e),
    }
}

/// What the envelope character yields: `$` parametric, `!` encapsulation.
pub open spec fn spec_parse_sentence_type(s: Seq<u8>) -> Result<(int, SentenceType), DecodeErrorV> {
    if s.len() == 0 {
        Err(DecodeErrorV::EmptyInput)
    } else if s[0] == 36 {
        Ok((1, SentenceType::Parametric))
    } else if s[0] == 33 {
        Ok((1, SentenceType::Encapsulation))
    } else {
        Err(DecodeErrorV::InvalidEnvelope)
    }
}

/// Reads the envelope character.
pub fn parse_sentence_type(s: &[u8]) -> (r: Result<(usize, SentenceType), DecodeError>)
    ensures
        (match r {
            Ok((c, v)) => spec_parse_sentence_type(s@) == Ok::<_, DecodeErrorV>((c as int, v)),
            Err(e) => spec_parse_sentence_type(s@) == Err::<(int, SentenceType), _>(e@),
        }),
{
    if s.len() == 0 {
        Err(DecodeError::EmptyInput)
    } else if s[0] == 36 {
        Ok((1, SentenceType::Parametric))
    } else if s[0] == 33 {
        Ok((1, SentenceType::Encapsulation))
    } else {
        Err(DecodeError::InvalidEnvelope)
    }
}

/// What the three-character message identifier and its comma yield.
pub open spec fn spec_parse_message_type(s: Seq<u8>) -> Result<(int, MessageType), DecodeErrorV> {
    if s.len() < 4 {
        Err(DecodeErrorV::UnrecognizedTalkerLength)
    } else {
        let mt = MessageType { c0: s[0], c1: s[1], c2: s[2] };
        if s[3] != 44 {
            Err(DecodeErrorV::UnsupportedMessageType(mt))
        } else {
            Ok((4, mt))
        }
    }
}

/// Reads the three-character message identifier followed by its comma.
pub fn parse_message_type(s: &[u8]) -> (r: Result<(usize, MessageType), DecodeError>)
    ensures
        (match r {
            Ok((c, v)) => spec_parse_message_type(s@) == Ok::<_, DecodeErrorV>((c as int, v)),
            Err(e) => spec_parse_message_type(s@) == Err::<(int, MessageType), _>(e@),
        }),
{
    if s.len() < 4 {
        return Err(DecodeError::UnrecognizedTalkerLength);
    }
    let mt = MessageType { c0: s[0], c1: s[1], c2: s[2] };
    if s[3] != 44 {
        Err(DecodeError::UnsupportedMessageType(mt))
    } else {
        Ok((4, mt))
    }
}

/// What validating the span after the envelope character yields: the
/// payload bounds, the talker and the message identifier.  In order: the
/// `*` delimiter must exist (else the envelope is invalid), two checksum
/// characters must follow it (else the length error), both hexadecimal
/// (else the digit error); the XOR-fold of the data span must equal the
/// transmitted checksum; exactly CRLF must close the sentence; and the
/// data span must be long enough to hold the talker, the identifier and
/// its comma.
pub open spec fn spec_get_headers(s: Seq<u8>) -> Result<
    (int, int, Talker, MessageType),
    DecodeErrorV,
> {
    let n = s.len() as int;
    let star = first_at(s, 42, 0, n);
    if star == n {
        Err(DecodeErrorV::InvalidEnvelope)
    } else if n < star + 3 {
        Err(DecodeErrorV::MalformedField(star + 1, s.subrange(star + 1, n)))
    } else if !is_hex_digit(s[star + 1]) || !is_hex_digit(s[star + 2]) {
        Err(DecodeErrorV::MalformedField(star + 1, s.subrange(star + 1, star + 3)))
    } else if xor_fold(s.subrange(0, star)) != (16 * hex_val(s[star + 1]) + hex_val(
        s[star + 2],
    )) as u8 {
        Err(DecodeErrorV::ChecksumMismatch)
    } else if !(n == star + 5 && s[star + 3] == 13 && s[star + 4] == 10) {
        Err(DecodeErrorV::TrailingData)
    } else if star < 6 {
        Err(DecodeErrorV::UnrecognizedTalkerLength)
    } else {
        let mt = MessageType { c0: s[2], c1: s[3], c2: s[4] };
        if s[5] != 44 {
            Err(DecodeErrorV::UnsupportedMessageType(mt))
        } else {
            Ok((6, star, talker_of(s[0], s[1]), mt))
        }
    }
}

/// Validates the envelope tail and checksum of the span after the envelope
/// character and extracts the talker and message identifier; on success the
/// payload is `s[6..star]`.
pub fn get_headers_if_sentence_valid(s: &[u8]) -> (r: Result<
    (usize, usize, Talker, MessageType),
    DecodeError,
>)
    ensures
        (match r {
            Ok((p0, star, talker, mt)) => spec_get_headers(s@) == Ok::<_, DecodeErrorV>((
                p0 as int,
                star as int,
                talker,
                mt,
            )) && p0 == 6 && 6 <= star <= s@.len(),
            Err(e) => spec_get_headers(s@) == Err::<(int, int, Talker, MessageType), _>(e@),
        }),
{
    let n = s.len();
    let star = find_byte(s, 42, 0, n);
    proof {
        lemma_first_at(s@, 42, 0, n as int);
    }
    if star == n {
        return Err(DecodeError::InvalidEnvelope);
    }
    if n - star < 3 {
        return Err(
            DecodeError::MalformedField(
                star + 1,
                vstd::slice::slice_to_vec(slice_subrange(s, star + 1, n)),
            ),
        );
    }
    let h0 = s[star + 1];
    let h1 = s[star + 2];
    if !((48 <= h0 && h0 <= 57) || (65 <= h0 && h0 <= 70) || (97 <= h0 && h0 <= 102)) || !((48
        <= h1 && h1 <= 57) || (65 <= h1 && h1 <= 70) || (97 <= h1 && h1 <= 102)) {
        return Err(
            DecodeError::MalformedField(
                star + 1,
                vstd::slice::slice_to_vec(slice_subrange(s, star + 1, star + 3)),
            ),
        );
    }
    let cs = 16 * hex_val_of(h0) + hex_val_of(h1);
    let x = xor_range(s, 0, star);
    if x != cs {
        return Err(DecodeError::ChecksumMismatch);
    }
    if !(n - star == 5 && s[star + 3] == 13 && s[star + 4] == 10) {
        return Err(DecodeError::TrailingData);
    }
    if star < 6 {
        return Err(DecodeError::UnrecognizedTalkerLength);
    }
    let mt = MessageType { c0: s[2], c1: s[3], c2: s[4] };
    if s[5] != 44 {
        return Err(DecodeError::UnsupportedMessageType(mt));
    }
    let talker = talker_lookup(s[0], s[1]);
    Ok((6, star, talker, mt))
}

/// What dispatching a payload on the message identifier yields: the cursor
/// past the consumed fields and the decoded message, or the unsupported
/// identifier.
pub open spec fn spec_dispatch(mt: MessageType, p: Seq<u8>) -> Result<
    (int, MessageV),
    DecodeErrorV,
> {
    if mt == (MessageType { c0: 71, c1: 76, c2: 76 }) {
        match spec_parse_gll(p) {
            Err(e) => Err(e),
            Ok((c, m)) => Ok((c, MessageV::GLL(m))),
        }
    } else if mt == (MessageType { c0: 71, c1: 76, c2: 81 }) {
        match spec_parse_glq(p) {
            Err(e) => Err(e),
            Ok((c, m)) => Ok((c, MessageV::GLQ(m))),
        }
    } else if mt == (MessageType { c0: 71, c1: 78, c2: 81 }) {
        match spec_parse_gnq(p) {
            Err(e) => Err(e),
            Ok((c, m)) => Ok((c, MessageV::GNQ(m))),
        }
    } else if mt == (MessageType { c0: 71, c1: 78, c2: 83 }) {
        match spec_parse_gns(p) {
            Err(e) => Err(e),
            Ok((c, m)) => Ok((c, MessageV::GNS(m))),
        }
    } else if mt == (MessageType { c0: 71, c1: 82, c2: 83 }) {
        match spec_parse_grs(p) {
            Err(e) => Err(e),
            Ok((c, m)) => Ok((c, MessageV::GRS(m))),
        }
    } else if mt == (MessageType { c0: 71, c1: 83, c2: 84 }) {
        match spec_parse_gst(p) {
            Err(e) => Err(e),
            Ok((c, m)) => Ok((c, MessageV::GST(m))),
        }
    } else if mt == (MessageType { c0: 82, c1: 77, c2: 67 }) {
        match spec_parse_rmc(p) {
            Err(e) => Err(e),
            Ok((c, m)) => Ok((c, MessageV::RMC(m))),
        }
    } else if mt == (MessageType { c0: 86, c1: 84, c2: 71 }) {
        match spec_parse_vtg(p) {
            Err(e) => Err(e),
            Ok((c, m)) => Ok((c, MessageV::VTG(m))),
        }
    } else {
        Err(DecodeErrorV::UnsupportedMessageType(mt))
    }
}

/// What decoding one complete sentence yields: the decoded record when the
/// envelope, checksum, terminator, identifier and full field pipeline all
/// hold, and exactly one typed error otherwise.
pub open spec fn spec_parse_sentence(s: Seq<u8>) -> Result<SentenceV, DecodeErrorV> {
    match spec_parse_sentence_type(s) {
        Err(e) => Err(e),
        Ok((c0, st)) => {
            let rest = s.subrange(1, s.len() as int);
            match spec_get_headers(rest) {
                Err(e) => Err(e),
                Ok((p0, star, talker, mt)) => {
                    let payload = rest.subrange(6, star);
                    match spec_dispatch(mt, payload) {
                        Err(e) => Err(e),
                        Ok((c, message)) => if c >= payload.len() {
                            Ok(SentenceV { sentence_type: st, talker, message })
                        } else {
                            Err(DecodeErrorV::TrailingData)
                        },
                    }
                },
            }
        },
    }
}

/// Decodes one complete sentence, envelope to CRLF.  Total over every
/// input: it returns a [`Sentence`] or one typed error and never panics.
pub fn parse_sentence(input: &[u8]) -> (r: Result<Sentence, DecodeError>)
    ensures
        (match r {
            Ok(sv) => spec_parse_sentence(input@) == Ok::<_, DecodeErrorV>(sv@),
            Err(e) => spec_parse_sentence(input@) == Err::<SentenceV, _>(e@),
        }),
{
    let (_c0, sentence_type) = match parse_sentence_type(input) {
        Ok(x) => x,
        Err(e) => {
            return Err(e);
        },
    };
    let rest = slice_subrange(input, 1, input.len());
    let (_p0, star, talker, mt) = match get_headers_if_sentence_valid(rest) {
        Ok(x) => x,
        Err(e) => {
            return Err(e);
        },
    };
    let payload = slice_subrange(rest, 6, star);
    let (c, message): (usize, Message) = if mt.c0 == 71 && mt.c1 == 76 && mt.c2 == 76 {
        match parse_gll(payload) {
            Ok((c, m)) => (c, Message::GLL(m)),
            Err(e) => {
                return Err(e);
            },
        }
    } else if mt.c0 == 71 && mt.c1 == 76 && mt.c2 == 81 {
        match parse_glq(payload) {
            Ok((c, m)) => (c, Message::GLQ(m)),
            Err(e) => {
                return Err(e);
            },
        }
    } else if mt.c0 == 71 && mt.c1 == 78 && mt.c2 == 81 {
        match parse_gnq(payload) {
            Ok((c, m)) => (c, Message::GNQ(m)),
            Err(e) => {
                return Err(e);
            },
        }
    } else if mt.c0 == 71 && mt.c1 == 78 && mt.c2 == 83 {
        match parse_gns(payload) {
            Ok((c, m)) => (c, Message::GNS(m)),
            Err(e) => {
                return Err(e);
            },
        }
    } else if mt.c0 == 71 && mt.c1 == 82 && mt.c2 == 83 {
        match parse_grs(payload) {
            Ok((c, m)) => (c, Message::GRS(m)),
            Err(e) => {
                return Err(e);
            },
        }
    } else if mt.c0 == 71 && mt.c1 == 83 && mt.c2 == 84 {
        match parse_gst(payload) {
            Ok((c, m)) => (c, Message::GST(m)),
            Err(e) => {
                return Err(e);
            },
        }
    } else if mt.c0 == 82 && mt.c1 == 77 && mt.c2 == 67 {
        match parse_rmc(payload) {
            Ok((c, m)) => (c, Message::RMC(m)),
            Err(e) => {
                return Err(e);
            },
        }
    } else if mt.c0 == 86 && mt.c1 == 84 && mt.c2 == 71 {
        match parse_vtg(payload) {
            Ok((c, m)) => (c, Message::VTG(m)),
            Err(e) => {
                return Err(e);
            },
        }
    } else {
        return Err(DecodeError::UnsupportedMessageType(mt));
    };
    if c >= payload.len() {
        Ok(Sentence { sentence_type, talker, message })
    } else {
        Err(DecodeError::TrailingData)
    }
}

} // verus!
