//! The identity registry: talker codes and message identifiers.
//!
//! A talker is the two-character prefix of the data span; the registry maps
//! the known codes to named identities and retains an unknown code verbatim.
//! A message identifier is an exact three-character code.

use vstd::prelude::*;
use crate::errors::DecodeError;
use crate::errors::DecodeErrorV;
use crate::tokens::spec_scan_u8;
use crate::tokens::scan_u8;

verus! {

/// A two-character talker code kept verbatim.
#[derive(Debug, PartialEq, Eq, Structural, Clone, Copy)]
pub struct TalkerId {
    pub c0: u8,
    pub c1: u8,
}

impl TalkerId {
    pub fn new(c0: u8, c1: u8) -> (r: TalkerId)
        ensures
            r == (TalkerId { c0, c1 }),
    {
        TalkerId { c0, c1 }
    }
}

/// A three-character message identifier kept verbatim.
#[derive(Debug, PartialEq, Eq, Structural, Clone, Copy)]
pub struct MessageType {
    pub c0: u8,
    pub c1: u8,
    pub c2: u8,
}

impl MessageType {
    pub fn new(c0: u8, c1: u8, c2: u8) -> (r: MessageType)
        ensures
            r == (MessageType { c0, c1, c2 }),
    {
        MessageType { c0, c1, c2 }
    }
}

/// The device or subsystem that produced a sentence.  A code outside the
/// fixed registry is not an error: it is retained verbatim.
#[derive(Debug, PartialEq, Eq, Structural, Clone, Copy)]
pub enum Talker {
    AutomaticIdentificationSystem,
    BeiDou,
    DepthSounder,
    ElectronicChartDisplay,
    Galileo,
    Glonass,
    Gnss,
    Gps,
    HeadingMagneticCompass,
    HeadingNonNorthSeekingGyro,
    HeadingNorthSeekingGyro,
    IntegratedInstrumentation,
    IntegratedNavigation,
    NavIC,
    Qzss,
    WeatherInstrument,
    Unknown(TalkerId),
}

/// The fixed registry: which identity a two-character code names.
pub open spec fn talker_of(c0: u8, c1: u8) -> Talker {
    if c0 == 65 && c1 == 73 {
        Talker::AutomaticIdentificationSystem  // AI
    } else if c0 == 69 && c1 == 67 {
        Talker::ElectronicChartDisplay  // EC
    } else if c0 == 71 && c1 == 65 {
        Talker::Galileo  // GA
    } else if c0 == 71 && c1 == 66 {
        Talker::BeiDou  // GB
    } else if c0 == 71 && c1 == 73 {
        Talker::NavIC  // GI
    } else if c0 == 71 && c1 == 76 {
        Talker::Glonass  // GL
    } else if c0 == 71 && c1 == 78 {
        Talker::Gnss  // GN
    } else if c0 == 71 && c1 == 80 {
        Talker::Gps  // GP
    } else if c0 == 71 && c1 == 81 {
        Talker::Qzss  // GQ
    } else if c0 == 72 && c1 == 67 {
        Talker::HeadingMagneticCompass  // HC
    } else if c0 == 72 && c1 == 69 {
        Talker::HeadingNorthSeekingGyro  // HE
    } else if c0 == 72 && c1 == 78 {
        Talker::HeadingNonNorthSeekingGyro  // HN
    } else if c0 == 73 && c1 == 73 {
        Talker::IntegratedInstrumentation  // II
    } else if c0 == 73 && c1 == 78 {
        Talker::IntegratedNavigation  // IN
    } else if c0 == 83 && c1 == 68 {
        Talker::DepthSounder  // SD
    } else if c0 == 87 && c1 == 73 {
        Talker::WeatherInstrument  // WI
    } else {
        Talker::Unknown(TalkerId { c0, c1 })
    }
}

/// Looks a two-character code up in the registry.
pub fn talker_lookup(c0: u8, c1: u8) -> (t: Talker)
    ensures
        t == talker_of(c0, c1),
{
    if c0 == 65 && c1 == 73 {
        Talker::AutomaticIdentificationSystem
    } else if c0 == 69 && c1 == 67 {
        Talker::ElectronicChartDisplay
    } else if c0 == 71 && c1 == 65 {
        Talker::Galileo
    } else if c0 == 71 && c1 == 66 {
        Talker::BeiDou
    } else if c0 == 71 && c1 == 73 {
        Talker::NavIC
    } else if c0 == 71 && c1 == 76 {
        Talker::Glonass
    } else if c0 == 71 && c1 == 78 {
        Talker::Gnss
    } else if c0 == 71 && c1 == 80 {
        Talker::Gps
    } else if c0 == 71 && c1 == 81 {
        Talker::Qzss
    } else if c0 == 72 && c1 == 67 {
        Talker::HeadingMagneticCompass
    } else if c0 == 72 && c1 == 69 {
        Talker::HeadingNorthSeekingGyro
    } else if c0 == 72 && c1 == 78 {
        Talker::HeadingNonNorthSeekingGyro
    } else if c0 == 73 && c1 == 73 {
        Talker::IntegratedInstrumentation
    } else if c0 == 73 && c1 == 78 {
        Talker::IntegratedNavigation
    } else if c0 == 83 && c1 == 68 {
        Talker::DepthSounder
    } else if c0 == 87 && c1 == 73 {
        Talker::WeatherInstrument
    } else {
        Talker::Unknown(TalkerId { c0, c1 })
    }
}

/// What [`parse_talker`] returns: the first two bytes looked up in the
/// registry, or the length error when fewer than two bytes remain.
pub open spec fn spec_parse_talker(s: Seq<u8>) -> Result<(int, Talker), DecodeErrorV> {
    if s.len() < 2 {
        Err(DecodeErrorV::UnrecognizedTalkerLength)
    } else {
        Ok((2, talker_of(s[0], s[1])))
    }
}

/// Decodes the two-character talker code at the start of the data span and
/// returns it with the cursor past it.
pub fn parse_talker(s: &[u8]) -> (r: Result<(usize, Talker), DecodeError>)
    ensures
        (match r {
            Ok((c, t)) => spec_parse_talker(s@) == Ok::<_, DecodeErrorV>((c as int, t)),
            Err(e) => spec_parse_talker(s@) == Err::<(int, Talker), _>(e@),
        }),
        (match r {
            Ok(p) => p.0 <= s@.len() + 1,
            _ => true,
        }),
{
    if s.len() < 2 {
        Err(DecodeError::UnrecognizedTalkerLength)
    } else {
        Ok((2, talker_lookup(s[0], s[1])))
    }
}

/// Consumes the optional numeric system identifier field.
pub fn parse_system(s: &[u8], c: usize) -> (r: Result<(usize, Option<u8>), DecodeError>)
    requires
        c <= s@.len() + 1,
        s@.len() < usize::MAX,
    ensures
        (match r {
            Ok((c2, v)) => spec_scan_u8(s@, c as int) == Ok::<_, DecodeErrorV>((c2 as int, v)),
            Err(e) => spec_scan_u8(s@, c as int) == Err::<(int, Option<u8>), _>(e@),
        }),
        (match r {
            Ok(p) => p.0 <= s@.len() + 1,
            _ => true,
        }),
{
    scan_u8(s, c)
}

/// Consumes the optional numeric signal identifier field.
pub fn parse_signal(s: &[u8], c: usize) -> (r: Result<(usize, Option<u8>), DecodeError>)
    requires
        c <= s@.len() + 1,
        s@.len() < usize::MAX,
    ensures
        (match r {
            Ok((c2, v)) => spec_scan_u8(s@, c as int) == Ok::<_, DecodeErrorV>((c2 as int, v)),
            Err(e) => spec_scan_u8(s@, c as int) == Err::<(int, Option<u8>), _>(e@),
        }),
        (match r {
            Ok(p) => p.0 <= s@.len() + 1,
            _ => true,
        }),
{
    scan_u8(s, c)
}

} // verus!
