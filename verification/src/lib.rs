//! Decoder for ASCII NMEA 0183 navigation sentences.
//!
//! A sentence arrives as one complete line, `$` or `!` envelope, talker and
//! message identifier, comma-separated payload, `*`, two hex checksum digits
//! and CRLF.  Decoding validates the envelope and checksum, dispatches on the
//! message identifier and runs the fixed field pipeline of that sentence kind,
//! producing a typed record or a typed error.  Numeric fields are kept exact:
//! a decimal token becomes an integer mantissa with a power-of-ten scale, an
//! angle becomes an exact rational, so no precision is lost to rounding.

pub mod errors;
pub mod fields;
pub mod laws;
pub mod messages;
pub mod sentence;
pub mod tokens;
pub mod units;
