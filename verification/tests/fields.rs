use nmea0183::errors::DecodeError;
use nmea0183::fields::identity::Talker;
use nmea0183::fields::identity::TalkerId;
use nmea0183::fields::identity::parse_talker;
use nmea0183::fields::distance::parse_meter;
use nmea0183::fields::distance::parse_second;
use nmea0183::fields::distance::ensure_meter;
use nmea0183::sentence::parser::decode_cs;
use nmea0183::sentence::parser::parse_checksum;
use nmea0183::sentence::parser::sentence_is_valid;
use nmea0183::units::Dec;
use nmea0183::units::Meter;

#[test]
fn test_parse_talker() {
    let input = b"HNtest";
    let expected_output = Ok((2, Talker::HeadingNonNorthSeekingGyro));
    assert_eq!(expected_output, parse_talker(input));
}

#[test]
fn test_parse_unknown_talker() {
    let input = b"PAtest";
    let expected_output = Ok((2, Talker::Unknown(TalkerId::new(b'P', b'A'))));
    assert_eq!(expected_output, parse_talker(input));
}

#[test]
fn test_parse_talker_empty_input() {
    let input = b"";
    let expected_output = Err(DecodeError::UnrecognizedTalkerLength);
    assert_eq!(expected_output, parse_talker(input));
}

#[test]
fn test_empty_field_is_none() {
    // An empty field between two commas is absence, never an error.
    let (c, v) = parse_meter(b",5", 0).unwrap();
    assert_eq!(c, 1);
    assert_eq!(v, None);
    // A trailing comma then the end of the input is one final empty field.
    let (c, v) = parse_meter(b"", 0).unwrap();
    assert_eq!(c, 1);
    assert_eq!(v, None);
}

#[test]
fn test_exhausted_payload_is_error() {
    // Past the final field (cursor len + 1) a decoder runs out of input.
    let r = parse_meter(b"1.5", 4);
    assert_eq!(r, Err(DecodeError::MalformedField(3, Vec::new())));
    // The seconds decoder alone tolerates a missing final field.
    assert_eq!(parse_second(b"1.5", 4), Ok((4, None)));
}

#[test]
fn test_malformed_field_is_error() {
    let r = parse_meter(b"abc,1", 0);
    assert_eq!(r, Err(DecodeError::MalformedField(0, b"abc".to_vec())));
    // A sign or a dot alone is not a number either.
    assert!(parse_meter(b"-,1", 0).is_err());
    assert!(parse_meter(b".,1", 0).is_err());
    assert!(parse_meter(b"1.,1", 0).is_err());
    assert!(parse_meter(b".5,1", 0).is_err());
    assert!(parse_meter(b"1.2.3,1", 0).is_err());
}

#[test]
fn test_meter_value_exact() {
    let (c, v) = parse_meter(b"-1.6,x", 0).unwrap();
    assert_eq!(c, 5);
    assert_eq!(v, Some(Meter(Dec { neg: true, mantissa: 16, scale: 1 })));
}

#[test]
fn test_dec_canonical() {
    // Trailing fraction zeros are dropped, and zero never keeps a sign.
    assert_eq!(Dec::new(false, 100, 2), Dec { neg: false, mantissa: 1, scale: 0 });
    assert_eq!(Dec::new(true, 120, 3), Dec { neg: true, mantissa: 12, scale: 2 });
    assert_eq!(Dec::new(true, 0, 3), Dec { neg: false, mantissa: 0, scale: 0 });
    let (_, a) = parse_meter(b"1.50", 0).unwrap();
    let (_, b) = parse_meter(b"1.5", 0).unwrap();
    assert_eq!(a, b);
}

#[test]
fn test_ensure_meter() {
    assert_eq!(ensure_meter(b"M,1", 0), Ok((2, ())));
    // The unit tag demands its comma even at the end of the payload.
    assert!(ensure_meter(b"M", 0).is_err());
    assert!(ensure_meter(b"K,1", 0).is_err());
}

#[test]
fn test_decode_cs() {
    assert_eq!(decode_cs(b"4A"), Ok(0x4A));
    assert_eq!(decode_cs(b"7e"), Ok(0x7E));
    assert!(decode_cs(b"4").is_err());
    assert!(decode_cs(b"G1").is_err());
}

#[test]
fn test_parse_checksum() {
    assert_eq!(parse_checksum(b"4A\r\n"), Ok((2, 0x4A)));
    assert!(parse_checksum(b"4A").is_err());
}

#[test]
fn test_sentence_is_valid() {
    let data = b"GPGLL,4717.11364,N,00833.91565,E,092321.00,A,A";
    assert!(sentence_is_valid(data, 0x60));
    assert!(!sentence_is_valid(data, 0x61));
    assert!(sentence_is_valid(b"", 0));
}
