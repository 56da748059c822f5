use nmea0183::errors::DecodeError;
use nmea0183::fields::identity::MessageType;
use nmea0183::fields::identity::Talker;
use nmea0183::fields::parameter::Fix;
use nmea0183::fields::parameter::SentenceType;
use nmea0183::fields::parameter::Status;
use nmea0183::fields::time::Time;
use nmea0183::sentence::parser::parse_sentence;
use nmea0183::sentence::structs::Message;
use nmea0183::units::Degree;
use nmea0183::units::Rat;

#[test]
fn test_decode_gll_sentence() {
    let input = b"$GPGLL,4717.11364,N,00833.91565,E,092321.00,A,A*60\r\n";
    let s = parse_sentence(input).unwrap();
    assert_eq!(s.sentence_type, SentenceType::Parametric);
    assert_eq!(s.talker, Talker::Gps);
    match s.message {
        Message::GLL(m) => {
            // latitude 47 degrees 17.11364 minutes: 283711364 / 6000000
            assert_eq!(m.lat, Some(Degree(Rat { neg: false, num: 283711364, den: 6000000 })));
            assert_eq!(m.lon, Some(Degree(Rat { neg: false, num: 51391565, den: 6000000 })));
            assert_eq!(m.time, Some(Time { hour: 9, minute: 23, second: 21, milli: 0 }));
            assert_eq!(m.status, Status::DataValid);
            assert_eq!(m.pos_mode, Fix::AutonomousGNSSFix);
        },
        _ => panic!("wrong message kind"),
    }
}

#[test]
fn test_decode_rmc_sentence() {
    let input = b"$GPRMC,083559.00,A,4717.11437,N,00833.91522,E,0.004,77.52,091202,,,A,V*2D\r\n";
    let s = parse_sentence(input).unwrap();
    assert_eq!(s.talker, Talker::Gps);
    match s.message {
        Message::RMC(m) => {
            assert_eq!(m.time, Some(Time { hour: 8, minute: 35, second: 59, milli: 0 }));
            assert_eq!(m.status, Status::DataValid);
            assert_eq!(m.lat, Some(Degree(Rat { neg: false, num: 471711437, den: 10_000_000 })));
            assert_eq!(m.lon, Some(Degree(Rat { neg: false, num: 83391522, den: 10_000_000 })));
            assert_eq!(m.date.unwrap().year, 2002);
            assert_eq!(m.date.unwrap().month, 12);
            assert_eq!(m.date.unwrap().day, 9);
            assert_eq!(m.pos_mode, Fix::AutonomousGNSSFix);
        },
        _ => panic!("wrong message kind"),
    }
}

#[test]
fn test_decode_gns_sentence() {
    // The data span of this fixture XOR-folds to zero.
    let input = b"$GNGNS,103600.01,5114.51176,N,00012.29380,W,ANNN,07,1.18,111.5,45.6,,,V*00\r\n";
    let s = parse_sentence(input).unwrap();
    assert_eq!(s.talker, Talker::Gnss);
    match s.message {
        Message::GNS(m) => {
            assert_eq!(m.time, Some(Time { hour: 10, minute: 36, second: 0, milli: 10 }));
            assert_eq!(m.lat, Some(Degree(Rat { neg: false, num: 511451176, den: 10_000_000 })));
            assert_eq!(m.pos_mode.len(), 4);
            assert_eq!(m.num_sv, Some(7));
        },
        _ => panic!("wrong message kind"),
    }
}

#[test]
fn test_decode_is_pure() {
    let input = b"$GPGLL,4717.11364,N,00833.91565,E,092321.00,A,A*60\r\n";
    assert_eq!(parse_sentence(input), parse_sentence(input));
}

#[test]
fn test_checksum_mismatch() {
    // The transmitted checksum does not match the data span.
    let input = b"$GPGLL,4717.11364,N,00833.91565,E,092321.00,A,A*61\r\n";
    assert_eq!(parse_sentence(input), Err(DecodeError::ChecksumMismatch));
}

#[test]
fn test_flipped_payload_byte_is_checksum_mismatch() {
    let good = b"$GPGLL,4717.11364,N,00833.91565,E,092321.00,A,A*60\r\n";
    assert!(parse_sentence(good).is_ok());
    let mut bad = good.to_vec();
    bad[8] = b'8';  // flip one digit of the latitude without updating the checksum
    assert_eq!(parse_sentence(&bad), Err(DecodeError::ChecksumMismatch));
}

#[test]
fn test_empty_input() {
    assert_eq!(parse_sentence(b""), Err(DecodeError::EmptyInput));
}

#[test]
fn test_invalid_envelope() {
    assert_eq!(
        parse_sentence(b"XGPGLL,1,N,1,E,,A,A*00\r\n"),
        Err(DecodeError::InvalidEnvelope),
    );
    // A sentence without the checksum delimiter has no valid envelope.
    assert_eq!(parse_sentence(b"$GPGLL,1\r\n"), Err(DecodeError::InvalidEnvelope));
}

#[test]
fn test_unsupported_message_type() {
    let input = b"$GPZZZ,1,2*4E\r\n";
    assert_eq!(
        parse_sentence(input),
        Err(DecodeError::UnsupportedMessageType(MessageType::new(b'Z', b'Z', b'Z'))),
    );
}

#[test]
fn test_unrecognized_talker_length() {
    // The data span is too short to hold the talker and the identifier.
    let input = b"$GP*17\r\n";
    assert_eq!(parse_sentence(input), Err(DecodeError::UnrecognizedTalkerLength));
}

#[test]
fn test_trailing_data_after_terminator() {
    let input = b"$GPGLL,4717.11364,N,00833.91565,E,092321.00,A,A*60\r\nX";
    assert_eq!(parse_sentence(input), Err(DecodeError::TrailingData));
}

#[test]
fn test_trailing_data_in_payload() {
    // One extra field the GLL pipeline does not consume.
    let data = b"GPGLL,4717.11364,N,00833.91565,E,092321.00,A,A,9";
    let cs = data.iter().fold(0u8, |a, b| a ^ b);
    let mut input = Vec::new();
    input.push(b'$');
    input.extend_from_slice(data);
    input.push(b'*');
    input.extend_from_slice(format!("{:02X}", cs).as_bytes());
    input.extend_from_slice(b"\r\n");
    assert_eq!(parse_sentence(&input), Err(DecodeError::TrailingData));
}

#[test]
fn test_malformed_field_in_sentence() {
    let data = b"GPGLL,abcd.11364,N,00833.91565,E,092321.00,A,A";
    let cs = data.iter().fold(0u8, |a, b| a ^ b);
    let mut input = Vec::new();
    input.push(b'$');
    input.extend_from_slice(data);
    input.push(b'*');
    input.extend_from_slice(format!("{:02X}", cs).as_bytes());
    input.extend_from_slice(b"\r\n");
    match parse_sentence(&input) {
        Err(DecodeError::MalformedField(pos, raw)) => {
            assert_eq!(pos, 0);
            assert_eq!(raw, b"abcd.11364".to_vec());
        },
        other => panic!("expected a malformed field, got {:?}", other),
    }
}

#[test]
fn test_encapsulation_envelope() {
    let input = b"!GPGLL,4717.11364,N,00833.91565,E,092321.00,A,A*60\r\n";
    let s = parse_sentence(input).unwrap();
    assert_eq!(s.sentence_type, SentenceType::Encapsulation);
}

#[test]
fn test_truncated_and_corrupted_inputs_never_panic() {
    let good: &[u8] = b"$GPRMC,083559.00,A,4717.11437,N,00833.91522,E,0.004,77.52,091202,,,A,V*2D\r\n";
    for i in 0..good.len() {
        // Every strict prefix fails with a typed error and never panics.
        assert!(parse_sentence(&good[..i]).is_err());
    }
    for i in 0..good.len() {
        let mut bad = good.to_vec();
        bad[i] = 0xFF;
        // Corrupting any single byte yields a typed result, never a panic.
        let _ = parse_sentence(&bad);
    }
}

#[test]
fn test_trailing_comma_is_one_empty_field() {
    // A trailing comma closes the final field; the payload counts as fully
    // consumed, so the extra comma alone does not make data trail.
    let data = b"GPGST,082356.00,1.8,,,,1.7,1.3,2.2,";
    let cs = data.iter().fold(0u8, |a, b| a ^ b);
    let mut input = Vec::new();
    input.push(b'$');
    input.extend_from_slice(data);
    input.push(b'*');
    input.extend_from_slice(format!("{:02X}", cs).as_bytes());
    input.extend_from_slice(b"\r\n");
    assert!(parse_sentence(&input).is_ok());
}

#[test]
fn test_poll_sentences() {
    let s = parse_sentence(b"$GLGLQ,RMC*21\r\n").unwrap();
    match s.message {
        Message::GLQ(m) => assert_eq!(m.msg_id, b"RMC".to_vec()),
        _ => panic!("wrong message kind"),
    }
    let s = parse_sentence(b"$GNGNQ,RMC*21\r\n").unwrap();
    match s.message {
        Message::GNQ(m) => assert_eq!(m.msg_id, b"RMC".to_vec()),
        _ => panic!("wrong message kind"),
    }
}
