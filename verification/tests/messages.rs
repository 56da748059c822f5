use nmea0183::fields::cardinality::EastWest;
use nmea0183::fields::cardinality::NorthSouth;
use nmea0183::fields::parameter::ComputationMethod;
use nmea0183::fields::parameter::CourseOverGroundUnit;
use nmea0183::fields::parameter::Fix;
use nmea0183::fields::parameter::SpeedOverGroundUnit;
use nmea0183::fields::parameter::Status;
use nmea0183::fields::parameter::NavigationalStatus;
use nmea0183::fields::time::Date;
use nmea0183::fields::time::Time;
use nmea0183::messages::gll::GLLMessage;
use nmea0183::messages::gll::parse_gll;
use nmea0183::messages::glq::GLQMessage;
use nmea0183::messages::glq::parse_glq;
use nmea0183::messages::gnq::GNQMessage;
use nmea0183::messages::gnq::parse_gnq;
use nmea0183::messages::gns::GNSMessage;
use nmea0183::messages::gns::parse_gns;
use nmea0183::messages::grs::GRSMessage;
use nmea0183::messages::grs::parse_grs;
use nmea0183::messages::gst::GSTMessage;
use nmea0183::messages::gst::parse_gst;
use nmea0183::messages::rmc::RMCMessage;
use nmea0183::messages::rmc::parse_rmc;
use nmea0183::messages::vtg::VTGMessage;
use nmea0183::messages::vtg::parse_vtg;
use nmea0183::units::Dec;
use nmea0183::units::Degree;
use nmea0183::units::Knot;
use nmea0183::units::Meter;
use nmea0183::units::Rat;

fn dec(neg: bool, mantissa: u64, scale: u32) -> Dec {
    Dec { neg, mantissa, scale }
}

/// An angle stored as the written decimal over a power-of-ten denominator.
fn scaled(neg: bool, num: u128, den: u128) -> Degree {
    Degree(Rat { neg, num, den })
}

#[test]
fn test_parse_gll() {
    let input = b"4717.11364,N,00833.91565,E,092321.00,A,A";
    let expected = Ok((
        input.len() + 1,
        GLLMessage {
            // 47 degrees and 17.11364 minutes
            lat: Some(scaled_lat(47, 1711364, 6000000)),
            lon: Some(scaled_lat(8, 3391565, 6000000)),
            time: Some(Time { hour: 9, minute: 23, second: 21, milli: 0 }),
            status: Status::DataValid,
            pos_mode: Fix::AutonomousGNSSFix,
        },
    ));
    assert_eq!(expected, parse_gll(input));
}

/// An angle of `whole` degrees plus `rem / den` (the minutes part already
/// divided by sixty through the denominator).
fn scaled_lat(whole: u128, rem: u128, den: u128) -> Degree {
    Degree(Rat { neg: false, num: whole * den + rem, den })
}

#[test]
fn test_parse_glq() {
    let input = b"RMC";
    let expected = Ok((4, GLQMessage { msg_id: b"RMC".to_vec() }));
    assert_eq!(expected, parse_glq(input));
}

#[test]
fn test_parse_gnq() {
    let input = b"RMC";
    let expected = Ok((4, GNQMessage { msg_id: b"RMC".to_vec() }));
    assert_eq!(expected, parse_gnq(input));
}

#[test]
fn test_parse_gns() {
    let input = b"103600.01,5114.51176,N,00012.29380,W,ANNN,07,1.18,111.5,45.6,,,V";
    let expected = Ok((
        input.len() + 1,
        GNSMessage {
            time: Some(Time { hour: 10, minute: 36, second: 0, milli: 10 }),
            lat: Some(scaled(false, 511451176, 10_000_000)),
            ns: Some(NorthSouth::North),
            // 00012.29380 canonicalizes to 1229.38 hundredths of a degree
            lon: Some(scaled(false, 122938, 1_000_000)),
            ew: Some(EastWest::West),
            pos_mode: vec![Fix::AutonomousGNSSFix, Fix::NoFix, Fix::NoFix, Fix::NoFix],
            num_sv: Some(7),
            hdop: Some(dec(false, 118, 2)),
            alt: Some(Meter(dec(false, 1115, 1))),
            sep: Some(Meter(dec(false, 456, 1))),
            diff_age: None,
            diff_station: None,
            nav_status: Status::DataInvalid,
        },
    ));
    assert_eq!(expected, parse_gns(input));
}

#[test]
fn test_parse_grs() {
    let input = b"104148.00,1,2.6,2.2,-1.6,-1.1,-1.7,-1.5,5.8,1.7,,,,,1,1";
    let expected = Ok((
        input.len() + 1,
        GRSMessage {
            time: Some(Time { hour: 10, minute: 41, second: 48, milli: 0 }),
            mode: Some(ComputationMethod::AfterGGA),
            residuals: vec![
                Some(Meter(dec(false, 26, 1))),
                Some(Meter(dec(false, 22, 1))),
                Some(Meter(dec(true, 16, 1))),
                Some(Meter(dec(true, 11, 1))),
                Some(Meter(dec(true, 17, 1))),
                Some(Meter(dec(true, 15, 1))),
                Some(Meter(dec(false, 58, 1))),
                Some(Meter(dec(false, 17, 1))),
                None,
                None,
                None,
                None,
            ],
            system_id: Some(1),
            signal_id: Some(1),
        },
    ));
    assert_eq!(expected, parse_grs(input));
}

#[test]
fn test_parse_gst() {
    let input = b"082356.00,1.8,,,,1.7,1.3,2.2";
    let expected = Ok((
        input.len() + 1,
        GSTMessage {
            time: Some(Time { hour: 8, minute: 23, second: 56, milli: 0 }),
            range_rms: Some(Meter(dec(false, 18, 1))),
            std_major: None,
            std_minor: None,
            orient: None,
            std_lat: Some(Meter(dec(false, 17, 1))),
            std_lon: Some(Meter(dec(false, 13, 1))),
            std_alt: Some(Meter(dec(false, 22, 1))),
        },
    ));
    assert_eq!(expected, parse_gst(input));
}

#[test]
fn test_parse_rmc() {
    let input = b"083559.00,A,4717.11437,N,00833.91522,E,0.004,77.52,091202,,,A,V";
    let expected = Ok((
        input.len() + 1,
        RMCMessage {
            time: Some(Time { hour: 8, minute: 35, second: 59, milli: 0 }),
            status: Status::DataValid,
            lat: Some(scaled(false, 471711437, 10_000_000)),
            ns: NorthSouth::North,
            lon: Some(scaled(false, 83391522, 10_000_000)),
            ew: EastWest::East,
            spd: Some(Knot(dec(false, 4, 3))),
            cog: Some(scaled(false, 7752, 100)),
            date: Some(Date { year: 2002, month: 12, day: 9 }),
            mv: None,
            mv_ew: None,
            pos_mode: Fix::AutonomousGNSSFix,
            nav_status: NavigationalStatus::NotValid,
        },
    ));
    assert_eq!(expected, parse_rmc(input));
}

#[test]
fn test_parse_vtg() {
    let input = b"77.52,T,,M,0.004,N,0.008,K,A";
    let expected = Ok((
        input.len() + 1,
        VTGMessage {
            cogt: Some(dec(false, 7752, 2)),
            cogt_unit: Some(CourseOverGroundUnit::DegreesTrue),
            cogm: None,
            cogm_unit: Some(CourseOverGroundUnit::DegreesMagnetic),
            sogn: Some(dec(false, 4, 3)),
            sogn_unit: Some(SpeedOverGroundUnit::Knots),
            sogk: Some(dec(false, 8, 3)),
            sogk_unit: Some(SpeedOverGroundUnit::KilometersPerHour),
            pos_mode: Fix::AutonomousGNSSFix,
        },
    ));
    assert_eq!(expected, parse_vtg(input));
}

#[test]
fn test_residual_arity_on_trailing_commas() {
    // All twelve residual slots exist even when every one is empty.
    let input = b"104148.00,1,,,,,,,,,,,,,1,1";
    let (_, m) = parse_grs(input).unwrap();
    assert_eq!(m.residuals.len(), 12);
    assert!(m.residuals.iter().all(|r| r.is_none()));
}

#[test]
fn test_short_payload_is_error() {
    // A payload shorter than the fixed arity runs a sub-decoder out of
    // input.
    assert!(parse_gst(b"082356.00,1.8").is_err());
    assert!(parse_rmc(b"083559.00,A").is_err());
}

#[test]
fn test_latitude_sign_folding() {
    // GLL folds the hemisphere into the angle: South and West negate.
    let input = b"4717.11364,S,00833.91565,W,092321.00,A,A";
    let (_, m) = parse_gll(input).unwrap();
    let lat = m.lat.unwrap();
    let lon = m.lon.unwrap();
    assert!(lat.0.neg);
    assert!(lon.0.neg);
    assert_eq!(lat.0.num, 47 * 6000000 + 1711364);
}
