use yanp::errors::NmeaSentenceError;
use yanp::parse::{
    Decimal, GgaData, GllData, GllStatus, GpsPosition, GpsTime, HdtData, LatitudeDirection,
    LongitudeDirection, SentenceData, VtgData,
};
use yanp::parse_nmea_sentence;
use yanp::sentences::SentenceType;

fn dec(text: &'static [u8]) -> Decimal<'static> {
    Decimal { text }
}

fn value(d: Decimal) -> f64 {
    std::str::from_utf8(d.text).unwrap().parse().unwrap()
}

fn xor(bytes: &[u8]) -> u8 {
    let mut sum = 0;
    for b in bytes {
        sum ^= b;
    }
    sum
}

#[test]
fn gll_sentence_decodes() {
    let result = parse_nmea_sentence(b"$GPGLL,4916.45,N,12311.12,W,225444,A,*1D\r\n");
    let expected = GllData {
        position: GpsPosition {
            lat_degrees: 49,
            lat_minutes: dec(b"16.45"),
            lat_dir: LatitudeDirection::North,
            lon_degrees: 123,
            lon_minutes: dec(b"11.12"),
            lon_dir: LongitudeDirection::West,
        },
        time: Some(GpsTime { hour: 22, minute: 54, second: dec(b"44") }),
        status: Some(GllStatus::DataValid),
    };
    assert_eq!(result, Ok(SentenceData::GLL(expected)));
}

#[test]
fn gll_position_in_decimal_degrees() {
    let data = match parse_nmea_sentence(b"$GPGLL,4916.45,N,12311.12,W,225444,A,*1D\r\n") {
        Ok(SentenceData::GLL(data)) => data,
        other => panic!("{:?}", other),
    };
    let lat = data.position.lat_degrees as f64 + value(data.position.lat_minutes) / 60.0;
    let lon = data.position.lon_degrees as f64 + value(data.position.lon_minutes) / 60.0;
    assert!((lat - 49.2742).abs() < 0.0001);
    assert!((lon - 123.1853).abs() < 0.0001);
}

#[test]
fn hdt_sentence_decodes() {
    let result = parse_nmea_sentence(b"$GPHDT,123.45,T*04\r\n");
    assert_eq!(result, Ok(SentenceData::HDT(HdtData { heading_true: Some(dec(b"123.45")) })));
    match result {
        Ok(SentenceData::HDT(data)) => {
            assert!((value(data.heading_true.unwrap()) - 123.45).abs() < 1e-9)
        },
        other => panic!("{:?}", other),
    }
}

#[test]
fn hdt_with_other_checksum_digits_is_refused() {
    assert_eq!(
        parse_nmea_sentence(b"$GPHDT,123.45,T*1F\r\n"),
        Err(NmeaSentenceError::ChecksumError(0x1F, 0x04))
    );
}

#[test]
fn gga_with_every_optional_field_empty() {
    let result = parse_nmea_sentence(b"$GPGGA,,0000.0,N,00000.0,E,,,,,M,,M,,*6D\r\n");
    let expected = GgaData {
        time: None,
        position: GpsPosition {
            lat_degrees: 0,
            lat_minutes: dec(b"00.0"),
            lat_dir: LatitudeDirection::North,
            lon_degrees: 0,
            lon_minutes: dec(b"00.0"),
            lon_dir: LongitudeDirection::East,
        },
        quality: None,
        sats_in_view: None,
        hdop: None,
        altitude: None,
        geoid_altitude: None,
        age_of_differential: None,
        differential_station_id: None,
    };
    assert_eq!(result, Ok(SentenceData::GGA(expected)));
}

#[test]
fn gga_without_a_position_is_refused() {
    // The position is not optional: empty position fields do not decode.
    assert_eq!(
        parse_nmea_sentence(b"$GPGGA,,,,,,,,,,M,,M,,*56\r\n"),
        Err(NmeaSentenceError::DataParsingError)
    );
    // One comma more and the checksum no longer fits.
    assert_eq!(
        parse_nmea_sentence(b"$GPGGA,,,,,,,,,,,M,,M,,*56\r\n"),
        Err(NmeaSentenceError::ChecksumError(0x56, 0x7A))
    );
}

#[test]
fn unknown_mnemonic_carries_the_prefix() {
    let sentence = b"$GPZZZ,1,2*4E";
    assert_eq!(
        parse_nmea_sentence(sentence),
        Err(NmeaSentenceError::UnkownTypeError(&sentence[0..7]))
    );
    assert_eq!(
        parse_nmea_sentence(sentence),
        Err(NmeaSentenceError::UnkownTypeError(b"$GPZZZ,"))
    );
}

#[test]
fn registered_type_without_decoder() {
    let sentence =
        b"$GPRTE,2,1,c,0,W3IWI,DRIVWY,32CEDR,32-29,32BKLD,32-I95,32-US1,BW-32,BW-198*69";
    assert_eq!(
        parse_nmea_sentence(sentence),
        Err(NmeaSentenceError::TypeNotImplementedError(SentenceType::RTE))
    );
}

#[test]
fn vtg_sentence_decodes() {
    let result = parse_nmea_sentence(b"$GPVTG,123.4,T,121.2,M,5.5,N,10.2,K*79");
    let expected = VtgData {
        bearing_true: Some(dec(b"123.4")),
        bearing_magnetic: Some(dec(b"121.2")),
        speed_knots: Some(dec(b"5.5")),
        speed_kmh: Some(dec(b"10.2")),
    };
    assert_eq!(result, Ok(SentenceData::VTG(expected)));
    assert!((value(expected.bearing_true.unwrap()) - 123.4).abs() < 1e-9);
    assert!((value(expected.bearing_magnetic.unwrap()) - 121.2).abs() < 1e-9);
    assert!((value(expected.speed_knots.unwrap()) - 5.5).abs() < 1e-9);
    assert!((value(expected.speed_kmh.unwrap()) - 10.2).abs() < 1e-9);
}

#[test]
fn line_terminator_is_optional() {
    let with = parse_nmea_sentence(b"$GPVTG,123.4,T,121.2,M,5.5,N,10.2,K*79\r\n");
    let without = parse_nmea_sentence(b"$GPVTG,123.4,T,121.2,M,5.5,N,10.2,K*79");
    assert!(with.is_ok());
    assert_eq!(with, without);
}

#[test]
fn checksum_digits_in_either_case() {
    let upper = parse_nmea_sentence(b"$GPGLL,4916.45,N,12311.12,W,225444,A,*1D\r\n");
    let lower = parse_nmea_sentence(b"$GPGLL,4916.45,N,12311.12,W,225444,A,*1d\r\n");
    assert!(upper.is_ok());
    assert_eq!(upper, lower);
}

#[test]
fn checksum_is_xor_of_covered_bytes() {
    let sentence = b"$GPGLL,4916.45,N,12311.12,W,225444,A,*1D\r\n";
    let star = sentence.len() - 5;
    assert_eq!(sentence[star], b'*');
    assert_eq!(xor(&sentence[1..star]), 0x1D);
    let parts = yanp::sentences::GeneralSentence::new(sentence).unwrap();
    assert_eq!(parts.checksum, 0x1D);
    assert_eq!(parts.calc_checksum(), 0x1D);
    assert_eq!(parts.prefix, b"$GPGLL,");
    assert_eq!(parts.data, b"4916.45,N,12311.12,W,225444,A,*");
    assert_eq!(parts.sentence_type, SentenceType::GLL);
}

#[test]
fn every_changed_byte_is_a_checksum_error() {
    let sentence = b"$GPGLL,4916.45,N,12311.12,W,225444,A,*1D\r\n".to_vec();
    let star = sentence.len() - 5;
    for i in 1..star {
        for delta in [1u8, 0x20, 0x80, 0xFF] {
            let mut changed = sentence.clone();
            changed[i] ^= delta;
            assert_eq!(
                parse_nmea_sentence(&changed),
                Err(NmeaSentenceError::ChecksumError(0x1D, 0x1D ^ delta)),
                "byte {}",
                i
            );
        }
    }
}

#[test]
fn too_long_sentence_is_refused_for_its_length() {
    let mut sentence = b"$GPGLL,4916.45,N,12311.12,W,225444,A,".to_vec();
    while sentence.len() < 98 {
        sentence.push(b',');
    }
    sentence.push(b'*');
    let sum = xor(&sentence[1..98]);
    sentence.extend_from_slice(format!("{:02X}", sum).as_bytes());
    sentence.extend_from_slice(b"\r\n");
    assert_eq!(sentence.len(), 103);
    assert_eq!(parse_nmea_sentence(&sentence), Err(NmeaSentenceError::SentenceLengthError(103)));
    let junk = vec![b'x'; 500];
    assert_eq!(parse_nmea_sentence(&junk), Err(NmeaSentenceError::SentenceLengthError(500)));
}

#[test]
fn longest_sentence_is_accepted() {
    let mut sentence = b"$GPGLL,4916.45,N,12311.12,W,225444,A,".to_vec();
    while sentence.len() < 97 {
        sentence.push(b',');
    }
    sentence.push(b'*');
    let sum = xor(&sentence[1..97]);
    sentence.extend_from_slice(format!("{:02X}", sum).as_bytes());
    sentence.extend_from_slice(b"\r\n");
    assert_eq!(sentence.len(), 102);
    assert!(matches!(parse_nmea_sentence(&sentence), Ok(SentenceData::GLL(_))));
}

#[test]
fn decoding_twice_gives_equal_results() {
    let sentences: [&[u8]; 5] = [
        b"$GPGLL,4916.45,N,12311.12,W,225444,A,*1D\r\n",
        b"$GPHDT,123.45,T*1F\r\n",
        b"$GPZZZ,1,2*4E",
        b"$GPGSV,4,1,13,02,02,213,,03,-3,000,,11,00,121,,14,13,172,05*67\r\n",
        b"",
    ];
    for sentence in sentences {
        let copy = sentence.to_vec();
        assert_eq!(parse_nmea_sentence(sentence), parse_nmea_sentence(sentence));
        assert_eq!(parse_nmea_sentence(sentence), parse_nmea_sentence(&copy));
    }
}

#[test]
fn sentence_that_cannot_be_split() {
    assert_eq!(parse_nmea_sentence(b""), Err(NmeaSentenceError::GeneralParsingError));
    assert_eq!(parse_nmea_sentence(b"$GPGLL,"), Err(NmeaSentenceError::GeneralParsingError));
    assert_eq!(parse_nmea_sentence(b"$GPGLL,*1"), Err(NmeaSentenceError::GeneralParsingError));
    assert_eq!(parse_nmea_sentence(b"\r\n"), Err(NmeaSentenceError::GeneralParsingError));
    // no `*` in front of the last two bytes
    assert_eq!(
        parse_nmea_sentence(b"$GPHDT,123.45,T04\r\n"),
        Err(NmeaSentenceError::GeneralParsingError)
    );
}

#[test]
fn checksum_field_that_is_not_hex() {
    assert_eq!(
        parse_nmea_sentence(b"$GPHDT,123.45,T*0G\r\n"),
        Err(NmeaSentenceError::HexParsingError(b'0', b'G'))
    );
    assert_eq!(
        parse_nmea_sentence(b"$GPHDT,123.45,T*+4"),
        Err(NmeaSentenceError::HexParsingError(b'+', b'4'))
    );
}

#[test]
fn checksum_is_verified_before_the_type() {
    assert_eq!(
        parse_nmea_sentence(b"$GPZZZ,1,2*4F"),
        Err(NmeaSentenceError::ChecksumError(0x4F, 0x4E))
    );
}

#[test]
fn shortest_sentence() {
    // prefix, no field, `*`, checksum
    let sum = xor(b"GPSTN,");
    let sentence = format!("$GPSTN,*{:02X}", sum);
    assert_eq!(sentence.len(), 10);
    assert_eq!(
        parse_nmea_sentence(sentence.as_bytes()),
        Err(NmeaSentenceError::DataParsingError)
    );
    let sum = xor(b"GPRTE,");
    let sentence = format!("$GPRTE,*{:02X}", sum);
    assert_eq!(
        parse_nmea_sentence(sentence.as_bytes()),
        Err(NmeaSentenceError::TypeNotImplementedError(SentenceType::RTE))
    );
}
