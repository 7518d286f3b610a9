use yanp::errors::{FieldError, NmeaSentenceError};
use yanp::parse::{
    parse_result_to_data, parse_sentence_data, ArrivalStatus, BodData, BwcData, DataValidity,
    Decimal, GbsData, GgaData, GllData, GllStatus, GnsData, GnsMode, GpsDate, GpsPosition,
    GpsQuality, GpsTime, GsaData, GsaMode, GsaSelectionMode, GsvData, GsvSatellite, HdtData,
    LatitudeDirection, LongitudeDirection, RmStatus, RmaData, RmbData, RmcData, SentenceData,
    StatusParsingError, SteerDirection, StnData, VbwData, VtgData, WplData,
};
use yanp::parse_nmea_sentence;
use yanp::parsers::bod::{build_bod, parse_bod};
use yanp::parsers::bwc::{build_bwc, parse_bwc};
use yanp::parsers::gbs::{build_gbs, parse_gbs};
use yanp::parsers::gga::{build_gga, parse_gga};
use yanp::parsers::gll::{build_gll, parse_gll};
use yanp::parsers::gns::{build_gns, gns_modes, parse_gns};
use yanp::parsers::gsa::{build_gsa, parse_gsa};
use yanp::parsers::gsv::{build_gsv, parse_gsv, parse_gsv_sat};
use yanp::parsers::hdt::parse_hdt;
use yanp::parsers::rma::{build_rma, parse_rma};
use yanp::parsers::rmb::{build_rmb, parse_rmb};
use yanp::parsers::rmc::{build_rmc, parse_rmc};
use yanp::parsers::stn::parse_stn;
use yanp::parsers::vbw::{build_vbw, parse_vbw};
use yanp::parsers::vtg::parse_vtg;
use yanp::parsers::wpl::{build_wpl, parse_wpl};
use yanp::sentences::{GeneralSentence, SentenceType};

fn dec(text: &'static [u8]) -> Decimal<'static> {
    Decimal { text }
}


fn status(kind: StatusParsingError) -> FieldError {
    FieldError::Status(kind)
}

fn position() -> GpsPosition<'static> {
    GpsPosition {
        lat_degrees: 49,
        lat_minutes: dec(b"16.45"),
        lat_dir: LatitudeDirection::North,
        lon_degrees: 123,
        lon_minutes: dec(b"11.12"),
        lon_dir: LongitudeDirection::West,
    }
}

fn time() -> GpsTime<'static> {
    GpsTime { hour: 22, minute: 54, second: dec(b"44") }
}

fn with_checksum(body: &str) -> Vec<u8> {
    let mut sum = 0u8;
    for b in body.bytes() {
        sum ^= b;
    }
    format!("${}*{:02X}\r\n", body, sum).into_bytes()
}

#[test]
fn bod_decodes() {
    assert_eq!(
        parse_bod(b"097.0,T,103.2,M,POINTB,POINTA*"),
        Ok(BodData {
            bearing_true: Some(dec(b"097.0")),
            bearing_magnetic: Some(dec(b"103.2")),
            to_waypoint: Some(b"POINTB"),
            from_waypoint: Some(b"POINTA"),
        })
    );
    assert_eq!(
        parse_bod(b",T,,M,,*"),
        Ok(BodData {
            bearing_true: None,
            bearing_magnetic: None,
            to_waypoint: None,
            from_waypoint: None,
        })
    );
}

#[test]
fn bod_fails() {
    assert_eq!(parse_bod(b"097.0,T,103.2,M,POINTB,POINTA"), Err(FieldError::Structure));
    assert_eq!(parse_bod(b"097.0,T,103.2,M,POINTB*"), Err(FieldError::Structure));
    assert_eq!(parse_bod(b"097.0,T,103.2,M,POINTB,POINTA,*"), Err(FieldError::Structure));
    assert_eq!(parse_bod(b"097.0,M,103.2,M,POINTB,POINTA*"), Err(FieldError::Structure));
    assert_eq!(parse_bod(b"097.0,T,103.2,T,POINTB,POINTA*"), Err(FieldError::Structure));
    assert_eq!(parse_bod(b"097.0,,103.2,M,POINTB,POINTA*"), Err(FieldError::Structure));
    assert_eq!(parse_bod(b"x,T,103.2,M,POINTB,POINTA*"), Err(FieldError::Number));
    assert_eq!(parse_bod(b"097.0,T,1o3,M,POINTB,POINTA*"), Err(FieldError::Number));
    // the first failure decides
    assert_eq!(parse_bod(b"x,M,103.2,M,POINTB,POINTA*"), Err(FieldError::Number));
    assert_eq!(parse_bod(b"1,M,x,M,POINTB,POINTA*"), Err(FieldError::Structure));
    assert_eq!(parse_bod(b"x,M*"), Err(FieldError::Structure));
}

#[test]
fn bod_builds() {
    assert_eq!(
        build_bod((Some(dec(b"1")), None, Some(b"TO"), None)),
        Ok(BodData {
            bearing_true: Some(dec(b"1")),
            bearing_magnetic: None,
            to_waypoint: Some(b"TO"),
            from_waypoint: None,
        })
    );
}

#[test]
fn bwc_decodes() {
    assert_eq!(
        parse_bwc(b"225444,4916.45,N,12311.12,W,051.9,T,031.6,M,001.3,N,004*"),
        Ok(BwcData {
            time: Some(time()),
            waypoint_position: position(),
            bearing_true: Some(dec(b"051.9")),
            bearing_magnetic: Some(dec(b"031.6")),
            nautical_miles: Some(dec(b"001.3")),
            waypoint: Some(b"004"),
        })
    );
    assert_eq!(
        parse_bwc(b",4916.45,N,12311.12,W,,T,,M,,N,*"),
        Ok(BwcData {
            time: None,
            waypoint_position: position(),
            bearing_true: None,
            bearing_magnetic: None,
            nautical_miles: None,
            waypoint: None,
        })
    );
    assert_eq!(
        build_bwc((None, position(), None, None, Some(dec(b"5")), Some(b"W"))),
        Ok(BwcData {
            time: None,
            waypoint_position: position(),
            bearing_true: None,
            bearing_magnetic: None,
            nautical_miles: Some(dec(b"5")),
            waypoint: Some(b"W"),
        })
    );
}

#[test]
fn bwc_fails() {
    assert_eq!(parse_bwc(b",,,,,,T,,M,,N,*"), Err(FieldError::Structure));
    assert_eq!(parse_bwc(b",4916.45,N,12311.12,W,,T,,M,,K,*"), Err(FieldError::Structure));
    assert_eq!(parse_bwc(b"2254,4916.45,N,12311.12,W,,T,,M,,N,*"), Err(FieldError::Number));
    assert_eq!(
        parse_bwc(b",4916.45,X,12311.12,W,,T,,M,,N,*"),
        Err(status(StatusParsingError::LatitudeDirectionError))
    );
    assert_eq!(parse_bwc(b",4916.45,N,12311.12,W,,T,,M,,N*"), Err(FieldError::Structure));
}

#[test]
fn gbs_decodes() {
    assert_eq!(
        parse_gbs(b"225444,1.4,1.3,3.1,03,,-21.4,3.8*"),
        Ok(GbsData {
            time: Some(time()),
            lat_error: Some(dec(b"1.4")),
            lon_error: Some(dec(b"1.3")),
            alt_error: Some(dec(b"3.1")),
            most_likely_failed_sat: Some(3),
            missed_probability: None,
            bias_estimate: Some(dec(b"-21.4")),
            bias_standard_deviation: Some(dec(b"3.8")),
        })
    );
    let empty = GbsData {
        time: None,
        lat_error: None,
        lon_error: None,
        alt_error: None,
        most_likely_failed_sat: None,
        missed_probability: None,
        bias_estimate: None,
        bias_standard_deviation: None,
    };
    assert_eq!(parse_gbs(b",,,,,,,*"), Ok(empty));
    assert_eq!(build_gbs((None, None, None, None, None, None, None, None)), Ok(empty));
    assert_eq!(parse_gbs(b",,,,300,,,*"), Err(FieldError::Number));
    assert_eq!(parse_gbs(b",,,,,,*"), Err(FieldError::Structure));
}

#[test]
fn gga_decodes() {
    assert_eq!(
        parse_gga(b"225444,4916.45,N,12311.12,W,1,08,0.9,545.4,M,46.9,M,,*"),
        Ok(GgaData {
            time: Some(time()),
            position: position(),
            quality: Some(GpsQuality::Fix),
            sats_in_view: Some(8),
            hdop: Some(dec(b"0.9")),
            altitude: Some(dec(b"545.4")),
            geoid_altitude: Some(dec(b"46.9")),
            age_of_differential: None,
            differential_station_id: None,
        })
    );
    assert_eq!(
        parse_gga(b"225444,4916.45,N,12311.12,W,2,12,1.0,-5.5,M,-,M,3.5,0120*"),
        Ok(GgaData {
            time: Some(time()),
            position: position(),
            quality: Some(GpsQuality::DifferentialFix),
            sats_in_view: Some(12),
            hdop: Some(dec(b"1.0")),
            altitude: Some(dec(b"-5.5")),
            geoid_altitude: None,
            age_of_differential: Some(dec(b"3.5")),
            differential_station_id: Some(120),
        })
    );
}

#[test]
fn gga_fails() {
    let good = "225444,4916.45,N,12311.12,W,1,08,0.9,545.4,M,46.9,M,,*";
    assert!(parse_gga(good.as_bytes()).is_ok());
    assert_eq!(
        parse_gga(b"225444,4916.45,N,12311.12,W,7,08,0.9,545.4,M,46.9,M,,*"),
        Err(status(StatusParsingError::GpsQualityError))
    );
    assert_eq!(
        parse_gga(b"225444,4916.45,N,12311.12,W,x,08,0.9,545.4,M,46.9,M,,*"),
        Err(FieldError::Number)
    );
    assert_eq!(
        parse_gga(b"225444,4916.45,N,12311.12,W,1,08,0.9,545.4,F,46.9,M,,*"),
        Err(FieldError::Structure)
    );
    assert_eq!(
        parse_gga(b"225444,4916.45,N,12311.12,W,1,08,0.9,545.4,M,46.9,,,*"),
        Err(FieldError::Structure)
    );
    assert_eq!(
        parse_gga(b"225444,4916.45,N,12311.12,W,1,08,0.9,545.4,M,4x,M,,*"),
        Err(FieldError::Number)
    );
    assert_eq!(
        parse_gga(b"225444,4916.45,N,12311.12,W,1,08,0.9,545.4,M,46.9,M,,70000*"),
        Err(FieldError::Number)
    );
    assert_eq!(
        parse_gga(b"225444,4916.45,N,12311.12,W,1,08,0.9,545.4,M,46.9,M,*"),
        Err(FieldError::Structure)
    );
    // the first failure in the order of the fields decides
    assert_eq!(
        parse_gga(b"225444,4916.45,N,12311.12,W,7,08,0.9,545.4,M,46.9,M,,x*"),
        Err(status(StatusParsingError::GpsQualityError))
    );
    assert_eq!(
        parse_gga(b"225444,4916.45,N,12311.12,W,7,x,0.9,545.4,M,46.9,M,,*"),
        Err(status(StatusParsingError::GpsQualityError))
    );
    assert_eq!(
        parse_gga(b"225444,4916.45,N,12311.12,W,x,08,0.9,545.4,M,4x,M,,*"),
        Err(FieldError::Number)
    );
    assert_eq!(
        parse_gga(b"225444,4916.45,N,12311.12,W,1,08,0.9,545.4,M,4x,K,,*"),
        Err(FieldError::Number)
    );
    assert_eq!(
        parse_gga(b"225444,4916.45,N,12311.12,W,1,08,0.9,545.4,K,4x,M,,*"),
        Err(FieldError::Structure)
    );
}

#[test]
fn gga_builds() {
    assert_eq!(
        build_gga((None, position(), Some(0), None, None, None, Some(b"-"), None, Some(1))),
        Ok(GgaData {
            time: None,
            position: position(),
            quality: Some(GpsQuality::FixNotAvailable),
            sats_in_view: None,
            hdop: None,
            altitude: None,
            geoid_altitude: None,
            age_of_differential: None,
            differential_station_id: Some(1),
        })
    );
    assert_eq!(
        build_gga((None, position(), Some(3), None, None, None, Some(b"x"), None, None)),
        Err(status(StatusParsingError::GpsQualityError))
    );
    assert_eq!(
        build_gga((None, position(), Some(1), None, None, None, Some(b"x"), None, None)),
        Err(FieldError::Number)
    );
}

#[test]
fn gll_decodes() {
    let full = GllData { position: position(), time: Some(time()), status: Some(GllStatus::DataValid) };
    assert_eq!(parse_gll(b"4916.45,N,12311.12,W,225444,A*"), Ok(full));
    assert_eq!(parse_gll(b"4916.45,N,12311.12,W,225444,A,*"), Ok(full));
    assert_eq!(parse_gll(b"4916.45,N,12311.12,W,225444,A,D,x,y*"), Ok(full));
    assert_eq!(
        parse_gll(b"4916.45,N,12311.12,W,,*"),
        Ok(GllData { position: position(), time: None, status: None })
    );
    assert_eq!(
        build_gll((position(), None, Some('V'))),
        Ok(GllData { position: position(), time: None, status: Some(GllStatus::DataInvalid) })
    );
}

#[test]
fn gll_fails() {
    assert_eq!(parse_gll(b"4916.45,N,12311.12,W,225444*"), Err(FieldError::Structure));
    assert_eq!(
        parse_gll(b"4916.45,N,12311.12,W,225444,X*"),
        Err(status(StatusParsingError::GllStatusError))
    );
    assert_eq!(
        parse_gll(b"4916.45,N,12311.12,W,225444,AV*"),
        Err(status(StatusParsingError::GllStatusError))
    );
    assert_eq!(parse_gll(b"4916.45,N,12311.12,W,2254,A*"), Err(FieldError::Number));
    assert_eq!(
        build_gll((position(), None, Some('x'))),
        Err(status(StatusParsingError::GllStatusError))
    );
}

#[test]
fn gns_decodes() {
    assert_eq!(
        parse_gns(b"225444,4916.45,N,12311.12,W,AAN,10,0.9,12.5,-4.5,1.5,0001*"),
        Ok(GnsData {
            time: Some(time()),
            position: position(),
            mode: Some(vec![GnsMode::Autonomous, GnsMode::Autonomous, GnsMode::NoFix]),
            sats_in_use: Some(10),
            hdop: Some(dec(b"0.9")),
            orthometric_height: Some(dec(b"12.5")),
            geoid_seperation: Some(dec(b"-4.5")),
            age_of_differential: Some(dec(b"1.5")),
            differential_station_id: Some(1),
        })
    );
    assert_eq!(
        parse_gns(b",4916.45,N,12311.12,W,,,,,-,,*"),
        Ok(GnsData {
            time: None,
            position: position(),
            mode: None,
            sats_in_use: None,
            hdop: None,
            orthometric_height: None,
            geoid_seperation: None,
            age_of_differential: None,
            differential_station_id: None,
        })
    );
}

#[test]
fn gns_fails() {
    assert_eq!(
        parse_gns(b",4916.45,N,12311.12,W,AXN,,,,,,*"),
        Err(status(StatusParsingError::GnsModeError))
    );
    assert_eq!(parse_gns(b",4916.45,N,12311.12,W,A,,,,x,,*"), Err(FieldError::Number));
    assert_eq!(parse_gns(b",4916.45,N,12311.12,W,A,,,,,*"), Err(FieldError::Structure));
    assert_eq!(
        build_gns((None, position(), Some(b"Q"), None, None, None, Some(b"x"), None, None)),
        Err(status(StatusParsingError::GnsModeError))
    );
    assert_eq!(
        build_gns((None, position(), Some(b"D"), None, None, None, Some(b"x"), None, None)),
        Err(FieldError::Number)
    );
}

#[test]
fn gns_mode_letters() {
    assert_eq!(gns_modes(b""), Ok(vec![]));
    assert_eq!(
        gns_modes(b"NADPRFEMS"),
        Ok(vec![
            GnsMode::NoFix,
            GnsMode::Autonomous,
            GnsMode::Differential,
            GnsMode::Precise,
            GnsMode::RealTimeKinematic,
            GnsMode::FloatRealTimeKinematic,
            GnsMode::Estimated,
            GnsMode::Manual,
            GnsMode::Simulator,
        ])
    );
    assert_eq!(gns_modes(b"NAx"), Err(status(StatusParsingError::GnsModeError)));
    assert_eq!(gns_modes(b"n"), Err(status(StatusParsingError::GnsModeError)));
}

#[test]
fn gsa_decodes() {
    assert_eq!(
        parse_gsa(b"A,3,04,05,,09,12,,,24,,,,,2.5,1.3,2.1*"),
        Ok(GsaData {
            selection_mode: Some(GsaSelectionMode::Automatic),
            mode: Some(GsaMode::Fix3D),
            satellites: [
                Some(4),
                Some(5),
                None,
                Some(9),
                Some(12),
                None,
                None,
                Some(24),
                None,
                None,
                None,
                None,
            ],
            pdob: Some(dec(b"2.5")),
            hdop: Some(dec(b"1.3")),
            vdop: Some(dec(b"2.1")),
        })
    );
    assert_eq!(
        parse_gsa(b",,,,,,,,,,,,,,,,*"),
        Ok(GsaData {
            selection_mode: None,
            mode: None,
            satellites: [None; 12],
            pdob: None,
            hdop: None,
            vdop: None,
        })
    );
}

#[test]
fn gsa_keeps_the_places_of_the_satellites() {
    let data = parse_gsa(b"M,1,1,2,3,4,5,6,7,8,9,10,11,12,,,*").unwrap();
    for i in 0..12 {
        assert_eq!(data.satellites[i], Some(i as u8 + 1));
    }
    let built = build_gsa((
        Some('M'),
        Some(2),
        Some(1),
        Some(2),
        Some(3),
        Some(4),
        Some(5),
        Some(6),
        Some(7),
        Some(8),
        Some(9),
        Some(10),
        Some(11),
        Some(12),
        None,
        Some(dec(b"1")),
        None,
    ))
    .unwrap();
    assert_eq!(built.satellites, data.satellites);
    assert_eq!(built.selection_mode, Some(GsaSelectionMode::Manual));
    assert_eq!(built.mode, Some(GsaMode::Fix2D));
    assert_eq!((built.pdob, built.hdop, built.vdop), (None, Some(dec(b"1")), None));
}

#[test]
fn gsa_fails() {
    assert_eq!(
        parse_gsa(b"X,3,,,,,,,,,,,,,,,*"),
        Err(status(StatusParsingError::GsaSelectionModeError))
    );
    assert_eq!(
        parse_gsa(b"A,4,,,,,,,,,,,,,,,*"),
        Err(status(StatusParsingError::GsaModeError))
    );
    assert_eq!(
        parse_gsa(b"A,0,,,,,,,,,,,,,,,*"),
        Err(status(StatusParsingError::GsaModeError))
    );
    assert_eq!(parse_gsa(b"A,3,,,,,,,,,,,,x,,,*"), Err(FieldError::Number));
    assert_eq!(parse_gsa(b"A,3,,,,,,,,,,,,,,,,*"), Err(FieldError::Structure));
    assert_eq!(parse_gsa(b"A,3,,,,,,,,,,,,,,*"), Err(FieldError::Structure));
}

#[test]
fn gsv_decodes() {
    let result = parse_gsv(b"4,1,13,02,02,213,,03,-3,000,,11,00,121,,14,13,172,05*");
    let expected = GsvData {
        number_of_sentences: Some(4),
        sentence_num: Some(1),
        sats_in_view: Some(13),
        sats_info: [
            Some(GsvSatellite {
                sat_id: Some(2),
                elevation: Some(dec(b"02")),
                true_azimuth: Some(dec(b"213")),
                snr: None,
            }),
            Some(GsvSatellite {
                sat_id: Some(3),
                elevation: Some(dec(b"-3")),
                true_azimuth: Some(dec(b"000")),
                snr: None,
            }),
            Some(GsvSatellite {
                sat_id: Some(11),
                elevation: Some(dec(b"00")),
                true_azimuth: Some(dec(b"121")),
                snr: None,
            }),
            Some(GsvSatellite {
                sat_id: Some(14),
                elevation: Some(dec(b"13")),
                true_azimuth: Some(dec(b"172")),
                snr: Some(5),
            }),
        ],
    };
    assert_eq!(result, Ok(expected));
}

#[test]
fn gsv_with_fewer_satellites() {
    let none = GsvData {
        number_of_sentences: Some(1),
        sentence_num: Some(1),
        sats_in_view: Some(0),
        sats_info: [None; 4],
    };
    assert_eq!(parse_gsv(b"1,1,00*"), Ok(none));
    // what does not make a whole satellite is passed over
    assert_eq!(parse_gsv(b"1,1,00,*"), Ok(none));
    assert_eq!(parse_gsv(b"1,1,00,05,40,083*"), Ok(none));
    let one = GsvSatellite {
        sat_id: Some(5),
        elevation: Some(dec(b"40")),
        true_azimuth: Some(dec(b"083")),
        snr: Some(46),
    };
    let empty = GsvSatellite { sat_id: None, elevation: None, true_azimuth: None, snr: None };
    assert_eq!(
        parse_gsv(b",,,05,40,083,46,,,,*"),
        Ok(GsvData {
            number_of_sentences: None,
            sentence_num: None,
            sats_in_view: None,
            sats_info: [Some(one), Some(empty), None, None],
        })
    );
    // a fifth satellite and whatever follows is passed over
    assert_eq!(
        parse_gsv(b"1,1,05,,,,,,,,,,,,,,,,,99,x,y,z,1*"),
        Ok(GsvData {
            number_of_sentences: Some(1),
            sentence_num: Some(1),
            sats_in_view: Some(5),
            sats_info: [Some(empty); 4],
        })
    );
}

#[test]
fn gsv_fails() {
    assert_eq!(parse_gsv(b"1,1*"), Err(FieldError::Structure));
    assert_eq!(parse_gsv(b"1,1,00"), Err(FieldError::Structure));
    assert_eq!(parse_gsv(b"1,x,00*"), Err(FieldError::Number));
    assert_eq!(parse_gsv(b"70000,1,00*"), Err(FieldError::Number));
    assert_eq!(parse_gsv(b"1,1,00,05,40,083,4x*"), Err(FieldError::Number));
    assert_eq!(parse_gsv(b"1,1,00,05,40,083,46,300,,,*"), Err(FieldError::Number));
    assert_eq!(parse_gsv_sat(b"1", b"2", b"3", b"x"), Err(FieldError::Number));
}

#[test]
fn gsv_builds() {
    let sat = GsvSatellite { sat_id: Some(1), elevation: None, true_azimuth: None, snr: Some(2) };
    let other = GsvSatellite { sat_id: Some(9), elevation: None, true_azimuth: None, snr: None };
    assert_eq!(
        build_gsv((Some(3), Some(2), Some(11), Some(sat), None, Some(other), None)),
        Ok(GsvData {
            number_of_sentences: Some(3),
            sentence_num: Some(2),
            sats_in_view: Some(11),
            sats_info: [Some(sat), None, Some(other), None],
        })
    );
    assert_eq!(
        build_gsv((None, None, None, None, None, None, None)),
        Ok(GsvData {
            number_of_sentences: None,
            sentence_num: None,
            sats_in_view: None,
            sats_info: [None; 4],
        })
    );
}

#[test]
fn hdt_decodes() {
    assert_eq!(parse_hdt(b"123.45,T*"), Ok(HdtData { heading_true: Some(dec(b"123.45")) }));
    assert_eq!(parse_hdt(b",T*"), Ok(HdtData { heading_true: None }));
    assert_eq!(parse_hdt(b"123.45,M*"), Err(FieldError::Structure));
    assert_eq!(parse_hdt(b"123.45*"), Err(FieldError::Structure));
    assert_eq!(parse_hdt(b"123.45,T,*"), Err(FieldError::Structure));
    assert_eq!(parse_hdt(b"123.45,T"), Err(FieldError::Structure));
    assert_eq!(parse_hdt(b"12e.45,T*"), Err(FieldError::Number));
    assert_eq!(parse_hdt(b""), Err(FieldError::Structure));
}

#[test]
fn rma_decodes() {
    assert_eq!(
        parse_rma(b"A,4916.45,N,12311.12,W,1.5,2.5,5.0,054.7,020.3,E*"),
        Ok(RmaData {
            status: Some(RmStatus::Active),
            position: position(),
            time_diff_a: Some(dec(b"1.5")),
            time_diff_b: Some(dec(b"2.5")),
            speed: Some(dec(b"5.0")),
            heading: Some(dec(b"054.7")),
            magnetic_variation: Some(dec(b"020.3")),
            magnetic_direction: Some(LongitudeDirection::East),
        })
    );
    assert_eq!(
        parse_rma(b",4916.45,N,12311.12,W,,,,,,*"),
        Ok(RmaData {
            status: None,
            position: position(),
            time_diff_a: None,
            time_diff_b: None,
            speed: None,
            heading: None,
            magnetic_variation: None,
            magnetic_direction: None,
        })
    );
    assert_eq!(
        parse_rma(b"Q,4916.45,N,12311.12,W,,,,,,*"),
        Err(status(StatusParsingError::RmStatusError))
    );
    assert_eq!(
        parse_rma(b"A,4916.45,N,12311.12,W,,,,,,N*"),
        Err(status(StatusParsingError::LongitudeDirectionError))
    );
    assert_eq!(parse_rma(b"A,4916.45,N,12311.12,W,,,,,*"), Err(FieldError::Structure));
    assert_eq!(
        build_rma((Some('V'), position(), None, None, None, None, None, Some('W'))),
        Ok(RmaData {
            status: Some(RmStatus::Warning),
            position: position(),
            time_diff_a: None,
            time_diff_b: None,
            speed: None,
            heading: None,
            magnetic_variation: None,
            magnetic_direction: Some(LongitudeDirection::West),
        })
    );
}

#[test]
fn rmb_decodes() {
    assert_eq!(
        parse_rmb(b"A,0.66,L,003,004,4916.45,N,12311.12,W,001.3,052.5,000.5,V*"),
        Ok(RmbData {
            status: Some(RmStatus::Active),
            cross_error: Some(dec(b"0.66")),
            steer_direction: Some(SteerDirection::Left),
            to_waypoint: Some(b"003"),
            from_waypoint: Some(b"004"),
            dest_position: position(),
            range_to_dest: Some(dec(b"001.3")),
            bearing: Some(dec(b"052.5")),
            closing_velocity: Some(dec(b"000.5")),
            arrival_status: Some(ArrivalStatus::NotArrived),
        })
    );
    assert_eq!(
        parse_rmb(b",,,,,4916.45,N,12311.12,W,,,,*"),
        Ok(RmbData {
            status: None,
            cross_error: None,
            steer_direction: None,
            to_waypoint: None,
            from_waypoint: None,
            dest_position: position(),
            range_to_dest: None,
            bearing: None,
            closing_velocity: None,
            arrival_status: None,
        })
    );
}

#[test]
fn rmb_fails() {
    assert_eq!(
        parse_rmb(b"A,0.66,X,003,004,4916.45,N,12311.12,W,001.3,052.5,000.5,V*"),
        Err(status(StatusParsingError::SteerDirectionError))
    );
    assert_eq!(
        parse_rmb(b"A,0.66,L,003,004,4916.45,N,12311.12,W,001.3,052.5,000.5,P*"),
        Err(status(StatusParsingError::ArrivalStatusError))
    );
    assert_eq!(
        parse_rmb(b"A,0.66,LR,003,004,4916.45,N,12311.12,W,001.3,052.5,000.5,V*"),
        Err(status(StatusParsingError::SteerDirectionError))
    );
    assert_eq!(
        parse_rmb(b"A,0.66,L,003,004,4916.45,N,12311.12,W,001.3,052.5,000.5*"),
        Err(FieldError::Structure)
    );
    assert_eq!(
        build_rmb((
            Some('z'),
            None,
            Some('z'),
            None,
            None,
            position(),
            None,
            None,
            None,
            Some('z')
        )),
        Err(status(StatusParsingError::RmStatusError))
    );
    assert_eq!(
        build_rmb((Some('A'), None, Some('R'), None, None, position(), None, None, None, Some('A'))),
        Ok(RmbData {
            status: Some(RmStatus::Active),
            cross_error: None,
            steer_direction: Some(SteerDirection::Right),
            to_waypoint: None,
            from_waypoint: None,
            dest_position: position(),
            range_to_dest: None,
            bearing: None,
            closing_velocity: None,
            arrival_status: Some(ArrivalStatus::Arrived),
        })
    );
}

#[test]
fn rmc_decodes() {
    assert_eq!(
        parse_rmc(b"225444,A,4916.45,N,12311.12,W,000.5,054.7,191194,020.3,E*"),
        Ok(RmcData {
            time: Some(time()),
            status: Some(RmStatus::Active),
            position: position(),
            speed: Some(dec(b"000.5")),
            heading: Some(dec(b"054.7")),
            date: Some(GpsDate { day: 19, month: 11, year: 94 }),
            magnetic_variation: Some(dec(b"020.3")),
            magnetic_direction: Some(LongitudeDirection::East),
        })
    );
    assert_eq!(
        parse_rmc(b",,4916.45,N,12311.12,W,,,,,*"),
        Ok(RmcData {
            time: None,
            status: None,
            position: position(),
            speed: None,
            heading: None,
            date: None,
            magnetic_variation: None,
            magnetic_direction: None,
        })
    );
    assert_eq!(
        build_rmc((None, Some('P'), position(), None, None, None, None, Some('E'))),
        Ok(RmcData {
            time: None,
            status: Some(RmStatus::Precise),
            position: position(),
            speed: None,
            heading: None,
            date: None,
            magnetic_variation: None,
            magnetic_direction: Some(LongitudeDirection::East),
        })
    );
}

#[test]
fn rmc_fails() {
    assert_eq!(
        parse_rmc(b"225444,A,4916.45,N,12311.12,W,000.5,054.7,1911,020.3,E*"),
        Err(FieldError::Number)
    );
    assert_eq!(
        parse_rmc(b"225444,B,4916.45,N,12311.12,W,000.5,054.7,191194,020.3,E*"),
        Err(status(StatusParsingError::RmStatusError))
    );
    assert_eq!(
        parse_rmc(b"225444,A,4916.45,N,12311.12,W,000.5,054.7,191194,020.3,S*"),
        Err(status(StatusParsingError::LongitudeDirectionError))
    );
    assert_eq!(
        parse_rmc(b"225444,A,4916.45,N,12311.12,W,000.5,054.7,191194,020.3,E,A*"),
        Err(FieldError::Structure)
    );
    assert_eq!(parse_rmc(b",,,,,,,,,,*"), Err(FieldError::Structure));
    assert_eq!(
        build_rmc((None, Some('x'), position(), None, None, None, None, Some('x'))),
        Err(status(StatusParsingError::RmStatusError))
    );
    assert_eq!(
        build_rmc((None, None, position(), None, None, None, None, Some('x'))),
        Err(status(StatusParsingError::LongitudeDirectionError))
    );
}

#[test]
fn stn_decodes() {
    assert_eq!(parse_stn(b"12*"), Ok(StnData { talker_id: 12 }));
    assert_eq!(parse_stn(b"255*"), Ok(StnData { talker_id: 255 }));
    assert_eq!(parse_stn(b"*"), Err(FieldError::Structure));
    assert_eq!(parse_stn(b"x*"), Err(FieldError::Number));
    assert_eq!(parse_stn(b"256*"), Err(FieldError::Number));
    assert_eq!(parse_stn(b"1,2*"), Err(FieldError::Structure));
    assert_eq!(parse_stn(b"12"), Err(FieldError::Structure));
}

#[test]
fn vbw_decodes() {
    assert_eq!(
        parse_vbw(b"12.3,0.07,A,11.78,-0.12,A*"),
        Ok(VbwData {
            lon_water_speed: Some(dec(b"12.3")),
            transverse_water_speed: Some(dec(b"0.07")),
            water_validity: Some(DataValidity::DataValid),
            lon_ground_speed: Some(dec(b"11.78")),
            transverse_ground_speed: Some(dec(b"-0.12")),
            ground_validity: Some(DataValidity::DataValid),
        })
    );
    assert_eq!(
        parse_vbw(b"-,,,,-,*"),
        Ok(VbwData {
            lon_water_speed: None,
            transverse_water_speed: None,
            water_validity: None,
            lon_ground_speed: None,
            transverse_ground_speed: None,
            ground_validity: None,
        })
    );
    assert_eq!(
        parse_vbw(b"12.3,0.07,V,11.78,-0.12,A*"),
        Err(status(StatusParsingError::DataValidityError))
    );
    assert_eq!(parse_vbw(b"12.3,x,A,11.78,-0.12,A*"), Err(FieldError::Number));
    assert_eq!(parse_vbw(b"12.3,0.07,A,11.78,-0.12*"), Err(FieldError::Structure));
    assert_eq!(
        build_vbw((Some(b"1"), Some(b"-"), Some('A'), None, Some(b"2.5"), None)),
        Ok(VbwData {
            lon_water_speed: Some(dec(b"1")),
            transverse_water_speed: None,
            water_validity: Some(DataValidity::DataValid),
            lon_ground_speed: None,
            transverse_ground_speed: Some(dec(b"2.5")),
            ground_validity: None,
        })
    );
    assert_eq!(
        build_vbw((Some(b"1"), Some(b"x"), Some('B'), None, None, None)),
        Err(FieldError::Number)
    );
}

#[test]
fn vtg_decodes() {
    assert_eq!(
        parse_vtg(b"123.4,T,121.2,M,5.5,N,10.2,K*"),
        Ok(VtgData {
            bearing_true: Some(dec(b"123.4")),
            bearing_magnetic: Some(dec(b"121.2")),
            speed_knots: Some(dec(b"5.5")),
            speed_kmh: Some(dec(b"10.2")),
        })
    );
    assert_eq!(
        parse_vtg(b",T,,M,,N,,K*"),
        Ok(VtgData {
            bearing_true: None,
            bearing_magnetic: None,
            speed_knots: None,
            speed_kmh: None,
        })
    );
    assert_eq!(parse_vtg(b"123.4,T,121.2,M,5.5,N,10.2,M*"), Err(FieldError::Structure));
    assert_eq!(parse_vtg(b"123.4,T,121.2,M,5.5,K,10.2,K*"), Err(FieldError::Structure));
    assert_eq!(parse_vtg(b"123.4,T,121.2,M,5.5,N,10.2,K,A*"), Err(FieldError::Structure));
    assert_eq!(parse_vtg(b"123.4,T,121.2,M,5.5,N,1o.2,K*"), Err(FieldError::Number));
}

#[test]
fn wpl_decodes() {
    assert_eq!(
        parse_wpl(b"4916.45,N,12311.12,W,WPTNME*"),
        Ok(WplData { position: Some(position()), waypoint_name: Some(b"WPTNME") })
    );
    assert_eq!(
        parse_wpl(b"4916.45,N,12311.12,W,*"),
        Ok(WplData { position: Some(position()), waypoint_name: None })
    );
    assert_eq!(parse_wpl(b",,,,WPTNME*"), Err(FieldError::Structure));
    assert_eq!(parse_wpl(b"49,N,12311.12,W,WPTNME*"), Err(FieldError::Number));
    assert_eq!(parse_wpl(b"4916.45,N,12311.12,W*"), Err(FieldError::Structure));
    assert_eq!(
        build_wpl((position(), Some(b"HOME"))),
        Ok(WplData { position: Some(position()), waypoint_name: Some(b"HOME") })
    );
}

#[test]
fn failures_become_unified_errors() {
    assert_eq!(parse_result_to_data(Ok::<u8, FieldError>(7)), Ok(7));
    assert_eq!(
        parse_result_to_data(Err::<u8, FieldError>(FieldError::Structure)),
        Err(NmeaSentenceError::DataParsingError)
    );
    assert_eq!(
        parse_result_to_data(Err::<u8, FieldError>(FieldError::Number)),
        Err(NmeaSentenceError::GeneralParsingError)
    );
    assert_eq!(
        parse_result_to_data(Err::<u8, FieldError>(status(StatusParsingError::GsaModeError))),
        Err(NmeaSentenceError::StatusParsingError(StatusParsingError::GsaModeError))
    );
}

#[test]
fn sentences_reach_their_decoders() {
    let cases: [(&str, fn(&SentenceData) -> bool); 13] = [
        ("GPBOD,097.0,T,103.2,M,POINTB,POINTA", |d| matches!(d, SentenceData::BOD(_))),
        ("GPBWC,225444,4916.45,N,12311.12,W,051.9,T,031.6,M,001.3,N,004", |d| {
            matches!(d, SentenceData::BWC(_))
        }),
        ("GPGGA,225444,4916.45,N,12311.12,W,1,08,0.9,545.4,M,46.9,M,,", |d| {
            matches!(d, SentenceData::GGA(_))
        }),
        ("GPGLL,4916.45,N,12311.12,W,225444,A", |d| matches!(d, SentenceData::GLL(_))),
        ("GPGSA,A,3,04,05,,09,12,,,24,,,,,2.5,1.3,2.1", |d| matches!(d, SentenceData::GSA(_))),
        ("GPHDT,123.45,T", |d| matches!(d, SentenceData::HDT(_))),
        ("GPRMA,A,4916.45,N,12311.12,W,,,5.0,054.7,020.3,E", |d| {
            matches!(d, SentenceData::RMA(_))
        }),
        ("GPRMB,A,0.66,L,003,004,4916.45,N,12311.12,W,001.3,052.5,000.5,V", |d| {
            matches!(d, SentenceData::RMB(_))
        }),
        ("GPRMC,225444,A,4916.45,N,12311.12,W,000.5,054.7,191194,020.3,E", |d| {
            matches!(d, SentenceData::RMC(_))
        }),
        ("GPSTN,12", |d| matches!(d, SentenceData::STN(_))),
        ("VMVBW,12.3,0.07,A,11.78,0.12,A", |d| matches!(d, SentenceData::VBW(_))),
        ("GPVTG,123.4,T,121.2,M,5.5,N,10.2,K", |d| matches!(d, SentenceData::VTG(_))),
        ("GPWPL,4916.45,N,12311.12,W,WPTNME", |d| matches!(d, SentenceData::WPL(_))),
    ];
    for (body, is_expected) in cases {
        let sentence = with_checksum(body);
        match parse_nmea_sentence(&sentence) {
            Ok(data) => assert!(is_expected(&data), "{}", body),
            Err(e) => panic!("{}: {:?}", body, e),
        }
    }
}

#[test]
fn types_without_decoder_are_reported() {
    let kinds = [
        ("AAM", SentenceType::AAM),
        ("GBS", SentenceType::GBS),
        ("GNS", SentenceType::GNS),
        ("GSV", SentenceType::GSV),
        ("DBT", SentenceType::DBT),
        ("RTE", SentenceType::RTE),
        ("TRF", SentenceType::TRF),
        ("ZDA", SentenceType::ZDA),
        ("ZTG", SentenceType::ZTG),
    ];
    for (mnemonic, kind) in kinds {
        let sentence = with_checksum(&format!("GP{},1,2,3", mnemonic));
        assert_eq!(
            parse_nmea_sentence(&sentence),
            Err(NmeaSentenceError::TypeNotImplementedError(kind))
        );
    }
}

#[test]
fn decoder_failures_surface_in_the_unified_error() {
    assert_eq!(
        parse_nmea_sentence(&with_checksum("GPHDT,123.45,M")),
        Err(NmeaSentenceError::DataParsingError)
    );
    assert_eq!(
        parse_nmea_sentence(&with_checksum("GPHDT,1x3.45,T")),
        Err(NmeaSentenceError::GeneralParsingError)
    );
    assert_eq!(
        parse_nmea_sentence(&with_checksum("GPGLL,4916.45,N,12311.12,W,225444,Z")),
        Err(NmeaSentenceError::StatusParsingError(StatusParsingError::GllStatusError))
    );
    assert_eq!(
        parse_nmea_sentence(&with_checksum("GPGLL,4916.45,U,12311.12,W,225444,A")),
        Err(NmeaSentenceError::StatusParsingError(StatusParsingError::LatitudeDirectionError))
    );
}

#[test]
fn dispatch_goes_by_the_type_of_the_sentence() {
    let sentence = b"$GPHDT,123.45,T*04";
    let parts = GeneralSentence::new(sentence).unwrap();
    assert_eq!(
        parse_sentence_data(parts),
        Ok(SentenceData::HDT(HdtData { heading_true: Some(dec(b"123.45")) }))
    );
    let as_stn = GeneralSentence { sentence_type: SentenceType::STN, ..parts };
    assert_eq!(parse_sentence_data(as_stn), Err(NmeaSentenceError::DataParsingError));
    let as_rte = GeneralSentence { sentence_type: SentenceType::RTE, ..parts };
    assert_eq!(
        parse_sentence_data(as_rte),
        Err(NmeaSentenceError::TypeNotImplementedError(SentenceType::RTE))
    );
}

#[test]
fn empty_tokens_are_absent_values() {
    // each sentence with all its optional fields empty
    assert!(parse_bod(b",T,,M,,*").is_ok());
    assert!(parse_bwc(b",4916.45,N,12311.12,W,,T,,M,,N,*").is_ok());
    assert!(parse_gbs(b",,,,,,,*").is_ok());
    assert!(parse_gga(b",4916.45,N,12311.12,W,,,,,M,,M,,*").is_ok());
    assert!(parse_gll(b"4916.45,N,12311.12,W,,*").is_ok());
    assert!(parse_gns(b",4916.45,N,12311.12,W,,,,,,,*").is_ok());
    assert!(parse_gsa(b",,,,,,,,,,,,,,,,*").is_ok());
    assert!(parse_gsv(b",,,,,,,,,,,,,,,,,,*").is_ok());
    assert!(parse_hdt(b",T*").is_ok());
    assert!(parse_rma(b",4916.45,N,12311.12,W,,,,,,*").is_ok());
    assert!(parse_rmb(b",,,,,4916.45,N,12311.12,W,,,,*").is_ok());
    assert!(parse_rmc(b",,4916.45,N,12311.12,W,,,,,*").is_ok());
    assert!(parse_vbw(b",,,,,*").is_ok());
    assert!(parse_vtg(b",T,,M,,N,,K*").is_ok());
    assert!(parse_wpl(b"4916.45,N,12311.12,W,*").is_ok());
    // one empty field among full ones
    let data = parse_gga(b"225444,4916.45,N,12311.12,W,1,,0.9,545.4,M,46.9,M,,*").unwrap();
    assert_eq!(data.sats_in_view, None);
    assert_eq!(data.hdop, Some(dec(b"0.9")));
    let data = parse_rmc(b"225444,,4916.45,N,12311.12,W,000.5,,191194,020.3,E*").unwrap();
    assert_eq!(data.status, None);
    assert_eq!(data.heading, None);
    assert_eq!(data.speed, Some(dec(b"000.5")));
}

fn emptied(full: &str, place: usize) -> Vec<u8> {
    let mut tokens: Vec<&str> = full.split(',').collect();
    tokens[place] = "";
    format!("{}*", tokens.join(",")).into_bytes()
}

#[test]
fn emptying_a_field_empties_the_value_and_nothing_else() {
    let full = "225444,A,4916.45,N,12311.12,W,000.5,054.7,191194,020.3,E";
    let data = format!("{}*", full).into_bytes();
    let record = parse_rmc(&data).unwrap();
    for place in [0, 1, 6, 7, 8, 9, 10] {
        let data = emptied(full, place);
        let mut expected = record;
        match place {
            0 => expected.time = None,
            1 => expected.status = None,
            6 => expected.speed = None,
            7 => expected.heading = None,
            8 => expected.date = None,
            9 => expected.magnetic_variation = None,
            _ => expected.magnetic_direction = None,
        }
        assert_eq!(parse_rmc(&data), Ok(expected));
    }

    let full = "A,3,04,05,,09,12,,,24,,,,,2.5,1.3,2.1";
    let data = format!("{}*", full).into_bytes();
    let record = parse_gsa(&data).unwrap();
    for place in 0..17 {
        let data = emptied(full, place);
        let mut expected = record;
        match place {
            0 => expected.selection_mode = None,
            1 => expected.mode = None,
            14 => expected.pdob = None,
            15 => expected.hdop = None,
            16 => expected.vdop = None,
            satellite => expected.satellites[satellite - 2] = None,
        }
        assert_eq!(parse_gsa(&data), Ok(expected));
    }

    let full = "4,1,13,02,02,213,,03,-3,000,,11,00,121,,14,13,172,05";
    let data = format!("{}*", full).into_bytes();
    let record = parse_gsv(&data).unwrap();
    for place in 0..19 {
        let data = emptied(full, place);
        let mut expected = record;
        match place {
            0 => expected.number_of_sentences = None,
            1 => expected.sentence_num = None,
            2 => expected.sats_in_view = None,
            part => {
                let satellite = expected.sats_info[(part - 3) / 4].as_mut().unwrap();
                match (part - 3) % 4 {
                    0 => satellite.sat_id = None,
                    1 => satellite.elevation = None,
                    2 => satellite.true_azimuth = None,
                    _ => satellite.snr = None,
                }
            },
        }
        assert_eq!(parse_gsv(&data), Ok(expected));
    }
}

#[test]
fn sentences_outside_the_decoder_table() {
    // these decode on their own, but the table does not hold them
    let bodies = [
        ("GPGBS,225444,1.4,1.3,3.1,03,,-21.4,3.8", SentenceType::GBS),
        ("GNGNS,225444,4916.45,N,12311.12,W,AA,10,0.9,12.5,-4.5,,", SentenceType::GNS),
        ("GPGSV,4,1,13,02,02,213,,03,-3,000,,11,00,121,,14,13,172,05", SentenceType::GSV),
    ];
    for (body, kind) in bodies {
        assert_eq!(
            parse_nmea_sentence(&with_checksum(body)),
            Err(NmeaSentenceError::TypeNotImplementedError(kind))
        );
    }
    assert!(parse_gbs(b"225444,1.4,1.3,3.1,03,,-21.4,3.8*").is_ok());
    assert!(parse_gns(b"225444,4916.45,N,12311.12,W,AA,10,0.9,12.5,-4.5,,*").is_ok());
    assert!(parse_gsv(b"4,1,13,02,02,213,,03,-3,000,,11,00,121,,14,13,172,05*").is_ok());
    assert_eq!(
        parse_nmea_sentence(b"$GPGSV,4,1,13,02,02,213,,03,-3,000,,11,00,121,,14,13,172,05*67\r\n"),
        Err(NmeaSentenceError::TypeNotImplementedError(SentenceType::GSV))
    );
}

#[test]
fn the_first_failure_in_the_order_of_the_fields_decides() {
    assert_eq!(
        parse_gsa(b"A,7,x,,,,,,,,,,,,,,*"),
        Err(status(StatusParsingError::GsaModeError))
    );
    assert_eq!(
        parse_gsa(b"Q,7,x,,,,,,,,,,,,,,*"),
        Err(status(StatusParsingError::GsaSelectionModeError))
    );
    assert_eq!(parse_gsa(b"A,x,,,,,,,,,,,,,,,Q*"), Err(FieldError::Number));
    assert_eq!(
        parse_rmc(b"225444,B,4916.45,N,12311.12,W,x,054.7,191194,020.3,E*"),
        Err(status(StatusParsingError::RmStatusError))
    );
    assert_eq!(
        parse_rmc(b"22,B,4916.45,N,12311.12,W,x,054.7,191194,020.3,E*"),
        Err(FieldError::Number)
    );
    assert_eq!(
        parse_rmc(b"225444,A,4916.45,N,12311.12,W,x,054.7,191194,020.3,S*"),
        Err(FieldError::Number)
    );
    assert_eq!(
        parse_rma(b"Q,,N,12311.12,W,,,,,,N*"),
        Err(status(StatusParsingError::RmStatusError))
    );
    assert_eq!(
        parse_rmb(b"A,0.66,X,003,004,,N,12311.12,W,001.3,052.5,000.5,V*"),
        Err(status(StatusParsingError::SteerDirectionError))
    );
    assert_eq!(
        parse_rmb(b"A,x,X,003,004,4916.45,N,12311.12,W,001.3,052.5,000.5,V*"),
        Err(FieldError::Number)
    );
    assert_eq!(
        parse_gll(b"4916.45,N,12311.12,W,2254,X*"),
        Err(FieldError::Number)
    );
    assert_eq!(
        parse_vbw(b"12.3,0.07,V,x,-0.12,A*"),
        Err(status(StatusParsingError::DataValidityError))
    );
    assert_eq!(parse_vbw(b"12.3,x,V,11.78,-0.12,A*"), Err(FieldError::Number));
    assert_eq!(parse_vbw(b"12.3,0.07,A,11.78,x,V*"), Err(FieldError::Number));
    assert_eq!(
        parse_gns(b",4916.45,N,12311.12,W,AXN,x,,,,,*"),
        Err(status(StatusParsingError::GnsModeError))
    );
    assert_eq!(parse_gns(b"22,4916.45,N,12311.12,W,AXN,,,,,,*"), Err(FieldError::Number));
    assert_eq!(parse_gns(b",4916.45,N,12311.12,W,A,,,,x,y,*"), Err(FieldError::Number));
    assert_eq!(
        parse_gns(b",4916.45,N,12311.12,W,A,,,x,-,,*"),
        Err(FieldError::Number)
    );
}

#[test]
fn builders_take_an_empty_token_as_absent() {
    let empty = GgaData {
        time: None,
        position: position(),
        quality: None,
        sats_in_view: None,
        hdop: None,
        altitude: None,
        geoid_altitude: None,
        age_of_differential: None,
        differential_station_id: None,
    };
    assert_eq!(
        build_gga((None, position(), None, None, None, None, Some(b""), None, None)),
        Ok(empty)
    );
    assert_eq!(
        build_gga((None, position(), None, None, None, None, None, None, None)),
        Ok(empty)
    );
    assert_eq!(
        build_vbw((Some(b""), Some(b""), None, Some(b""), Some(b""), None)),
        Ok(VbwData {
            lon_water_speed: None,
            transverse_water_speed: None,
            water_validity: None,
            lon_ground_speed: None,
            transverse_ground_speed: None,
            ground_validity: None,
        })
    );
    let built = build_gns((None, position(), None, None, None, None, Some(b""), None, None));
    assert_eq!(built.map(|data| data.geoid_seperation), Ok(None));
}
