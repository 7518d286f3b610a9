//! The decoder of GGA, fix data.

use vstd::prelude::*;

use super::utils::{
    fields, invalid_height_check, is_tag, opt_decimal, opt_text, opt_u16, opt_u8, opt_utc_stamp,
    parse_gps_position, result_view, spec_fields, spec_invalid_height_check, spec_is_tag,
    spec_opt_decimal, spec_opt_text, spec_opt_u16, spec_opt_u8, spec_opt_utc_stamp,
    spec_parse_gps_position, token,
};
use crate::errors::FieldError;
use crate::parse::{
    option_view, text_view, Decimal, DecimalView, GgaData, GgaDataView, GpsPosition,
    GpsPositionView, GpsQuality, GpsTime, GpsTimeView,
};

verus! {

/// The record of a GGA sentence from its parts: the quality number is looked
/// up in its table, and the geoid separation may be marked as not computable.
pub open spec fn spec_build_gga(
    sentence: (
        Option<GpsTimeView>,
        GpsPositionView,
        Option<u8>,
        Option<u8>,
        Option<DecimalView>,
        Option<DecimalView>,
        Option<Seq<u8>>,
        Option<DecimalView>,
        Option<u16>,
    ),
) -> Result<GgaDataView, FieldError> {
    let quality = GpsQuality::spec_translate(sentence.2);
    let geoid_altitude = spec_invalid_height_check(sentence.6);
    if quality is Err {
        Err(quality->Err_0)
    } else if geoid_altitude is Err {
        Err(geoid_altitude->Err_0)
    } else {
        Ok(
            GgaDataView {
                time: sentence.0,
                position: sentence.1,
                quality: quality->Ok_0,
                sats_in_view: sentence.3,
                hdop: sentence.4,
                altitude: sentence.5,
                geoid_altitude: geoid_altitude->Ok_0,
                age_of_differential: sentence.7,
                differential_station_id: sentence.8,
            },
        )
    }
}

pub fn build_gga<'a>(
    sentence: (
        Option<GpsTime<'a>>,
        GpsPosition<'a>,
        Option<u8>,
        Option<u8>,
        Option<Decimal<'a>>,
        Option<Decimal<'a>>,
        Option<&'a [u8]>,
        Option<Decimal<'a>>,
        Option<u16>,
    ),
) -> (r: Result<GgaData<'a>, FieldError>)
    ensures
        result_view(r) == spec_build_gga(
            (
                option_view(sentence.0),
                sentence.1@,
                sentence.2,
                sentence.3,
                option_view(sentence.4),
                option_view(sentence.5),
                text_view(sentence.6),
                option_view(sentence.7),
                sentence.8,
            ),
        ),
{
    Ok(
        GgaData {
            time: sentence.0,
            position: sentence.1,
            quality: GpsQuality::translate(sentence.2)?,
            sats_in_view: sentence.3,
            hdop: sentence.4,
            altitude: sentence.5,
            geoid_altitude: invalid_height_check(sentence.6)?,
            age_of_differential: sentence.7,
            differential_station_id: sentence.8,
        },
    )
}

/// The data of a GGA sentence is fourteen fields: time, position (four
/// fields), quality, satellites, dilution, altitude and `M`, geoid separation
/// and `M`, age of the differential data, and its station. Any other number of
/// fields fails the structure; after that the fields are taken in their order,
/// each decoded in full at its place, and the first failure decides.
#[verifier::opaque]
pub open spec fn spec_decode_gga(f: Seq<Seq<u8>>) -> Result<GgaDataView, FieldError> {
    let time = spec_opt_utc_stamp(f[0]);
    let position = spec_parse_gps_position(f[1], f[2], f[3], f[4]);
    let quality = spec_opt_u8(f[5]);
    let sats_in_view = spec_opt_u8(f[6]);
    let hdop = spec_opt_decimal(f[7]);
    let altitude = spec_opt_decimal(f[8]);
    let age_of_differential = spec_opt_decimal(f[12]);
    let differential_station_id = spec_opt_u16(f[13]);
    if f.len() != 14 {
        Err(FieldError::Structure)
    } else if time is Err {
        Err(time->Err_0)
    } else if position is Err {
        Err(position->Err_0)
    } else if quality is Err {
        Err(quality->Err_0)
    } else if GpsQuality::spec_translate(quality->Ok_0) is Err {
        Err(GpsQuality::spec_translate(quality->Ok_0)->Err_0)
    } else if sats_in_view is Err {
        Err(sats_in_view->Err_0)
    } else if hdop is Err {
        Err(hdop->Err_0)
    } else if altitude is Err {
        Err(altitude->Err_0)
    } else if !spec_is_tag(f[9], 'M') {
        Err(FieldError::Structure)
    } else if spec_invalid_height_check(spec_opt_text(f[10])) is Err {
        Err(spec_invalid_height_check(spec_opt_text(f[10]))->Err_0)
    } else if !spec_is_tag(f[11], 'M') {
        Err(FieldError::Structure)
    } else if age_of_differential is Err {
        Err(age_of_differential->Err_0)
    } else if differential_station_id is Err {
        Err(differential_station_id->Err_0)
    } else {
        spec_build_gga(
            (
                time->Ok_0,
                position->Ok_0,
                quality->Ok_0,
                sats_in_view->Ok_0,
                hdop->Ok_0,
                altitude->Ok_0,
                spec_opt_text(f[10]),
                age_of_differential->Ok_0,
                differential_station_id->Ok_0,
            ),
        )
    }
}

/// What the data of a GGA sentence decodes to: it must end in `*`, and what
/// stands before is cut into fields at the commas.
pub open spec fn spec_parse_gga(data: Seq<u8>) -> Result<GgaDataView, FieldError> {
    match spec_fields(data) {
        None => Err(FieldError::Structure),
        Some(f) => spec_decode_gga(f),
    }
}

pub fn parse_gga<'a>(data: &'a [u8]) -> (r: Result<GgaData<'a>, FieldError>)
    ensures
        result_view(r) == spec_parse_gga(data@),
{
    proof {
        reveal(spec_decode_gga);
    }
    let f = match fields(data) {
        Some(f) => f,
        None => {
            return Err(FieldError::Structure);
        },
    };
    if f.len() != 14 {
        return Err(FieldError::Structure);
    }
    let time = opt_utc_stamp(token(&f, 0))?;
    let position = parse_gps_position(
        token(&f, 1),
        token(&f, 2),
        token(&f, 3),
        token(&f, 4),
    )?;
    let quality = opt_u8(token(&f, 5))?;
    // looked up here, at its place, so that the first failure decides
    GpsQuality::translate(quality)?;
    let sats_in_view = opt_u8(token(&f, 6))?;
    let hdop = opt_decimal(token(&f, 7))?;
    let altitude = opt_decimal(token(&f, 8))?;
    if !is_tag(token(&f, 9), 'M') {
        return Err(FieldError::Structure);
    }
    let geoid_altitude = opt_text(token(&f, 10));
    invalid_height_check(geoid_altitude)?;
    if !is_tag(token(&f, 11), 'M') {
        return Err(FieldError::Structure);
    }
    let age_of_differential = opt_decimal(token(&f, 12))?;
    let differential_station_id = opt_u16(token(&f, 13))?;
    build_gga(
        (
            time,
            position,
            quality,
            sats_in_view,
            hdop,
            altitude,
            geoid_altitude,
            age_of_differential,
            differential_station_id,
        ),
    )
}

/// Emptying an optional field of a GGA sentence that decodes gives a sentence
/// that decodes too, to the same record with that field absent. So an empty
/// token is an absent value and never an error.
pub proof fn lemma_gga_empty_is_absent(f: Seq<Seq<u8>>)
    requires
        spec_decode_gga(f) is Ok,
    ensures
        ({
            let record = spec_decode_gga(f)->Ok_0;
            &&& spec_decode_gga(f.update(0, Seq::<u8>::empty())) == Ok::<GgaDataView, FieldError>(
                GgaDataView { time: None, ..record },
            )
            &&& spec_decode_gga(f.update(5, Seq::<u8>::empty())) == Ok::<GgaDataView, FieldError>(
                GgaDataView { quality: None, ..record },
            )
            &&& spec_decode_gga(f.update(6, Seq::<u8>::empty())) == Ok::<GgaDataView, FieldError>(
                GgaDataView { sats_in_view: None, ..record },
            )
            &&& spec_decode_gga(f.update(7, Seq::<u8>::empty())) == Ok::<GgaDataView, FieldError>(
                GgaDataView { hdop: None, ..record },
            )
            &&& spec_decode_gga(f.update(8, Seq::<u8>::empty())) == Ok::<GgaDataView, FieldError>(
                GgaDataView { altitude: None, ..record },
            )
            &&& spec_decode_gga(f.update(10, Seq::<u8>::empty())) == Ok::<GgaDataView, FieldError>(
                GgaDataView { geoid_altitude: None, ..record },
            )
            &&& spec_decode_gga(f.update(12, Seq::<u8>::empty())) == Ok::<GgaDataView, FieldError>(
                GgaDataView { age_of_differential: None, ..record },
            )
            &&& spec_decode_gga(f.update(13, Seq::<u8>::empty())) == Ok::<GgaDataView, FieldError>(
                GgaDataView { differential_station_id: None, ..record },
            )
        }),
{
    reveal(spec_decode_gga);
}

} // verus!
