//! The decoder of RMC, recommended minimum of a satellite receiver.

use vstd::prelude::*;

use super::utils::{
    fields, opt_date, opt_decimal, opt_letter, opt_utc_stamp, parse_gps_position, result_view,
    spec_fields, spec_opt_date, spec_opt_decimal, spec_opt_letter, spec_opt_utc_stamp,
    spec_parse_gps_position, token,
};
use crate::errors::FieldError;
use crate::parse::{
    option_view, Decimal, DecimalView, GpsDate, GpsPosition, GpsPositionView, GpsTime, GpsTimeView,
    LongitudeDirection, RmStatus, RmcData, RmcDataView, StatusParsingError,
};

verus! {

/// The record of an RMC sentence from its parts: the status letter and the
/// direction of the variation are looked up in their tables.
pub open spec fn spec_build_rmc(
    sentence: (
        Option<GpsTimeView>,
        Option<char>,
        GpsPositionView,
        Option<DecimalView>,
        Option<DecimalView>,
        Option<GpsDate>,
        Option<DecimalView>,
        Option<char>,
    ),
) -> Result<RmcDataView, FieldError> {
    let status = RmStatus::spec_translate(sentence.1);
    let magnetic_direction = LongitudeDirection::spec_translate(sentence.7);
    if status is Err {
        Err(status->Err_0)
    } else if magnetic_direction is Err {
        Err(magnetic_direction->Err_0)
    } else {
        Ok(
            RmcDataView {
                time: sentence.0,
                status: status->Ok_0,
                position: sentence.2,
                speed: sentence.3,
                heading: sentence.4,
                date: sentence.5,
                magnetic_variation: sentence.6,
                magnetic_direction: magnetic_direction->Ok_0,
            },
        )
    }
}

pub fn build_rmc<'a>(
    sentence: (
        Option<GpsTime<'a>>,
        Option<char>,
        GpsPosition<'a>,
        Option<Decimal<'a>>,
        Option<Decimal<'a>>,
        Option<GpsDate>,
        Option<Decimal<'a>>,
        Option<char>,
    ),
) -> (r: Result<RmcData<'a>, FieldError>)
    ensures
        result_view(r) == spec_build_rmc(
            (
                option_view(sentence.0),
                sentence.1,
                sentence.2@,
                option_view(sentence.3),
                option_view(sentence.4),
                sentence.5,
                option_view(sentence.6),
                sentence.7,
            ),
        ),
{
    Ok(
        RmcData {
            time: sentence.0,
            status: RmStatus::translate(sentence.1)?,
            position: sentence.2,
            speed: sentence.3,
            heading: sentence.4,
            date: sentence.5,
            magnetic_variation: sentence.6,
            magnetic_direction: LongitudeDirection::translate(sentence.7)?,
        },
    )
}

/// The data of an RMC sentence is eleven fields: time, status, position (four
/// fields), speed, heading, date, and the magnetic variation with its
/// direction. Any other number of fields fails the structure; after that the
/// fields are taken in their order, each decoded in full at its place, and the
/// first failure decides.
#[verifier::opaque]
pub open spec fn spec_decode_rmc(f: Seq<Seq<u8>>) -> Result<RmcDataView, FieldError> {
    let time = spec_opt_utc_stamp(f[0]);
    let status = spec_opt_letter(f[1], StatusParsingError::RmStatusError);
    let position = spec_parse_gps_position(f[2], f[3], f[4], f[5]);
    let speed = spec_opt_decimal(f[6]);
    let heading = spec_opt_decimal(f[7]);
    let date = spec_opt_date(f[8]);
    let magnetic_variation = spec_opt_decimal(f[9]);
    let magnetic_direction = spec_opt_letter(f[10], StatusParsingError::LongitudeDirectionError);
    if f.len() != 11 {
        Err(FieldError::Structure)
    } else if time is Err {
        Err(time->Err_0)
    } else if status is Err {
        Err(status->Err_0)
    } else if RmStatus::spec_translate(status->Ok_0) is Err {
        Err(RmStatus::spec_translate(status->Ok_0)->Err_0)
    } else if position is Err {
        Err(position->Err_0)
    } else if speed is Err {
        Err(speed->Err_0)
    } else if heading is Err {
        Err(heading->Err_0)
    } else if date is Err {
        Err(date->Err_0)
    } else if magnetic_variation is Err {
        Err(magnetic_variation->Err_0)
    } else if magnetic_direction is Err {
        Err(magnetic_direction->Err_0)
    } else if LongitudeDirection::spec_translate(magnetic_direction->Ok_0) is Err {
        Err(LongitudeDirection::spec_translate(magnetic_direction->Ok_0)->Err_0)
    } else {
        spec_build_rmc(
            (
                time->Ok_0,
                status->Ok_0,
                position->Ok_0,
                speed->Ok_0,
                heading->Ok_0,
                date->Ok_0,
                magnetic_variation->Ok_0,
                magnetic_direction->Ok_0,
            ),
        )
    }
}

/// What the data of an RMC sentence decodes to: it must end in `*`, and what
/// stands before is cut into fields at the commas.
pub open spec fn spec_parse_rmc(data: Seq<u8>) -> Result<RmcDataView, FieldError> {
    match spec_fields(data) {
        None => Err(FieldError::Structure),
        Some(f) => spec_decode_rmc(f),
    }
}

pub fn parse_rmc<'a>(data: &'a [u8]) -> (r: Result<RmcData<'a>, FieldError>)
    ensures
        result_view(r) == spec_parse_rmc(data@),
{
    proof {
        reveal(spec_decode_rmc);
    }
    let f = match fields(data) {
        Some(f) => f,
        None => {
            return Err(FieldError::Structure);
        },
    };
    if f.len() != 11 {
        return Err(FieldError::Structure);
    }
    let time = opt_utc_stamp(token(&f, 0))?;
    let status = opt_letter(token(&f, 1), StatusParsingError::RmStatusError)?;
    // looked up here, at its place, so that the first failure decides
    RmStatus::translate(status)?;
    let position = parse_gps_position(
        token(&f, 2),
        token(&f, 3),
        token(&f, 4),
        token(&f, 5),
    )?;
    let speed = opt_decimal(token(&f, 6))?;
    let heading = opt_decimal(token(&f, 7))?;
    let date = opt_date(token(&f, 8))?;
    let magnetic_variation = opt_decimal(token(&f, 9))?;
    let magnetic_direction = opt_letter(token(&f, 10), StatusParsingError::LongitudeDirectionError)?;
    LongitudeDirection::translate(magnetic_direction)?;
    build_rmc(
        (
            time,
            status,
            position,
            speed,
            heading,
            date,
            magnetic_variation,
            magnetic_direction,
        ),
    )
}

/// Emptying an optional field of an RMC sentence that decodes gives a sentence
/// that decodes too, to the same record with that field absent. So an empty
/// token is an absent value and never an error.
pub proof fn lemma_rmc_empty_is_absent(f: Seq<Seq<u8>>)
    requires
        spec_decode_rmc(f) is Ok,
    ensures
        ({
            let record = spec_decode_rmc(f)->Ok_0;
            &&& spec_decode_rmc(f.update(0, Seq::<u8>::empty())) == Ok::<RmcDataView, FieldError>(
                RmcDataView { time: None, ..record },
            )
            &&& spec_decode_rmc(f.update(1, Seq::<u8>::empty())) == Ok::<RmcDataView, FieldError>(
                RmcDataView { status: None, ..record },
            )
            &&& spec_decode_rmc(f.update(6, Seq::<u8>::empty())) == Ok::<RmcDataView, FieldError>(
                RmcDataView { speed: None, ..record },
            )
            &&& spec_decode_rmc(f.update(7, Seq::<u8>::empty())) == Ok::<RmcDataView, FieldError>(
                RmcDataView { heading: None, ..record },
            )
            &&& spec_decode_rmc(f.update(8, Seq::<u8>::empty())) == Ok::<RmcDataView, FieldError>(
                RmcDataView { date: None, ..record },
            )
            &&& spec_decode_rmc(f.update(9, Seq::<u8>::empty())) == Ok::<RmcDataView, FieldError>(
                RmcDataView { magnetic_variation: None, ..record },
            )
            &&& spec_decode_rmc(f.update(10, Seq::<u8>::empty())) == Ok::<RmcDataView, FieldError>(
                RmcDataView { magnetic_direction: None, ..record },
            )
        }),
{
    reveal(spec_decode_rmc);
}

} // verus!
