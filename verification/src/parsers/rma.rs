//! The decoder of RMA, recommended minimum of a Loran-C receiver.

use vstd::prelude::*;

use super::utils::{
    fields, opt_decimal, opt_letter, parse_gps_position, result_view, spec_fields, spec_opt_decimal,
    spec_opt_letter, spec_parse_gps_position, token,
};
use crate::errors::FieldError;
use crate::parse::{
    option_view, Decimal, DecimalView, GpsPosition, GpsPositionView, LongitudeDirection, RmStatus,
    RmaData, RmaDataView, StatusParsingError,
};

verus! {

/// The record of an RMA sentence from its parts: the status letter and the
/// direction of the variation are looked up in their tables.
pub open spec fn spec_build_rma(
    sentence: (
        Option<char>,
        GpsPositionView,
        Option<DecimalView>,
        Option<DecimalView>,
        Option<DecimalView>,
        Option<DecimalView>,
        Option<DecimalView>,
        Option<char>,
    ),
) -> Result<RmaDataView, FieldError> {
    let status = RmStatus::spec_translate(sentence.0);
    let magnetic_direction = LongitudeDirection::spec_translate(sentence.7);
    if status is Err {
        Err(status->Err_0)
    } else if magnetic_direction is Err {
        Err(magnetic_direction->Err_0)
    } else {
        Ok(
            RmaDataView {
                status: status->Ok_0,
                position: sentence.1,
                time_diff_a: sentence.2,
                time_diff_b: sentence.3,
                speed: sentence.4,
                heading: sentence.5,
                magnetic_variation: sentence.6,
                magnetic_direction: magnetic_direction->Ok_0,
            },
        )
    }
}

pub fn build_rma<'a>(
    sentence: (
        Option<char>,
        GpsPosition<'a>,
        Option<Decimal<'a>>,
        Option<Decimal<'a>>,
        Option<Decimal<'a>>,
        Option<Decimal<'a>>,
        Option<Decimal<'a>>,
        Option<char>,
    ),
) -> (r: Result<RmaData<'a>, FieldError>)
    ensures
        result_view(r) == spec_build_rma(
            (
                sentence.0,
                sentence.1@,
                option_view(sentence.2),
                option_view(sentence.3),
                option_view(sentence.4),
                option_view(sentence.5),
                option_view(sentence.6),
                sentence.7,
            ),
        ),
{
    Ok(
        RmaData {
            status: RmStatus::translate(sentence.0)?,
            position: sentence.1,
            time_diff_a: sentence.2,
            time_diff_b: sentence.3,
            speed: sentence.4,
            heading: sentence.5,
            magnetic_variation: sentence.6,
            magnetic_direction: LongitudeDirection::translate(sentence.7)?,
        },
    )
}

/// The data of an RMA sentence is eleven fields: status, position (four
/// fields), the two time differences, speed, heading, and the magnetic
/// variation with its direction. Any other number of fields fails the
/// structure; after that the fields are taken in their order, each decoded in
/// full at its place, and the first failure decides.
#[verifier::opaque]
pub open spec fn spec_decode_rma(f: Seq<Seq<u8>>) -> Result<RmaDataView, FieldError> {
    let status = spec_opt_letter(f[0], StatusParsingError::RmStatusError);
    let position = spec_parse_gps_position(f[1], f[2], f[3], f[4]);
    let time_diff_a = spec_opt_decimal(f[5]);
    let time_diff_b = spec_opt_decimal(f[6]);
    let speed = spec_opt_decimal(f[7]);
    let heading = spec_opt_decimal(f[8]);
    let magnetic_variation = spec_opt_decimal(f[9]);
    let magnetic_direction = spec_opt_letter(f[10], StatusParsingError::LongitudeDirectionError);
    if f.len() != 11 {
        Err(FieldError::Structure)
    } else if status is Err {
        Err(status->Err_0)
    } else if RmStatus::spec_translate(status->Ok_0) is Err {
        Err(RmStatus::spec_translate(status->Ok_0)->Err_0)
    } else if position is Err {
        Err(position->Err_0)
    } else if time_diff_a is Err {
        Err(time_diff_a->Err_0)
    } else if time_diff_b is Err {
        Err(time_diff_b->Err_0)
    } else if speed is Err {
        Err(speed->Err_0)
    } else if heading is Err {
        Err(heading->Err_0)
    } else if magnetic_variation is Err {
        Err(magnetic_variation->Err_0)
    } else if magnetic_direction is Err {
        Err(magnetic_direction->Err_0)
    } else if LongitudeDirection::spec_translate(magnetic_direction->Ok_0) is Err {
        Err(LongitudeDirection::spec_translate(magnetic_direction->Ok_0)->Err_0)
    } else {
        spec_build_rma(
            (
                status->Ok_0,
                position->Ok_0,
                time_diff_a->Ok_0,
                time_diff_b->Ok_0,
                speed->Ok_0,
                heading->Ok_0,
                magnetic_variation->Ok_0,
                magnetic_direction->Ok_0,
            ),
        )
    }
}

/// What the data of an RMA sentence decodes to: it must end in `*`, and what
/// stands before is cut into fields at the commas.
pub open spec fn spec_parse_rma(data: Seq<u8>) -> Result<RmaDataView, FieldError> {
    match spec_fields(data) {
        None => Err(FieldError::Structure),
        Some(f) => spec_decode_rma(f),
    }
}

pub fn parse_rma<'a>(data: &'a [u8]) -> (r: Result<RmaData<'a>, FieldError>)
    ensures
        result_view(r) == spec_parse_rma(data@),
{
    proof {
        reveal(spec_decode_rma);
    }
    let f = match fields(data) {
        Some(f) => f,
        None => {
            return Err(FieldError::Structure);
        },
    };
    if f.len() != 11 {
        return Err(FieldError::Structure);
    }
    let status = opt_letter(token(&f, 0), StatusParsingError::RmStatusError)?;
    // looked up here, at its place, so that the first failure decides
    RmStatus::translate(status)?;
    let position = parse_gps_position(
        token(&f, 1),
        token(&f, 2),
        token(&f, 3),
        token(&f, 4),
    )?;
    let time_diff_a = opt_decimal(token(&f, 5))?;
    let time_diff_b = opt_decimal(token(&f, 6))?;
    let speed = opt_decimal(token(&f, 7))?;
    let heading = opt_decimal(token(&f, 8))?;
    let magnetic_variation = opt_decimal(token(&f, 9))?;
    let magnetic_direction = opt_letter(token(&f, 10), StatusParsingError::LongitudeDirectionError)?;
    LongitudeDirection::translate(magnetic_direction)?;
    build_rma(
        (
            status,
            position,
            time_diff_a,
            time_diff_b,
            speed,
            heading,
            magnetic_variation,
            magnetic_direction,
        ),
    )
}

/// Emptying an optional field of an RMA sentence that decodes gives a sentence
/// that decodes too, to the same record with that field absent. So an empty
/// token is an absent value and never an error.
pub proof fn lemma_rma_empty_is_absent(f: Seq<Seq<u8>>)
    requires
        spec_decode_rma(f) is Ok,
    ensures
        ({
            let record = spec_decode_rma(f)->Ok_0;
            &&& spec_decode_rma(f.update(0, Seq::<u8>::empty())) == Ok::<RmaDataView, FieldError>(
                RmaDataView { status: None, ..record },
            )
            &&& spec_decode_rma(f.update(5, Seq::<u8>::empty())) == Ok::<RmaDataView, FieldError>(
                RmaDataView { time_diff_a: None, ..record },
            )
            &&& spec_decode_rma(f.update(6, Seq::<u8>::empty())) == Ok::<RmaDataView, FieldError>(
                RmaDataView { time_diff_b: None, ..record },
            )
            &&& spec_decode_rma(f.update(7, Seq::<u8>::empty())) == Ok::<RmaDataView, FieldError>(
                RmaDataView { speed: None, ..record },
            )
            &&& spec_decode_rma(f.update(8, Seq::<u8>::empty())) == Ok::<RmaDataView, FieldError>(
                RmaDataView { heading: None, ..record },
            )
            &&& spec_decode_rma(f.update(9, Seq::<u8>::empty())) == Ok::<RmaDataView, FieldError>(
                RmaDataView { magnetic_variation: None, ..record },
            )
            &&& spec_decode_rma(f.update(10, Seq::<u8>::empty())) == Ok::<RmaDataView, FieldError>(
                RmaDataView { magnetic_direction: None, ..record },
            )
        }),
{
    reveal(spec_decode_rma);
}

} // verus!
