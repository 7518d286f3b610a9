//! The decoder of GLL, geographic position.

use vstd::prelude::*;

use super::utils::{
    fields, opt_letter, opt_utc_stamp, parse_gps_position, result_view, spec_fields,
    spec_opt_letter, spec_opt_utc_stamp, spec_parse_gps_position, token,
};
use crate::errors::FieldError;
use crate::parse::{
    option_view, GllData, GllDataView, GllStatus, GpsPosition, GpsPositionView, GpsTime,
    GpsTimeView, StatusParsingError,
};

verus! {

/// The record of a GLL sentence from its parts: the status letter is looked up
/// in its table.
pub open spec fn spec_build_gll(
    sentence: (
        GpsPositionView,
        Option<GpsTimeView>,
        Option<char>,
    ),
) -> Result<GllDataView, FieldError> {
    let status = GllStatus::spec_translate(sentence.2);
    if status is Err {
        Err(status->Err_0)
    } else {
        Ok(
            GllDataView {
                position: sentence.0,
                time: sentence.1,
                status: status->Ok_0,
            },
        )
    }
}

pub fn build_gll<'a>(
    sentence: (
        GpsPosition<'a>,
        Option<GpsTime<'a>>,
        Option<char>,
    ),
) -> (r: Result<GllData<'a>, FieldError>)
    ensures
        result_view(r) == spec_build_gll(
            (
                sentence.0@,
                option_view(sentence.1),
                sentence.2,
            ),
        ),
{
    Ok(
        GllData {
            position: sentence.0,
            time: sentence.1,
            status: GllStatus::translate(sentence.2)?,
        },
    )
}

/// The data of a GLL sentence begins with six fields: position (four fields),
/// time and status. Talkers of later revisions add fields behind these; they
/// are passed over. Fewer than six fields fail the structure; after that the
/// fields are taken in their order, each decoded in full at its place, and the
/// first failure decides.
#[verifier::opaque]
pub open spec fn spec_decode_gll(f: Seq<Seq<u8>>) -> Result<GllDataView, FieldError> {
    let position = spec_parse_gps_position(f[0], f[1], f[2], f[3]);
    let time = spec_opt_utc_stamp(f[4]);
    let status = spec_opt_letter(f[5], StatusParsingError::GllStatusError);
    if f.len() < 6 {
        Err(FieldError::Structure)
    } else if position is Err {
        Err(position->Err_0)
    } else if time is Err {
        Err(time->Err_0)
    } else if status is Err {
        Err(status->Err_0)
    } else if GllStatus::spec_translate(status->Ok_0) is Err {
        Err(GllStatus::spec_translate(status->Ok_0)->Err_0)
    } else {
        spec_build_gll(
            (
                position->Ok_0,
                time->Ok_0,
                status->Ok_0,
            ),
        )
    }
}

/// What the data of a GLL sentence decodes to: it must end in `*`, and what
/// stands before is cut into fields at the commas.
pub open spec fn spec_parse_gll(data: Seq<u8>) -> Result<GllDataView, FieldError> {
    match spec_fields(data) {
        None => Err(FieldError::Structure),
        Some(f) => spec_decode_gll(f),
    }
}

pub fn parse_gll<'a>(data: &'a [u8]) -> (r: Result<GllData<'a>, FieldError>)
    ensures
        result_view(r) == spec_parse_gll(data@),
{
    proof {
        reveal(spec_decode_gll);
    }
    let f = match fields(data) {
        Some(f) => f,
        None => {
            return Err(FieldError::Structure);
        },
    };
    if f.len() < 6 {
        return Err(FieldError::Structure);
    }
    let position = parse_gps_position(
        token(&f, 0),
        token(&f, 1),
        token(&f, 2),
        token(&f, 3),
    )?;
    let time = opt_utc_stamp(token(&f, 4))?;
    let status = opt_letter(token(&f, 5), StatusParsingError::GllStatusError)?;
    // looked up here, at its place, so that the first failure decides
    GllStatus::translate(status)?;
    build_gll((position, time, status))
}

/// Emptying an optional field of a GLL sentence that decodes gives a sentence
/// that decodes too, to the same record with that field absent. So an empty
/// token is an absent value and never an error.
pub proof fn lemma_gll_empty_is_absent(f: Seq<Seq<u8>>)
    requires
        spec_decode_gll(f) is Ok,
    ensures
        ({
            let record = spec_decode_gll(f)->Ok_0;
            &&& spec_decode_gll(f.update(4, Seq::<u8>::empty())) == Ok::<GllDataView, FieldError>(
                GllDataView { time: None, ..record },
            )
            &&& spec_decode_gll(f.update(5, Seq::<u8>::empty())) == Ok::<GllDataView, FieldError>(
                GllDataView { status: None, ..record },
            )
        }),
{
    reveal(spec_decode_gll);
}

} // verus!
