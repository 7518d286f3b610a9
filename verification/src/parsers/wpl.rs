//! The decoder of WPL, waypoint location.

use vstd::prelude::*;

use super::utils::{
    fields, opt_text, parse_gps_position, result_view, spec_fields, spec_opt_text,
    spec_parse_gps_position, token,
};
use crate::errors::FieldError;
use crate::parse::{text_view, GpsPosition, GpsPositionView, WplData, WplDataView};

verus! {

/// The record of a WPL sentence from its parts, which it takes as they are.
pub open spec fn spec_build_wpl(
    sentence: (
        GpsPositionView,
        Option<Seq<u8>>,
    ),
) -> Result<WplDataView, FieldError> {
    Ok(
        WplDataView {
            position: Some(sentence.0),
            waypoint_name: sentence.1,
        },
    )
}

pub fn build_wpl<'a>(
    sentence: (
        GpsPosition<'a>,
        Option<&'a [u8]>,
    ),
) -> (r: Result<WplData<'a>, FieldError>)
    ensures
        result_view(r) == spec_build_wpl(
            (
                sentence.0@,
                text_view(sentence.1),
            ),
        ),
{
    Ok(
        WplData {
            position: Some(sentence.0),
            waypoint_name: sentence.1,
        },
    )
}

/// The data of a WPL sentence is five fields: the position of the waypoint
/// (four fields) and its name. Any other number of fields fails the structure;
/// after that the fields are taken in their order, each decoded in full at its
/// place, and the first failure decides.
#[verifier::opaque]
pub open spec fn spec_decode_wpl(f: Seq<Seq<u8>>) -> Result<WplDataView, FieldError> {
    let position = spec_parse_gps_position(f[0], f[1], f[2], f[3]);
    if f.len() != 5 {
        Err(FieldError::Structure)
    } else if position is Err {
        Err(position->Err_0)
    } else {
        spec_build_wpl(
            (
                position->Ok_0,
                spec_opt_text(f[4]),
            ),
        )
    }
}

/// What the data of a WPL sentence decodes to: it must end in `*`, and what
/// stands before is cut into fields at the commas.
pub open spec fn spec_parse_wpl(data: Seq<u8>) -> Result<WplDataView, FieldError> {
    match spec_fields(data) {
        None => Err(FieldError::Structure),
        Some(f) => spec_decode_wpl(f),
    }
}

pub fn parse_wpl<'a>(data: &'a [u8]) -> (r: Result<WplData<'a>, FieldError>)
    ensures
        result_view(r) == spec_parse_wpl(data@),
{
    proof {
        reveal(spec_decode_wpl);
    }
    let f = match fields(data) {
        Some(f) => f,
        None => {
            return Err(FieldError::Structure);
        },
    };
    if f.len() != 5 {
        return Err(FieldError::Structure);
    }
    let position = parse_gps_position(
        token(&f, 0),
        token(&f, 1),
        token(&f, 2),
        token(&f, 3),
    )?;
    let waypoint_name = opt_text(token(&f, 4));
    build_wpl((position, waypoint_name))
}

/// Emptying an optional field of a WPL sentence that decodes gives a sentence
/// that decodes too, to the same record with that field absent. So an empty
/// token is an absent value and never an error.
pub proof fn lemma_wpl_empty_is_absent(f: Seq<Seq<u8>>)
    requires
        spec_decode_wpl(f) is Ok,
    ensures
        ({
            let record = spec_decode_wpl(f)->Ok_0;
            &&& spec_decode_wpl(f.update(4, Seq::<u8>::empty())) == Ok::<WplDataView, FieldError>(
                WplDataView { waypoint_name: None, ..record },
            )
        }),
{
    reveal(spec_decode_wpl);
}

} // verus!
