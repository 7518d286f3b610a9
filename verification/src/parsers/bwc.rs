//! The decoder of BWC, bearing and distance to a waypoint.

use vstd::prelude::*;

use super::utils::{
    fields, is_tag, opt_decimal, opt_text, opt_utc_stamp, parse_gps_position, result_view,
    spec_fields, spec_is_tag, spec_opt_decimal, spec_opt_text, spec_opt_utc_stamp,
    spec_parse_gps_position, token,
};
use crate::errors::FieldError;
use crate::parse::{
    option_view, text_view, BwcData, BwcDataView, Decimal, DecimalView, GpsPosition,
    GpsPositionView, GpsTime, GpsTimeView,
};

verus! {

/// The record of a BWC sentence from its parts, which it takes as they are.
pub open spec fn spec_build_bwc(
    sentence: (
        Option<GpsTimeView>,
        GpsPositionView,
        Option<DecimalView>,
        Option<DecimalView>,
        Option<DecimalView>,
        Option<Seq<u8>>,
    ),
) -> Result<BwcDataView, FieldError> {
    Ok(
        BwcDataView {
            time: sentence.0,
            waypoint_position: sentence.1,
            bearing_true: sentence.2,
            bearing_magnetic: sentence.3,
            nautical_miles: sentence.4,
            waypoint: sentence.5,
        },
    )
}

pub fn build_bwc<'a>(
    sentence: (
        Option<GpsTime<'a>>,
        GpsPosition<'a>,
        Option<Decimal<'a>>,
        Option<Decimal<'a>>,
        Option<Decimal<'a>>,
        Option<&'a [u8]>,
    ),
) -> (r: Result<BwcData<'a>, FieldError>)
    ensures
        result_view(r) == spec_build_bwc(
            (
                option_view(sentence.0),
                sentence.1@,
                option_view(sentence.2),
                option_view(sentence.3),
                option_view(sentence.4),
                text_view(sentence.5),
            ),
        ),
{
    Ok(
        BwcData {
            time: sentence.0,
            waypoint_position: sentence.1,
            bearing_true: sentence.2,
            bearing_magnetic: sentence.3,
            nautical_miles: sentence.4,
            waypoint: sentence.5,
        },
    )
}

/// The data of a BWC sentence is twelve fields: time, position of the waypoint
/// (four fields), the true bearing and `T`, the magnetic bearing and `M`, the
/// distance and `N`, and the name of the waypoint. Any other number of fields
/// fails the structure; after that the fields are taken in their order, each
/// decoded in full at its place, and the first failure decides.
#[verifier::opaque]
pub open spec fn spec_decode_bwc(f: Seq<Seq<u8>>) -> Result<BwcDataView, FieldError> {
    let time = spec_opt_utc_stamp(f[0]);
    let waypoint_position = spec_parse_gps_position(f[1], f[2], f[3], f[4]);
    let bearing_true = spec_opt_decimal(f[5]);
    let bearing_magnetic = spec_opt_decimal(f[7]);
    let nautical_miles = spec_opt_decimal(f[9]);
    if f.len() != 12 {
        Err(FieldError::Structure)
    } else if time is Err {
        Err(time->Err_0)
    } else if waypoint_position is Err {
        Err(waypoint_position->Err_0)
    } else if bearing_true is Err {
        Err(bearing_true->Err_0)
    } else if !spec_is_tag(f[6], 'T') {
        Err(FieldError::Structure)
    } else if bearing_magnetic is Err {
        Err(bearing_magnetic->Err_0)
    } else if !spec_is_tag(f[8], 'M') {
        Err(FieldError::Structure)
    } else if nautical_miles is Err {
        Err(nautical_miles->Err_0)
    } else if !spec_is_tag(f[10], 'N') {
        Err(FieldError::Structure)
    } else {
        spec_build_bwc(
            (
                time->Ok_0,
                waypoint_position->Ok_0,
                bearing_true->Ok_0,
                bearing_magnetic->Ok_0,
                nautical_miles->Ok_0,
                spec_opt_text(f[11]),
            ),
        )
    }
}

/// What the data of a BWC sentence decodes to: it must end in `*`, and what
/// stands before is cut into fields at the commas.
pub open spec fn spec_parse_bwc(data: Seq<u8>) -> Result<BwcDataView, FieldError> {
    match spec_fields(data) {
        None => Err(FieldError::Structure),
        Some(f) => spec_decode_bwc(f),
    }
}

pub fn parse_bwc<'a>(data: &'a [u8]) -> (r: Result<BwcData<'a>, FieldError>)
    ensures
        result_view(r) == spec_parse_bwc(data@),
{
    proof {
        reveal(spec_decode_bwc);
    }
    let f = match fields(data) {
        Some(f) => f,
        None => {
            return Err(FieldError::Structure);
        },
    };
    if f.len() != 12 {
        return Err(FieldError::Structure);
    }
    let time = opt_utc_stamp(token(&f, 0))?;
    let waypoint_position = parse_gps_position(
        token(&f, 1),
        token(&f, 2),
        token(&f, 3),
        token(&f, 4),
    )?;
    let bearing_true = opt_decimal(token(&f, 5))?;
    if !is_tag(token(&f, 6), 'T') {
        return Err(FieldError::Structure);
    }
    let bearing_magnetic = opt_decimal(token(&f, 7))?;
    if !is_tag(token(&f, 8), 'M') {
        return Err(FieldError::Structure);
    }
    let nautical_miles = opt_decimal(token(&f, 9))?;
    if !is_tag(token(&f, 10), 'N') {
        return Err(FieldError::Structure);
    }
    let waypoint = opt_text(token(&f, 11));
    build_bwc((time, waypoint_position, bearing_true, bearing_magnetic, nautical_miles, waypoint))
}

/// Emptying an optional field of a BWC sentence that decodes gives a sentence
/// that decodes too, to the same record with that field absent. So an empty
/// token is an absent value and never an error.
pub proof fn lemma_bwc_empty_is_absent(f: Seq<Seq<u8>>)
    requires
        spec_decode_bwc(f) is Ok,
    ensures
        ({
            let record = spec_decode_bwc(f)->Ok_0;
            &&& spec_decode_bwc(f.update(0, Seq::<u8>::empty())) == Ok::<BwcDataView, FieldError>(
                BwcDataView { time: None, ..record },
            )
            &&& spec_decode_bwc(f.update(5, Seq::<u8>::empty())) == Ok::<BwcDataView, FieldError>(
                BwcDataView { bearing_true: None, ..record },
            )
            &&& spec_decode_bwc(f.update(7, Seq::<u8>::empty())) == Ok::<BwcDataView, FieldError>(
                BwcDataView { bearing_magnetic: None, ..record },
            )
            &&& spec_decode_bwc(f.update(9, Seq::<u8>::empty())) == Ok::<BwcDataView, FieldError>(
                BwcDataView { nautical_miles: None, ..record },
            )
            &&& spec_decode_bwc(f.update(11, Seq::<u8>::empty())) == Ok::<BwcDataView, FieldError>(
                BwcDataView { waypoint: None, ..record },
            )
        }),
{
    reveal(spec_decode_bwc);
}

} // verus!
