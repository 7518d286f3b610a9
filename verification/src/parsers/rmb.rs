//! The decoder of RMB, recommended minimum navigation data.

use vstd::prelude::*;

use super::utils::{
    fields, opt_decimal, opt_letter, opt_text, parse_gps_position, result_view, spec_fields,
    spec_opt_decimal, spec_opt_letter, spec_opt_text, spec_parse_gps_position, token,
};
use crate::errors::FieldError;
use crate::parse::{
    option_view, text_view, ArrivalStatus, Decimal, DecimalView, GpsPosition, GpsPositionView,
    RmStatus, RmbData, RmbDataView, StatusParsingError, SteerDirection,
};

verus! {

/// The record of an RMB sentence from its parts: the three coded letters are
/// looked up in their tables.
pub open spec fn spec_build_rmb(
    sentence: (
        Option<char>,
        Option<DecimalView>,
        Option<char>,
        Option<Seq<u8>>,
        Option<Seq<u8>>,
        GpsPositionView,
        Option<DecimalView>,
        Option<DecimalView>,
        Option<DecimalView>,
        Option<char>,
    ),
) -> Result<RmbDataView, FieldError> {
    let status = RmStatus::spec_translate(sentence.0);
    let steer_direction = SteerDirection::spec_translate(sentence.2);
    let arrival_status = ArrivalStatus::spec_translate(sentence.9);
    if status is Err {
        Err(status->Err_0)
    } else if steer_direction is Err {
        Err(steer_direction->Err_0)
    } else if arrival_status is Err {
        Err(arrival_status->Err_0)
    } else {
        Ok(
            RmbDataView {
                status: status->Ok_0,
                cross_error: sentence.1,
                steer_direction: steer_direction->Ok_0,
                to_waypoint: sentence.3,
                from_waypoint: sentence.4,
                dest_position: sentence.5,
                range_to_dest: sentence.6,
                bearing: sentence.7,
                closing_velocity: sentence.8,
                arrival_status: arrival_status->Ok_0,
            },
        )
    }
}

pub fn build_rmb<'a>(
    sentence: (
        Option<char>,
        Option<Decimal<'a>>,
        Option<char>,
        Option<&'a [u8]>,
        Option<&'a [u8]>,
        GpsPosition<'a>,
        Option<Decimal<'a>>,
        Option<Decimal<'a>>,
        Option<Decimal<'a>>,
        Option<char>,
    ),
) -> (r: Result<RmbData<'a>, FieldError>)
    ensures
        result_view(r) == spec_build_rmb(
            (
                sentence.0,
                option_view(sentence.1),
                sentence.2,
                text_view(sentence.3),
                text_view(sentence.4),
                sentence.5@,
                option_view(sentence.6),
                option_view(sentence.7),
                option_view(sentence.8),
                sentence.9,
            ),
        ),
{
    Ok(
        RmbData {
            status: RmStatus::translate(sentence.0)?,
            cross_error: sentence.1,
            steer_direction: SteerDirection::translate(sentence.2)?,
            to_waypoint: sentence.3,
            from_waypoint: sentence.4,
            dest_position: sentence.5,
            range_to_dest: sentence.6,
            bearing: sentence.7,
            closing_velocity: sentence.8,
            arrival_status: ArrivalStatus::translate(sentence.9)?,
        },
    )
}

/// The data of an RMB sentence is thirteen fields: status, cross track error,
/// direction to steer, origin and destination waypoint, position of the
/// destination (four fields), range, bearing, closing velocity, and the
/// arrival status. Any other number of fields fails the structure; after that
/// the fields are taken in their order, each decoded in full at its place, and
/// the first failure decides.
#[verifier::opaque]
pub open spec fn spec_decode_rmb(f: Seq<Seq<u8>>) -> Result<RmbDataView, FieldError> {
    let status = spec_opt_letter(f[0], StatusParsingError::RmStatusError);
    let cross_error = spec_opt_decimal(f[1]);
    let steer_direction = spec_opt_letter(f[2], StatusParsingError::SteerDirectionError);
    let dest_position = spec_parse_gps_position(f[5], f[6], f[7], f[8]);
    let range_to_dest = spec_opt_decimal(f[9]);
    let bearing = spec_opt_decimal(f[10]);
    let closing_velocity = spec_opt_decimal(f[11]);
    let arrival_status = spec_opt_letter(f[12], StatusParsingError::ArrivalStatusError);
    if f.len() != 13 {
        Err(FieldError::Structure)
    } else if status is Err {
        Err(status->Err_0)
    } else if RmStatus::spec_translate(status->Ok_0) is Err {
        Err(RmStatus::spec_translate(status->Ok_0)->Err_0)
    } else if cross_error is Err {
        Err(cross_error->Err_0)
    } else if steer_direction is Err {
        Err(steer_direction->Err_0)
    } else if SteerDirection::spec_translate(steer_direction->Ok_0) is Err {
        Err(SteerDirection::spec_translate(steer_direction->Ok_0)->Err_0)
    } else if dest_position is Err {
        Err(dest_position->Err_0)
    } else if range_to_dest is Err {
        Err(range_to_dest->Err_0)
    } else if bearing is Err {
        Err(bearing->Err_0)
    } else if closing_velocity is Err {
        Err(closing_velocity->Err_0)
    } else if arrival_status is Err {
        Err(arrival_status->Err_0)
    } else if ArrivalStatus::spec_translate(arrival_status->Ok_0) is Err {
        Err(ArrivalStatus::spec_translate(arrival_status->Ok_0)->Err_0)
    } else {
        spec_build_rmb(
            (
                status->Ok_0,
                cross_error->Ok_0,
                steer_direction->Ok_0,
                spec_opt_text(f[3]),
                spec_opt_text(f[4]),
                dest_position->Ok_0,
                range_to_dest->Ok_0,
                bearing->Ok_0,
                closing_velocity->Ok_0,
                arrival_status->Ok_0,
            ),
        )
    }
}

/// What the data of an RMB sentence decodes to: it must end in `*`, and what
/// stands before is cut into fields at the commas.
pub open spec fn spec_parse_rmb(data: Seq<u8>) -> Result<RmbDataView, FieldError> {
    match spec_fields(data) {
        None => Err(FieldError::Structure),
        Some(f) => spec_decode_rmb(f),
    }
}

pub fn parse_rmb<'a>(data: &'a [u8]) -> (r: Result<RmbData<'a>, FieldError>)
    ensures
        result_view(r) == spec_parse_rmb(data@),
{
    proof {
        reveal(spec_decode_rmb);
    }
    let f = match fields(data) {
        Some(f) => f,
        None => {
            return Err(FieldError::Structure);
        },
    };
    if f.len() != 13 {
        return Err(FieldError::Structure);
    }
    let status = opt_letter(token(&f, 0), StatusParsingError::RmStatusError)?;
    // looked up here, at its place, so that the first failure decides
    RmStatus::translate(status)?;
    let cross_error = opt_decimal(token(&f, 1))?;
    let steer_direction = opt_letter(token(&f, 2), StatusParsingError::SteerDirectionError)?;
    SteerDirection::translate(steer_direction)?;
    let to_waypoint = opt_text(token(&f, 3));
    let from_waypoint = opt_text(token(&f, 4));
    let dest_position = parse_gps_position(
        token(&f, 5),
        token(&f, 6),
        token(&f, 7),
        token(&f, 8),
    )?;
    let range_to_dest = opt_decimal(token(&f, 9))?;
    let bearing = opt_decimal(token(&f, 10))?;
    let closing_velocity = opt_decimal(token(&f, 11))?;
    let arrival_status = opt_letter(token(&f, 12), StatusParsingError::ArrivalStatusError)?;
    ArrivalStatus::translate(arrival_status)?;
    build_rmb(
        (
            status,
            cross_error,
            steer_direction,
            to_waypoint,
            from_waypoint,
            dest_position,
            range_to_dest,
            bearing,
            closing_velocity,
            arrival_status,
        ),
    )
}

/// Emptying an optional field of an RMB sentence that decodes gives a sentence
/// that decodes too, to the same record with that field absent. So an empty
/// token is an absent value and never an error.
pub proof fn lemma_rmb_empty_is_absent(f: Seq<Seq<u8>>)
    requires
        spec_decode_rmb(f) is Ok,
    ensures
        ({
            let record = spec_decode_rmb(f)->Ok_0;
            &&& spec_decode_rmb(f.update(0, Seq::<u8>::empty())) == Ok::<RmbDataView, FieldError>(
                RmbDataView { status: None, ..record },
            )
            &&& spec_decode_rmb(f.update(1, Seq::<u8>::empty())) == Ok::<RmbDataView, FieldError>(
                RmbDataView { cross_error: None, ..record },
            )
            &&& spec_decode_rmb(f.update(2, Seq::<u8>::empty())) == Ok::<RmbDataView, FieldError>(
                RmbDataView { steer_direction: None, ..record },
            )
            &&& spec_decode_rmb(f.update(3, Seq::<u8>::empty())) == Ok::<RmbDataView, FieldError>(
                RmbDataView { to_waypoint: None, ..record },
            )
            &&& spec_decode_rmb(f.update(4, Seq::<u8>::empty())) == Ok::<RmbDataView, FieldError>(
                RmbDataView { from_waypoint: None, ..record },
            )
            &&& spec_decode_rmb(f.update(9, Seq::<u8>::empty())) == Ok::<RmbDataView, FieldError>(
                RmbDataView { range_to_dest: None, ..record },
            )
            &&& spec_decode_rmb(f.update(10, Seq::<u8>::empty())) == Ok::<RmbDataView, FieldError>(
                RmbDataView { bearing: None, ..record },
            )
            &&& spec_decode_rmb(f.update(11, Seq::<u8>::empty())) == Ok::<RmbDataView, FieldError>(
                RmbDataView { closing_velocity: None, ..record },
            )
            &&& spec_decode_rmb(f.update(12, Seq::<u8>::empty())) == Ok::<RmbDataView, FieldError>(
                RmbDataView { arrival_status: None, ..record },
            )
        }),
{
    reveal(spec_decode_rmb);
}

} // verus!
