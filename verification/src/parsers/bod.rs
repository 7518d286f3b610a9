//! The decoder of BOD, bearing from origin to destination.

use vstd::prelude::*;

use super::utils::{
    fields, is_tag, opt_decimal, opt_text, result_view, spec_fields, spec_is_tag, spec_opt_decimal,
    spec_opt_text, token,
};
use crate::errors::FieldError;
use crate::parse::{option_view, text_view, BodData, BodDataView, Decimal, DecimalView};

verus! {

/// The record of a BOD sentence from its parts, which it takes as they are.
pub open spec fn spec_build_bod(
    sentence: (
        Option<DecimalView>,
        Option<DecimalView>,
        Option<Seq<u8>>,
        Option<Seq<u8>>,
    ),
) -> Result<BodDataView, FieldError> {
    Ok(
        BodDataView {
            bearing_true: sentence.0,
            bearing_magnetic: sentence.1,
            to_waypoint: sentence.2,
            from_waypoint: sentence.3,
        },
    )
}

pub fn build_bod<'a>(
    sentence: (
        Option<Decimal<'a>>,
        Option<Decimal<'a>>,
        Option<&'a [u8]>,
        Option<&'a [u8]>,
    ),
) -> (r: Result<BodData<'a>, FieldError>)
    ensures
        result_view(r) == spec_build_bod(
            (
                option_view(sentence.0),
                option_view(sentence.1),
                text_view(sentence.2),
                text_view(sentence.3),
            ),
        ),
{
    Ok(
        BodData {
            bearing_true: sentence.0,
            bearing_magnetic: sentence.1,
            to_waypoint: sentence.2,
            from_waypoint: sentence.3,
        },
    )
}

/// The data of a BOD sentence is six fields: the true bearing and `T`, the
/// magnetic bearing and `M`, the destination waypoint and the origin waypoint.
/// Any other number of fields fails the structure; after that the fields are
/// taken in their order, each decoded in full at its place, and the first
/// failure decides.
#[verifier::opaque]
pub open spec fn spec_decode_bod(f: Seq<Seq<u8>>) -> Result<BodDataView, FieldError> {
    let bearing_true = spec_opt_decimal(f[0]);
    let bearing_magnetic = spec_opt_decimal(f[2]);
    if f.len() != 6 {
        Err(FieldError::Structure)
    } else if bearing_true is Err {
        Err(bearing_true->Err_0)
    } else if !spec_is_tag(f[1], 'T') {
        Err(FieldError::Structure)
    } else if bearing_magnetic is Err {
        Err(bearing_magnetic->Err_0)
    } else if !spec_is_tag(f[3], 'M') {
        Err(FieldError::Structure)
    } else {
        spec_build_bod(
            (
                bearing_true->Ok_0,
                bearing_magnetic->Ok_0,
                spec_opt_text(f[4]),
                spec_opt_text(f[5]),
            ),
        )
    }
}

/// What the data of a BOD sentence decodes to: it must end in `*`, and what
/// stands before is cut into fields at the commas.
pub open spec fn spec_parse_bod(data: Seq<u8>) -> Result<BodDataView, FieldError> {
    match spec_fields(data) {
        None => Err(FieldError::Structure),
        Some(f) => spec_decode_bod(f),
    }
}

pub fn parse_bod<'a>(data: &'a [u8]) -> (r: Result<BodData<'a>, FieldError>)
    ensures
        result_view(r) == spec_parse_bod(data@),
{
    proof {
        reveal(spec_decode_bod);
    }
    let f = match fields(data) {
        Some(f) => f,
        None => {
            return Err(FieldError::Structure);
        },
    };
    if f.len() != 6 {
        return Err(FieldError::Structure);
    }
    let bearing_true = opt_decimal(token(&f, 0))?;
    if !is_tag(token(&f, 1), 'T') {
        return Err(FieldError::Structure);
    }
    let bearing_magnetic = opt_decimal(token(&f, 2))?;
    if !is_tag(token(&f, 3), 'M') {
        return Err(FieldError::Structure);
    }
    let to_waypoint = opt_text(token(&f, 4));
    let from_waypoint = opt_text(token(&f, 5));
    build_bod((bearing_true, bearing_magnetic, to_waypoint, from_waypoint))
}

/// Emptying an optional field of a BOD sentence that decodes gives a sentence
/// that decodes too, to the same record with that field absent. So an empty
/// token is an absent value and never an error.
pub proof fn lemma_bod_empty_is_absent(f: Seq<Seq<u8>>)
    requires
        spec_decode_bod(f) is Ok,
    ensures
        ({
            let record = spec_decode_bod(f)->Ok_0;
            &&& spec_decode_bod(f.update(0, Seq::<u8>::empty())) == Ok::<BodDataView, FieldError>(
                BodDataView { bearing_true: None, ..record },
            )
            &&& spec_decode_bod(f.update(2, Seq::<u8>::empty())) == Ok::<BodDataView, FieldError>(
                BodDataView { bearing_magnetic: None, ..record },
            )
            &&& spec_decode_bod(f.update(4, Seq::<u8>::empty())) == Ok::<BodDataView, FieldError>(
                BodDataView { to_waypoint: None, ..record },
            )
            &&& spec_decode_bod(f.update(5, Seq::<u8>::empty())) == Ok::<BodDataView, FieldError>(
                BodDataView { from_waypoint: None, ..record },
            )
        }),
{
    reveal(spec_decode_bod);
}

} // verus!
