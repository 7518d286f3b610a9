//! The decoder of VBW, dual ground and water speed.

use vstd::prelude::*;

use super::utils::{
    fields, invalid_height_check, opt_letter, opt_text, result_view, spec_fields,
    spec_invalid_height_check, spec_opt_letter, spec_opt_text, token,
};
use crate::errors::FieldError;
use crate::parse::{text_view, DataValidity, StatusParsingError, VbwData, VbwDataView};

verus! {

/// The record of a VBW sentence from its parts: each speed may be marked as
/// not computable, and the validity letters are looked up in their table.
pub open spec fn spec_build_vbw(
    sentence: (
        Option<Seq<u8>>,
        Option<Seq<u8>>,
        Option<char>,
        Option<Seq<u8>>,
        Option<Seq<u8>>,
        Option<char>,
    ),
) -> Result<VbwDataView, FieldError> {
    let lon_water_speed = spec_invalid_height_check(sentence.0);
    let transverse_water_speed = spec_invalid_height_check(sentence.1);
    let water_validity = DataValidity::spec_translate(sentence.2);
    let lon_ground_speed = spec_invalid_height_check(sentence.3);
    let transverse_ground_speed = spec_invalid_height_check(sentence.4);
    let ground_validity = DataValidity::spec_translate(sentence.5);
    if lon_water_speed is Err {
        Err(lon_water_speed->Err_0)
    } else if transverse_water_speed is Err {
        Err(transverse_water_speed->Err_0)
    } else if water_validity is Err {
        Err(water_validity->Err_0)
    } else if lon_ground_speed is Err {
        Err(lon_ground_speed->Err_0)
    } else if transverse_ground_speed is Err {
        Err(transverse_ground_speed->Err_0)
    } else if ground_validity is Err {
        Err(ground_validity->Err_0)
    } else {
        Ok(
            VbwDataView {
                lon_water_speed: lon_water_speed->Ok_0,
                transverse_water_speed: transverse_water_speed->Ok_0,
                water_validity: water_validity->Ok_0,
                lon_ground_speed: lon_ground_speed->Ok_0,
                transverse_ground_speed: transverse_ground_speed->Ok_0,
                ground_validity: ground_validity->Ok_0,
            },
        )
    }
}

pub fn build_vbw<'a>(
    sentence: (
        Option<&'a [u8]>,
        Option<&'a [u8]>,
        Option<char>,
        Option<&'a [u8]>,
        Option<&'a [u8]>,
        Option<char>,
    ),
) -> (r: Result<VbwData<'a>, FieldError>)
    ensures
        result_view(r) == spec_build_vbw(
            (
                text_view(sentence.0),
                text_view(sentence.1),
                sentence.2,
                text_view(sentence.3),
                text_view(sentence.4),
                sentence.5,
            ),
        ),
{
    Ok(
        VbwData {
            lon_water_speed: invalid_height_check(sentence.0)?,
            transverse_water_speed: invalid_height_check(sentence.1)?,
            water_validity: DataValidity::translate(sentence.2)?,
            lon_ground_speed: invalid_height_check(sentence.3)?,
            transverse_ground_speed: invalid_height_check(sentence.4)?,
            ground_validity: DataValidity::translate(sentence.5)?,
        },
    )
}

/// The data of a VBW sentence is six fields: the speed through the water along
/// and across the keel with its validity, and the same over the ground. Any
/// other number of fields fails the structure; after that the fields are taken
/// in their order, each decoded in full at its place, and the first failure
/// decides.
#[verifier::opaque]
pub open spec fn spec_decode_vbw(f: Seq<Seq<u8>>) -> Result<VbwDataView, FieldError> {
    let water_validity = spec_opt_letter(f[2], StatusParsingError::DataValidityError);
    let ground_validity = spec_opt_letter(f[5], StatusParsingError::DataValidityError);
    if f.len() != 6 {
        Err(FieldError::Structure)
    } else if spec_invalid_height_check(spec_opt_text(f[0])) is Err {
        Err(spec_invalid_height_check(spec_opt_text(f[0]))->Err_0)
    } else if spec_invalid_height_check(spec_opt_text(f[1])) is Err {
        Err(spec_invalid_height_check(spec_opt_text(f[1]))->Err_0)
    } else if water_validity is Err {
        Err(water_validity->Err_0)
    } else if DataValidity::spec_translate(water_validity->Ok_0) is Err {
        Err(DataValidity::spec_translate(water_validity->Ok_0)->Err_0)
    } else if spec_invalid_height_check(spec_opt_text(f[3])) is Err {
        Err(spec_invalid_height_check(spec_opt_text(f[3]))->Err_0)
    } else if spec_invalid_height_check(spec_opt_text(f[4])) is Err {
        Err(spec_invalid_height_check(spec_opt_text(f[4]))->Err_0)
    } else if ground_validity is Err {
        Err(ground_validity->Err_0)
    } else if DataValidity::spec_translate(ground_validity->Ok_0) is Err {
        Err(DataValidity::spec_translate(ground_validity->Ok_0)->Err_0)
    } else {
        spec_build_vbw(
            (
                spec_opt_text(f[0]),
                spec_opt_text(f[1]),
                water_validity->Ok_0,
                spec_opt_text(f[3]),
                spec_opt_text(f[4]),
                ground_validity->Ok_0,
            ),
        )
    }
}

/// What the data of a VBW sentence decodes to: it must end in `*`, and what
/// stands before is cut into fields at the commas.
pub open spec fn spec_parse_vbw(data: Seq<u8>) -> Result<VbwDataView, FieldError> {
    match spec_fields(data) {
        None => Err(FieldError::Structure),
        Some(f) => spec_decode_vbw(f),
    }
}

pub fn parse_vbw<'a>(data: &'a [u8]) -> (r: Result<VbwData<'a>, FieldError>)
    ensures
        result_view(r) == spec_parse_vbw(data@),
{
    proof {
        reveal(spec_decode_vbw);
    }
    let f = match fields(data) {
        Some(f) => f,
        None => {
            return Err(FieldError::Structure);
        },
    };
    if f.len() != 6 {
        return Err(FieldError::Structure);
    }
    let lon_water_speed = opt_text(token(&f, 0));
    // looked up here, at its place, so that the first failure decides
    invalid_height_check(lon_water_speed)?;
    let transverse_water_speed = opt_text(token(&f, 1));
    invalid_height_check(transverse_water_speed)?;
    let water_validity = opt_letter(token(&f, 2), StatusParsingError::DataValidityError)?;
    DataValidity::translate(water_validity)?;
    let lon_ground_speed = opt_text(token(&f, 3));
    invalid_height_check(lon_ground_speed)?;
    let transverse_ground_speed = opt_text(token(&f, 4));
    invalid_height_check(transverse_ground_speed)?;
    let ground_validity = opt_letter(token(&f, 5), StatusParsingError::DataValidityError)?;
    DataValidity::translate(ground_validity)?;
    build_vbw(
        (
            lon_water_speed,
            transverse_water_speed,
            water_validity,
            lon_ground_speed,
            transverse_ground_speed,
            ground_validity,
        ),
    )
}

/// Emptying an optional field of a VBW sentence that decodes gives a sentence
/// that decodes too, to the same record with that field absent. So an empty
/// token is an absent value and never an error.
pub proof fn lemma_vbw_empty_is_absent(f: Seq<Seq<u8>>)
    requires
        spec_decode_vbw(f) is Ok,
    ensures
        ({
            let record = spec_decode_vbw(f)->Ok_0;
            &&& spec_decode_vbw(f.update(0, Seq::<u8>::empty())) == Ok::<VbwDataView, FieldError>(
                VbwDataView { lon_water_speed: None, ..record },
            )
            &&& spec_decode_vbw(f.update(1, Seq::<u8>::empty())) == Ok::<VbwDataView, FieldError>(
                VbwDataView { transverse_water_speed: None, ..record },
            )
            &&& spec_decode_vbw(f.update(2, Seq::<u8>::empty())) == Ok::<VbwDataView, FieldError>(
                VbwDataView { water_validity: None, ..record },
            )
            &&& spec_decode_vbw(f.update(3, Seq::<u8>::empty())) == Ok::<VbwDataView, FieldError>(
                VbwDataView { lon_ground_speed: None, ..record },
            )
            &&& spec_decode_vbw(f.update(4, Seq::<u8>::empty())) == Ok::<VbwDataView, FieldError>(
                VbwDataView { transverse_ground_speed: None, ..record },
            )
            &&& spec_decode_vbw(f.update(5, Seq::<u8>::empty())) == Ok::<VbwDataView, FieldError>(
                VbwDataView { ground_validity: None, ..record },
            )
        }),
{
    reveal(spec_decode_vbw);
}

} // verus!
