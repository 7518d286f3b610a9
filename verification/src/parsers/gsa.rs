//! The decoder of GSA, dilution of precision and active satellites.

use vstd::prelude::*;

use super::utils::{
    fields, opt_decimal, opt_letter, opt_u8, result_view, spec_fields, spec_opt_decimal,
    spec_opt_letter, spec_opt_u8, token,
};
use crate::errors::FieldError;
use crate::parse::{
    option_view, Decimal, DecimalView, GsaData, GsaDataView, GsaMode, GsaSelectionMode,
    StatusParsingError,
};

verus! {

/// The record of a GSA sentence from its parts: the selection mode and the fix
/// mode are looked up in their tables, and the twelve satellites keep their
/// order.
pub open spec fn spec_build_gsa(
    sentence: (
        Option<char>,
        Option<u8>,
        Option<u8>,
        Option<u8>,
        Option<u8>,
        Option<u8>,
        Option<u8>,
        Option<u8>,
        Option<u8>,
        Option<u8>,
        Option<u8>,
        Option<u8>,
        Option<u8>,
        Option<u8>,
        Option<DecimalView>,
        Option<DecimalView>,
        Option<DecimalView>,
    ),
) -> Result<GsaDataView, FieldError> {
    let selection_mode = GsaSelectionMode::spec_translate(sentence.0);
    let mode = GsaMode::spec_translate(sentence.1);
    if selection_mode is Err {
        Err(selection_mode->Err_0)
    } else if mode is Err {
        Err(mode->Err_0)
    } else {
        Ok(
            GsaDataView {
                selection_mode: selection_mode->Ok_0,
                mode: mode->Ok_0,
                satellites: [
                    sentence.2,
                    sentence.3,
                    sentence.4,
                    sentence.5,
                    sentence.6,
                    sentence.7,
                    sentence.8,
                    sentence.9,
                    sentence.10,
                    sentence.11,
                    sentence.12,
                    sentence.13,
                ],
                pdob: sentence.14,
                hdop: sentence.15,
                vdop: sentence.16,
            },
        )
    }
}

pub fn build_gsa<'a>(
    sentence: (
        Option<char>,
        Option<u8>,
        Option<u8>,
        Option<u8>,
        Option<u8>,
        Option<u8>,
        Option<u8>,
        Option<u8>,
        Option<u8>,
        Option<u8>,
        Option<u8>,
        Option<u8>,
        Option<u8>,
        Option<u8>,
        Option<Decimal<'a>>,
        Option<Decimal<'a>>,
        Option<Decimal<'a>>,
    ),
) -> (r: Result<GsaData<'a>, FieldError>)
    ensures
        result_view(r) == spec_build_gsa(
            (
                sentence.0,
                sentence.1,
                sentence.2,
                sentence.3,
                sentence.4,
                sentence.5,
                sentence.6,
                sentence.7,
                sentence.8,
                sentence.9,
                sentence.10,
                sentence.11,
                sentence.12,
                sentence.13,
                option_view(sentence.14),
                option_view(sentence.15),
                option_view(sentence.16),
            ),
        ),
{
    Ok(
        GsaData {
            selection_mode: GsaSelectionMode::translate(sentence.0)?,
            mode: GsaMode::translate(sentence.1)?,
            satellites: [
                sentence.2,
                sentence.3,
                sentence.4,
                sentence.5,
                sentence.6,
                sentence.7,
                sentence.8,
                sentence.9,
                sentence.10,
                sentence.11,
                sentence.12,
                sentence.13,
            ],
            pdob: sentence.14,
            hdop: sentence.15,
            vdop: sentence.16,
        },
    )
}

/// The data of a GSA sentence is seventeen fields: the selection mode, the fix
/// mode, twelve places for the satellites used, and the dilution of precision
/// of the position, horizontal and vertical. Any other number of fields fails
/// the structure; after that the fields are taken in their order, each decoded
/// in full at its place, and the first failure decides.
#[verifier::opaque]
pub open spec fn spec_decode_gsa(f: Seq<Seq<u8>>) -> Result<GsaDataView, FieldError> {
    let selection_mode = spec_opt_letter(f[0], StatusParsingError::GsaSelectionModeError);
    let mode = spec_opt_u8(f[1]);
    let sat1 = spec_opt_u8(f[2]);
    let sat2 = spec_opt_u8(f[3]);
    let sat3 = spec_opt_u8(f[4]);
    let sat4 = spec_opt_u8(f[5]);
    let sat5 = spec_opt_u8(f[6]);
    let sat6 = spec_opt_u8(f[7]);
    let sat7 = spec_opt_u8(f[8]);
    let sat8 = spec_opt_u8(f[9]);
    let sat9 = spec_opt_u8(f[10]);
    let sat10 = spec_opt_u8(f[11]);
    let sat11 = spec_opt_u8(f[12]);
    let sat12 = spec_opt_u8(f[13]);
    let pdob = spec_opt_decimal(f[14]);
    let hdop = spec_opt_decimal(f[15]);
    let vdop = spec_opt_decimal(f[16]);
    if f.len() != 17 {
        Err(FieldError::Structure)
    } else if selection_mode is Err {
        Err(selection_mode->Err_0)
    } else if GsaSelectionMode::spec_translate(selection_mode->Ok_0) is Err {
        Err(GsaSelectionMode::spec_translate(selection_mode->Ok_0)->Err_0)
    } else if mode is Err {
        Err(mode->Err_0)
    } else if GsaMode::spec_translate(mode->Ok_0) is Err {
        Err(GsaMode::spec_translate(mode->Ok_0)->Err_0)
    } else if sat1 is Err {
        Err(sat1->Err_0)
    } else if sat2 is Err {
        Err(sat2->Err_0)
    } else if sat3 is Err {
        Err(sat3->Err_0)
    } else if sat4 is Err {
        Err(sat4->Err_0)
    } else if sat5 is Err {
        Err(sat5->Err_0)
    } else if sat6 is Err {
        Err(sat6->Err_0)
    } else if sat7 is Err {
        Err(sat7->Err_0)
    } else if sat8 is Err {
        Err(sat8->Err_0)
    } else if sat9 is Err {
        Err(sat9->Err_0)
    } else if sat10 is Err {
        Err(sat10->Err_0)
    } else if sat11 is Err {
        Err(sat11->Err_0)
    } else if sat12 is Err {
        Err(sat12->Err_0)
    } else if pdob is Err {
        Err(pdob->Err_0)
    } else if hdop is Err {
        Err(hdop->Err_0)
    } else if vdop is Err {
        Err(vdop->Err_0)
    } else {
        spec_build_gsa(
            (
                selection_mode->Ok_0,
                mode->Ok_0,
                sat1->Ok_0,
                sat2->Ok_0,
                sat3->Ok_0,
                sat4->Ok_0,
                sat5->Ok_0,
                sat6->Ok_0,
                sat7->Ok_0,
                sat8->Ok_0,
                sat9->Ok_0,
                sat10->Ok_0,
                sat11->Ok_0,
                sat12->Ok_0,
                pdob->Ok_0,
                hdop->Ok_0,
                vdop->Ok_0,
            ),
        )
    }
}

/// What the data of a GSA sentence decodes to: it must end in `*`, and what
/// stands before is cut into fields at the commas.
pub open spec fn spec_parse_gsa(data: Seq<u8>) -> Result<GsaDataView, FieldError> {
    match spec_fields(data) {
        None => Err(FieldError::Structure),
        Some(f) => spec_decode_gsa(f),
    }
}

pub fn parse_gsa<'a>(data: &'a [u8]) -> (r: Result<GsaData<'a>, FieldError>)
    ensures
        result_view(r) == spec_parse_gsa(data@),
{
    proof {
        reveal(spec_decode_gsa);
    }
    let f = match fields(data) {
        Some(f) => f,
        None => {
            return Err(FieldError::Structure);
        },
    };
    if f.len() != 17 {
        return Err(FieldError::Structure);
    }
    let selection_mode = opt_letter(token(&f, 0), StatusParsingError::GsaSelectionModeError)?;
    // looked up here, at its place, so that the first failure decides
    GsaSelectionMode::translate(selection_mode)?;
    let mode = opt_u8(token(&f, 1))?;
    GsaMode::translate(mode)?;
    let sat1 = opt_u8(token(&f, 2))?;
    let sat2 = opt_u8(token(&f, 3))?;
    let sat3 = opt_u8(token(&f, 4))?;
    let sat4 = opt_u8(token(&f, 5))?;
    let sat5 = opt_u8(token(&f, 6))?;
    let sat6 = opt_u8(token(&f, 7))?;
    let sat7 = opt_u8(token(&f, 8))?;
    let sat8 = opt_u8(token(&f, 9))?;
    let sat9 = opt_u8(token(&f, 10))?;
    let sat10 = opt_u8(token(&f, 11))?;
    let sat11 = opt_u8(token(&f, 12))?;
    let sat12 = opt_u8(token(&f, 13))?;
    let pdob = opt_decimal(token(&f, 14))?;
    let hdop = opt_decimal(token(&f, 15))?;
    let vdop = opt_decimal(token(&f, 16))?;
    build_gsa(
        (
            selection_mode,
            mode,
            sat1,
            sat2,
            sat3,
            sat4,
            sat5,
            sat6,
            sat7,
            sat8,
            sat9,
            sat10,
            sat11,
            sat12,
            pdob,
            hdop,
            vdop,
        ),
    )
}

/// Emptying a field of a GSA sentence that decodes gives a sentence that
/// decodes too, to the same record with that field absent. So an empty token
/// is an absent value and never an error.
pub proof fn lemma_gsa_empty_is_absent(f: Seq<Seq<u8>>)
    requires
        spec_decode_gsa(f) is Ok,
    ensures
        ({
            let record = spec_decode_gsa(f)->Ok_0;
            &&& spec_decode_gsa(f.update(0, Seq::<u8>::empty())) == Ok::<GsaDataView, FieldError>(
                GsaDataView { selection_mode: None, ..record },
            )
            &&& spec_decode_gsa(f.update(1, Seq::<u8>::empty())) == Ok::<GsaDataView, FieldError>(
                GsaDataView { mode: None, ..record },
            )
            &&& spec_decode_gsa(f.update(14, Seq::<u8>::empty())) == Ok::<GsaDataView, FieldError>(
                GsaDataView { pdob: None, ..record },
            )
            &&& spec_decode_gsa(f.update(15, Seq::<u8>::empty())) == Ok::<GsaDataView, FieldError>(
                GsaDataView { hdop: None, ..record },
            )
            &&& spec_decode_gsa(f.update(16, Seq::<u8>::empty())) == Ok::<GsaDataView, FieldError>(
                GsaDataView { vdop: None, ..record },
            )
        }),
{
    reveal(spec_decode_gsa);
}

/// The same for the satellites of a GSA sentence: emptying the field of one
/// place leaves that place of the list empty, and all else as it was.
pub proof fn lemma_gsa_empty_satellite_is_absent(f: Seq<Seq<u8>>, place: int)
    requires
        spec_decode_gsa(f) is Ok,
        0 <= place < 12,
    ensures
        ({
            let record = spec_decode_gsa(f)->Ok_0;
            let emptied = spec_decode_gsa(f.update(2 + place, Seq::<u8>::empty()));
            &&& emptied is Ok
            &&& emptied->Ok_0.satellites@ == record.satellites@.update(place, None)
            &&& GsaDataView { satellites: record.satellites, ..emptied->Ok_0 } == record
        }),
{
    reveal(spec_decode_gsa);
}

} // verus!
