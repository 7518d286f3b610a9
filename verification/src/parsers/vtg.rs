//! The decoder of VTG, track made good and ground speed.

use vstd::prelude::*;

use super::utils::{
    fields, is_tag, opt_decimal, result_view, spec_fields, spec_is_tag, spec_opt_decimal, token,
};
use crate::errors::FieldError;
use crate::parse::{VtgData, VtgDataView};

verus! {

/// The data of a VTG sentence is eight fields: the true bearing and `T`, the
/// magnetic bearing and `M`, the speed in knots and `N`, and the speed in
/// kilometres an hour and `K`. Any other number of fields fails the structure;
/// after that the fields are taken in their order, each decoded in full at its
/// place, and the first failure decides.
#[verifier::opaque]
pub open spec fn spec_decode_vtg(f: Seq<Seq<u8>>) -> Result<VtgDataView, FieldError> {
    let bearing_true = spec_opt_decimal(f[0]);
    let bearing_magnetic = spec_opt_decimal(f[2]);
    let speed_knots = spec_opt_decimal(f[4]);
    let speed_kmh = spec_opt_decimal(f[6]);
    if f.len() != 8 {
        Err(FieldError::Structure)
    } else if bearing_true is Err {
        Err(bearing_true->Err_0)
    } else if !spec_is_tag(f[1], 'T') {
        Err(FieldError::Structure)
    } else if bearing_magnetic is Err {
        Err(bearing_magnetic->Err_0)
    } else if !spec_is_tag(f[3], 'M') {
        Err(FieldError::Structure)
    } else if speed_knots is Err {
        Err(speed_knots->Err_0)
    } else if !spec_is_tag(f[5], 'N') {
        Err(FieldError::Structure)
    } else if speed_kmh is Err {
        Err(speed_kmh->Err_0)
    } else if !spec_is_tag(f[7], 'K') {
        Err(FieldError::Structure)
    } else {
        Ok(
            VtgDataView {
                bearing_true: bearing_true->Ok_0,
                bearing_magnetic: bearing_magnetic->Ok_0,
                speed_knots: speed_knots->Ok_0,
                speed_kmh: speed_kmh->Ok_0,
            },
        )
    }
}

/// What the data of a VTG sentence decodes to: it must end in `*`, and what
/// stands before is cut into fields at the commas.
pub open spec fn spec_parse_vtg(data: Seq<u8>) -> Result<VtgDataView, FieldError> {
    match spec_fields(data) {
        None => Err(FieldError::Structure),
        Some(f) => spec_decode_vtg(f),
    }
}

pub fn parse_vtg<'a>(data: &'a [u8]) -> (r: Result<VtgData<'a>, FieldError>)
    ensures
        result_view(r) == spec_parse_vtg(data@),
{
    proof {
        reveal(spec_decode_vtg);
    }
    let f = match fields(data) {
        Some(f) => f,
        None => {
            return Err(FieldError::Structure);
        },
    };
    if f.len() != 8 {
        return Err(FieldError::Structure);
    }
    let bearing_true = opt_decimal(token(&f, 0))?;
    if !is_tag(token(&f, 1), 'T') {
        return Err(FieldError::Structure);
    }
    let bearing_magnetic = opt_decimal(token(&f, 2))?;
    if !is_tag(token(&f, 3), 'M') {
        return Err(FieldError::Structure);
    }
    let speed_knots = opt_decimal(token(&f, 4))?;
    if !is_tag(token(&f, 5), 'N') {
        return Err(FieldError::Structure);
    }
    let speed_kmh = opt_decimal(token(&f, 6))?;
    if !is_tag(token(&f, 7), 'K') {
        return Err(FieldError::Structure);
    }
    Ok(VtgData { bearing_true, bearing_magnetic, speed_knots, speed_kmh })
}

/// Emptying an optional field of a VTG sentence that decodes gives a sentence
/// that decodes too, to the same record with that field absent. So an empty
/// token is an absent value and never an error.
pub proof fn lemma_vtg_empty_is_absent(f: Seq<Seq<u8>>)
    requires
        spec_decode_vtg(f) is Ok,
    ensures
        ({
            let record = spec_decode_vtg(f)->Ok_0;
            &&& spec_decode_vtg(f.update(0, Seq::<u8>::empty())) == Ok::<VtgDataView, FieldError>(
                VtgDataView { bearing_true: None, ..record },
            )
            &&& spec_decode_vtg(f.update(2, Seq::<u8>::empty())) == Ok::<VtgDataView, FieldError>(
                VtgDataView { bearing_magnetic: None, ..record },
            )
            &&& spec_decode_vtg(f.update(4, Seq::<u8>::empty())) == Ok::<VtgDataView, FieldError>(
                VtgDataView { speed_knots: None, ..record },
            )
            &&& spec_decode_vtg(f.update(6, Seq::<u8>::empty())) == Ok::<VtgDataView, FieldError>(
                VtgDataView { speed_kmh: None, ..record },
            )
        }),
{
    reveal(spec_decode_vtg);
}

} // verus!
