//! The decoder of STN, multiple data id.

use vstd::prelude::*;

use super::utils::{fields, required_u8, spec_fields, spec_required_u8, token};
use crate::errors::FieldError;
use crate::parse::StnData;

verus! {

/// The data of an STN sentence is one field, the number of the talker, which
/// must be there. Any other number of fields fails the structure.
#[verifier::opaque]
pub open spec fn spec_decode_stn(f: Seq<Seq<u8>>) -> Result<StnData, FieldError> {
    let talker_id = spec_required_u8(f[0]);
    if f.len() != 1 {
        Err(FieldError::Structure)
    } else if talker_id is Err {
        Err(talker_id->Err_0)
    } else {
        Ok(StnData { talker_id: talker_id->Ok_0 })
    }
}

/// What the data of an STN sentence decodes to: it must end in `*`, and what
/// stands before is cut into fields at the commas.
pub open spec fn spec_parse_stn(data: Seq<u8>) -> Result<StnData, FieldError> {
    match spec_fields(data) {
        None => Err(FieldError::Structure),
        Some(f) => spec_decode_stn(f),
    }
}

pub fn parse_stn(data: &[u8]) -> (r: Result<StnData, FieldError>)
    ensures
        r == spec_parse_stn(data@),
{
    proof {
        reveal(spec_decode_stn);
    }
    let f = match fields(data) {
        Some(f) => f,
        None => {
            return Err(FieldError::Structure);
        },
    };
    if f.len() != 1 {
        return Err(FieldError::Structure);
    }
    let talker_id = required_u8(token(&f, 0))?;
    Ok(StnData { talker_id })
}

} // verus!
