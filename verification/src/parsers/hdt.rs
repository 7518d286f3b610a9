//! The decoder of HDT, true heading.

use vstd::prelude::*;

use super::utils::{
    fields, is_tag, opt_decimal, result_view, spec_fields, spec_is_tag, spec_opt_decimal, token,
};
use crate::errors::FieldError;
use crate::parse::{HdtData, HdtDataView};

verus! {

/// The data of an HDT sentence is two fields: the heading and `T`. Any other
/// number of fields fails the structure; after that the fields are taken in
/// their order, each decoded in full at its place, and the first failure
/// decides.
#[verifier::opaque]
pub open spec fn spec_decode_hdt(f: Seq<Seq<u8>>) -> Result<HdtDataView, FieldError> {
    let heading_true = spec_opt_decimal(f[0]);
    if f.len() != 2 {
        Err(FieldError::Structure)
    } else if heading_true is Err {
        Err(heading_true->Err_0)
    } else if !spec_is_tag(f[1], 'T') {
        Err(FieldError::Structure)
    } else {
        Ok(
            HdtDataView {
                heading_true: heading_true->Ok_0,
            },
        )
    }
}

/// What the data of an HDT sentence decodes to: it must end in `*`, and what
/// stands before is cut into fields at the commas.
pub open spec fn spec_parse_hdt(data: Seq<u8>) -> Result<HdtDataView, FieldError> {
    match spec_fields(data) {
        None => Err(FieldError::Structure),
        Some(f) => spec_decode_hdt(f),
    }
}

pub fn parse_hdt<'a>(data: &'a [u8]) -> (r: Result<HdtData<'a>, FieldError>)
    ensures
        result_view(r) == spec_parse_hdt(data@),
{
    proof {
        reveal(spec_decode_hdt);
    }
    let f = match fields(data) {
        Some(f) => f,
        None => {
            return Err(FieldError::Structure);
        },
    };
    if f.len() != 2 {
        return Err(FieldError::Structure);
    }
    let heading_true = opt_decimal(token(&f, 0))?;
    if !is_tag(token(&f, 1), 'T') {
        return Err(FieldError::Structure);
    }
    Ok(HdtData { heading_true })
}

/// Emptying an optional field of an HDT sentence that decodes gives a sentence
/// that decodes too, to the same record with that field absent. So an empty
/// token is an absent value and never an error.
pub proof fn lemma_hdt_empty_is_absent(f: Seq<Seq<u8>>)
    requires
        spec_decode_hdt(f) is Ok,
    ensures
        ({
            let record = spec_decode_hdt(f)->Ok_0;
            &&& spec_decode_hdt(f.update(0, Seq::<u8>::empty())) == Ok::<HdtDataView, FieldError>(
                HdtDataView { heading_true: None, ..record },
            )
        }),
{
    reveal(spec_decode_hdt);
}

} // verus!
