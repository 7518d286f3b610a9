//! The decoder of GBS, satellite fault detection.

use vstd::prelude::*;

use super::utils::{
    fields, opt_decimal, opt_u8, opt_utc_stamp, result_view, spec_fields, spec_opt_decimal,
    spec_opt_u8, spec_opt_utc_stamp, token,
};
use crate::errors::FieldError;
use crate::parse::{option_view, Decimal, DecimalView, GbsData, GbsDataView, GpsTime, GpsTimeView};

verus! {

/// The record of a GBS sentence from its parts, which it takes as they are.
pub open spec fn spec_build_gbs(
    sentence: (
        Option<GpsTimeView>,
        Option<DecimalView>,
        Option<DecimalView>,
        Option<DecimalView>,
        Option<u8>,
        Option<DecimalView>,
        Option<DecimalView>,
        Option<DecimalView>,
    ),
) -> Result<GbsDataView, FieldError> {
    Ok(
        GbsDataView {
            time: sentence.0,
            lat_error: sentence.1,
            lon_error: sentence.2,
            alt_error: sentence.3,
            most_likely_failed_sat: sentence.4,
            missed_probability: sentence.5,
            bias_estimate: sentence.6,
            bias_standard_deviation: sentence.7,
        },
    )
}

pub fn build_gbs<'a>(
    sentence: (
        Option<GpsTime<'a>>,
        Option<Decimal<'a>>,
        Option<Decimal<'a>>,
        Option<Decimal<'a>>,
        Option<u8>,
        Option<Decimal<'a>>,
        Option<Decimal<'a>>,
        Option<Decimal<'a>>,
    ),
) -> (r: Result<GbsData<'a>, FieldError>)
    ensures
        result_view(r) == spec_build_gbs(
            (
                option_view(sentence.0),
                option_view(sentence.1),
                option_view(sentence.2),
                option_view(sentence.3),
                sentence.4,
                option_view(sentence.5),
                option_view(sentence.6),
                option_view(sentence.7),
            ),
        ),
{
    Ok(
        GbsData {
            time: sentence.0,
            lat_error: sentence.1,
            lon_error: sentence.2,
            alt_error: sentence.3,
            most_likely_failed_sat: sentence.4,
            missed_probability: sentence.5,
            bias_estimate: sentence.6,
            bias_standard_deviation: sentence.7,
        },
    )
}

/// The data of a GBS sentence is eight fields: time, the expected errors of
/// latitude, longitude and altitude, the satellite most likely to have failed,
/// the probability of having missed it, and the bias with its deviation. Any
/// other number of fields fails the structure; after that the fields are taken
/// in their order, each decoded in full at its place, and the first failure
/// decides.
#[verifier::opaque]
pub open spec fn spec_decode_gbs(f: Seq<Seq<u8>>) -> Result<GbsDataView, FieldError> {
    let time = spec_opt_utc_stamp(f[0]);
    let lat_error = spec_opt_decimal(f[1]);
    let lon_error = spec_opt_decimal(f[2]);
    let alt_error = spec_opt_decimal(f[3]);
    let most_likely_failed_sat = spec_opt_u8(f[4]);
    let missed_probability = spec_opt_decimal(f[5]);
    let bias_estimate = spec_opt_decimal(f[6]);
    let bias_standard_deviation = spec_opt_decimal(f[7]);
    if f.len() != 8 {
        Err(FieldError::Structure)
    } else if time is Err {
        Err(time->Err_0)
    } else if lat_error is Err {
        Err(lat_error->Err_0)
    } else if lon_error is Err {
        Err(lon_error->Err_0)
    } else if alt_error is Err {
        Err(alt_error->Err_0)
    } else if most_likely_failed_sat is Err {
        Err(most_likely_failed_sat->Err_0)
    } else if missed_probability is Err {
        Err(missed_probability->Err_0)
    } else if bias_estimate is Err {
        Err(bias_estimate->Err_0)
    } else if bias_standard_deviation is Err {
        Err(bias_standard_deviation->Err_0)
    } else {
        spec_build_gbs(
            (
                time->Ok_0,
                lat_error->Ok_0,
                lon_error->Ok_0,
                alt_error->Ok_0,
                most_likely_failed_sat->Ok_0,
                missed_probability->Ok_0,
                bias_estimate->Ok_0,
                bias_standard_deviation->Ok_0,
            ),
        )
    }
}

/// What the data of a GBS sentence decodes to: it must end in `*`, and what
/// stands before is cut into fields at the commas.
pub open spec fn spec_parse_gbs(data: Seq<u8>) -> Result<GbsDataView, FieldError> {
    match spec_fields(data) {
        None => Err(FieldError::Structure),
        Some(f) => spec_decode_gbs(f),
    }
}

pub fn parse_gbs<'a>(data: &'a [u8]) -> (r: Result<GbsData<'a>, FieldError>)
    ensures
        result_view(r) == spec_parse_gbs(data@),
{
    proof {
        reveal(spec_decode_gbs);
    }
    let f = match fields(data) {
        Some(f) => f,
        None => {
            return Err(FieldError::Structure);
        },
    };
    if f.len() != 8 {
        return Err(FieldError::Structure);
    }
    let time = opt_utc_stamp(token(&f, 0))?;
    let lat_error = opt_decimal(token(&f, 1))?;
    let lon_error = opt_decimal(token(&f, 2))?;
    let alt_error = opt_decimal(token(&f, 3))?;
    let most_likely_failed_sat = opt_u8(token(&f, 4))?;
    let missed_probability = opt_decimal(token(&f, 5))?;
    let bias_estimate = opt_decimal(token(&f, 6))?;
    let bias_standard_deviation = opt_decimal(token(&f, 7))?;
    build_gbs(
        (
            time,
            lat_error,
            lon_error,
            alt_error,
            most_likely_failed_sat,
            missed_probability,
            bias_estimate,
            bias_standard_deviation,
        ),
    )
}

/// Emptying an optional field of a GBS sentence that decodes gives a sentence
/// that decodes too, to the same record with that field absent. So an empty
/// token is an absent value and never an error.
pub proof fn lemma_gbs_empty_is_absent(f: Seq<Seq<u8>>)
    requires
        spec_decode_gbs(f) is Ok,
    ensures
        ({
            let record = spec_decode_gbs(f)->Ok_0;
            &&& spec_decode_gbs(f.update(0, Seq::<u8>::empty())) == Ok::<GbsDataView, FieldError>(
                GbsDataView { time: None, ..record },
            )
            &&& spec_decode_gbs(f.update(1, Seq::<u8>::empty())) == Ok::<GbsDataView, FieldError>(
                GbsDataView { lat_error: None, ..record },
            )
            &&& spec_decode_gbs(f.update(2, Seq::<u8>::empty())) == Ok::<GbsDataView, FieldError>(
                GbsDataView { lon_error: None, ..record },
            )
            &&& spec_decode_gbs(f.update(3, Seq::<u8>::empty())) == Ok::<GbsDataView, FieldError>(
                GbsDataView { alt_error: None, ..record },
            )
            &&& spec_decode_gbs(f.update(4, Seq::<u8>::empty())) == Ok::<GbsDataView, FieldError>(
                GbsDataView { most_likely_failed_sat: None, ..record },
            )
            &&& spec_decode_gbs(f.update(5, Seq::<u8>::empty())) == Ok::<GbsDataView, FieldError>(
                GbsDataView { missed_probability: None, ..record },
            )
            &&& spec_decode_gbs(f.update(6, Seq::<u8>::empty())) == Ok::<GbsDataView, FieldError>(
                GbsDataView { bias_estimate: None, ..record },
            )
            &&& spec_decode_gbs(f.update(7, Seq::<u8>::empty())) == Ok::<GbsDataView, FieldError>(
                GbsDataView { bias_standard_deviation: None, ..record },
            )
        }),
{
    reveal(spec_decode_gbs);
}

} // verus!
