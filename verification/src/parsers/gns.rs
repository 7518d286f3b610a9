//! The decoder of GNS, fix data of several constellations.

use vstd::prelude::*;

use super::utils::{
    fields, invalid_height_check, opt_decimal, opt_text, opt_u16, opt_u8, opt_utc_stamp,
    parse_gps_position, result_view, spec_fields, spec_invalid_height_check, spec_opt_decimal,
    spec_opt_text, spec_opt_u16, spec_opt_u8, spec_opt_utc_stamp, spec_parse_gps_position, token,
};
use crate::errors::FieldError;
use crate::parse::{
    option_view, text_view, Decimal, DecimalView, GnsData, GnsDataView, GnsMode, GpsPosition,
    GpsPositionView, GpsTime, GpsTimeView, StatusParsingError,
};

verus! {

/// The modes that a run of mode letters stands for, one for each letter and in
/// their order. One letter outside the table fails the whole run.
pub open spec fn spec_gns_modes(letters: Seq<u8>) -> Result<Seq<GnsMode>, FieldError> {
    if forall|i: int| 0 <= i < letters.len() ==> GnsMode::spec_try_from(letters[i] as char) is Ok {
        Ok(Seq::new(letters.len(), |i: int| GnsMode::spec_try_from(letters[i] as char)->Ok_0))
    } else {
        Err(FieldError::Status(StatusParsingError::GnsModeError))
    }
}

pub fn gns_modes(letters: &[u8]) -> (r: Result<Vec<GnsMode>, FieldError>)
    ensures
        match r {
            Ok(modes) => spec_gns_modes(letters@) == Ok::<Seq<GnsMode>, FieldError>(modes@),
            Err(e) => spec_gns_modes(letters@) == Err::<Seq<GnsMode>, FieldError>(e),
        },
{
    let mut modes: Vec<GnsMode> = Vec::new();
    let mut i: usize = 0;
    while i < letters.len()
        invariant
            i <= letters@.len(),
            modes@.len() == i,
            forall|j: int|
                0 <= j < i ==> GnsMode::spec_try_from(#[trigger] letters@[j] as char) is Ok,
            forall|j: int|
                0 <= j < i ==> #[trigger] modes@[j] == GnsMode::spec_try_from(
                    letters@[j] as char,
                )->Ok_0,
        decreases letters@.len() - i,
    {
        match GnsMode::try_from(letters[i] as char) {
            Ok(mode) => {
                modes.push(mode);
            },
            Err(e) => {
                return Err(e);
            },
        }
        i = i + 1;
    }
    proof {
        assert(modes@ =~= Seq::new(
            letters@.len(),
            |i: int| GnsMode::spec_try_from(letters@[i] as char)->Ok_0,
        ));
    }
    Ok(modes)
}

/// The modes of a mode field: an absent field has none, a present one has
/// those of its letters.
pub open spec fn spec_opt_gns_modes(letters: Option<Seq<u8>>) -> Result<
    Option<Seq<GnsMode>>,
    FieldError,
> {
    match letters {
        Some(letters) => match spec_gns_modes(letters) {
            Ok(modes) => Ok(Some(modes)),
            Err(e) => Err(e),
        },
        None => Ok(None),
    }
}

/// The record of a GNS sentence from its parts: each letter of the mode field
/// is looked up in its table, and the geoid separation may be marked as not
/// computable.
pub open spec fn spec_build_gns(
    sentence: (
        Option<GpsTimeView>,
        GpsPositionView,
        Option<Seq<u8>>,
        Option<u8>,
        Option<DecimalView>,
        Option<DecimalView>,
        Option<Seq<u8>>,
        Option<DecimalView>,
        Option<u16>,
    ),
) -> Result<GnsDataView, FieldError> {
    let mode = spec_opt_gns_modes(sentence.2);
    let geoid_seperation = spec_invalid_height_check(sentence.6);
    if mode is Err {
        Err(mode->Err_0)
    } else if geoid_seperation is Err {
        Err(geoid_seperation->Err_0)
    } else {
        Ok(
            GnsDataView {
                time: sentence.0,
                position: sentence.1,
                mode: mode->Ok_0,
                sats_in_use: sentence.3,
                hdop: sentence.4,
                orthometric_height: sentence.5,
                geoid_seperation: geoid_seperation->Ok_0,
                age_of_differential: sentence.7,
                differential_station_id: sentence.8,
            },
        )
    }
}

pub fn build_gns<'a>(
    sentence: (
        Option<GpsTime<'a>>,
        GpsPosition<'a>,
        Option<&'a [u8]>,
        Option<u8>,
        Option<Decimal<'a>>,
        Option<Decimal<'a>>,
        Option<&'a [u8]>,
        Option<Decimal<'a>>,
        Option<u16>,
    ),
) -> (r: Result<GnsData<'a>, FieldError>)
    ensures
        result_view(r) == spec_build_gns(
            (
                option_view(sentence.0),
                sentence.1@,
                text_view(sentence.2),
                sentence.3,
                option_view(sentence.4),
                option_view(sentence.5),
                text_view(sentence.6),
                option_view(sentence.7),
                sentence.8,
            ),
        ),
{
    let mode = match sentence.2 {
        Some(value) => Some(gns_modes(value)?),
        None => None,
    };
    Ok(
        GnsData {
            time: sentence.0,
            position: sentence.1,
            mode,
            sats_in_use: sentence.3,
            hdop: sentence.4,
            orthometric_height: sentence.5,
            geoid_seperation: invalid_height_check(sentence.6)?,
            age_of_differential: sentence.7,
            differential_station_id: sentence.8,
        },
    )
}

/// The data of a GNS sentence is twelve fields: time, position (four fields),
/// the mode letters, satellites, dilution, height, geoid separation, age of
/// the differential data, and its station. Any other number of fields fails
/// the structure; after that the fields are taken in their order, each decoded
/// in full at its place, and the first failure decides.
#[verifier::opaque]
pub open spec fn spec_decode_gns(f: Seq<Seq<u8>>) -> Result<GnsDataView, FieldError> {
    let time = spec_opt_utc_stamp(f[0]);
    let position = spec_parse_gps_position(f[1], f[2], f[3], f[4]);
    let sats_in_use = spec_opt_u8(f[6]);
    let hdop = spec_opt_decimal(f[7]);
    let orthometric_height = spec_opt_decimal(f[8]);
    let age_of_differential = spec_opt_decimal(f[10]);
    let reference_station_id = spec_opt_u16(f[11]);
    if f.len() != 12 {
        Err(FieldError::Structure)
    } else if time is Err {
        Err(time->Err_0)
    } else if position is Err {
        Err(position->Err_0)
    } else if spec_opt_gns_modes(spec_opt_text(f[5])) is Err {
        Err(spec_opt_gns_modes(spec_opt_text(f[5]))->Err_0)
    } else if sats_in_use is Err {
        Err(sats_in_use->Err_0)
    } else if hdop is Err {
        Err(hdop->Err_0)
    } else if orthometric_height is Err {
        Err(orthometric_height->Err_0)
    } else if spec_invalid_height_check(spec_opt_text(f[9])) is Err {
        Err(spec_invalid_height_check(spec_opt_text(f[9]))->Err_0)
    } else if age_of_differential is Err {
        Err(age_of_differential->Err_0)
    } else if reference_station_id is Err {
        Err(reference_station_id->Err_0)
    } else {
        spec_build_gns(
            (
                time->Ok_0,
                position->Ok_0,
                spec_opt_text(f[5]),
                sats_in_use->Ok_0,
                hdop->Ok_0,
                orthometric_height->Ok_0,
                spec_opt_text(f[9]),
                age_of_differential->Ok_0,
                reference_station_id->Ok_0,
            ),
        )
    }
}

/// What the data of a GNS sentence decodes to: it must end in `*`, and what
/// stands before is cut into fields at the commas.
pub open spec fn spec_parse_gns(data: Seq<u8>) -> Result<GnsDataView, FieldError> {
    match spec_fields(data) {
        None => Err(FieldError::Structure),
        Some(f) => spec_decode_gns(f),
    }
}

pub fn parse_gns<'a>(data: &'a [u8]) -> (r: Result<GnsData<'a>, FieldError>)
    ensures
        result_view(r) == spec_parse_gns(data@),
{
    proof {
        reveal(spec_decode_gns);
    }
    let f = match fields(data) {
        Some(f) => f,
        None => {
            return Err(FieldError::Structure);
        },
    };
    if f.len() != 12 {
        return Err(FieldError::Structure);
    }
    let time = opt_utc_stamp(token(&f, 0))?;
    let position = parse_gps_position(token(&f, 1), token(&f, 2), token(&f, 3), token(&f, 4))?;
    let mode = opt_text(token(&f, 5));
    // looked up here, at its place, so that the first failure decides
    if let Some(letters) = mode {
        gns_modes(letters)?;
    }
    let sats_in_use = opt_u8(token(&f, 6))?;
    let hdop = opt_decimal(token(&f, 7))?;
    let orthometric_height = opt_decimal(token(&f, 8))?;
    let geoid_altitude = opt_text(token(&f, 9));
    invalid_height_check(geoid_altitude)?;
    let age_of_differential = opt_decimal(token(&f, 10))?;
    let reference_station_id = opt_u16(token(&f, 11))?;
    build_gns(
        (
            time,
            position,
            mode,
            sats_in_use,
            hdop,
            orthometric_height,
            geoid_altitude,
            age_of_differential,
            reference_station_id,
        ),
    )
}

/// Emptying an optional field of a GNS sentence that decodes gives a sentence
/// that decodes too, to the same record with that field absent. So an empty
/// token is an absent value and never an error.
pub proof fn lemma_gns_empty_is_absent(f: Seq<Seq<u8>>)
    requires
        spec_decode_gns(f) is Ok,
    ensures
        ({
            let record = spec_decode_gns(f)->Ok_0;
            &&& spec_decode_gns(f.update(0, Seq::<u8>::empty())) == Ok::<GnsDataView, FieldError>(
                GnsDataView { time: None, ..record },
            )
            &&& spec_decode_gns(f.update(5, Seq::<u8>::empty())) == Ok::<GnsDataView, FieldError>(
                GnsDataView { mode: None, ..record },
            )
            &&& spec_decode_gns(f.update(6, Seq::<u8>::empty())) == Ok::<GnsDataView, FieldError>(
                GnsDataView { sats_in_use: None, ..record },
            )
            &&& spec_decode_gns(f.update(7, Seq::<u8>::empty())) == Ok::<GnsDataView, FieldError>(
                GnsDataView { hdop: None, ..record },
            )
            &&& spec_decode_gns(f.update(8, Seq::<u8>::empty())) == Ok::<GnsDataView, FieldError>(
                GnsDataView { orthometric_height: None, ..record },
            )
            &&& spec_decode_gns(f.update(9, Seq::<u8>::empty())) == Ok::<GnsDataView, FieldError>(
                GnsDataView { geoid_seperation: None, ..record },
            )
            &&& spec_decode_gns(f.update(10, Seq::<u8>::empty())) == Ok::<GnsDataView, FieldError>(
                GnsDataView { age_of_differential: None, ..record },
            )
            &&& spec_decode_gns(f.update(11, Seq::<u8>::empty())) == Ok::<GnsDataView, FieldError>(
                GnsDataView { differential_station_id: None, ..record },
            )
        }),
{
    reveal(spec_decode_gns);
}

} // verus!
