//! The decoder of GSV, satellites in view.

use vstd::prelude::*;

use super::utils::{
    fields, opt_decimal, opt_u16, opt_u8, optional_view, result_view, spec_fields,
    spec_opt_decimal, spec_opt_u16, spec_opt_u8, token, tokens_view,
};
use crate::errors::FieldError;
use crate::parse::{option_view, GsvData, GsvDataView, GsvSatellite, GsvSatelliteView};

verus! {

/// One satellite is four fields: its number, elevation, azimuth and signal to
/// noise ratio, each of which may be empty.
#[verifier::opaque]
pub open spec fn spec_parse_gsv_sat(
    sat_id: Seq<u8>,
    elevation: Seq<u8>,
    true_azimuth: Seq<u8>,
    snr: Seq<u8>,
) -> Result<GsvSatelliteView, FieldError> {
    let sat_id = spec_opt_u8(sat_id);
    let elevation = spec_opt_decimal(elevation);
    let true_azimuth = spec_opt_decimal(true_azimuth);
    let snr = spec_opt_u8(snr);
    if sat_id is Err {
        Err(sat_id->Err_0)
    } else if elevation is Err {
        Err(elevation->Err_0)
    } else if true_azimuth is Err {
        Err(true_azimuth->Err_0)
    } else if snr is Err {
        Err(snr->Err_0)
    } else {
        Ok(
            GsvSatelliteView {
                sat_id: sat_id->Ok_0,
                elevation: elevation->Ok_0,
                true_azimuth: true_azimuth->Ok_0,
                snr: snr->Ok_0,
            },
        )
    }
}

pub fn parse_gsv_sat<'a>(
    sat_id: &[u8],
    elevation: &'a [u8],
    true_azimuth: &'a [u8],
    snr: &[u8],
) -> (r: Result<GsvSatellite<'a>, FieldError>)
    ensures
        result_view(r) == spec_parse_gsv_sat(sat_id@, elevation@, true_azimuth@, snr@),
{
    proof {
        reveal(spec_parse_gsv_sat);
    }
    let sat_id = opt_u8(sat_id)?;
    let elevation = opt_decimal(elevation)?;
    let true_azimuth = opt_decimal(true_azimuth)?;
    let snr = opt_u8(snr)?;
    Ok(GsvSatellite { sat_id, elevation, true_azimuth, snr })
}

/// The satellite at place `place` (from 0) of a GSV sentence: its four fields
/// follow the three leading fields and the satellites before it. It is absent
/// where the sentence does not hold all four.
pub open spec fn spec_opt_gsv_sat(f: Seq<Seq<u8>>, place: int) -> Result<
    Option<GsvSatelliteView>,
    FieldError,
> {
    if f.len() >= 7 + 4 * place {
        match spec_parse_gsv_sat(
            f[3 + 4 * place],
            f[4 + 4 * place],
            f[5 + 4 * place],
            f[6 + 4 * place],
        ) {
            Ok(satellite) => Ok(Some(satellite)),
            Err(e) => Err(e),
        }
    } else {
        Ok(None)
    }
}

fn opt_gsv_sat<'a>(f: &Vec<&'a [u8]>, place: usize) -> (r: Result<
    Option<GsvSatellite<'a>>,
    FieldError,
>)
    requires
        place < 4,
    ensures
        optional_view(r) == spec_opt_gsv_sat(tokens_view(f@), place as int),
{
    let first = 3 + 4 * place;
    if f.len() >= first + 4 {
        let satellite = parse_gsv_sat(
            token(f, first),
            token(f, first + 1),
            token(f, first + 2),
            token(f, first + 3),
        )?;
        Ok(Some(satellite))
    } else {
        Ok(None)
    }
}

/// The record of a GSV sentence from its parts, which it takes as they are;
/// the satellites keep their order.
pub open spec fn spec_build_gsv(
    sentence: (
        Option<u16>,
        Option<u16>,
        Option<u8>,
        Option<GsvSatelliteView>,
        Option<GsvSatelliteView>,
        Option<GsvSatelliteView>,
        Option<GsvSatelliteView>,
    ),
) -> Result<GsvDataView, FieldError> {
    Ok(
        GsvDataView {
            number_of_sentences: sentence.0,
            sentence_num: sentence.1,
            sats_in_view: sentence.2,
            sats_info: [sentence.3, sentence.4, sentence.5, sentence.6],
        },
    )
}

pub fn build_gsv<'a>(
    sentence: (
        Option<u16>,
        Option<u16>,
        Option<u8>,
        Option<GsvSatellite<'a>>,
        Option<GsvSatellite<'a>>,
        Option<GsvSatellite<'a>>,
        Option<GsvSatellite<'a>>,
    ),
) -> (r: Result<GsvData<'a>, FieldError>)
    ensures
        result_view(r) == spec_build_gsv(
            (
                sentence.0,
                sentence.1,
                sentence.2,
                option_view(sentence.3),
                option_view(sentence.4),
                option_view(sentence.5),
                option_view(sentence.6),
            ),
        ),
{
    Ok(
        GsvData {
            number_of_sentences: sentence.0,
            sentence_num: sentence.1,
            sats_in_view: sentence.2,
            sats_info: [sentence.3, sentence.4, sentence.5, sentence.6],
        },
    )
}

/// The data of a GSV sentence begins with three fields: how many sentences the
/// list takes, which of them this is, and how many satellites are in view. Up
/// to four satellites follow, four fields each. What is left behind the last
/// whole satellite is passed over. Fewer than three fields fail the structure;
/// after that the fields are taken in their order, each decoded in full at its
/// place, and the first failure decides.
#[verifier::opaque]
pub open spec fn spec_decode_gsv(f: Seq<Seq<u8>>) -> Result<GsvDataView, FieldError> {
    let number_of_sentences = spec_opt_u16(f[0]);
    let sentence_num = spec_opt_u16(f[1]);
    let sats_in_view = spec_opt_u8(f[2]);
    let sat1_info = spec_opt_gsv_sat(f, 0);
    let sat2_info = spec_opt_gsv_sat(f, 1);
    let sat3_info = spec_opt_gsv_sat(f, 2);
    let sat4_info = spec_opt_gsv_sat(f, 3);
    if f.len() < 3 {
        Err(FieldError::Structure)
    } else if number_of_sentences is Err {
        Err(number_of_sentences->Err_0)
    } else if sentence_num is Err {
        Err(sentence_num->Err_0)
    } else if sats_in_view is Err {
        Err(sats_in_view->Err_0)
    } else if sat1_info is Err {
        Err(sat1_info->Err_0)
    } else if sat2_info is Err {
        Err(sat2_info->Err_0)
    } else if sat3_info is Err {
        Err(sat3_info->Err_0)
    } else if sat4_info is Err {
        Err(sat4_info->Err_0)
    } else {
        spec_build_gsv(
            (
                number_of_sentences->Ok_0,
                sentence_num->Ok_0,
                sats_in_view->Ok_0,
                sat1_info->Ok_0,
                sat2_info->Ok_0,
                sat3_info->Ok_0,
                sat4_info->Ok_0,
            ),
        )
    }
}

/// What the data of a GSV sentence decodes to: it must end in `*`, and what
/// stands before is cut into fields at the commas.
pub open spec fn spec_parse_gsv(data: Seq<u8>) -> Result<GsvDataView, FieldError> {
    match spec_fields(data) {
        None => Err(FieldError::Structure),
        Some(f) => spec_decode_gsv(f),
    }
}

pub fn parse_gsv<'a>(data: &'a [u8]) -> (r: Result<GsvData<'a>, FieldError>)
    ensures
        result_view(r) == spec_parse_gsv(data@),
{
    proof {
        reveal(spec_decode_gsv);
    }
    let f = match fields(data) {
        Some(f) => f,
        None => {
            return Err(FieldError::Structure);
        },
    };
    if f.len() < 3 {
        return Err(FieldError::Structure);
    }
    let number_of_sentences = opt_u16(token(&f, 0))?;
    let sentence_num = opt_u16(token(&f, 1))?;
    let sats_in_view = opt_u8(token(&f, 2))?;
    let sat1_info = opt_gsv_sat(&f, 0)?;
    let sat2_info = opt_gsv_sat(&f, 1)?;
    let sat3_info = opt_gsv_sat(&f, 2)?;
    let sat4_info = opt_gsv_sat(&f, 3)?;
    build_gsv(
        (
            number_of_sentences,
            sentence_num,
            sats_in_view,
            sat1_info,
            sat2_info,
            sat3_info,
            sat4_info,
        ),
    )
}

/// Emptying one of the leading fields of a GSV sentence that decodes gives a
/// sentence that decodes too, to the same record with that field absent. So an
/// empty token is an absent value and never an error.
pub proof fn lemma_gsv_empty_is_absent(f: Seq<Seq<u8>>)
    requires
        spec_decode_gsv(f) is Ok,
    ensures
        ({
            let record = spec_decode_gsv(f)->Ok_0;
            &&& spec_decode_gsv(f.update(0, Seq::<u8>::empty())) == Ok::<GsvDataView, FieldError>(
                GsvDataView { number_of_sentences: None, ..record },
            )
            &&& spec_decode_gsv(f.update(1, Seq::<u8>::empty())) == Ok::<GsvDataView, FieldError>(
                GsvDataView { sentence_num: None, ..record },
            )
            &&& spec_decode_gsv(f.update(2, Seq::<u8>::empty())) == Ok::<GsvDataView, FieldError>(
                GsvDataView { sats_in_view: None, ..record },
            )
        }),
{
    reveal(spec_decode_gsv);
}

/// Whether emptying the field at place `part` of the satellite at place
/// `place` turns that satellite of `record` into `satellite` and leaves all
/// else as it was.
pub open spec fn emptied_satellite(
    f: Seq<Seq<u8>>,
    record: GsvDataView,
    place: int,
    part: int,
    satellite: GsvSatelliteView,
) -> bool {
    let emptied = spec_decode_gsv(f.update(3 + 4 * place + part, Seq::<u8>::empty()));
    &&& emptied is Ok
    &&& emptied->Ok_0.sats_info@ == record.sats_info@.update(place, Some(satellite))
    &&& GsvDataView { sats_info: record.sats_info, ..emptied->Ok_0 } == record
}

/// Emptying one of the four fields of a satellite that decodes gives a
/// satellite that decodes too, to the same values without that one.
pub proof fn lemma_gsv_sat_empty_is_absent(
    sat_id: Seq<u8>,
    elevation: Seq<u8>,
    true_azimuth: Seq<u8>,
    snr: Seq<u8>,
)
    requires
        spec_parse_gsv_sat(sat_id, elevation, true_azimuth, snr) is Ok,
    ensures
        ({
            let satellite = spec_parse_gsv_sat(sat_id, elevation, true_azimuth, snr)->Ok_0;
            let empty = Seq::<u8>::empty();
            &&& spec_parse_gsv_sat(empty, elevation, true_azimuth, snr) == Ok::<
                GsvSatelliteView,
                FieldError,
            >(GsvSatelliteView { sat_id: None, ..satellite })
            &&& spec_parse_gsv_sat(sat_id, empty, true_azimuth, snr) == Ok::<
                GsvSatelliteView,
                FieldError,
            >(GsvSatelliteView { elevation: None, ..satellite })
            &&& spec_parse_gsv_sat(sat_id, elevation, empty, snr) == Ok::<GsvSatelliteView, FieldError>(
                GsvSatelliteView { true_azimuth: None, ..satellite },
            )
            &&& spec_parse_gsv_sat(sat_id, elevation, true_azimuth, empty) == Ok::<
                GsvSatelliteView,
                FieldError,
            >(GsvSatelliteView { snr: None, ..satellite })
        }),
{
    reveal(spec_parse_gsv_sat);
}

/// The satellite without the value of its field at place `part`: its
/// number, elevation, azimuth or signal to noise ratio.
pub open spec fn spec_without(satellite: GsvSatelliteView, part: int) -> GsvSatelliteView {
    if part == 0 {
        GsvSatelliteView { sat_id: None, ..satellite }
    } else if part == 1 {
        GsvSatelliteView { elevation: None, ..satellite }
    } else if part == 2 {
        GsvSatelliteView { true_azimuth: None, ..satellite }
    } else {
        GsvSatelliteView { snr: None, ..satellite }
    }
}

/// What emptying a field of the satellite at `place` does to the satellite
/// at `other`: to that satellite itself it takes one value, to any other
/// nothing.
proof fn lemma_gsv_sat_after_emptying(f: Seq<Seq<u8>>, place: int, part: int, other: int)
    requires
        0 <= place < 4,
        0 <= part < 4,
        0 <= other < 4,
        f.len() >= 7 + 4 * place,
        spec_opt_gsv_sat(f, place) is Ok,
    ensures
        ({
            let emptied = f.update(3 + 4 * place + part, Seq::<u8>::empty());
            let satellite = spec_opt_gsv_sat(f, place)->Ok_0->Some_0;
            &&& spec_opt_gsv_sat(f, place)->Ok_0 is Some
            &&& other != place ==> spec_opt_gsv_sat(emptied, other) == spec_opt_gsv_sat(f, other)
            &&& other == place ==> spec_opt_gsv_sat(emptied, other) == Ok::<
                Option<GsvSatelliteView>,
                FieldError,
            >(Some(spec_without(satellite, part)))
        }),
{
    lemma_gsv_sat_empty_is_absent(
        f[3 + 4 * place],
        f[4 + 4 * place],
        f[5 + 4 * place],
        f[6 + 4 * place],
    );
}

/// The same for the satellites of a GSV sentence: emptying one of the four
/// fields of a satellite that the sentence holds leaves that satellite
/// without that value, and all else as it was.
pub proof fn lemma_gsv_empty_in_satellite_is_absent(f: Seq<Seq<u8>>, place: int, part: int)
    requires
        spec_decode_gsv(f) is Ok,
        0 <= place < 4,
        0 <= part < 4,
        f.len() >= 7 + 4 * place,
    ensures
        ({
            let record = spec_decode_gsv(f)->Ok_0;
            &&& record.sats_info[place] is Some
            &&& emptied_satellite(
                f,
                record,
                place,
                part,
                spec_without(record.sats_info[place]->Some_0, part),
            )
        }),
{
    reveal(spec_decode_gsv);
    lemma_gsv_sat_after_emptying(f, place, part, 0);
    lemma_gsv_sat_after_emptying(f, place, part, 1);
    lemma_gsv_sat_after_emptying(f, place, part, 2);
    lemma_gsv_sat_after_emptying(f, place, part, 3);
    let record = spec_decode_gsv(f)->Ok_0;
    let emptied = spec_decode_gsv(f.update(3 + 4 * place + part, Seq::<u8>::empty()));
    assert(emptied->Ok_0.sats_info@ =~= record.sats_info@.update(
        place,
        Some(spec_without(record.sats_info[place]->Some_0, part)),
    ));
}

} // verus!
