//! Decodes NMEA 0183 sentences, the text that marine and satellite
//! navigation devices talk in, into typed records.
//!
//! A sentence is `$` or `!`, two letters for the talker, three for the
//! sentence type, a comma, the fields separated by commas, `*`, and two hex
//! digits that spell the exclusive or of everything between the first byte
//! and the `*`. A line terminator may follow.

use vstd::prelude::*;

use errors::{NmeaSentenceError, NmeaSentenceErrorView};
use parse::{parse_sentence_data, spec_parse_sentence_data, SentenceData, SentenceDataView};
use sentences::{
    checksummed, lemma_mutation_is_detected, spec_body_len, spec_frame, unified_view, xor_all,
    GeneralSentence, MAX_SENTENCE_LENGTH,
};

pub mod errors;
pub mod parse;
pub mod parsers;
pub mod sentences;

verus! {

/// What a sentence decodes to: it is split and verified, then its data goes
/// through the decoder of its type. The first failure on the way is the
/// result, and nothing of what was decoded before it.
pub open spec fn spec_parse_nmea_sentence(sentence: Seq<u8>) -> Result<
    SentenceDataView,
    NmeaSentenceErrorView,
> {
    match spec_frame(sentence) {
        Ok(general_sentence) => spec_parse_sentence_data(general_sentence),
        Err(e) => Err(e),
    }
}

/// The central entrypoint for the library, it verifies and parses a given sentence
/// into a specific data struct for the user
pub fn parse_nmea_sentence<'a>(sentence: &'a [u8]) -> (r: Result<
    SentenceData<'a>,
    NmeaSentenceError<'a>,
>)
    ensures
        unified_view(r) == spec_parse_nmea_sentence(sentence@),
        sentence@.len() > MAX_SENTENCE_LENGTH ==> r == Err::<
            SentenceData<'a>,
            NmeaSentenceError<'a>,
        >(NmeaSentenceError::SentenceLengthError(sentence.len())),
{
    parse_sentence_data(GeneralSentence::new(sentence)?)
}

/// A sentence of more than 102 bytes is refused for its length, whatever it
/// holds.
pub proof fn lemma_too_long_is_refused(sentence: Seq<u8>)
    requires
        sentence.len() > MAX_SENTENCE_LENGTH,
    ensures
        spec_parse_nmea_sentence(sentence) == Err::<SentenceDataView, NmeaSentenceErrorView>(
            NmeaSentenceErrorView::SentenceLengthError(sentence.len() as usize),
        ),
{
}

/// An accepted sentence carries the exclusive or of its covered bytes, and
/// changing one of those bytes, and nothing else, always ends in a checksum
/// error: the written checksum stays, the calculated one differs from it by
/// the change.
pub proof fn lemma_changed_byte_is_refused(sentence: Seq<u8>, i: int, byte: u8)
    requires
        spec_frame(sentence) is Ok,
        1 <= i < spec_body_len(sentence) - 3,
        byte != sentence[i],
    ensures
        spec_frame(sentence)->Ok_0.checksum == xor_all(checksummed(sentence)),
        spec_parse_nmea_sentence(sentence.update(i, byte)) == Err::<
            SentenceDataView,
            NmeaSentenceErrorView,
        >(
            NmeaSentenceErrorView::ChecksumError(
                xor_all(checksummed(sentence)),
                xor_all(checksummed(sentence)) ^ (sentence[i] ^ byte),
            ),
        ),
        xor_all(checksummed(sentence)) ^ (sentence[i] ^ byte) != xor_all(checksummed(sentence)),
{
    lemma_mutation_is_detected(sentence, i, byte);
}

/// Decoding is a function of the bytes alone: whatever two calls return for
/// the same bytes has the same value, whichever buffers held them.
pub proof fn lemma_decoding_is_repeatable<'a, 'b>(
    sentence: Seq<u8>,
    first: Result<SentenceData<'a>, NmeaSentenceError<'a>>,
    second: Result<SentenceData<'b>, NmeaSentenceError<'b>>,
)
    requires
        unified_view(first) == spec_parse_nmea_sentence(sentence),
        unified_view(second) == spec_parse_nmea_sentence(sentence),
    ensures
        unified_view(first) == unified_view(second),
{
}

} // verus!
