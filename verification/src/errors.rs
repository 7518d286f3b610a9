//! The errors of the library: the unified error that callers see, and the
//! failure of a single field that the decoders report among themselves.

use vstd::prelude::*;

use crate::parse::StatusParsingError;
use crate::sentences::SentenceType;

verus! {

/// Everything that can go wrong between the raw bytes of a sentence and its
/// decoded content.
#[derive(Debug, Clone, Copy, PartialEq)]
pub enum NmeaSentenceError<'a> {
    /// The sentence was longer than 102 bytes; holds the length of the sentence.
    SentenceLengthError(usize),
    /// The checksum written in the sentence and the one calculated from it
    /// differ; the first byte is the written one, the second the calculated one.
    ChecksumError(u8, u8),
    /// The sentence cannot be split into prefix, data and checksum, or a field
    /// that is not empty does not hold the number it should.
    GeneralParsingError,
    /// The sentence type is known, but nothing decodes it yet.
    TypeNotImplementedError(SentenceType),
    /// The two bytes of the checksum field are not both hex digits; holds them.
    HexParsingError(u8, u8),
    /// The three letters of the sentence type are not in the registry; holds
    /// the seven bytes the sentence began with.
    UnkownTypeError(&'a [u8]),
    /// The data of the sentence does not have the layout of its type: the
    /// number of its fields is wrong, a fixed letter is another, or a field
    /// that must be there is empty.
    DataParsingError,
    /// The token of a coded field is not in the table of that field.
    StatusParsingError(StatusParsingError),
}

/// The mathematical value of an `NmeaSentenceError`.
pub enum NmeaSentenceErrorView {
    SentenceLengthError(usize),
    ChecksumError(u8, u8),
    GeneralParsingError,
    TypeNotImplementedError(SentenceType),
    HexParsingError(u8, u8),
    UnkownTypeError(Seq<u8>),
    DataParsingError,
    StatusParsingError(StatusParsingError),
}

impl<'a> View for NmeaSentenceError<'a> {
    type V = NmeaSentenceErrorView;

    open spec fn view(&self) -> NmeaSentenceErrorView {
        match *self {
            NmeaSentenceError::SentenceLengthError(len) => NmeaSentenceErrorView::SentenceLengthError(len),
            NmeaSentenceError::ChecksumError(parsed, calculated) => NmeaSentenceErrorView::ChecksumError(
                parsed,
                calculated,
            ),
            NmeaSentenceError::GeneralParsingError => NmeaSentenceErrorView::GeneralParsingError,
            NmeaSentenceError::TypeNotImplementedError(kind) => NmeaSentenceErrorView::TypeNotImplementedError(kind),
            NmeaSentenceError::HexParsingError(first, second) => NmeaSentenceErrorView::HexParsingError(
                first,
                second,
            ),
            NmeaSentenceError::UnkownTypeError(prefix) => NmeaSentenceErrorView::UnkownTypeError(prefix@),
            NmeaSentenceError::DataParsingError => NmeaSentenceErrorView::DataParsingError,
            NmeaSentenceError::StatusParsingError(kind) => NmeaSentenceErrorView::StatusParsingError(kind),
        }
    }
}

/// Why the data of a sentence could not be decoded. A decoder reports the
/// first failure it meets and nothing of what it had decoded before.
#[derive(Debug, Clone, Copy, PartialEq)]
pub enum FieldError {
    /// The data does not split into the fields of the sentence type, a field
    /// that must hold a fixed letter holds something else, or a field that
    /// must be there is empty.
    Structure,
    /// A token that is not empty is not the number it should be.
    Number,
    /// The token of a coded field is not in the table of that field.
    Status(StatusParsingError),
}

} // verus!
