//! The frame of a sentence: the registry of sentence types, the checksum,
//! and the split of a sentence into prefix, data and checksum.

use vstd::prelude::*;

use crate::errors::{NmeaSentenceError, NmeaSentenceErrorView};
use crate::parsers::utils::STAR;

verus! {

/// No sentence is longer than this, line terminator included.
pub const MAX_SENTENCE_LENGTH: usize = 102;

/// A sentence begins with seven bytes: `$` or `!`, two letters for the
/// talker, three for the sentence type, and a comma.
pub const PREFIX_LENGTH: usize = 7;

/// First byte of the line terminator.
pub const CARRIAGE_RETURN: u8 = 13;

/// Second byte of the line terminator.
pub const LINE_FEED: u8 = 10;

/// All the sentence types the registry knows, named by their three letters.
#[derive(Debug, Clone, Copy, PartialEq)]
pub enum SentenceType {
    AAM,
    ABK,
    ACK,
    ALM,
    APA,
    APB,
    BEC,
    BOD,
    BWC,
    BWR,
    BWW,
    DBK,
    DBS,
    DBT,
    DCN,
    DPT,
    DTM,
    FSI,
    GBS,
    GGA,
    GLC,
    GLL,
    GNS,
    GRS,
    GST,
    GSA,
    GSV,
    GTD,
    GXA,
    HDG,
    HDM,
    HDT,
    HSC,
    LCD,
    MSK,
    MTW,
    MWV,
    OLN,
    OSD,
    ROO,
    RMA,
    RMB,
    RMC,
    ROT,
    RPM,
    RSA,
    RSD,
    RTE,
    SFI,
    STN,
    TLL,
    TRF,
    TTM,
    VBW,
    VDR,
    VHW,
    VLW,
    VPW,
    VTG,
    VWR,
    WCV,
    WNC,
    WPL,
    XDR,
    XTE,
    XTR,
    ZDA,
    ZFO,
    ZTG,
}

impl SentenceType {
    /// The registry: the sentence type that three letters stand for.
    pub open spec fn spec_from_mnemonic(a: char, b: char, c: char) -> Option<SentenceType> {
        if (a, b, c) == ('A', 'A', 'M') {
            Some(SentenceType::AAM)
        } else if (a, b, c) == ('A', 'B', 'K') {
            Some(SentenceType::ABK)
        } else if (a, b, c) == ('A', 'C', 'K') {
            Some(SentenceType::ACK)
        } else if (a, b, c) == ('A', 'L', 'M') {
            Some(SentenceType::ALM)
        } else if (a, b, c) == ('A', 'P', 'A') {
            Some(SentenceType::APA)
        } else if (a, b, c) == ('A', 'P', 'B') {
            Some(SentenceType::APB)
        } else if (a, b, c) == ('B', 'E', 'C') {
            Some(SentenceType::BEC)
        } else if (a, b, c) == ('B', 'O', 'D') {
            Some(SentenceType::BOD)
        } else if (a, b, c) == ('B', 'W', 'C') {
            Some(SentenceType::BWC)
        } else if (a, b, c) == ('B', 'W', 'R') {
            Some(SentenceType::BWR)
        } else if (a, b, c) == ('B', 'W', 'W') {
            Some(SentenceType::BWW)
        } else if (a, b, c) == ('D', 'B', 'K') {
            Some(SentenceType::DBK)
        } else if (a, b, c) == ('D', 'B', 'S') {
            Some(SentenceType::DBS)
        } else if (a, b, c) == ('D', 'B', 'T') {
            Some(SentenceType::DBT)
        } else if (a, b, c) == ('D', 'C', 'N') {
            Some(SentenceType::DCN)
        } else if (a, b, c) == ('D', 'P', 'T') {
            Some(SentenceType::DPT)
        } else if (a, b, c) == ('D', 'T', 'M') {
            Some(SentenceType::DTM)
        } else if (a, b, c) == ('F', 'S', 'I') {
            Some(SentenceType::FSI)
        } else if (a, b, c) == ('G', 'B', 'S') {
            Some(SentenceType::GBS)
        } else if (a, b, c) == ('G', 'G', 'A') {
            Some(SentenceType::GGA)
        } else if (a, b, c) == ('G', 'L', 'C') {
            Some(SentenceType::GLC)
        } else if (a, b, c) == ('G', 'L', 'L') {
            Some(SentenceType::GLL)
        } else if (a, b, c) == ('G', 'N', 'S') {
            Some(SentenceType::GNS)
        } else if (a, b, c) == ('G', 'R', 'S') {
            Some(SentenceType::GRS)
        } else if (a, b, c) == ('G', 'S', 'T') {
            Some(SentenceType::GST)
        } else if (a, b, c) == ('G', 'S', 'A') {
            Some(SentenceType::GSA)
        } else if (a, b, c) == ('G', 'S', 'V') {
            Some(SentenceType::GSV)
        } else if (a, b, c) == ('G', 'T', 'D') {
            Some(SentenceType::GTD)
        } else if (a, b, c) == ('G', 'X', 'A') {
            Some(SentenceType::GXA)
        } else if (a, b, c) == ('H', 'D', 'G') {
            Some(SentenceType::HDG)
        } else if (a, b, c) == ('H', 'D', 'M') {
            Some(SentenceType::HDM)
        } else if (a, b, c) == ('H', 'D', 'T') {
            Some(SentenceType::HDT)
        } else if (a, b, c) == ('H', 'S', 'C') {
            Some(SentenceType::HSC)
        } else if (a, b, c) == ('L', 'C', 'D') {
            Some(SentenceType::LCD)
        } else if (a, b, c) == ('M', 'S', 'K') {
            Some(SentenceType::MSK)
        } else if (a, b, c) == ('M', 'T', 'W') {
            Some(SentenceType::MTW)
        } else if (a, b, c) == ('M', 'W', 'V') {
            Some(SentenceType::MWV)
        } else if (a, b, c) == ('O', 'L', 'N') {
            Some(SentenceType::OLN)
        } else if (a, b, c) == ('O', 'S', 'D') {
            Some(SentenceType::OSD)
        } else if (a, b, c) == ('R', 'O', 'O') {
            Some(SentenceType::ROO)
        } else if (a, b, c) == ('R', 'M', 'A') {
            Some(SentenceType::RMA)
        } else if (a, b, c) == ('R', 'M', 'B') {
            Some(SentenceType::RMB)
        } else if (a, b, c) == ('R', 'M', 'C') {
            Some(SentenceType::RMC)
        } else if (a, b, c) == ('R', 'O', 'T') {
            Some(SentenceType::ROT)
        } else if (a, b, c) == ('R', 'P', 'M') {
            Some(SentenceType::RPM)
        } else if (a, b, c) == ('R', 'S', 'A') {
            Some(SentenceType::RSA)
        } else if (a, b, c) == ('R', 'S', 'D') {
            Some(SentenceType::RSD)
        } else if (a, b, c) == ('R', 'T', 'E') {
            Some(SentenceType::RTE)
        } else if (a, b, c) == ('S', 'F', 'I') {
            Some(SentenceType::SFI)
        } else if (a, b, c) == ('S', 'T', 'N') {
            Some(SentenceType::STN)
        } else if (a, b, c) == ('T', 'L', 'L') {
            Some(SentenceType::TLL)
        } else if (a, b, c) == ('T', 'R', 'F') {
            Some(SentenceType::TRF)
        } else if (a, b, c) == ('T', 'T', 'M') {
            Some(SentenceType::TTM)
        } else if (a, b, c) == ('V', 'B', 'W') {
            Some(SentenceType::VBW)
        } else if (a, b, c) == ('V', 'D', 'R') {
            Some(SentenceType::VDR)
        } else if (a, b, c) == ('V', 'H', 'W') {
            Some(SentenceType::VHW)
        } else if (a, b, c) == ('V', 'L', 'W') {
            Some(SentenceType::VLW)
        } else if (a, b, c) == ('V', 'P', 'W') {
            Some(SentenceType::VPW)
        } else if (a, b, c) == ('V', 'T', 'G') {
            Some(SentenceType::VTG)
        } else if (a, b, c) == ('V', 'W', 'R') {
            Some(SentenceType::VWR)
        } else if (a, b, c) == ('W', 'C', 'V') {
            Some(SentenceType::WCV)
        } else if (a, b, c) == ('W', 'N', 'C') {
            Some(SentenceType::WNC)
        } else if (a, b, c) == ('W', 'P', 'L') {
            Some(SentenceType::WPL)
        } else if (a, b, c) == ('X', 'D', 'R') {
            Some(SentenceType::XDR)
        } else if (a, b, c) == ('X', 'T', 'E') {
            Some(SentenceType::XTE)
        } else if (a, b, c) == ('X', 'T', 'R') {
            Some(SentenceType::XTR)
        } else if (a, b, c) == ('Z', 'D', 'A') {
            Some(SentenceType::ZDA)
        } else if (a, b, c) == ('Z', 'F', 'O') {
            Some(SentenceType::ZFO)
        } else if (a, b, c) == ('Z', 'T', 'G') {
            Some(SentenceType::ZTG)
        } else {
            None
        }
    }

    /// Looks three letters up in the registry.
    pub fn from_mnemonic(a: char, b: char, c: char) -> (r: Option<SentenceType>)
        ensures
            r == Self::spec_from_mnemonic(a, b, c),
    {
        match (a, b, c) {
            ('A', 'A', 'M') => Some(SentenceType::AAM),
            ('A', 'B', 'K') => Some(SentenceType::ABK),
            ('A', 'C', 'K') => Some(SentenceType::ACK),
            ('A', 'L', 'M') => Some(SentenceType::ALM),
            ('A', 'P', 'A') => Some(SentenceType::APA),
            ('A', 'P', 'B') => Some(SentenceType::APB),
            ('B', 'E', 'C') => Some(SentenceType::BEC),
            ('B', 'O', 'D') => Some(SentenceType::BOD),
            ('B', 'W', 'C') => Some(SentenceType::BWC),
            ('B', 'W', 'R') => Some(SentenceType::BWR),
            ('B', 'W', 'W') => Some(SentenceType::BWW),
            ('D', 'B', 'K') => Some(SentenceType::DBK),
            ('D', 'B', 'S') => Some(SentenceType::DBS),
            ('D', 'B', 'T') => Some(SentenceType::DBT),
            ('D', 'C', 'N') => Some(SentenceType::DCN),
            ('D', 'P', 'T') => Some(SentenceType::DPT),
            ('D', 'T', 'M') => Some(SentenceType::DTM),
            ('F', 'S', 'I') => Some(SentenceType::FSI),
            ('G', 'B', 'S') => Some(SentenceType::GBS),
            ('G', 'G', 'A') => Some(SentenceType::GGA),
            ('G', 'L', 'C') => Some(SentenceType::GLC),
            ('G', 'L', 'L') => Some(SentenceType::GLL),
            ('G', 'N', 'S') => Some(SentenceType::GNS),
            ('G', 'R', 'S') => Some(SentenceType::GRS),
            ('G', 'S', 'T') => Some(SentenceType::GST),
            ('G', 'S', 'A') => Some(SentenceType::GSA),
            ('G', 'S', 'V') => Some(SentenceType::GSV),
            ('G', 'T', 'D') => Some(SentenceType::GTD),
            ('G', 'X', 'A') => Some(SentenceType::GXA),
            ('H', 'D', 'G') => Some(SentenceType::HDG),
            ('H', 'D', 'M') => Some(SentenceType::HDM),
            ('H', 'D', 'T') => Some(SentenceType::HDT),
            ('H', 'S', 'C') => Some(SentenceType::HSC),
            ('L', 'C', 'D') => Some(SentenceType::LCD),
            ('M', 'S', 'K') => Some(SentenceType::MSK),
            ('M', 'T', 'W') => Some(SentenceType::MTW),
            ('M', 'W', 'V') => Some(SentenceType::MWV),
            ('O', 'L', 'N') => Some(SentenceType::OLN),
            ('O', 'S', 'D') => Some(SentenceType::OSD),
            ('R', 'O', 'O') => Some(SentenceType::ROO),
            ('R', 'M', 'A') => Some(SentenceType::RMA),
            ('R', 'M', 'B') => Some(SentenceType::RMB),
            ('R', 'M', 'C') => Some(SentenceType::RMC),
            ('R', 'O', 'T') => Some(SentenceType::ROT),
            ('R', 'P', 'M') => Some(SentenceType::RPM),
            ('R', 'S', 'A') => Some(SentenceType::RSA),
            ('R', 'S', 'D') => Some(SentenceType::RSD),
            ('R', 'T', 'E') => Some(SentenceType::RTE),
            ('S', 'F', 'I') => Some(SentenceType::SFI),
            ('S', 'T', 'N') => Some(SentenceType::STN),
            ('T', 'L', 'L') => Some(SentenceType::TLL),
            ('T', 'R', 'F') => Some(SentenceType::TRF),
            ('T', 'T', 'M') => Some(SentenceType::TTM),
            ('V', 'B', 'W') => Some(SentenceType::VBW),
            ('V', 'D', 'R') => Some(SentenceType::VDR),
            ('V', 'H', 'W') => Some(SentenceType::VHW),
            ('V', 'L', 'W') => Some(SentenceType::VLW),
            ('V', 'P', 'W') => Some(SentenceType::VPW),
            ('V', 'T', 'G') => Some(SentenceType::VTG),
            ('V', 'W', 'R') => Some(SentenceType::VWR),
            ('W', 'C', 'V') => Some(SentenceType::WCV),
            ('W', 'N', 'C') => Some(SentenceType::WNC),
            ('W', 'P', 'L') => Some(SentenceType::WPL),
            ('X', 'D', 'R') => Some(SentenceType::XDR),
            ('X', 'T', 'E') => Some(SentenceType::XTE),
            ('X', 'T', 'R') => Some(SentenceType::XTR),
            ('Z', 'D', 'A') => Some(SentenceType::ZDA),
            ('Z', 'F', 'O') => Some(SentenceType::ZFO),
            ('Z', 'T', 'G') => Some(SentenceType::ZTG),
            _ => None,
        }
    }
}

/// The exclusive or of `start` and all of `bytes`.
pub open spec fn xor_from(start: u8, bytes: Seq<u8>) -> u8
    decreases bytes.len(),
{
    if bytes.len() == 0 {
        start
    } else {
        xor_from(start, bytes.drop_last()) ^ bytes.last()
    }
}

/// The exclusive or of all of `bytes`, which is how a sentence is summed.
pub open spec fn xor_all(bytes: Seq<u8>) -> u8 {
    xor_from(0, bytes)
}

/// The value of a hex digit: `0` to `9`, and `A` to `F` in either case.
pub open spec fn spec_hex_digit(byte: u8) -> Option<u8> {
    if 48 <= byte <= 57 {
        Some((byte - 48) as u8)
    } else if 65 <= byte <= 70 {
        Some((byte - 55) as u8)
    } else if 97 <= byte <= 102 {
        Some((byte - 87) as u8)
    } else {
        None
    }
}

/// The byte that two hex digits spell, the high digit first.
pub open spec fn spec_parse_hex(first: u8, second: u8) -> Option<u8> {
    match (spec_hex_digit(first), spec_hex_digit(second)) {
        (Some(high), Some(low)) => Some((high * 16 + low) as u8),
        _ => None,
    }
}

/// The length of a sentence without its line terminator, if it has one.
pub open spec fn spec_body_len(sentence: Seq<u8>) -> int {
    if sentence.len() >= 2 && sentence[sentence.len() - 2] == CARRIAGE_RETURN
        && sentence[sentence.len() - 1] == LINE_FEED {
        sentence.len() - 2
    } else {
        sentence.len() as int
    }
}

/// The bytes that the checksum of a sentence covers: all that stand strictly
/// between its first byte and the `*` in front of the checksum digits.
pub open spec fn checksummed(sentence: Seq<u8>) -> Seq<u8> {
    sentence.subrange(1, spec_body_len(sentence) - 3)
}

/// A sentence split into its parts, with its checksum verified and its type
/// resolved. It borrows the sentence it was made from.
#[derive(Debug, Clone, Copy)]
pub struct GeneralSentence<'a> {
    /// The type that the three letters of the prefix stand for.
    pub sentence_type: SentenceType,
    /// The fields of the sentence: all between the prefix and the checksum
    /// digits, so the closing `*` is its last byte.
    pub data: &'a [u8],
    /// The checksum that the sentence carries.
    pub checksum: u8,
    /// The first seven bytes of the sentence.
    pub prefix: &'a [u8],
}

/// The mathematical value of a `GeneralSentence`.
pub struct GeneralSentenceView {
    pub sentence_type: SentenceType,
    pub data: Seq<u8>,
    pub checksum: u8,
    pub prefix: Seq<u8>,
}

impl<'a> View for GeneralSentence<'a> {
    type V = GeneralSentenceView;

    open spec fn view(&self) -> GeneralSentenceView {
        GeneralSentenceView {
            sentence_type: self.sentence_type,
            data: self.data@,
            checksum: self.checksum,
            prefix: self.prefix@,
        }
    }
}

/// The bytes of a prefix and a data span that enter the checksum: the
/// prefix without its first byte, then the data without its last.
pub open spec fn spec_covered(prefix: Seq<u8>, data: Seq<u8>) -> Seq<u8> {
    let tail = if prefix.len() > 0 {
        prefix.skip(1)
    } else {
        prefix
    };
    let body = if data.len() > 0 {
        data.drop_last()
    } else {
        data
    };
    tail + body
}

impl GeneralSentenceView {
    /// The checksum calculated from the parts of the sentence.
    pub open spec fn spec_calc_checksum(self) -> u8 {
        xor_all(spec_covered(self.prefix, self.data))
    }

    /// What holds of every sentence that `GeneralSentence::new` accepts.
    pub open spec fn well_formed(self) -> bool {
        &&& self.prefix.len() == PREFIX_LENGTH
        &&& self.data.len() > 0
        &&& self.data.last() == STAR
        &&& SentenceType::spec_from_mnemonic(
            self.prefix[3] as char,
            self.prefix[4] as char,
            self.prefix[5] as char,
        ) == Some(self.sentence_type)
        &&& self.spec_calc_checksum() == self.checksum
    }
}

/// What becomes of a sentence: its parts, or the first of these errors.
/// More than 102 bytes are too long. Without its line terminator the
/// sentence must hold a prefix and end in `*` and two bytes, else it
/// cannot be split. The two bytes must be hex digits. The byte they spell
/// must be the exclusive or of the covered bytes. Last, the three letters
/// must be in the registry.
pub open spec fn spec_frame(sentence: Seq<u8>) -> Result<
    GeneralSentenceView,
    NmeaSentenceErrorView,
> {
    let n = spec_body_len(sentence);
    if sentence.len() > MAX_SENTENCE_LENGTH {
        Err(NmeaSentenceErrorView::SentenceLengthError(sentence.len() as usize))
    } else if n < PREFIX_LENGTH + 3 || sentence[n - 3] != STAR {
        Err(NmeaSentenceErrorView::GeneralParsingError)
    } else {
        match spec_parse_hex(sentence[n - 2], sentence[n - 1]) {
            None => Err(NmeaSentenceErrorView::HexParsingError(sentence[n - 2], sentence[n - 1])),
            Some(parsed) => {
                let calculated = xor_all(checksummed(sentence));
                if calculated != parsed {
                    Err(NmeaSentenceErrorView::ChecksumError(parsed, calculated))
                } else {
                    match SentenceType::spec_from_mnemonic(
                        sentence[3] as char,
                        sentence[4] as char,
                        sentence[5] as char,
                    ) {
                        None => Err(
                            NmeaSentenceErrorView::UnkownTypeError(
                                sentence.take(PREFIX_LENGTH as int),
                            ),
                        ),
                        Some(sentence_type) => Ok(
                            GeneralSentenceView {
                                sentence_type,
                                data: sentence.subrange(PREFIX_LENGTH as int, n - 2),
                                checksum: parsed,
                                prefix: sentence.take(PREFIX_LENGTH as int),
                            },
                        ),
                    }
                }
            },
        }
    }
}

/// The value of a result of the library: borrowed bytes are shown as such
/// on both sides.
pub open spec fn unified_view<T: View>(r: Result<T, NmeaSentenceError>) -> Result<
    T::V,
    NmeaSentenceErrorView,
> {
    match r {
        Ok(value) => Ok(value@),
        Err(e) => Err(e@),
    }
}

pub proof fn lemma_xor_concat(start: u8, first: Seq<u8>, second: Seq<u8>)
    ensures
        xor_from(start, first + second) == xor_from(xor_from(start, first), second),
    decreases second.len(),
{
    if second.len() > 0 {
        assert((first + second).drop_last() =~= first + second.drop_last());
        lemma_xor_concat(start, first, second.drop_last());
    }
}

/// Changing one byte changes the sum by the exclusive or of the old and the
/// new byte.
pub proof fn lemma_xor_update(start: u8, bytes: Seq<u8>, i: int, byte: u8)
    requires
        0 <= i < bytes.len(),
    ensures
        xor_from(start, bytes.update(i, byte)) == xor_from(start, bytes) ^ (bytes[i] ^ byte),
    decreases bytes.len(),
{
    let changed = bytes.update(i, byte);
    let old_byte = bytes[i];
    if i == bytes.len() - 1 {
        assert(changed.drop_last() =~= bytes.drop_last());
        let rest = xor_from(start, bytes.drop_last());
        assert(rest ^ byte == (rest ^ old_byte) ^ (old_byte ^ byte)) by (bit_vector);
    } else {
        assert(changed.drop_last() =~= bytes.drop_last().update(i, byte));
        lemma_xor_update(start, bytes.drop_last(), i, byte);
        let rest = xor_from(start, bytes.drop_last());
        let last = bytes.last();
        let delta = old_byte ^ byte;
        assert((rest ^ delta) ^ last == (rest ^ last) ^ delta) by (bit_vector);
    }
}

/// The exclusive or of `start` and the bytes `bytes[from..to]`.
fn xor_bytes(start: u8, bytes: &[u8], from: usize, to: usize) -> (r: u8)
    requires
        from <= to <= bytes@.len(),
    ensures
        r == xor_from(start, bytes@.subrange(from as int, to as int)),
{
    let mut sum: u8 = start;
    let mut i: usize = from;
    while i < to
        invariant
            from <= i <= to <= bytes@.len(),
            sum == xor_from(start, bytes@.subrange(from as int, i as int)),
        decreases to - i,
    {
        proof {
            assert(bytes@.subrange(from as int, i + 1).drop_last() =~= bytes@.subrange(
                from as int,
                i as int,
            ));
        }
        sum = sum ^ bytes[i];
        i = i + 1;
    }
    sum
}

/// The checksum of a sentence with this prefix and this data.
pub fn checksum_of(prefix: &[u8], data: &[u8]) -> (r: u8)
    ensures
        r == xor_all(spec_covered(prefix@, data@)),
{
    let from: usize = if prefix.len() > 0 {
        1
    } else {
        0
    };
    let to: usize = if data.len() > 0 {
        data.len() - 1
    } else {
        0
    };
    let of_prefix = xor_bytes(0, prefix, from, prefix.len());
    proof {
        let tail = prefix@.subrange(from as int, prefix@.len() as int);
        let body = data@.subrange(0, to as int);
        lemma_xor_concat(0, tail, body);
    }
    xor_bytes(of_prefix, data, 0, to)
}

/// Reads one hex digit.
pub fn hex_digit(byte: u8) -> (r: Option<u8>)
    ensures
        r == spec_hex_digit(byte),
{
    if 48 <= byte && byte <= 57 {
        Some(byte - 48)
    } else if 65 <= byte && byte <= 70 {
        Some(byte - 55)
    } else if 97 <= byte && byte <= 102 {
        Some(byte - 87)
    } else {
        None
    }
}

/// Reads the two digits of a checksum field.
pub fn parse_hex<'a>(first: u8, second: u8) -> (r: Result<u8, NmeaSentenceError<'a>>)
    ensures
        match spec_parse_hex(first, second) {
            Some(value) => r == Ok::<u8, NmeaSentenceError<'a>>(value),
            None => r == Err::<u8, NmeaSentenceError<'a>>(
                NmeaSentenceError::HexParsingError(first, second),
            ),
        },
{
    match (hex_digit(first), hex_digit(second)) {
        (Some(high), Some(low)) => Ok(high * 16 + low),
        _ => Err(NmeaSentenceError::HexParsingError(first, second)),
    }
}

impl<'a> GeneralSentence<'a> {
    /// Splits a sentence into its parts, verifies its checksum and resolves
    /// its type.
    pub fn new(sentence: &'a [u8]) -> (r: Result<GeneralSentence<'a>, NmeaSentenceError<'a>>)
        ensures
            unified_view(r) == spec_frame(sentence@),
            sentence@.len() > MAX_SENTENCE_LENGTH ==> r == Err::<
                GeneralSentence<'a>,
                NmeaSentenceError<'a>,
            >(NmeaSentenceError::SentenceLengthError(sentence.len())),
            r matches Ok(parts) ==> parts@.well_formed() && parts.checksum == xor_all(
                checksummed(sentence@),
            ),
    {
        let len = sentence.len();
        if len > MAX_SENTENCE_LENGTH {
            return Err(NmeaSentenceError::SentenceLengthError(len));
        }
        let n = if len >= 2 && sentence[len - 2] == CARRIAGE_RETURN && sentence[len - 1]
            == LINE_FEED {
            len - 2
        } else {
            len
        };
        if n < PREFIX_LENGTH + 3 || sentence[n - 3] != STAR {
            return Err(NmeaSentenceError::GeneralParsingError);
        }
        let checksum = parse_hex(sentence[n - 2], sentence[n - 1])?;
        let prefix = &sentence[0..PREFIX_LENGTH];
        let data = &sentence[PREFIX_LENGTH..n - 2];
        proof {
            assert(spec_covered(prefix@, data@) =~= checksummed(sentence@));
        }
        let calculated = checksum_of(prefix, data);
        if calculated != checksum {
            return Err(NmeaSentenceError::ChecksumError(checksum, calculated));
        }
        match SentenceType::from_mnemonic(prefix[3] as char, prefix[4] as char, prefix[5] as char) {
            Some(sentence_type) => Ok(GeneralSentence { sentence_type, data, checksum, prefix }),
            None => Err(NmeaSentenceError::UnkownTypeError(prefix)),
        }
    }

    /// Calculates the actual checksum of a sentence from its parts.
    pub fn calc_checksum(&self) -> (r: u8)
        ensures
            r == self@.spec_calc_checksum(),
    {
        checksum_of(self.prefix, self.data)
    }
}

/// The checksum of an accepted sentence is the exclusive or of the bytes
/// strictly between its first byte and the `*`.
pub proof fn lemma_checksum_covers_sentence(sentence: Seq<u8>)
    requires
        spec_frame(sentence) is Ok,
    ensures
        spec_frame(sentence)->Ok_0.checksum == xor_all(checksummed(sentence)),
        spec_frame(sentence)->Ok_0.well_formed(),
{
    let parts = spec_frame(sentence)->Ok_0;
    assert(spec_covered(parts.prefix, parts.data) =~= checksummed(sentence));
}

/// Changing one of the covered bytes of an accepted sentence, and nothing
/// else, always ends in a checksum error: the written checksum stays, the
/// calculated one differs from it by the change.
pub proof fn lemma_mutation_is_detected(sentence: Seq<u8>, i: int, byte: u8)
    requires
        spec_frame(sentence) is Ok,
        1 <= i < spec_body_len(sentence) - 3,
        byte != sentence[i],
    ensures
        spec_frame(sentence.update(i, byte)) == Err::<GeneralSentenceView, NmeaSentenceErrorView>(
            NmeaSentenceErrorView::ChecksumError(
                spec_frame(sentence)->Ok_0.checksum,
                spec_frame(sentence)->Ok_0.checksum ^ (sentence[i] ^ byte),
            ),
        ),
        spec_frame(sentence)->Ok_0.checksum ^ (sentence[i] ^ byte) != spec_frame(
            sentence,
        )->Ok_0.checksum,
{
    let changed = sentence.update(i, byte);
    let parsed = spec_frame(sentence)->Ok_0.checksum;
    let old_byte = sentence[i];
    assert(checksummed(changed) =~= checksummed(sentence).update(i - 1, byte));
    lemma_xor_update(0, checksummed(sentence), i - 1, byte);
    assert(parsed ^ (old_byte ^ byte) != parsed) by (bit_vector)
        requires
            old_byte != byte,
    ;
}

} // verus!
