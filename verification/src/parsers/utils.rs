//! The grammar of a single field: how the data of a sentence is cut into
//! tokens, and what a token is as a number, a decimal, a letter, a text, a
//! time, a date or, four tokens together, a position.
//!
//! An empty token is an absent value wherever a field is optional. A token
//! that is not empty must be what its field asks for.

use vstd::prelude::*;

use crate::errors::FieldError;
use crate::parse::{
    option_view, text_view, Decimal, DecimalView, GpsDate, GpsPosition, GpsPositionView, GpsTime,
    GpsTimeView, LatitudeDirection, LongitudeDirection, StatusParsingError,
};

verus! {

/// `,` separates the fields of a sentence.
pub const COMMA: u8 = 44;

/// `*` ends the data of a sentence.
pub const STAR: u8 = 42;

/// `.` separates the whole part of a decimal from its fraction.
pub const POINT: u8 = 46;

/// `+`, which may stand in front of any number.
pub const PLUS: u8 = 43;

/// `-`, which may stand in front of a decimal; alone it marks a value that the
/// talker could not compute.
pub const MINUS: u8 = 45;

/// `e`, which marks the exponent of a decimal.
pub const LOWER_E: u8 = 101;

/// `E`, which marks it as well.
pub const UPPER_E: u8 = 69;

/// Whether a byte is one of the digits `0` to `9`.
pub open spec fn is_digit(byte: u8) -> bool {
    48 <= byte <= 57
}

/// Whether every byte is a digit.
pub open spec fn all_digits(bytes: Seq<u8>) -> bool {
    forall|i: int| 0 <= i < bytes.len() ==> is_digit(#[trigger] bytes[i])
}

/// The number that results when the decimal digits `bytes` are written behind
/// the number `start`.
pub open spec fn digits_from(start: int, bytes: Seq<u8>) -> int
    decreases bytes.len(),
{
    if bytes.len() == 0 {
        start
    } else {
        digits_from(start, bytes.drop_last()) * 10 + (bytes.last() - 48)
    }
}

/// The number that the decimal digits `bytes` spell.
pub open spec fn digits_value(bytes: Seq<u8>) -> int {
    digits_from(0, bytes)
}

/// The index of the first byte of `bytes` that is `first` or `second`, or the
/// length of `bytes` where there is none.
pub open spec fn spec_find_either(bytes: Seq<u8>, first: u8, second: u8) -> int
    decreases bytes.len(),
{
    if bytes.len() == 0 || bytes[0] == first || bytes[0] == second {
        0
    } else {
        1 + spec_find_either(bytes.skip(1), first, second)
    }
}

/// The index of the first `delimiter` in `bytes`, or the length of `bytes`
/// where there is none.
pub open spec fn spec_find(bytes: Seq<u8>, delimiter: u8) -> int {
    spec_find_either(bytes, delimiter, delimiter)
}

/// The pieces between the delimiters of `bytes`, in order. There is always one
/// piece more than there are delimiters, so empty input is one empty piece.
pub open spec fn spec_split(bytes: Seq<u8>, delimiter: u8) -> Seq<Seq<u8>>
    decreases bytes.len(),
{
    if bytes.len() == 0 {
        seq![Seq::<u8>::empty()]
    } else {
        let before = spec_split(bytes.drop_last(), delimiter);
        if bytes.last() == delimiter {
            before.push(Seq::<u8>::empty())
        } else {
            before.update(before.len() - 1, before.last().push(bytes.last()))
        }
    }
}

/// The pieces of a list written one behind the other with `delimiter` between
/// them.
pub open spec fn spec_join(pieces: Seq<Seq<u8>>, delimiter: u8) -> Seq<u8>
    decreases pieces.len(),
{
    if pieces.len() == 0 {
        Seq::<u8>::empty()
    } else if pieces.len() == 1 {
        pieces[0]
    } else {
        spec_join(pieces.drop_last(), delimiter).push(delimiter) + pieces.last()
    }
}

/// Cutting loses nothing and cuts everywhere: no piece holds a delimiter, and
/// the pieces joined by delimiters are the bytes again.
pub proof fn lemma_split_undoes_join(bytes: Seq<u8>, delimiter: u8)
    ensures
        spec_split(bytes, delimiter).len() >= 1,
        spec_join(spec_split(bytes, delimiter), delimiter) == bytes,
        forall|i: int, j: int|
            0 <= i < spec_split(bytes, delimiter).len() && 0 <= j < spec_split(
                bytes,
                delimiter,
            )[i].len() ==> #[trigger] spec_split(bytes, delimiter)[i][j] != delimiter,
    decreases bytes.len(),
{
    let pieces = spec_split(bytes, delimiter);
    if bytes.len() > 0 {
        let before = spec_split(bytes.drop_last(), delimiter);
        lemma_split_undoes_join(bytes.drop_last(), delimiter);
        if bytes.last() == delimiter {
            assert(pieces.drop_last() =~= before);
        } else if before.len() > 1 {
            let head = spec_join(before.drop_last(), delimiter).push(delimiter);
            assert(pieces.drop_last() =~= before.drop_last());
            assert(head + before.last().push(bytes.last()) =~= (head + before.last()).push(
                bytes.last(),
            ));
        }
    }
}

/// The fields of the data of a sentence: what stands between the commas of
/// everything before the closing `*`. Data that does not end in `*` has none.
pub open spec fn spec_fields(data: Seq<u8>) -> Option<Seq<Seq<u8>>> {
    if data.len() > 0 && data.last() == STAR {
        Some(spec_split(data.drop_last(), COMMA))
    } else {
        None
    }
}

/// The bytes of each token of a list.
pub open spec fn tokens_view(tokens: Seq<&[u8]>) -> Seq<Seq<u8>> {
    Seq::new(tokens.len(), |i: int| tokens[i]@)
}

pub proof fn lemma_find_bounds(bytes: Seq<u8>, first: u8, second: u8)
    ensures
        0 <= spec_find_either(bytes, first, second) <= bytes.len(),
        forall|j: int|
            0 <= j < spec_find_either(bytes, first, second) ==> bytes[j] != first && bytes[j]
                != second,
        spec_find_either(bytes, first, second) < bytes.len() ==> {
            ||| bytes[spec_find_either(bytes, first, second)] == first
            ||| bytes[spec_find_either(bytes, first, second)] == second
        },
    decreases bytes.len(),
{
    if bytes.len() > 0 && bytes[0] != first && bytes[0] != second {
        lemma_find_bounds(bytes.skip(1), first, second);
        let rest = spec_find_either(bytes.skip(1), first, second);
        assert forall|j: int| 0 <= j < 1 + rest implies bytes[j] != first && bytes[j]
            != second by {
            if j > 0 {
                assert(bytes.skip(1)[j - 1] == bytes[j]);
            }
        }
    }
}

/// The first of the two bytes is found where everything before it is
/// neither.
pub proof fn lemma_find_is(bytes: Seq<u8>, first: u8, second: u8, at: int)
    requires
        0 <= at <= bytes.len(),
        forall|j: int| 0 <= j < at ==> bytes[j] != first && bytes[j] != second,
        at < bytes.len() ==> bytes[at] == first || bytes[at] == second,
    ensures
        spec_find_either(bytes, first, second) == at,
{
    lemma_find_bounds(bytes, first, second);
}

/// More digits never make the number smaller.
pub proof fn lemma_digits_grow(start: int, bytes: Seq<u8>, k: int)
    requires
        0 <= start,
        all_digits(bytes),
        0 <= k <= bytes.len(),
    ensures
        0 <= digits_from(start, bytes.take(k)) <= digits_from(start, bytes),
    decreases bytes.len() - k,
{
    if k == bytes.len() {
        assert(bytes.take(k) =~= bytes);
        lemma_digits_nonnegative(start, bytes);
    } else {
        lemma_digits_grow(start, bytes, k + 1);
        assert(bytes.take(k + 1).drop_last() =~= bytes.take(k));
        lemma_digits_nonnegative(start, bytes.take(k));
    }
}

pub proof fn lemma_digits_nonnegative(start: int, bytes: Seq<u8>)
    requires
        0 <= start,
        all_digits(bytes),
    ensures
        0 <= digits_from(start, bytes),
    decreases bytes.len(),
{
    if bytes.len() > 0 {
        lemma_digits_nonnegative(start, bytes.drop_last());
    }
}

/// Reads the digits `bytes[from..to]` behind the number `start`. Fails where
/// one of the bytes is no digit or the number does not fit.
pub(crate) fn read_digits(bytes: &[u8], from: usize, to: usize, start: u64) -> (r: Option<u64>)
    requires
        from <= to <= bytes@.len(),
    ensures
        match r {
            Some(value) => all_digits(bytes@.subrange(from as int, to as int)) && value
                == digits_from(start as int, bytes@.subrange(from as int, to as int)),
            None => !all_digits(bytes@.subrange(from as int, to as int)) || digits_from(
                start as int,
                bytes@.subrange(from as int, to as int),
            ) > u64::MAX,
        },
{
    let ghost part = bytes@.subrange(from as int, to as int);
    let mut value: u64 = start;
    let mut i: usize = from;
    while i < to
        invariant
            from <= i <= to <= bytes@.len(),
            part == bytes@.subrange(from as int, to as int),
            all_digits(part.take(i - from)),
            value == digits_from(start as int, part.take(i - from)),
        decreases to - i,
    {
        let byte = bytes[i];
        proof {
            assert(part.take(i - from + 1).drop_last() =~= part.take(i - from));
            assert(part.take(i - from + 1).last() == byte);
        }
        if byte < 48 || byte > 57 {
            return None;
        }
        let next = match value.checked_mul(10) {
            Some(tenfold) => tenfold.checked_add((byte - 48) as u64),
            None => None,
        };
        match next {
            Some(n) => {
                value = n;
            },
            None => {
                proof {
                    if all_digits(part) {
                        lemma_digits_grow(start as int, part, i - from + 1);
                    }
                }
                return None;
            },
        }
        i = i + 1;
    }
    proof {
        assert(part.take(to - from) =~= part);
    }
    Some(value)
}

/// Finds the first byte that is `first` or `second`.
pub fn find_either(bytes: &[u8], first: u8, second: u8) -> (r: usize)
    ensures
        r <= bytes@.len(),
        r == spec_find_either(bytes@, first, second),
{
    let mut i: usize = 0;
    while i < bytes.len() && bytes[i] != first && bytes[i] != second
        invariant
            i <= bytes@.len(),
            forall|j: int| 0 <= j < i ==> bytes@[j] != first && bytes@[j] != second,
        decreases bytes@.len() - i,
    {
        i = i + 1;
    }
    proof {
        lemma_find_is(bytes@, first, second, i as int);
    }
    i
}

/// Cuts `bytes` at every `delimiter`.
pub fn split<'a>(bytes: &'a [u8], delimiter: u8) -> (r: Vec<&'a [u8]>)
    ensures
        tokens_view(r@) == spec_split(bytes@, delimiter),
{
    let mut pieces: Vec<&'a [u8]> = Vec::new();
    let mut begin: usize = 0;
    let mut i: usize = 0;
    proof {
        assert(bytes@.take(0) =~= Seq::<u8>::empty());
    }
    while i < bytes.len()
        invariant
            begin <= i <= bytes@.len(),
            tokens_view(pieces@).push(bytes@.subrange(begin as int, i as int)) == spec_split(
                bytes@.take(i as int),
                delimiter,
            ),
        decreases bytes@.len() - i,
    {
        proof {
            assert(bytes@.take(i + 1).drop_last() =~= bytes@.take(i as int));
        }
        if bytes[i] == delimiter {
            let piece = &bytes[begin..i];
            pieces.push(piece);
            begin = i + 1;
            proof {
                assert(bytes@.subrange(begin as int, i + 1) =~= Seq::<u8>::empty());
            }
        } else {
            proof {
                assert(bytes@.subrange(begin as int, i + 1) =~= bytes@.subrange(
                    begin as int,
                    i as int,
                ).push(bytes@[i as int]));
            }
        }
        i = i + 1;
    }
    let piece = &bytes[begin..i];
    proof {
        assert(bytes@.take(i as int) =~= bytes@);
    }
    pieces.push(piece);
    pieces
}

/// The fields of the data of a sentence, or nothing where the data does not
/// end in `*`.
pub fn fields<'a>(data: &'a [u8]) -> (r: Option<Vec<&'a [u8]>>)
    ensures
        match r {
            Some(tokens) => spec_fields(data@) == Some(tokens_view(tokens@)),
            None => spec_fields(data@) is None,
        },
{
    let n = data.len();
    if n > 0 && data[n - 1] == STAR {
        let body = &data[0..n - 1];
        Some(split(body, COMMA))
    } else {
        None
    }
}

/// An empty token is an absent value and no error; any other token is what it
/// parses to.
pub open spec fn spec_optional<T>(token: Seq<u8>, parsed: Result<T, FieldError>) -> Result<
    Option<T>,
    FieldError,
> {
    if token.len() == 0 {
        Ok(None)
    } else {
        match parsed {
            Ok(value) => Ok(Some(value)),
            Err(e) => Err(e),
        }
    }
}

/// A field that must be there: an empty token fails the structure of the
/// sentence; any other token is what it parses to.
pub open spec fn spec_required<T>(token: Seq<u8>, parsed: Result<T, FieldError>) -> Result<
    T,
    FieldError,
> {
    if token.len() == 0 {
        Err(FieldError::Structure)
    } else {
        parsed
    }
}

/// The digits of a whole number: the token without a leading `+`.
pub open spec fn unsigned_digits(token: Seq<u8>) -> Seq<u8> {
    if token.len() > 0 && token[0] == PLUS {
        token.skip(1)
    } else {
        token
    }
}

/// A whole number is an optional `+` and at least one digit, and must not
/// exceed `max`.
pub open spec fn spec_parse_unsigned(token: Seq<u8>, max: int) -> Result<int, FieldError> {
    let digits = unsigned_digits(token);
    if digits.len() > 0 && all_digits(digits) && digits_value(digits) <= max {
        Ok(digits_value(digits))
    } else {
        Err(FieldError::Number)
    }
}

pub open spec fn spec_parse_u8(token: Seq<u8>) -> Result<u8, FieldError> {
    match spec_parse_unsigned(token, u8::MAX as int) {
        Ok(value) => Ok(value as u8),
        Err(e) => Err(e),
    }
}

pub open spec fn spec_parse_u16(token: Seq<u8>) -> Result<u16, FieldError> {
    match spec_parse_unsigned(token, u16::MAX as int) {
        Ok(value) => Ok(value as u16),
        Err(e) => Err(e),
    }
}

pub open spec fn spec_parse_u64(token: Seq<u8>) -> Result<u64, FieldError> {
    match spec_parse_unsigned(token, u64::MAX as int) {
        Ok(value) => Ok(value as u64),
        Err(e) => Err(e),
    }
}

pub open spec fn spec_opt_u8(token: Seq<u8>) -> Result<Option<u8>, FieldError> {
    spec_optional(token, spec_parse_u8(token))
}

pub open spec fn spec_opt_u16(token: Seq<u8>) -> Result<Option<u16>, FieldError> {
    spec_optional(token, spec_parse_u16(token))
}

/// What follows the sign of a number: the token without a leading `+` or `-`.
pub open spec fn decimal_body(token: Seq<u8>) -> Seq<u8> {
    if token.len() > 0 && (token[0] == PLUS || token[0] == MINUS) {
        token.skip(1)
    } else {
        token
    }
}

/// The digits and the point of a decimal: what stands between its sign and
/// its exponent mark, an `e` in either case.
pub open spec fn decimal_number(token: Seq<u8>) -> Seq<u8> {
    let body = decimal_body(token);
    body.take(spec_find_either(body, LOWER_E, UPPER_E))
}

/// What stands behind the exponent mark of a decimal, or nothing where it
/// has no mark.
pub open spec fn decimal_exponent(token: Seq<u8>) -> Option<Seq<u8>> {
    let body = decimal_body(token);
    let mark = spec_find_either(body, LOWER_E, UPPER_E);
    if mark < body.len() {
        Some(body.skip(mark + 1))
    } else {
        None
    }
}

/// The digits in front of the point of a number without sign and exponent.
pub open spec fn plain_whole(number: Seq<u8>) -> Seq<u8> {
    number.take(spec_find(number, POINT))
}

/// The digits behind the point; none where there is no point.
pub open spec fn plain_fraction(number: Seq<u8>) -> Seq<u8> {
    if spec_find(number, POINT) < number.len() {
        number.skip(spec_find(number, POINT) + 1)
    } else {
        Seq::<u8>::empty()
    }
}

/// A number without sign and exponent is digits with at most one point among
/// them, and at least one digit in all. Nothing limits their number.
pub open spec fn spec_is_plain(number: Seq<u8>) -> bool {
    let digits = plain_whole(number) + plain_fraction(number);
    digits.len() > 0 && all_digits(digits)
}

/// An exponent is an optional sign and at least one digit. Nothing limits
/// their number.
pub open spec fn spec_is_exponent(text: Seq<u8>) -> bool {
    let digits = decimal_body(text);
    digits.len() > 0 && all_digits(digits)
}

/// A letter in lower case; any other byte is itself.
pub open spec fn spec_lower(byte: u8) -> u8 {
    if 65 <= byte <= 90 {
        (byte + 32) as u8
    } else {
        byte
    }
}

/// Whether `text` is `word`, which is in lower case, in whatever case.
pub open spec fn spec_is_word(text: Seq<u8>, word: Seq<u8>) -> bool {
    text.len() == word.len() && forall|i: int|
        0 <= i < text.len() ==> spec_lower(#[trigger] text[i]) == word[i]
}

/// The word `inf`.
pub open spec fn word_inf() -> Seq<u8> {
    seq![105u8, 110u8, 102u8]
}

/// The word `infinity`.
pub open spec fn word_infinity() -> Seq<u8> {
    seq![105u8, 110u8, 102u8, 105u8, 110u8, 105u8, 116u8, 121u8]
}

/// The word `nan`.
pub open spec fn word_nan() -> Seq<u8> {
    seq![110u8, 97u8, 110u8]
}

/// The grammar of a decimal: an optional sign and then one of three things:
/// the word `inf` or `infinity`, the word `nan`, or digits with at most one
/// point among them and at least one digit in all, which an `e` and an
/// exponent may follow. Letters count in either case. This is what a float
/// parser takes for a number, and nothing else is one.
pub open spec fn spec_is_decimal(token: Seq<u8>) -> bool {
    let body = decimal_body(token);
    ||| spec_is_word(body, word_inf())
    ||| spec_is_word(body, word_infinity())
    ||| spec_is_word(body, word_nan())
    ||| spec_is_plain(decimal_number(token)) && match decimal_exponent(token) {
        Some(text) => spec_is_exponent(text),
        None => true,
    }
}

/// Every token of the grammar is a decimal, and is kept as it stands; any
/// other token is no number.
pub open spec fn spec_parse_decimal(token: Seq<u8>) -> Result<DecimalView, FieldError> {
    if spec_is_decimal(token) {
        Ok(DecimalView { text: token })
    } else {
        Err(FieldError::Number)
    }
}

pub open spec fn spec_opt_decimal(token: Seq<u8>) -> Result<Option<DecimalView>, FieldError> {
    spec_optional(token, spec_parse_decimal(token))
}

/// Digits alone are a decimal, however many they are.
pub proof fn lemma_digits_are_a_decimal(token: Seq<u8>)
    requires
        token.len() > 0,
        all_digits(token),
    ensures
        spec_parse_decimal(token) == Ok::<DecimalView, FieldError>(DecimalView { text: token }),
{
    assert(is_digit(token[0]));
    assert forall|j: int| 0 <= j < token.len() implies token[j] != LOWER_E && token[j] != UPPER_E
        && token[j] != POINT by {
        assert(is_digit(token[j]));
    }
    lemma_find_is(token, LOWER_E, UPPER_E, token.len() as int);
    lemma_find_is(token, POINT, POINT, token.len() as int);
    assert(decimal_number(token) =~= token);
    assert(plain_whole(token) + plain_fraction(token) =~= token);
}

/// The value of a field's result: borrowed text is shown by its bytes.
pub open spec fn result_view<T: View>(r: Result<T, FieldError>) -> Result<T::V, FieldError> {
    match r {
        Ok(value) => Ok(value@),
        Err(e) => Err(e),
    }
}

/// The value of an optional field's result.
pub open spec fn optional_view<T: View>(r: Result<Option<T>, FieldError>) -> Result<
    Option<T::V>,
    FieldError,
> {
    match r {
        Ok(value) => Ok(option_view(value)),
        Err(e) => Err(e),
    }
}

/// Parses a whole number that must not exceed `max`.
pub fn parse_unsigned(token: &[u8], max: u64) -> (r: Result<u64, FieldError>)
    ensures
        spec_parse_unsigned(token@, max as int) == match r {
            Ok(value) => Ok::<int, FieldError>(value as int),
            Err(e) => Err(e),
        },
{
    let n = token.len();
    let begin: usize = if n > 0 && token[0] == PLUS {
        1
    } else {
        0
    };
    proof {
        assert(token@.subrange(begin as int, n as int) =~= unsigned_digits(token@));
    }
    if begin == n {
        return Err(FieldError::Number);
    }
    match read_digits(token, begin, n, 0) {
        Some(value) => {
            if value <= max {
                Ok(value)
            } else {
                Err(FieldError::Number)
            }
        },
        None => Err(FieldError::Number),
    }
}

pub fn parse_u8(token: &[u8]) -> (r: Result<u8, FieldError>)
    ensures
        r == spec_parse_u8(token@),
{
    match parse_unsigned(token, 255) {
        Ok(value) => Ok(value as u8),
        Err(e) => Err(e),
    }
}

pub fn parse_u16(token: &[u8]) -> (r: Result<u16, FieldError>)
    ensures
        r == spec_parse_u16(token@),
{
    match parse_unsigned(token, 65535) {
        Ok(value) => Ok(value as u16),
        Err(e) => Err(e),
    }
}

pub fn parse_u64(token: &[u8]) -> (r: Result<u64, FieldError>)
    ensures
        r == spec_parse_u64(token@),
{
    parse_unsigned(token, u64::MAX)
}

pub fn opt_u8(token: &[u8]) -> (r: Result<Option<u8>, FieldError>)
    ensures
        r == spec_opt_u8(token@),
{
    if token.len() == 0 {
        Ok(None)
    } else {
        match parse_u8(token) {
            Ok(value) => Ok(Some(value)),
            Err(e) => Err(e),
        }
    }
}

pub open spec fn spec_required_u8(token: Seq<u8>) -> Result<u8, FieldError> {
    spec_required(token, spec_parse_u8(token))
}

pub fn required_u8(token: &[u8]) -> (r: Result<u8, FieldError>)
    ensures
        r == spec_required_u8(token@),
{
    if token.len() == 0 {
        Err(FieldError::Structure)
    } else {
        parse_u8(token)
    }
}

pub fn opt_u16(token: &[u8]) -> (r: Result<Option<u16>, FieldError>)
    ensures
        r == spec_opt_u16(token@),
{
    if token.len() == 0 {
        Ok(None)
    } else {
        match parse_u16(token) {
            Ok(value) => Ok(Some(value)),
            Err(e) => Err(e),
        }
    }
}

proof fn lemma_all_digits_concat(first: Seq<u8>, second: Seq<u8>)
    ensures
        all_digits(first + second) <==> all_digits(first) && all_digits(second),
{
    if all_digits(first + second) {
        assert forall|i: int| 0 <= i < first.len() implies is_digit(#[trigger] first[i]) by {
            assert((first + second)[i] == first[i]);
        }
        assert forall|i: int| 0 <= i < second.len() implies is_digit(#[trigger] second[i]) by {
            assert((first + second)[first.len() + i] == second[i]);
        }
    }
}

/// Whether every byte is a digit.
pub fn digits_only(bytes: &[u8]) -> (r: bool)
    ensures
        r == all_digits(bytes@),
{
    let mut i: usize = 0;
    while i < bytes.len()
        invariant
            i <= bytes@.len(),
            forall|j: int| 0 <= j < i ==> is_digit(#[trigger] bytes@[j]),
        decreases bytes@.len() - i,
    {
        if bytes[i] < 48 || bytes[i] > 57 {
            return false;
        }
        i = i + 1;
    }
    true
}

/// Whether a text is a number without sign and exponent.
pub fn is_plain(number: &[u8]) -> (r: bool)
    ensures
        r == spec_is_plain(number@),
{
    let n = number.len();
    let point = find_either(number, POINT, POINT);
    let whole = &number[0..point];
    proof {
        assert(whole@ =~= plain_whole(number@));
        lemma_all_digits_concat(plain_whole(number@), plain_fraction(number@));
    }
    if point < n {
        let fraction = &number[point + 1..n];
        proof {
            assert(fraction@ =~= plain_fraction(number@));
        }
        n > 1 && digits_only(whole) && digits_only(fraction)
    } else {
        proof {
            assert(plain_whole(number@) + plain_fraction(number@) =~= plain_whole(number@));
        }
        n > 0 && digits_only(whole)
    }
}

/// Whether a text is an exponent.
pub fn is_exponent(text: &[u8]) -> (r: bool)
    ensures
        r == spec_is_exponent(text@),
{
    let n = text.len();
    let begin: usize = if n > 0 && (text[0] == PLUS || text[0] == MINUS) {
        1
    } else {
        0
    };
    let digits = &text[begin..n];
    proof {
        assert(digits@ =~= decimal_body(text@));
    }
    begin < n && digits_only(digits)
}

/// A letter in lower case; any other byte is itself.
pub fn lower(byte: u8) -> (r: u8)
    ensures
        r == spec_lower(byte),
{
    if 65 <= byte && byte <= 90 {
        byte + 32
    } else {
        byte
    }
}

/// Whether a text is one of the words for infinity, in whatever case.
pub fn is_infinite(text: &[u8]) -> (r: bool)
    ensures
        r == (spec_is_word(text@, word_inf()) || spec_is_word(text@, word_infinity())),
{
    let n = text.len();
    if n != 3 && n != 8 {
        return false;
    }
    let short = lower(text[0]) == 105 && lower(text[1]) == 110 && lower(text[2]) == 102;
    if n == 3 {
        proof {
            if spec_is_word(text@, word_inf()) {
                assert(spec_lower(text@[0]) == word_inf()[0]);
                assert(spec_lower(text@[1]) == word_inf()[1]);
                assert(spec_lower(text@[2]) == word_inf()[2]);
            }
        }
        short
    } else {
        proof {
            if spec_is_word(text@, word_infinity()) {
                assert(spec_lower(text@[0]) == word_infinity()[0]);
                assert(spec_lower(text@[1]) == word_infinity()[1]);
                assert(spec_lower(text@[2]) == word_infinity()[2]);
                assert(spec_lower(text@[3]) == word_infinity()[3]);
                assert(spec_lower(text@[4]) == word_infinity()[4]);
                assert(spec_lower(text@[5]) == word_infinity()[5]);
                assert(spec_lower(text@[6]) == word_infinity()[6]);
                assert(spec_lower(text@[7]) == word_infinity()[7]);
            }
        }
        short && lower(text[3]) == 105 && lower(text[4]) == 110 && lower(text[5]) == 105
            && lower(text[6]) == 116 && lower(text[7]) == 121
    }
}

/// Whether a text is the word `nan`, in whatever case.
pub fn is_nan(text: &[u8]) -> (r: bool)
    ensures
        r == spec_is_word(text@, word_nan()),
{
    if text.len() != 3 {
        return false;
    }
    proof {
        if spec_is_word(text@, word_nan()) {
            assert(spec_lower(text@[0]) == word_nan()[0]);
            assert(spec_lower(text@[1]) == word_nan()[1]);
            assert(spec_lower(text@[2]) == word_nan()[2]);
        }
    }
    lower(text[0]) == 110 && lower(text[1]) == 97 && lower(text[2]) == 110
}

/// Whether a token is a decimal.
pub fn is_decimal(token: &[u8]) -> (r: bool)
    ensures
        r == spec_is_decimal(token@),
{
    let n = token.len();
    let begin: usize = if n > 0 && (token[0] == PLUS || token[0] == MINUS) {
        1
    } else {
        0
    };
    let body = &token[begin..n];
    proof {
        assert(body@ =~= decimal_body(token@));
    }
    if is_infinite(body) || is_nan(body) {
        return true;
    }
    let mark = find_either(body, LOWER_E, UPPER_E);
    let number = &body[0..mark];
    proof {
        assert(number@ =~= decimal_number(token@));
    }
    if !is_plain(number) {
        return false;
    }
    if mark < body.len() {
        let text = &body[mark + 1..body.len()];
        proof {
            assert(text@ =~= decimal_exponent(token@)->Some_0);
        }
        is_exponent(text)
    } else {
        true
    }
}

/// Takes a token for a decimal if it is one.
pub fn parse_decimal<'a>(token: &'a [u8]) -> (r: Result<Decimal<'a>, FieldError>)
    ensures
        result_view(r) == spec_parse_decimal(token@),
        r matches Ok(decimal) ==> decimal@.well_formed(),
{
    if is_decimal(token) {
        Ok(Decimal { text: token })
    } else {
        Err(FieldError::Number)
    }
}

pub fn opt_decimal<'a>(token: &'a [u8]) -> (r: Result<Option<Decimal<'a>>, FieldError>)
    ensures
        optional_view(r) == spec_opt_decimal(token@),
{
    if token.len() == 0 {
        Ok(None)
    } else {
        match parse_decimal(token) {
            Ok(value) => Ok(Some(value)),
            Err(e) => Err(e),
        }
    }
}

/// A text field: an empty token is an absent text.
pub open spec fn spec_opt_text(token: Seq<u8>) -> Option<Seq<u8>> {
    if token.len() == 0 {
        None
    } else {
        Some(token)
    }
}

pub fn opt_text<'a>(token: &'a [u8]) -> (r: Option<&'a [u8]>)
    ensures
        text_view(r) == spec_opt_text(token@),
{
    if token.len() == 0 {
        None
    } else {
        Some(token)
    }
}

/// The letter of a coded field: an empty token is an absent letter, and a
/// token of more than one byte is in no table, so it fails as `kind`.
pub open spec fn spec_opt_letter(token: Seq<u8>, kind: StatusParsingError) -> Result<
    Option<char>,
    FieldError,
> {
    if token.len() == 0 {
        Ok(None)
    } else if token.len() == 1 {
        Ok(Some(token[0] as char))
    } else {
        Err(FieldError::Status(kind))
    }
}

pub fn opt_letter(token: &[u8], kind: StatusParsingError) -> (r: Result<Option<char>, FieldError>)
    ensures
        r == spec_opt_letter(token@, kind),
{
    if token.len() == 0 {
        Ok(None)
    } else if token.len() == 1 {
        Ok(Some(token[0] as char))
    } else {
        Err(FieldError::Status(kind))
    }
}

/// Whether a token is exactly the letter `letter`, as the unit fields of a
/// sentence must be.
pub open spec fn spec_is_tag(token: Seq<u8>, letter: char) -> bool {
    token.len() == 1 && token[0] as char == letter
}

pub fn is_tag(token: &[u8], letter: char) -> (r: bool)
    ensures
        r == spec_is_tag(token@, letter),
{
    token.len() == 1 && token[0] as char == letter
}

/// A height or speed that the talker may mark as not computable. An absent
/// token and an empty one are an absent value, and so is a lone `-`; none of
/// them is an error. Any other token must be a decimal.
pub open spec fn spec_invalid_height_check(token: Option<Seq<u8>>) -> Result<
    Option<DecimalView>,
    FieldError,
> {
    match token {
        None => Ok(None),
        Some(t) => if t.len() == 0 || t == seq![MINUS] {
            Ok(None)
        } else {
            match spec_parse_decimal(t) {
                Ok(value) => Ok(Some(value)),
                Err(e) => Err(e),
            }
        },
    }
}

pub fn invalid_height_check<'a>(token: Option<&'a [u8]>) -> (r: Result<
    Option<Decimal<'a>>,
    FieldError,
>)
    ensures
        optional_view(r) == spec_invalid_height_check(text_view(token)),
{
    match token {
        None => Ok(None),
        Some(t) => {
            if t.len() == 0 {
                Ok(None)
            } else if t.len() == 1 && t[0] == MINUS {
                proof {
                    assert(t@ =~= seq![MINUS]);
                }
                Ok(None)
            } else {
                match parse_decimal(t) {
                    Ok(value) => Ok(Some(value)),
                    Err(e) => Err(e),
                }
            }
        },
    }
}

/// A time is two bytes for the hour, two for the minute and a decimal for the
/// second, each a number of its own; no range is checked.
pub open spec fn spec_parse_utc_stamp(token: Seq<u8>) -> Result<GpsTimeView, FieldError> {
    if token.len() < 4 {
        Err(FieldError::Number)
    } else {
        match spec_parse_u8(token.subrange(0, 2)) {
            Err(e) => Err(e),
            Ok(hour) => match spec_parse_u8(token.subrange(2, 4)) {
                Err(e) => Err(e),
                Ok(minute) => match spec_parse_decimal(token.skip(4)) {
                    Err(e) => Err(e),
                    Ok(second) => Ok(GpsTimeView { hour, minute, second }),
                },
            },
        }
    }
}

pub open spec fn spec_opt_utc_stamp(token: Seq<u8>) -> Result<Option<GpsTimeView>, FieldError> {
    spec_optional(token, spec_parse_utc_stamp(token))
}

pub fn parse_utc_stamp<'a>(token: &'a [u8]) -> (r: Result<GpsTime<'a>, FieldError>)
    ensures
        result_view(r) == spec_parse_utc_stamp(token@),
{
    let n = token.len();
    if n < 4 {
        return Err(FieldError::Number);
    }
    let rest = &token[4..n];
    proof {
        assert(rest@ =~= token@.skip(4));
    }
    let hour = parse_u8(&token[0..2])?;
    let minute = parse_u8(&token[2..4])?;
    let second = parse_decimal(rest)?;
    Ok(GpsTime { hour, minute, second })
}

pub fn opt_utc_stamp<'a>(token: &'a [u8]) -> (r: Result<Option<GpsTime<'a>>, FieldError>)
    ensures
        optional_view(r) == spec_opt_utc_stamp(token@),
{
    if token.len() == 0 {
        Ok(None)
    } else {
        match parse_utc_stamp(token) {
            Ok(value) => Ok(Some(value)),
            Err(e) => Err(e),
        }
    }
}

/// A date is exactly six bytes, two each for day, month and year, each a
/// number of its own; the calendar is not consulted.
pub open spec fn spec_parse_date(token: Seq<u8>) -> Result<GpsDate, FieldError> {
    if token.len() != 6 {
        Err(FieldError::Number)
    } else {
        match spec_parse_u8(token.subrange(0, 2)) {
            Err(e) => Err(e),
            Ok(day) => match spec_parse_u8(token.subrange(2, 4)) {
                Err(e) => Err(e),
                Ok(month) => match spec_parse_u64(token.subrange(4, 6)) {
                    Err(e) => Err(e),
                    Ok(year) => Ok(GpsDate { day, month, year }),
                },
            },
        }
    }
}

pub open spec fn spec_opt_date(token: Seq<u8>) -> Result<Option<GpsDate>, FieldError> {
    spec_optional(token, spec_parse_date(token))
}

pub fn parse_date(token: &[u8]) -> (r: Result<GpsDate, FieldError>)
    ensures
        r == spec_parse_date(token@),
{
    if token.len() != 6 {
        return Err(FieldError::Number);
    }
    let day = parse_u8(&token[0..2])?;
    let month = parse_u8(&token[2..4])?;
    let year = parse_u64(&token[4..6])?;
    Ok(GpsDate { day, month, year })
}

pub fn opt_date(token: &[u8]) -> (r: Result<Option<GpsDate>, FieldError>)
    ensures
        r == spec_opt_date(token@),
{
    if token.len() == 0 {
        Ok(None)
    } else {
        match parse_date(token) {
            Ok(value) => Ok(Some(value)),
            Err(e) => Err(e),
        }
    }
}

/// An angle is `width` bytes of whole degrees and a decimal of minutes.
pub open spec fn spec_parse_angle(token: Seq<u8>, width: int) -> Result<
    (u8, DecimalView),
    FieldError,
> {
    if token.len() < width {
        Err(FieldError::Number)
    } else {
        match spec_parse_u8(token.take(width)) {
            Err(e) => Err(e),
            Ok(degrees) => match spec_parse_decimal(token.skip(width)) {
                Err(e) => Err(e),
                Ok(minutes) => Ok((degrees, minutes)),
            },
        }
    }
}

pub fn parse_angle<'a>(token: &'a [u8], width: usize) -> (r: Result<(u8, Decimal<'a>), FieldError>)
    ensures
        spec_parse_angle(token@, width as int) == match r {
            Ok(angle) => Ok::<(u8, DecimalView), FieldError>((angle.0, angle.1@)),
            Err(e) => Err(e),
        },
{
    let n = token.len();
    if n < width {
        return Err(FieldError::Number);
    }
    let head = &token[0..width];
    let rest = &token[width..n];
    proof {
        assert(head@ =~= token@.take(width as int));
        assert(rest@ =~= token@.skip(width as int));
    }
    let degrees = parse_u8(head)?;
    let minutes = parse_decimal(rest)?;
    Ok((degrees, minutes))
}

/// The hemisphere of a latitude must be there, and be the single letter `N` or
/// `S`.
pub open spec fn spec_latitude_direction(token: Seq<u8>) -> Result<LatitudeDirection, FieldError> {
    spec_required(
        token,
        if token.len() == 1 {
            LatitudeDirection::spec_try_from(token[0] as char)
        } else {
            Err(FieldError::Status(StatusParsingError::LatitudeDirectionError))
        },
    )
}

/// The hemisphere of a longitude must be there, and be the single letter `E`
/// or `W`.
pub open spec fn spec_longitude_direction(token: Seq<u8>) -> Result<
    LongitudeDirection,
    FieldError,
> {
    spec_required(
        token,
        if token.len() == 1 {
            LongitudeDirection::spec_try_from(token[0] as char)
        } else {
            Err(FieldError::Status(StatusParsingError::LongitudeDirectionError))
        },
    )
}

/// A position is four fields: a latitude with two bytes of degrees, its
/// hemisphere, a longitude with three bytes of degrees, and its hemisphere.
/// All four must be there, so an empty one fails the structure of the
/// sentence; the first that fails decides the error.
pub open spec fn spec_parse_gps_position(
    lat: Seq<u8>,
    lat_dir: Seq<u8>,
    lon: Seq<u8>,
    lon_dir: Seq<u8>,
) -> Result<GpsPositionView, FieldError> {
    match spec_required(lat, spec_parse_angle(lat, 2)) {
        Err(e) => Err(e),
        Ok(latitude) => match spec_latitude_direction(lat_dir) {
            Err(e) => Err(e),
            Ok(north_south) => match spec_required(lon, spec_parse_angle(lon, 3)) {
                Err(e) => Err(e),
                Ok(longitude) => match spec_longitude_direction(lon_dir) {
                    Err(e) => Err(e),
                    Ok(east_west) => Ok(
                        GpsPositionView {
                            lat_degrees: latitude.0,
                            lat_minutes: latitude.1,
                            lat_dir: north_south,
                            lon_degrees: longitude.0,
                            lon_minutes: longitude.1,
                            lon_dir: east_west,
                        },
                    ),
                },
            },
        },
    }
}

pub fn parse_gps_position<'a>(
    lat: &'a [u8],
    lat_dir: &[u8],
    lon: &'a [u8],
    lon_dir: &[u8],
) -> (r: Result<GpsPosition<'a>, FieldError>)
    ensures
        result_view(r) == spec_parse_gps_position(lat@, lat_dir@, lon@, lon_dir@),
{
    if lat.len() == 0 {
        return Err(FieldError::Structure);
    }
    let latitude = parse_angle(lat, 2)?;
    let north_south = if lat_dir.len() == 0 {
        return Err(FieldError::Structure);
    } else if lat_dir.len() == 1 {
        LatitudeDirection::try_from(lat_dir[0] as char)?
    } else {
        return Err(FieldError::Status(StatusParsingError::LatitudeDirectionError));
    };
    if lon.len() == 0 {
        return Err(FieldError::Structure);
    }
    let longitude = parse_angle(lon, 3)?;
    let east_west = if lon_dir.len() == 0 {
        return Err(FieldError::Structure);
    } else if lon_dir.len() == 1 {
        LongitudeDirection::try_from(lon_dir[0] as char)?
    } else {
        return Err(FieldError::Status(StatusParsingError::LongitudeDirectionError));
    };
    Ok(
        GpsPosition {
            lat_degrees: latitude.0,
            lat_minutes: latitude.1,
            lat_dir: north_south,
            lon_degrees: longitude.0,
            lon_minutes: longitude.1,
            lon_dir: east_west,
        },
    )
}

/// The token at place `i` of a list of fields.
pub(crate) fn token<'a>(tokens: &Vec<&'a [u8]>, i: usize) -> (r: &'a [u8])
    requires
        i < tokens@.len(),
    ensures
        r@ == tokens_view(tokens@)[i as int],
{
    tokens[i]
}

/// An empty token is an absent value in every kind of optional field.
pub proof fn lemma_empty_token_is_absent(kind: StatusParsingError)
    ensures
        spec_opt_u8(Seq::<u8>::empty()) == Ok::<Option<u8>, FieldError>(None),
        spec_opt_u16(Seq::<u8>::empty()) == Ok::<Option<u16>, FieldError>(None),
        spec_opt_decimal(Seq::<u8>::empty()) == Ok::<Option<DecimalView>, FieldError>(None),
        spec_opt_utc_stamp(Seq::<u8>::empty()) == Ok::<Option<GpsTimeView>, FieldError>(None),
        spec_opt_date(Seq::<u8>::empty()) == Ok::<Option<GpsDate>, FieldError>(None),
        spec_opt_letter(Seq::<u8>::empty(), kind) == Ok::<Option<char>, FieldError>(None),
        spec_opt_text(Seq::<u8>::empty()) == None::<Seq<u8>>,
        spec_invalid_height_check(spec_opt_text(Seq::<u8>::empty())) == Ok::<
            Option<DecimalView>,
            FieldError,
        >(None),
        spec_invalid_height_check(Some(Seq::<u8>::empty())) == Ok::<
            Option<DecimalView>,
            FieldError,
        >(None),
{
}

} // verus!
