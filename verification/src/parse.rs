//! The values that sentences decode to: coded fields with their tables,
//! times, dates and positions, one record for each sentence type, and the
//! table that leads from the type of a sentence to its decoder.

use vstd::prelude::*;

use crate::errors::{FieldError, NmeaSentenceError, NmeaSentenceErrorView};
use crate::parsers;
use crate::sentences::{unified_view, GeneralSentence, GeneralSentenceView, SentenceType};

verus! {

/// Names the coded field whose token was not found in its table.
#[derive(Debug, Clone, Copy, PartialEq)]
pub enum StatusParsingError {
    RmStatusError,
    LatitudeDirectionError,
    LongitudeDirectionError,
    GpsQualityError,
    GllStatusError,
    GsaModeError,
    GsaSelectionModeError,
    SteerDirectionError,
    ArrivalStatusError,
    RteModeError,
    DataValidityError,
    GnsModeError,
}

/// Status letter of the recommended-minimum sentences.
#[derive(Debug, Clone, Copy, PartialEq)]
pub enum RmStatus {
    Active,
    Warning,
    Precise,
}

impl RmStatus {
    /// The entry of the table for `value`; a letter outside the table is an error.
    pub open spec fn spec_try_from(value: char) -> Result<RmStatus, FieldError> {
        if value == 'A' {
            Ok(RmStatus::Active)
        } else if value == 'V' {
            Ok(RmStatus::Warning)
        } else if value == 'P' {
            Ok(RmStatus::Precise)
        } else {
            Err(FieldError::Status(StatusParsingError::RmStatusError))
        }
    }

    /// An absent value stays absent, a present one is looked up in the table.
    pub open spec fn spec_translate(value: Option<char>) -> Result<Option<RmStatus>, FieldError> {
        match value {
            None => Ok(None),
            Some(v) => match Self::spec_try_from(v) {
                Ok(s) => Ok(Some(s)),
                Err(e) => Err(e),
            },
        }
    }

    pub fn try_from(value: char) -> (r: Result<RmStatus, FieldError>)
        ensures
            r == Self::spec_try_from(value),
    {
        match value {
            'A' => Ok(RmStatus::Active),
            'V' => Ok(RmStatus::Warning),
            'P' => Ok(RmStatus::Precise),
            _ => Err(FieldError::Status(StatusParsingError::RmStatusError)),
        }
    }

    pub fn translate(value: Option<char>) -> (r: Result<Option<RmStatus>, FieldError>)
        ensures
            r == Self::spec_translate(value),
    {
        match value {
            None => Ok(None),
            Some(v) => match Self::try_from(v) {
                Ok(s) => Ok(Some(s)),
                Err(e) => Err(e),
            },
        }
    }
}

/// Hemisphere of a latitude.
#[derive(Debug, Clone, Copy, PartialEq)]
pub enum LatitudeDirection {
    North,
    South,
}

impl LatitudeDirection {
    /// The entry of the table for `value`; a letter outside the table is an error.
    pub open spec fn spec_try_from(value: char) -> Result<LatitudeDirection, FieldError> {
        if value == 'N' {
            Ok(LatitudeDirection::North)
        } else if value == 'S' {
            Ok(LatitudeDirection::South)
        } else {
            Err(FieldError::Status(StatusParsingError::LatitudeDirectionError))
        }
    }

    /// An absent value stays absent, a present one is looked up in the table.
    pub open spec fn spec_translate(value: Option<char>) -> Result<Option<LatitudeDirection>, FieldError> {
        match value {
            None => Ok(None),
            Some(v) => match Self::spec_try_from(v) {
                Ok(s) => Ok(Some(s)),
                Err(e) => Err(e),
            },
        }
    }

    pub fn try_from(value: char) -> (r: Result<LatitudeDirection, FieldError>)
        ensures
            r == Self::spec_try_from(value),
    {
        match value {
            'N' => Ok(LatitudeDirection::North),
            'S' => Ok(LatitudeDirection::South),
            _ => Err(FieldError::Status(StatusParsingError::LatitudeDirectionError)),
        }
    }

    pub fn translate(value: Option<char>) -> (r: Result<Option<LatitudeDirection>, FieldError>)
        ensures
            r == Self::spec_translate(value),
    {
        match value {
            None => Ok(None),
            Some(v) => match Self::try_from(v) {
                Ok(s) => Ok(Some(s)),
                Err(e) => Err(e),
            },
        }
    }
}

/// Hemisphere of a longitude, also used for the direction of a magnetic variation.
#[derive(Debug, Clone, Copy, PartialEq)]
pub enum LongitudeDirection {
    East,
    West,
}

impl LongitudeDirection {
    /// The entry of the table for `value`; a letter outside the table is an error.
    pub open spec fn spec_try_from(value: char) -> Result<LongitudeDirection, FieldError> {
        if value == 'E' {
            Ok(LongitudeDirection::East)
        } else if value == 'W' {
            Ok(LongitudeDirection::West)
        } else {
            Err(FieldError::Status(StatusParsingError::LongitudeDirectionError))
        }
    }

    /// An absent value stays absent, a present one is looked up in the table.
    pub open spec fn spec_translate(value: Option<char>) -> Result<Option<LongitudeDirection>, FieldError> {
        match value {
            None => Ok(None),
            Some(v) => match Self::spec_try_from(v) {
                Ok(s) => Ok(Some(s)),
                Err(e) => Err(e),
            },
        }
    }

    pub fn try_from(value: char) -> (r: Result<LongitudeDirection, FieldError>)
        ensures
            r == Self::spec_try_from(value),
    {
        match value {
            'E' => Ok(LongitudeDirection::East),
            'W' => Ok(LongitudeDirection::West),
            _ => Err(FieldError::Status(StatusParsingError::LongitudeDirectionError)),
        }
    }

    pub fn translate(value: Option<char>) -> (r: Result<Option<LongitudeDirection>, FieldError>)
        ensures
            r == Self::spec_translate(value),
    {
        match value {
            None => Ok(None),
            Some(v) => match Self::try_from(v) {
                Ok(s) => Ok(Some(s)),
                Err(e) => Err(e),
            },
        }
    }
}

/// Fix quality number of a GGA sentence.
#[derive(Debug, Clone, Copy, PartialEq)]
pub enum GpsQuality {
    FixNotAvailable,
    Fix,
    DifferentialFix,
}

impl GpsQuality {
    /// The entry of the table for `value`; a number outside the table is an error.
    pub open spec fn spec_try_from(value: u8) -> Result<GpsQuality, FieldError> {
        if value == 0 {
            Ok(GpsQuality::FixNotAvailable)
        } else if value == 1 {
            Ok(GpsQuality::Fix)
        } else if value == 2 {
            Ok(GpsQuality::DifferentialFix)
        } else {
            Err(FieldError::Status(StatusParsingError::GpsQualityError))
        }
    }

    /// An absent value stays absent, a present one is looked up in the table.
    pub open spec fn spec_translate(value: Option<u8>) -> Result<Option<GpsQuality>, FieldError> {
        match value {
            None => Ok(None),
            Some(v) => match Self::spec_try_from(v) {
                Ok(s) => Ok(Some(s)),
                Err(e) => Err(e),
            },
        }
    }

    pub fn try_from(value: u8) -> (r: Result<GpsQuality, FieldError>)
        ensures
            r == Self::spec_try_from(value),
    {
        match value {
            0 => Ok(GpsQuality::FixNotAvailable),
            1 => Ok(GpsQuality::Fix),
            2 => Ok(GpsQuality::DifferentialFix),
            _ => Err(FieldError::Status(StatusParsingError::GpsQualityError)),
        }
    }

    pub fn translate(value: Option<u8>) -> (r: Result<Option<GpsQuality>, FieldError>)
        ensures
            r == Self::spec_translate(value),
    {
        match value {
            None => Ok(None),
            Some(v) => match Self::try_from(v) {
                Ok(s) => Ok(Some(s)),
                Err(e) => Err(e),
            },
        }
    }
}

/// Status letter of a GLL sentence.
#[derive(Debug, Clone, Copy, PartialEq)]
pub enum GllStatus {
    DataValid,
    DataInvalid,
    Precise,
}

impl GllStatus {
    /// The entry of the table for `value`; a letter outside the table is an error.
    pub open spec fn spec_try_from(value: char) -> Result<GllStatus, FieldError> {
        if value == 'A' {
            Ok(GllStatus::DataValid)
        } else if value == 'V' {
            Ok(GllStatus::DataInvalid)
        } else if value == 'P' {
            Ok(GllStatus::Precise)
        } else {
            Err(FieldError::Status(StatusParsingError::GllStatusError))
        }
    }

    /// An absent value stays absent, a present one is looked up in the table.
    pub open spec fn spec_translate(value: Option<char>) -> Result<Option<GllStatus>, FieldError> {
        match value {
            None => Ok(None),
            Some(v) => match Self::spec_try_from(v) {
                Ok(s) => Ok(Some(s)),
                Err(e) => Err(e),
            },
        }
    }

    pub fn try_from(value: char) -> (r: Result<GllStatus, FieldError>)
        ensures
            r == Self::spec_try_from(value),
    {
        match value {
            'A' => Ok(GllStatus::DataValid),
            'V' => Ok(GllStatus::DataInvalid),
            'P' => Ok(GllStatus::Precise),
            _ => Err(FieldError::Status(StatusParsingError::GllStatusError)),
        }
    }

    pub fn translate(value: Option<char>) -> (r: Result<Option<GllStatus>, FieldError>)
        ensures
            r == Self::spec_translate(value),
    {
        match value {
            None => Ok(None),
            Some(v) => match Self::try_from(v) {
                Ok(s) => Ok(Some(s)),
                Err(e) => Err(e),
            },
        }
    }
}

/// Fix mode number of a GSA sentence.
#[derive(Debug, Clone, Copy, PartialEq)]
pub enum GsaMode {
    FixNotAvailable,
    Fix2D,
    Fix3D,
}

impl GsaMode {
    /// The entry of the table for `value`; a number outside the table is an error.
    pub open spec fn spec_try_from(value: u8) -> Result<GsaMode, FieldError> {
        if value == 1 {
            Ok(GsaMode::FixNotAvailable)
        } else if value == 2 {
            Ok(GsaMode::Fix2D)
        } else if value == 3 {
            Ok(GsaMode::Fix3D)
        } else {
            Err(FieldError::Status(StatusParsingError::GsaModeError))
        }
    }

    /// An absent value stays absent, a present one is looked up in the table.
    pub open spec fn spec_translate(value: Option<u8>) -> Result<Option<GsaMode>, FieldError> {
        match value {
            None => Ok(None),
            Some(v) => match Self::spec_try_from(v) {
                Ok(s) => Ok(Some(s)),
                Err(e) => Err(e),
            },
        }
    }

    pub fn try_from(value: u8) -> (r: Result<GsaMode, FieldError>)
        ensures
            r == Self::spec_try_from(value),
    {
        match value {
            1 => Ok(GsaMode::FixNotAvailable),
            2 => Ok(GsaMode::Fix2D),
            3 => Ok(GsaMode::Fix3D),
            _ => Err(FieldError::Status(StatusParsingError::GsaModeError)),
        }
    }

    pub fn translate(value: Option<u8>) -> (r: Result<Option<GsaMode>, FieldError>)
        ensures
            r == Self::spec_translate(value),
    {
        match value {
            None => Ok(None),
            Some(v) => match Self::try_from(v) {
                Ok(s) => Ok(Some(s)),
                Err(e) => Err(e),
            },
        }
    }
}

/// Selection mode letter of a GSA sentence.
#[derive(Debug, Clone, Copy, PartialEq)]
pub enum GsaSelectionMode {
    Manual,
    Automatic,
}

impl GsaSelectionMode {
    /// The entry of the table for `value`; a letter outside the table is an error.
    pub open spec fn spec_try_from(value: char) -> Result<GsaSelectionMode, FieldError> {
        if value == 'M' {
            Ok(GsaSelectionMode::Manual)
        } else if value == 'A' {
            Ok(GsaSelectionMode::Automatic)
        } else {
            Err(FieldError::Status(StatusParsingError::GsaSelectionModeError))
        }
    }

    /// An absent value stays absent, a present one is looked up in the table.
    pub open spec fn spec_translate(value: Option<char>) -> Result<Option<GsaSelectionMode>, FieldError> {
        match value {
            None => Ok(None),
            Some(v) => match Self::spec_try_from(v) {
                Ok(s) => Ok(Some(s)),
                Err(e) => Err(e),
            },
        }
    }

    pub fn try_from(value: char) -> (r: Result<GsaSelectionMode, FieldError>)
        ensures
            r == Self::spec_try_from(value),
    {
        match value {
            'M' => Ok(GsaSelectionMode::Manual),
            'A' => Ok(GsaSelectionMode::Automatic),
            _ => Err(FieldError::Status(StatusParsingError::GsaSelectionModeError)),
        }
    }

    pub fn translate(value: Option<char>) -> (r: Result<Option<GsaSelectionMode>, FieldError>)
        ensures
            r == Self::spec_translate(value),
    {
        match value {
            None => Ok(None),
            Some(v) => match Self::try_from(v) {
                Ok(s) => Ok(Some(s)),
                Err(e) => Err(e),
            },
        }
    }
}

/// Direction to steer of an RMB sentence.
#[derive(Debug, Clone, Copy, PartialEq)]
pub enum SteerDirection {
    Left,
    Right,
}

impl SteerDirection {
    /// The entry of the table for `value`; a letter outside the table is an error.
    pub open spec fn spec_try_from(value: char) -> Result<SteerDirection, FieldError> {
        if value == 'L' {
            Ok(SteerDirection::Left)
        } else if value == 'R' {
            Ok(SteerDirection::Right)
        } else {
            Err(FieldError::Status(StatusParsingError::SteerDirectionError))
        }
    }

    /// An absent value stays absent, a present one is looked up in the table.
    pub open spec fn spec_translate(value: Option<char>) -> Result<Option<SteerDirection>, FieldError> {
        match value {
            None => Ok(None),
            Some(v) => match Self::spec_try_from(v) {
                Ok(s) => Ok(Some(s)),
                Err(e) => Err(e),
            },
        }
    }

    pub fn try_from(value: char) -> (r: Result<SteerDirection, FieldError>)
        ensures
            r == Self::spec_try_from(value),
    {
        match value {
            'L' => Ok(SteerDirection::Left),
            'R' => Ok(SteerDirection::Right),
            _ => Err(FieldError::Status(StatusParsingError::SteerDirectionError)),
        }
    }

    pub fn translate(value: Option<char>) -> (r: Result<Option<SteerDirection>, FieldError>)
        ensures
            r == Self::spec_translate(value),
    {
        match value {
            None => Ok(None),
            Some(v) => match Self::try_from(v) {
                Ok(s) => Ok(Some(s)),
                Err(e) => Err(e),
            },
        }
    }
}

/// Arrival status letter of an RMB sentence.
#[derive(Debug, Clone, Copy, PartialEq)]
pub enum ArrivalStatus {
    Arrived,
    NotArrived,
}

impl ArrivalStatus {
    /// The entry of the table for `value`; a letter outside the table is an error.
    pub open spec fn spec_try_from(value: char) -> Result<ArrivalStatus, FieldError> {
        if value == 'A' {
            Ok(ArrivalStatus::Arrived)
        } else if value == 'V' {
            Ok(ArrivalStatus::NotArrived)
        } else {
            Err(FieldError::Status(StatusParsingError::ArrivalStatusError))
        }
    }

    /// An absent value stays absent, a present one is looked up in the table.
    pub open spec fn spec_translate(value: Option<char>) -> Result<Option<ArrivalStatus>, FieldError> {
        match value {
            None => Ok(None),
            Some(v) => match Self::spec_try_from(v) {
                Ok(s) => Ok(Some(s)),
                Err(e) => Err(e),
            },
        }
    }

    pub fn try_from(value: char) -> (r: Result<ArrivalStatus, FieldError>)
        ensures
            r == Self::spec_try_from(value),
    {
        match value {
            'A' => Ok(ArrivalStatus::Arrived),
            'V' => Ok(ArrivalStatus::NotArrived),
            _ => Err(FieldError::Status(StatusParsingError::ArrivalStatusError)),
        }
    }

    pub fn translate(value: Option<char>) -> (r: Result<Option<ArrivalStatus>, FieldError>)
        ensures
            r == Self::spec_translate(value),
    {
        match value {
            None => Ok(None),
            Some(v) => match Self::try_from(v) {
                Ok(s) => Ok(Some(s)),
                Err(e) => Err(e),
            },
        }
    }
}

/// Route completeness letter of an RTE sentence.
#[derive(Debug, Clone, Copy, PartialEq)]
pub enum RteMode {
    CompleteRoute,
    WorkingRoute,
}

impl RteMode {
    /// The entry of the table for `value`; a letter outside the table is an error.
    pub open spec fn spec_try_from(value: char) -> Result<RteMode, FieldError> {
        if value == 'c' {
            Ok(RteMode::CompleteRoute)
        } else if value == 'w' {
            Ok(RteMode::WorkingRoute)
        } else {
            Err(FieldError::Status(StatusParsingError::RteModeError))
        }
    }

    /// An absent value stays absent, a present one is looked up in the table.
    pub open spec fn spec_translate(value: Option<char>) -> Result<Option<RteMode>, FieldError> {
        match value {
            None => Ok(None),
            Some(v) => match Self::spec_try_from(v) {
                Ok(s) => Ok(Some(s)),
                Err(e) => Err(e),
            },
        }
    }

    pub fn try_from(value: char) -> (r: Result<RteMode, FieldError>)
        ensures
            r == Self::spec_try_from(value),
    {
        match value {
            'c' => Ok(RteMode::CompleteRoute),
            'w' => Ok(RteMode::WorkingRoute),
            _ => Err(FieldError::Status(StatusParsingError::RteModeError)),
        }
    }

    pub fn translate(value: Option<char>) -> (r: Result<Option<RteMode>, FieldError>)
        ensures
            r == Self::spec_translate(value),
    {
        match value {
            None => Ok(None),
            Some(v) => match Self::try_from(v) {
                Ok(s) => Ok(Some(s)),
                Err(e) => Err(e),
            },
        }
    }
}

/// Validity letter of a VBW sentence.
#[derive(Debug, Clone, Copy, PartialEq)]
pub enum DataValidity {
    DataValid,
}

impl DataValidity {
    /// The entry of the table for `value`; a letter outside the table is an error.
    pub open spec fn spec_try_from(value: char) -> Result<DataValidity, FieldError> {
        if value == 'A' {
            Ok(DataValidity::DataValid)
        } else {
            Err(FieldError::Status(StatusParsingError::DataValidityError))
        }
    }

    /// An absent value stays absent, a present one is looked up in the table.
    pub open spec fn spec_translate(value: Option<char>) -> Result<Option<DataValidity>, FieldError> {
        match value {
            None => Ok(None),
            Some(v) => match Self::spec_try_from(v) {
                Ok(s) => Ok(Some(s)),
                Err(e) => Err(e),
            },
        }
    }

    pub fn try_from(value: char) -> (r: Result<DataValidity, FieldError>)
        ensures
            r == Self::spec_try_from(value),
    {
        match value {
            'A' => Ok(DataValidity::DataValid),
            _ => Err(FieldError::Status(StatusParsingError::DataValidityError)),
        }
    }

    pub fn translate(value: Option<char>) -> (r: Result<Option<DataValidity>, FieldError>)
        ensures
            r == Self::spec_translate(value),
    {
        match value {
            None => Ok(None),
            Some(v) => match Self::try_from(v) {
                Ok(s) => Ok(Some(s)),
                Err(e) => Err(e),
            },
        }
    }
}

/// Mode letter of one constellation in a GNS sentence.
#[derive(Debug, Clone, Copy, PartialEq)]
pub enum GnsMode {
    NoFix,
    Autonomous,
    Differential,
    Precise,
    RealTimeKinematic,
    FloatRealTimeKinematic,
    Estimated,
    Manual,
    Simulator,
}

impl GnsMode {
    /// The entry of the table for `value`; a letter outside the table is an error.
    pub open spec fn spec_try_from(value: char) -> Result<GnsMode, FieldError> {
        if value == 'N' {
            Ok(GnsMode::NoFix)
        } else if value == 'A' {
            Ok(GnsMode::Autonomous)
        } else if value == 'D' {
            Ok(GnsMode::Differential)
        } else if value == 'P' {
            Ok(GnsMode::Precise)
        } else if value == 'R' {
            Ok(GnsMode::RealTimeKinematic)
        } else if value == 'F' {
            Ok(GnsMode::FloatRealTimeKinematic)
        } else if value == 'E' {
            Ok(GnsMode::Estimated)
        } else if value == 'M' {
            Ok(GnsMode::Manual)
        } else if value == 'S' {
            Ok(GnsMode::Simulator)
        } else {
            Err(FieldError::Status(StatusParsingError::GnsModeError))
        }
    }

    /// An absent value stays absent, a present one is looked up in the table.
    pub open spec fn spec_translate(value: Option<char>) -> Result<Option<GnsMode>, FieldError> {
        match value {
            None => Ok(None),
            Some(v) => match Self::spec_try_from(v) {
                Ok(s) => Ok(Some(s)),
                Err(e) => Err(e),
            },
        }
    }

    pub fn try_from(value: char) -> (r: Result<GnsMode, FieldError>)
        ensures
            r == Self::spec_try_from(value),
    {
        match value {
            'N' => Ok(GnsMode::NoFix),
            'A' => Ok(GnsMode::Autonomous),
            'D' => Ok(GnsMode::Differential),
            'P' => Ok(GnsMode::Precise),
            'R' => Ok(GnsMode::RealTimeKinematic),
            'F' => Ok(GnsMode::FloatRealTimeKinematic),
            'E' => Ok(GnsMode::Estimated),
            'M' => Ok(GnsMode::Manual),
            'S' => Ok(GnsMode::Simulator),
            _ => Err(FieldError::Status(StatusParsingError::GnsModeError)),
        }
    }

    pub fn translate(value: Option<char>) -> (r: Result<Option<GnsMode>, FieldError>)
        ensures
            r == Self::spec_translate(value),
    {
        match value {
            None => Ok(None),
            Some(v) => match Self::try_from(v) {
                Ok(s) => Ok(Some(s)),
                Err(e) => Err(e),
            },
        }
    }
}

/// A number as it stood in a field. It is kept as its text, so that it says
/// what the token said, whatever the number of its digits. The text of a
/// decimal that a decoder hands out is a number to a float parser: an
/// optional sign, then digits with at most one point among them and at least
/// one digit, which an exponent may follow, or one of the words `inf`,
/// `infinity` and `nan`.
#[derive(Debug, Clone, Copy, PartialEq)]
pub struct Decimal<'a> {
    /// The token, sign and all.
    pub text: &'a [u8],
}

/// The mathematical value of a `Decimal`: the bytes of its text.
pub struct DecimalView {
    pub text: Seq<u8>,
}

impl<'a> View for Decimal<'a> {
    type V = DecimalView;

    open spec fn view(&self) -> DecimalView {
        DecimalView { text: self.text@ }
    }
}

impl DecimalView {
    /// Whether the text is a number. It is so for every decimal that a
    /// decoder hands out.
    pub open spec fn well_formed(self) -> bool {
        parsers::utils::spec_is_decimal(self.text)
    }
}

/// Represents the current date. The year has two digits and no century.
#[derive(Debug, Clone, Copy, PartialEq)]
pub struct GpsDate {
    pub day: u8,
    pub month: u8,
    pub year: u64,
}

/// The bytes of a text field, or nothing for an absent one.
pub open spec fn text_view(text: Option<&[u8]>) -> Option<Seq<u8>> {
    match text {
        Some(t) => Some(t@),
        None => None,
    }
}

/// The value of an optional field, or nothing for an absent one.
pub open spec fn option_view<T: View>(value: Option<T>) -> Option<T::V> {
    match value {
        Some(v) => Some(v@),
        None => None,
    }
}

/// Represents a UTC timestamp. Nothing limits the ranges of its parts.
#[derive(Debug, Clone, Copy, PartialEq)]
pub struct GpsTime<'a> {
    pub hour: u8,
    pub minute: u8,
    pub second: Decimal<'a>,
}

/// The mathematical value of a `GpsTime`.
pub struct GpsTimeView {
    pub hour: u8,
    pub minute: u8,
    pub second: DecimalView,
}

impl<'a> View for GpsTime<'a> {
    type V = GpsTimeView;

    open spec fn view(&self) -> GpsTimeView {
        GpsTimeView {
            hour: self.hour,
            minute: self.minute,
            second: self.second@,
        }
    }
}

/// Represents a geographical position. Each angle is kept as whole degrees and
/// decimal minutes; in decimal degrees it is `degrees + minutes / 60`.
#[derive(Debug, Clone, Copy, PartialEq)]
pub struct GpsPosition<'a> {
    pub lat_degrees: u8,
    pub lat_minutes: Decimal<'a>,
    pub lat_dir: LatitudeDirection,
    pub lon_degrees: u8,
    pub lon_minutes: Decimal<'a>,
    pub lon_dir: LongitudeDirection,
}

/// The mathematical value of a `GpsPosition`.
pub struct GpsPositionView {
    pub lat_degrees: u8,
    pub lat_minutes: DecimalView,
    pub lat_dir: LatitudeDirection,
    pub lon_degrees: u8,
    pub lon_minutes: DecimalView,
    pub lon_dir: LongitudeDirection,
}

impl<'a> View for GpsPosition<'a> {
    type V = GpsPositionView;

    open spec fn view(&self) -> GpsPositionView {
        GpsPositionView {
            lat_degrees: self.lat_degrees,
            lat_minutes: self.lat_minutes@,
            lat_dir: self.lat_dir,
            lon_degrees: self.lon_degrees,
            lon_minutes: self.lon_minutes@,
            lon_dir: self.lon_dir,
        }
    }
}

/// Bearing from an origin waypoint to a destination waypoint.
#[derive(Debug, Clone, Copy, PartialEq)]
pub struct BodData<'a> {
    pub bearing_true: Option<Decimal<'a>>,
    pub bearing_magnetic: Option<Decimal<'a>>,
    pub to_waypoint: Option<&'a [u8]>,
    pub from_waypoint: Option<&'a [u8]>,
}

/// The mathematical value of a `BodData`.
pub struct BodDataView {
    pub bearing_true: Option<DecimalView>,
    pub bearing_magnetic: Option<DecimalView>,
    pub to_waypoint: Option<Seq<u8>>,
    pub from_waypoint: Option<Seq<u8>>,
}

impl<'a> View for BodData<'a> {
    type V = BodDataView;

    open spec fn view(&self) -> BodDataView {
        BodDataView {
            bearing_true: option_view(self.bearing_true),
            bearing_magnetic: option_view(self.bearing_magnetic),
            to_waypoint: text_view(self.to_waypoint),
            from_waypoint: text_view(self.from_waypoint),
        }
    }
}

/// Bearing and distance to a waypoint along the great circle.
#[derive(Debug, Clone, Copy, PartialEq)]
pub struct BwcData<'a> {
    pub time: Option<GpsTime<'a>>,
    pub waypoint_position: GpsPosition<'a>,
    pub bearing_true: Option<Decimal<'a>>,
    pub bearing_magnetic: Option<Decimal<'a>>,
    pub nautical_miles: Option<Decimal<'a>>,
    pub waypoint: Option<&'a [u8]>,
}

/// The mathematical value of a `BwcData`.
pub struct BwcDataView {
    pub time: Option<GpsTimeView>,
    pub waypoint_position: GpsPositionView,
    pub bearing_true: Option<DecimalView>,
    pub bearing_magnetic: Option<DecimalView>,
    pub nautical_miles: Option<DecimalView>,
    pub waypoint: Option<Seq<u8>>,
}

impl<'a> View for BwcData<'a> {
    type V = BwcDataView;

    open spec fn view(&self) -> BwcDataView {
        BwcDataView {
            time: option_view(self.time),
            waypoint_position: self.waypoint_position@,
            bearing_true: option_view(self.bearing_true),
            bearing_magnetic: option_view(self.bearing_magnetic),
            nautical_miles: option_view(self.nautical_miles),
            waypoint: text_view(self.waypoint),
        }
    }
}

/// Satellite fault detection.
#[derive(Debug, Clone, Copy, PartialEq)]
pub struct GbsData<'a> {
    pub time: Option<GpsTime<'a>>,
    pub lat_error: Option<Decimal<'a>>,
    pub lon_error: Option<Decimal<'a>>,
    pub alt_error: Option<Decimal<'a>>,
    pub most_likely_failed_sat: Option<u8>,
    pub missed_probability: Option<Decimal<'a>>,
    pub bias_estimate: Option<Decimal<'a>>,
    pub bias_standard_deviation: Option<Decimal<'a>>,
}

/// The mathematical value of a `GbsData`.
pub struct GbsDataView {
    pub time: Option<GpsTimeView>,
    pub lat_error: Option<DecimalView>,
    pub lon_error: Option<DecimalView>,
    pub alt_error: Option<DecimalView>,
    pub most_likely_failed_sat: Option<u8>,
    pub missed_probability: Option<DecimalView>,
    pub bias_estimate: Option<DecimalView>,
    pub bias_standard_deviation: Option<DecimalView>,
}

impl<'a> View for GbsData<'a> {
    type V = GbsDataView;

    open spec fn view(&self) -> GbsDataView {
        GbsDataView {
            time: option_view(self.time),
            lat_error: option_view(self.lat_error),
            lon_error: option_view(self.lon_error),
            alt_error: option_view(self.alt_error),
            most_likely_failed_sat: self.most_likely_failed_sat,
            missed_probability: option_view(self.missed_probability),
            bias_estimate: option_view(self.bias_estimate),
            bias_standard_deviation: option_view(self.bias_standard_deviation),
        }
    }
}

/// Fix data of the global positioning system.
#[derive(Debug, Clone, Copy, PartialEq)]
pub struct GgaData<'a> {
    pub time: Option<GpsTime<'a>>,
    pub position: GpsPosition<'a>,
    pub quality: Option<GpsQuality>,
    pub sats_in_view: Option<u8>,
    pub hdop: Option<Decimal<'a>>,
    pub altitude: Option<Decimal<'a>>,
    pub geoid_altitude: Option<Decimal<'a>>,
    pub age_of_differential: Option<Decimal<'a>>,
    pub differential_station_id: Option<u16>,
}

/// The mathematical value of a `GgaData`.
pub struct GgaDataView {
    pub time: Option<GpsTimeView>,
    pub position: GpsPositionView,
    pub quality: Option<GpsQuality>,
    pub sats_in_view: Option<u8>,
    pub hdop: Option<DecimalView>,
    pub altitude: Option<DecimalView>,
    pub geoid_altitude: Option<DecimalView>,
    pub age_of_differential: Option<DecimalView>,
    pub differential_station_id: Option<u16>,
}

impl<'a> View for GgaData<'a> {
    type V = GgaDataView;

    open spec fn view(&self) -> GgaDataView {
        GgaDataView {
            time: option_view(self.time),
            position: self.position@,
            quality: self.quality,
            sats_in_view: self.sats_in_view,
            hdop: option_view(self.hdop),
            altitude: option_view(self.altitude),
            geoid_altitude: option_view(self.geoid_altitude),
            age_of_differential: option_view(self.age_of_differential),
            differential_station_id: self.differential_station_id,
        }
    }
}

/// Geographic position with the time of the fix.
#[derive(Debug, Clone, Copy, PartialEq)]
pub struct GllData<'a> {
    pub position: GpsPosition<'a>,
    pub time: Option<GpsTime<'a>>,
    pub status: Option<GllStatus>,
}

/// The mathematical value of a `GllData`.
pub struct GllDataView {
    pub position: GpsPositionView,
    pub time: Option<GpsTimeView>,
    pub status: Option<GllStatus>,
}

impl<'a> View for GllData<'a> {
    type V = GllDataView;

    open spec fn view(&self) -> GllDataView {
        GllDataView {
            position: self.position@,
            time: option_view(self.time),
            status: self.status,
        }
    }
}

/// Fix data of a receiver that combines several constellations.
#[derive(Debug, Clone, PartialEq)]
pub struct GnsData<'a> {
    pub time: Option<GpsTime<'a>>,
    pub position: GpsPosition<'a>,
    /// One mode for each constellation, in the order of the letters.
    pub mode: Option<Vec<GnsMode>>,
    pub sats_in_use: Option<u8>,
    pub hdop: Option<Decimal<'a>>,
    pub orthometric_height: Option<Decimal<'a>>,
    pub geoid_seperation: Option<Decimal<'a>>,
    pub age_of_differential: Option<Decimal<'a>>,
    pub differential_station_id: Option<u16>,
}

/// The mathematical value of a `GnsData`.
pub struct GnsDataView {
    pub time: Option<GpsTimeView>,
    pub position: GpsPositionView,
    pub mode: Option<Seq<GnsMode>>,
    pub sats_in_use: Option<u8>,
    pub hdop: Option<DecimalView>,
    pub orthometric_height: Option<DecimalView>,
    pub geoid_seperation: Option<DecimalView>,
    pub age_of_differential: Option<DecimalView>,
    pub differential_station_id: Option<u16>,
}

impl<'a> View for GnsData<'a> {
    type V = GnsDataView;

    open spec fn view(&self) -> GnsDataView {
        GnsDataView {
            time: option_view(self.time),
            position: self.position@,
            mode: match self.mode {
                Some(m) => Some(m@),
                None => None,
            },
            sats_in_use: self.sats_in_use,
            hdop: option_view(self.hdop),
            orthometric_height: option_view(self.orthometric_height),
            geoid_seperation: option_view(self.geoid_seperation),
            age_of_differential: option_view(self.age_of_differential),
            differential_station_id: self.differential_station_id,
        }
    }
}

/// Dilution of precision and the satellites used for the fix.
#[derive(Debug, Clone, Copy, PartialEq)]
pub struct GsaData<'a> {
    pub selection_mode: Option<GsaSelectionMode>,
    pub mode: Option<GsaMode>,
    pub satellites: [Option<u8>; 12],
    pub pdob: Option<Decimal<'a>>,
    pub hdop: Option<Decimal<'a>>,
    pub vdop: Option<Decimal<'a>>,
}

/// The mathematical value of a `GsaData`.
pub struct GsaDataView {
    pub selection_mode: Option<GsaSelectionMode>,
    pub mode: Option<GsaMode>,
    pub satellites: [Option<u8>; 12],
    pub pdob: Option<DecimalView>,
    pub hdop: Option<DecimalView>,
    pub vdop: Option<DecimalView>,
}

impl<'a> View for GsaData<'a> {
    type V = GsaDataView;

    open spec fn view(&self) -> GsaDataView {
        GsaDataView {
            selection_mode: self.selection_mode,
            mode: self.mode,
            satellites: self.satellites,
            pdob: option_view(self.pdob),
            hdop: option_view(self.hdop),
            vdop: option_view(self.vdop),
        }
    }
}

/// One satellite of a GSV sentence.
#[derive(Debug, Clone, Copy, PartialEq)]
pub struct GsvSatellite<'a> {
    pub sat_id: Option<u8>,
    pub elevation: Option<Decimal<'a>>,
    pub true_azimuth: Option<Decimal<'a>>,
    pub snr: Option<u8>,
}

/// The mathematical value of a `GsvSatellite`.
pub struct GsvSatelliteView {
    pub sat_id: Option<u8>,
    pub elevation: Option<DecimalView>,
    pub true_azimuth: Option<DecimalView>,
    pub snr: Option<u8>,
}

impl<'a> View for GsvSatellite<'a> {
    type V = GsvSatelliteView;

    open spec fn view(&self) -> GsvSatelliteView {
        GsvSatelliteView {
            sat_id: self.sat_id,
            elevation: option_view(self.elevation),
            true_azimuth: option_view(self.true_azimuth),
            snr: self.snr,
        }
    }
}

/// Satellites in view; one sentence describes up to four of them.
#[derive(Debug, Clone, Copy, PartialEq)]
pub struct GsvData<'a> {
    pub number_of_sentences: Option<u16>,
    pub sentence_num: Option<u16>,
    pub sats_in_view: Option<u8>,
    pub sats_info: [Option<GsvSatellite<'a>>; 4],
}

/// The mathematical value of a `GsvData`.
pub struct GsvDataView {
    pub number_of_sentences: Option<u16>,
    pub sentence_num: Option<u16>,
    pub sats_in_view: Option<u8>,
    pub sats_info: [Option<GsvSatelliteView>; 4],
}

impl<'a> View for GsvData<'a> {
    type V = GsvDataView;

    open spec fn view(&self) -> GsvDataView {
        GsvDataView {
            number_of_sentences: self.number_of_sentences,
            sentence_num: self.sentence_num,
            sats_in_view: self.sats_in_view,
            sats_info: [
                option_view(self.sats_info[0]),
                option_view(self.sats_info[1]),
                option_view(self.sats_info[2]),
                option_view(self.sats_info[3]),
            ],
        }
    }
}

/// True heading.
#[derive(Debug, Clone, Copy, PartialEq)]
pub struct HdtData<'a> {
    pub heading_true: Option<Decimal<'a>>,
}

/// The mathematical value of a `HdtData`.
pub struct HdtDataView {
    pub heading_true: Option<DecimalView>,
}

impl<'a> View for HdtData<'a> {
    type V = HdtDataView;

    open spec fn view(&self) -> HdtDataView {
        HdtDataView {
            heading_true: option_view(self.heading_true),
        }
    }
}

/// Recommended minimum navigation data of a Loran-C receiver.
#[derive(Debug, Clone, Copy, PartialEq)]
pub struct RmaData<'a> {
    pub status: Option<RmStatus>,
    pub position: GpsPosition<'a>,
    pub time_diff_a: Option<Decimal<'a>>,
    pub time_diff_b: Option<Decimal<'a>>,
    pub speed: Option<Decimal<'a>>,
    pub heading: Option<Decimal<'a>>,
    pub magnetic_variation: Option<Decimal<'a>>,
    pub magnetic_direction: Option<LongitudeDirection>,
}

/// The mathematical value of a `RmaData`.
pub struct RmaDataView {
    pub status: Option<RmStatus>,
    pub position: GpsPositionView,
    pub time_diff_a: Option<DecimalView>,
    pub time_diff_b: Option<DecimalView>,
    pub speed: Option<DecimalView>,
    pub heading: Option<DecimalView>,
    pub magnetic_variation: Option<DecimalView>,
    pub magnetic_direction: Option<LongitudeDirection>,
}

impl<'a> View for RmaData<'a> {
    type V = RmaDataView;

    open spec fn view(&self) -> RmaDataView {
        RmaDataView {
            status: self.status,
            position: self.position@,
            time_diff_a: option_view(self.time_diff_a),
            time_diff_b: option_view(self.time_diff_b),
            speed: option_view(self.speed),
            heading: option_view(self.heading),
            magnetic_variation: option_view(self.magnetic_variation),
            magnetic_direction: self.magnetic_direction,
        }
    }
}

/// Recommended minimum navigation data while a destination is active.
#[derive(Debug, Clone, Copy, PartialEq)]
pub struct RmbData<'a> {
    pub status: Option<RmStatus>,
    pub cross_error: Option<Decimal<'a>>,
    pub steer_direction: Option<SteerDirection>,
    pub to_waypoint: Option<&'a [u8]>,
    pub from_waypoint: Option<&'a [u8]>,
    pub dest_position: GpsPosition<'a>,
    pub range_to_dest: Option<Decimal<'a>>,
    pub bearing: Option<Decimal<'a>>,
    pub closing_velocity: Option<Decimal<'a>>,
    pub arrival_status: Option<ArrivalStatus>,
}

/// The mathematical value of a `RmbData`.
pub struct RmbDataView {
    pub status: Option<RmStatus>,
    pub cross_error: Option<DecimalView>,
    pub steer_direction: Option<SteerDirection>,
    pub to_waypoint: Option<Seq<u8>>,
    pub from_waypoint: Option<Seq<u8>>,
    pub dest_position: GpsPositionView,
    pub range_to_dest: Option<DecimalView>,
    pub bearing: Option<DecimalView>,
    pub closing_velocity: Option<DecimalView>,
    pub arrival_status: Option<ArrivalStatus>,
}

impl<'a> View for RmbData<'a> {
    type V = RmbDataView;

    open spec fn view(&self) -> RmbDataView {
        RmbDataView {
            status: self.status,
            cross_error: option_view(self.cross_error),
            steer_direction: self.steer_direction,
            to_waypoint: text_view(self.to_waypoint),
            from_waypoint: text_view(self.from_waypoint),
            dest_position: self.dest_position@,
            range_to_dest: option_view(self.range_to_dest),
            bearing: option_view(self.bearing),
            closing_velocity: option_view(self.closing_velocity),
            arrival_status: self.arrival_status,
        }
    }
}

/// Recommended minimum navigation data of a satellite receiver.
#[derive(Debug, Clone, Copy, PartialEq)]
pub struct RmcData<'a> {
    pub time: Option<GpsTime<'a>>,
    pub status: Option<RmStatus>,
    pub position: GpsPosition<'a>,
    pub speed: Option<Decimal<'a>>,
    pub heading: Option<Decimal<'a>>,
    pub date: Option<GpsDate>,
    pub magnetic_variation: Option<Decimal<'a>>,
    pub magnetic_direction: Option<LongitudeDirection>,
}

/// The mathematical value of a `RmcData`.
pub struct RmcDataView {
    pub time: Option<GpsTimeView>,
    pub status: Option<RmStatus>,
    pub position: GpsPositionView,
    pub speed: Option<DecimalView>,
    pub heading: Option<DecimalView>,
    pub date: Option<GpsDate>,
    pub magnetic_variation: Option<DecimalView>,
    pub magnetic_direction: Option<LongitudeDirection>,
}

impl<'a> View for RmcData<'a> {
    type V = RmcDataView;

    open spec fn view(&self) -> RmcDataView {
        RmcDataView {
            time: option_view(self.time),
            status: self.status,
            position: self.position@,
            speed: option_view(self.speed),
            heading: option_view(self.heading),
            date: self.date,
            magnetic_variation: option_view(self.magnetic_variation),
            magnetic_direction: self.magnetic_direction,
        }
    }
}

/// Speed through the water and over the ground, along and across the keel.
#[derive(Debug, Clone, Copy, PartialEq)]
pub struct VbwData<'a> {
    pub lon_water_speed: Option<Decimal<'a>>,
    pub transverse_water_speed: Option<Decimal<'a>>,
    pub water_validity: Option<DataValidity>,
    pub lon_ground_speed: Option<Decimal<'a>>,
    pub transverse_ground_speed: Option<Decimal<'a>>,
    pub ground_validity: Option<DataValidity>,
}

/// The mathematical value of a `VbwData`.
pub struct VbwDataView {
    pub lon_water_speed: Option<DecimalView>,
    pub transverse_water_speed: Option<DecimalView>,
    pub water_validity: Option<DataValidity>,
    pub lon_ground_speed: Option<DecimalView>,
    pub transverse_ground_speed: Option<DecimalView>,
    pub ground_validity: Option<DataValidity>,
}

impl<'a> View for VbwData<'a> {
    type V = VbwDataView;

    open spec fn view(&self) -> VbwDataView {
        VbwDataView {
            lon_water_speed: option_view(self.lon_water_speed),
            transverse_water_speed: option_view(self.transverse_water_speed),
            water_validity: self.water_validity,
            lon_ground_speed: option_view(self.lon_ground_speed),
            transverse_ground_speed: option_view(self.transverse_ground_speed),
            ground_validity: self.ground_validity,
        }
    }
}

/// Track made good and speed over the ground.
#[derive(Debug, Clone, Copy, PartialEq)]
pub struct VtgData<'a> {
    pub bearing_true: Option<Decimal<'a>>,
    pub bearing_magnetic: Option<Decimal<'a>>,
    pub speed_knots: Option<Decimal<'a>>,
    pub speed_kmh: Option<Decimal<'a>>,
}

/// The mathematical value of a `VtgData`.
pub struct VtgDataView {
    pub bearing_true: Option<DecimalView>,
    pub bearing_magnetic: Option<DecimalView>,
    pub speed_knots: Option<DecimalView>,
    pub speed_kmh: Option<DecimalView>,
}

impl<'a> View for VtgData<'a> {
    type V = VtgDataView;

    open spec fn view(&self) -> VtgDataView {
        VtgDataView {
            bearing_true: option_view(self.bearing_true),
            bearing_magnetic: option_view(self.bearing_magnetic),
            speed_knots: option_view(self.speed_knots),
            speed_kmh: option_view(self.speed_kmh),
        }
    }
}

/// Location of a waypoint.
#[derive(Debug, Clone, Copy, PartialEq)]
pub struct WplData<'a> {
    pub position: Option<GpsPosition<'a>>,
    pub waypoint_name: Option<&'a [u8]>,
}

/// The mathematical value of a `WplData`.
pub struct WplDataView {
    pub position: Option<GpsPositionView>,
    pub waypoint_name: Option<Seq<u8>>,
}

impl<'a> View for WplData<'a> {
    type V = WplDataView;

    open spec fn view(&self) -> WplDataView {
        WplDataView {
            position: option_view(self.position),
            waypoint_name: text_view(self.waypoint_name),
        }
    }
}

/// Identifies the talker when one device sends several kinds of data.
#[derive(Debug, Clone, Copy, PartialEq)]
pub struct StnData {
    pub talker_id: u8,
}


#[derive(Debug, Clone, Copy, PartialEq)]
pub struct AamData {}

#[derive(Debug, Clone, Copy, PartialEq)]
pub struct AbkData {}

#[derive(Debug, Clone, Copy, PartialEq)]
pub struct AckData {}

#[derive(Debug, Clone, Copy, PartialEq)]
pub struct AlmData {}

#[derive(Debug, Clone, Copy, PartialEq)]
pub struct ApaData {}

#[derive(Debug, Clone, Copy, PartialEq)]
pub struct ApbData {}

#[derive(Debug, Clone, Copy, PartialEq)]
pub struct BecData {}

#[derive(Debug, Clone, Copy, PartialEq)]
pub struct BwrData {}

#[derive(Debug, Clone, Copy, PartialEq)]
pub struct BwwData {}

#[derive(Debug, Clone, Copy, PartialEq)]
pub struct DbkData {}

#[derive(Debug, Clone, Copy, PartialEq)]
pub struct DbsData {}

#[derive(Debug, Clone, Copy, PartialEq)]
pub struct DbtData {}

#[derive(Debug, Clone, Copy, PartialEq)]
pub struct DcnData {}

#[derive(Debug, Clone, Copy, PartialEq)]
pub struct DptData {}

#[derive(Debug, Clone, Copy, PartialEq)]
pub struct DtmData {}

#[derive(Debug, Clone, Copy, PartialEq)]
pub struct FsiData {}

#[derive(Debug, Clone, Copy, PartialEq)]
pub struct GlcData {}

#[derive(Debug, Clone, Copy, PartialEq)]
pub struct GrsData {}

#[derive(Debug, Clone, Copy, PartialEq)]
pub struct GstData {}

#[derive(Debug, Clone, Copy, PartialEq)]
pub struct GtdData {}

#[derive(Debug, Clone, Copy, PartialEq)]
pub struct GxaData {}

#[derive(Debug, Clone, Copy, PartialEq)]
pub struct HdgData {}

#[derive(Debug, Clone, Copy, PartialEq)]
pub struct HdmData {}

#[derive(Debug, Clone, Copy, PartialEq)]
pub struct HscData {}

#[derive(Debug, Clone, Copy, PartialEq)]
pub struct LcdData {}

#[derive(Debug, Clone, Copy, PartialEq)]
pub struct MskData {}

#[derive(Debug, Clone, Copy, PartialEq)]
pub struct MtwData {}

#[derive(Debug, Clone, Copy, PartialEq)]
pub struct MwvData {}

#[derive(Debug, Clone, Copy, PartialEq)]
pub struct OlnData {}

#[derive(Debug, Clone, Copy, PartialEq)]
pub struct OsdData {}

#[derive(Debug, Clone, Copy, PartialEq)]
pub struct RooData {}

#[derive(Debug, Clone, Copy, PartialEq)]
pub struct RotData {}

#[derive(Debug, Clone, Copy, PartialEq)]
pub struct RpmData {}

#[derive(Debug, Clone, Copy, PartialEq)]
pub struct RsaData {}

#[derive(Debug, Clone, Copy, PartialEq)]
pub struct RsdData {}

#[derive(Debug, Clone, Copy, PartialEq)]
pub struct RteData {}

#[derive(Debug, Clone, Copy, PartialEq)]
pub struct SfiData {}

#[derive(Debug, Clone, Copy, PartialEq)]
pub struct TllData {}

#[derive(Debug, Clone, Copy, PartialEq)]
pub struct TtmData {}

#[derive(Debug, Clone, Copy, PartialEq)]
pub struct VdrData {}

#[derive(Debug, Clone, Copy, PartialEq)]
pub struct VhwData {}

#[derive(Debug, Clone, Copy, PartialEq)]
pub struct VlwData {}

#[derive(Debug, Clone, Copy, PartialEq)]
pub struct VpwData {}

#[derive(Debug, Clone, Copy, PartialEq)]
pub struct VwrData {}

#[derive(Debug, Clone, Copy, PartialEq)]
pub struct WcvData {}

#[derive(Debug, Clone, Copy, PartialEq)]
pub struct WncData {}

#[derive(Debug, Clone, Copy, PartialEq)]
pub struct XdrData {}

#[derive(Debug, Clone, Copy, PartialEq)]
pub struct XteData {}

#[derive(Debug, Clone, Copy, PartialEq)]
pub struct XtrData {}

#[derive(Debug, Clone, Copy, PartialEq)]
pub struct ZdaData {}

#[derive(Debug, Clone, Copy, PartialEq)]
pub struct ZfoData {}

#[derive(Debug, Clone, Copy, PartialEq)]
pub struct ZtgData {}

/// The decoded content of a sentence, one variant for each registered sentence type.
/// Only the types in the decoder table are ever produced.
#[derive(Debug, Clone, PartialEq)]
pub enum SentenceData<'a> {
    AAM(AamData),
    ABK(AbkData),
    ACK(AckData),
    ALM(AlmData),
    APA(ApaData),
    APB(ApbData),
    BEC(BecData),
    BOD(BodData<'a>),
    BWC(BwcData<'a>),
    BWR(BwrData),
    BWW(BwwData),
    DBK(DbkData),
    DBS(DbsData),
    DBT(DbtData),
    DCN(DcnData),
    DPT(DptData),
    DTM(DtmData),
    FSI(FsiData),
    GBS(GbsData<'a>),
    GGA(GgaData<'a>),
    GLC(GlcData),
    GLL(GllData<'a>),
    GNS(GnsData<'a>),
    GRS(GrsData),
    GST(GstData),
    GSA(GsaData<'a>),
    GSV(GsvData<'a>),
    GTD(GtdData),
    GXA(GxaData),
    HDG(HdgData),
    HDM(HdmData),
    HDT(HdtData<'a>),
    HSC(HscData),
    LCD(LcdData),
    MSK(MskData),
    MTW(MtwData),
    MWV(MwvData),
    OLN(OlnData),
    OSD(OsdData),
    ROO(RooData),
    RMA(RmaData<'a>),
    RMB(RmbData<'a>),
    RMC(RmcData<'a>),
    ROT(RotData),
    RPM(RpmData),
    RSA(RsaData),
    RSD(RsdData),
    RTE(RteData),
    SFI(SfiData),
    STN(StnData),
    TLL(TllData),
    TTM(TtmData),
    VBW(VbwData<'a>),
    VDR(VdrData),
    VHW(VhwData),
    VLW(VlwData),
    VPW(VpwData),
    VTG(VtgData<'a>),
    VWR(VwrData),
    WCV(WcvData),
    WNC(WncData),
    WPL(WplData<'a>),
    XDR(XdrData),
    XTE(XteData),
    XTR(XtrData),
    ZDA(ZdaData),
    ZFO(ZfoData),
    ZTG(ZtgData),
}

/// The mathematical value of a `SentenceData`: borrowed text is shown by its bytes.
pub enum SentenceDataView {
    AAM(AamData),
    ABK(AbkData),
    ACK(AckData),
    ALM(AlmData),
    APA(ApaData),
    APB(ApbData),
    BEC(BecData),
    BOD(BodDataView),
    BWC(BwcDataView),
    BWR(BwrData),
    BWW(BwwData),
    DBK(DbkData),
    DBS(DbsData),
    DBT(DbtData),
    DCN(DcnData),
    DPT(DptData),
    DTM(DtmData),
    FSI(FsiData),
    GBS(GbsDataView),
    GGA(GgaDataView),
    GLC(GlcData),
    GLL(GllDataView),
    GNS(GnsDataView),
    GRS(GrsData),
    GST(GstData),
    GSA(GsaDataView),
    GSV(GsvDataView),
    GTD(GtdData),
    GXA(GxaData),
    HDG(HdgData),
    HDM(HdmData),
    HDT(HdtDataView),
    HSC(HscData),
    LCD(LcdData),
    MSK(MskData),
    MTW(MtwData),
    MWV(MwvData),
    OLN(OlnData),
    OSD(OsdData),
    ROO(RooData),
    RMA(RmaDataView),
    RMB(RmbDataView),
    RMC(RmcDataView),
    ROT(RotData),
    RPM(RpmData),
    RSA(RsaData),
    RSD(RsdData),
    RTE(RteData),
    SFI(SfiData),
    STN(StnData),
    TLL(TllData),
    TTM(TtmData),
    VBW(VbwDataView),
    VDR(VdrData),
    VHW(VhwData),
    VLW(VlwData),
    VPW(VpwData),
    VTG(VtgDataView),
    VWR(VwrData),
    WCV(WcvData),
    WNC(WncData),
    WPL(WplDataView),
    XDR(XdrData),
    XTE(XteData),
    XTR(XtrData),
    ZDA(ZdaData),
    ZFO(ZfoData),
    ZTG(ZtgData),
}

impl<'a> View for SentenceData<'a> {
    type V = SentenceDataView;

    open spec fn view(&self) -> SentenceDataView {
        match *self {
            SentenceData::AAM(d) => SentenceDataView::AAM(d),
            SentenceData::ABK(d) => SentenceDataView::ABK(d),
            SentenceData::ACK(d) => SentenceDataView::ACK(d),
            SentenceData::ALM(d) => SentenceDataView::ALM(d),
            SentenceData::APA(d) => SentenceDataView::APA(d),
            SentenceData::APB(d) => SentenceDataView::APB(d),
            SentenceData::BEC(d) => SentenceDataView::BEC(d),
            SentenceData::BOD(d) => SentenceDataView::BOD(d@),
            SentenceData::BWC(d) => SentenceDataView::BWC(d@),
            SentenceData::BWR(d) => SentenceDataView::BWR(d),
            SentenceData::BWW(d) => SentenceDataView::BWW(d),
            SentenceData::DBK(d) => SentenceDataView::DBK(d),
            SentenceData::DBS(d) => SentenceDataView::DBS(d),
            SentenceData::DBT(d) => SentenceDataView::DBT(d),
            SentenceData::DCN(d) => SentenceDataView::DCN(d),
            SentenceData::DPT(d) => SentenceDataView::DPT(d),
            SentenceData::DTM(d) => SentenceDataView::DTM(d),
            SentenceData::FSI(d) => SentenceDataView::FSI(d),
            SentenceData::GBS(d) => SentenceDataView::GBS(d@),
            SentenceData::GGA(d) => SentenceDataView::GGA(d@),
            SentenceData::GLC(d) => SentenceDataView::GLC(d),
            SentenceData::GLL(d) => SentenceDataView::GLL(d@),
            SentenceData::GNS(d) => SentenceDataView::GNS(d@),
            SentenceData::GRS(d) => SentenceDataView::GRS(d),
            SentenceData::GST(d) => SentenceDataView::GST(d),
            SentenceData::GSA(d) => SentenceDataView::GSA(d@),
            SentenceData::GSV(d) => SentenceDataView::GSV(d@),
            SentenceData::GTD(d) => SentenceDataView::GTD(d),
            SentenceData::GXA(d) => SentenceDataView::GXA(d),
            SentenceData::HDG(d) => SentenceDataView::HDG(d),
            SentenceData::HDM(d) => SentenceDataView::HDM(d),
            SentenceData::HDT(d) => SentenceDataView::HDT(d@),
            SentenceData::HSC(d) => SentenceDataView::HSC(d),
            SentenceData::LCD(d) => SentenceDataView::LCD(d),
            SentenceData::MSK(d) => SentenceDataView::MSK(d),
            SentenceData::MTW(d) => SentenceDataView::MTW(d),
            SentenceData::MWV(d) => SentenceDataView::MWV(d),
            SentenceData::OLN(d) => SentenceDataView::OLN(d),
            SentenceData::OSD(d) => SentenceDataView::OSD(d),
            SentenceData::ROO(d) => SentenceDataView::ROO(d),
            SentenceData::RMA(d) => SentenceDataView::RMA(d@),
            SentenceData::RMB(d) => SentenceDataView::RMB(d@),
            SentenceData::RMC(d) => SentenceDataView::RMC(d@),
            SentenceData::ROT(d) => SentenceDataView::ROT(d),
            SentenceData::RPM(d) => SentenceDataView::RPM(d),
            SentenceData::RSA(d) => SentenceDataView::RSA(d),
            SentenceData::RSD(d) => SentenceDataView::RSD(d),
            SentenceData::RTE(d) => SentenceDataView::RTE(d),
            SentenceData::SFI(d) => SentenceDataView::SFI(d),
            SentenceData::STN(d) => SentenceDataView::STN(d),
            SentenceData::TLL(d) => SentenceDataView::TLL(d),
            SentenceData::TTM(d) => SentenceDataView::TTM(d),
            SentenceData::VBW(d) => SentenceDataView::VBW(d@),
            SentenceData::VDR(d) => SentenceDataView::VDR(d),
            SentenceData::VHW(d) => SentenceDataView::VHW(d),
            SentenceData::VLW(d) => SentenceDataView::VLW(d),
            SentenceData::VPW(d) => SentenceDataView::VPW(d),
            SentenceData::VTG(d) => SentenceDataView::VTG(d@),
            SentenceData::VWR(d) => SentenceDataView::VWR(d),
            SentenceData::WCV(d) => SentenceDataView::WCV(d),
            SentenceData::WNC(d) => SentenceDataView::WNC(d),
            SentenceData::WPL(d) => SentenceDataView::WPL(d@),
            SentenceData::XDR(d) => SentenceDataView::XDR(d),
            SentenceData::XTE(d) => SentenceDataView::XTE(d),
            SentenceData::XTR(d) => SentenceDataView::XTR(d),
            SentenceData::ZDA(d) => SentenceDataView::ZDA(d),
            SentenceData::ZFO(d) => SentenceDataView::ZFO(d),
            SentenceData::ZTG(d) => SentenceDataView::ZTG(d),
        }
    }
}

/// What a failed field becomes in the error taxonomy of the whole library.
pub open spec fn spec_unified_error(e: FieldError) -> NmeaSentenceErrorView {
    match e {
        FieldError::Structure => NmeaSentenceErrorView::DataParsingError,
        FieldError::Number => NmeaSentenceErrorView::GeneralParsingError,
        FieldError::Status(kind) => NmeaSentenceErrorView::StatusParsingError(kind),
    }
}

/// Hands on what a decoder produced and turns its failure into the unified error.
pub fn parse_result_to_data<'a, Data>(parse_result: Result<Data, FieldError>) -> (r: Result<
    Data,
    NmeaSentenceError<'a>,
>)
    ensures
        match parse_result {
            Ok(value) => r == Ok::<Data, NmeaSentenceError<'a>>(value),
            Err(e) => r matches Err(u) && u@ == spec_unified_error(e),
        },
{
    match parse_result {
        Ok(value) => Ok(value),
        Err(FieldError::Structure) => Err(NmeaSentenceError::DataParsingError),
        Err(FieldError::Number) => Err(NmeaSentenceError::GeneralParsingError),
        Err(FieldError::Status(kind)) => Err(NmeaSentenceError::StatusParsingError(kind)),
    }
}

/// The result of a decoder as the content of a sentence: the record goes
/// into its variant, the failure into the unified error.
pub open spec fn spec_wrap<Data>(
    parse_result: Result<Data, FieldError>,
    variant: spec_fn(Data) -> SentenceDataView,
) -> Result<SentenceDataView, NmeaSentenceErrorView> {
    match parse_result {
        Ok(value) => Ok(variant(value)),
        Err(e) => Err(spec_unified_error(e)),
    }
}

/// Whether the decoder table has an entry for a sentence type. It has one
/// for thirteen of the registered types.
pub open spec fn spec_in_decoder_table(sentence_type: SentenceType) -> bool {
    match sentence_type {
        SentenceType::BOD
        | SentenceType::BWC
        | SentenceType::GGA
        | SentenceType::GLL
        | SentenceType::GSA
        | SentenceType::HDT
        | SentenceType::RMA
        | SentenceType::RMB
        | SentenceType::RMC
        | SentenceType::STN
        | SentenceType::VBW
        | SentenceType::VTG
        | SentenceType::WPL => true,
        _ => false,
    }
}

/// The decoder table: the data of a verified sentence goes to the decoder
/// of its type; a type that the table does not hold is reported as not
/// implemented, with the type of the sentence.
pub open spec fn spec_parse_sentence_data(general_sentence: GeneralSentenceView) -> Result<
    SentenceDataView,
    NmeaSentenceErrorView,
> {
    let data = general_sentence.data;
    match general_sentence.sentence_type {
        SentenceType::BOD => spec_wrap(
            parsers::bod::spec_parse_bod(data),
            |d| SentenceDataView::BOD(d),
        ),
        SentenceType::BWC => spec_wrap(
            parsers::bwc::spec_parse_bwc(data),
            |d| SentenceDataView::BWC(d),
        ),
        SentenceType::GGA => spec_wrap(
            parsers::gga::spec_parse_gga(data),
            |d| SentenceDataView::GGA(d),
        ),
        SentenceType::GLL => spec_wrap(
            parsers::gll::spec_parse_gll(data),
            |d| SentenceDataView::GLL(d),
        ),
        SentenceType::GSA => spec_wrap(
            parsers::gsa::spec_parse_gsa(data),
            |d| SentenceDataView::GSA(d),
        ),
        SentenceType::HDT => spec_wrap(
            parsers::hdt::spec_parse_hdt(data),
            |d| SentenceDataView::HDT(d),
        ),
        SentenceType::RMA => spec_wrap(
            parsers::rma::spec_parse_rma(data),
            |d| SentenceDataView::RMA(d),
        ),
        SentenceType::RMB => spec_wrap(
            parsers::rmb::spec_parse_rmb(data),
            |d| SentenceDataView::RMB(d),
        ),
        SentenceType::RMC => spec_wrap(
            parsers::rmc::spec_parse_rmc(data),
            |d| SentenceDataView::RMC(d),
        ),
        SentenceType::STN => spec_wrap(
            parsers::stn::spec_parse_stn(data),
            |d| SentenceDataView::STN(d),
        ),
        SentenceType::VBW => spec_wrap(
            parsers::vbw::spec_parse_vbw(data),
            |d| SentenceDataView::VBW(d),
        ),
        SentenceType::VTG => spec_wrap(
            parsers::vtg::spec_parse_vtg(data),
            |d| SentenceDataView::VTG(d),
        ),
        SentenceType::WPL => spec_wrap(
            parsers::wpl::spec_parse_wpl(data),
            |d| SentenceDataView::WPL(d),
        ),
        other => Err(NmeaSentenceErrorView::TypeNotImplementedError(other)),
    }
}

/// Decodes the data of a verified sentence with the decoder of its type.
pub fn parse_sentence_data<'a>(general_sentence: GeneralSentence<'a>) -> (r: Result<
    SentenceData<'a>,
    NmeaSentenceError<'a>,
>)
    ensures
        unified_view(r) == spec_parse_sentence_data(general_sentence@),
{
    let data = general_sentence.data;
    match general_sentence.sentence_type {
        SentenceType::BOD => Ok(
            SentenceData::BOD(parse_result_to_data(parsers::bod::parse_bod(data))?),
        ),
        SentenceType::BWC => Ok(
            SentenceData::BWC(parse_result_to_data(parsers::bwc::parse_bwc(data))?),
        ),
        SentenceType::GGA => Ok(
            SentenceData::GGA(parse_result_to_data(parsers::gga::parse_gga(data))?),
        ),
        SentenceType::GLL => Ok(
            SentenceData::GLL(parse_result_to_data(parsers::gll::parse_gll(data))?),
        ),
        SentenceType::GSA => Ok(
            SentenceData::GSA(parse_result_to_data(parsers::gsa::parse_gsa(data))?),
        ),
        SentenceType::HDT => Ok(
            SentenceData::HDT(parse_result_to_data(parsers::hdt::parse_hdt(data))?),
        ),
        SentenceType::RMA => Ok(
            SentenceData::RMA(parse_result_to_data(parsers::rma::parse_rma(data))?),
        ),
        SentenceType::RMB => Ok(
            SentenceData::RMB(parse_result_to_data(parsers::rmb::parse_rmb(data))?),
        ),
        SentenceType::RMC => Ok(
            SentenceData::RMC(parse_result_to_data(parsers::rmc::parse_rmc(data))?),
        ),
        SentenceType::STN => Ok(
            SentenceData::STN(parse_result_to_data(parsers::stn::parse_stn(data))?),
        ),
        SentenceType::VBW => Ok(
            SentenceData::VBW(parse_result_to_data(parsers::vbw::parse_vbw(data))?),
        ),
        SentenceType::VTG => Ok(
            SentenceData::VTG(parse_result_to_data(parsers::vtg::parse_vtg(data))?),
        ),
        SentenceType::WPL => Ok(
            SentenceData::WPL(parse_result_to_data(parsers::wpl::parse_wpl(data))?),
        ),
        other => Err(NmeaSentenceError::TypeNotImplementedError(other)),
    }
}


/// A type outside the decoder table always ends as not implemented, and a
/// type in the table never does: its data is decoded or a field fails.
pub proof fn lemma_decoder_table(general_sentence: GeneralSentenceView)
    ensures
        !spec_in_decoder_table(general_sentence.sentence_type) ==> spec_parse_sentence_data(
            general_sentence,
        ) == Err::<SentenceDataView, NmeaSentenceErrorView>(
            NmeaSentenceErrorView::TypeNotImplementedError(general_sentence.sentence_type),
        ),
        spec_in_decoder_table(general_sentence.sentence_type) ==> !(spec_parse_sentence_data(
            general_sentence,
        ) matches Err(NmeaSentenceErrorView::TypeNotImplementedError(_))),
{
}

} // verus!
