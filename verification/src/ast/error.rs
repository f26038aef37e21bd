//! Error values for the compact string scalars of the AST.
//!
//! Each variant names the grammar family that rejected the text, so a caller
//! can report which kind of scalar was expected. The payload carries the
//! offending text, or the cause of a failed numeric parse.

use vstd::prelude::*;

verus! {

/// An error from decoding one of the compact string scalars: a packed source
/// location, or a parametrized elementary type name.
#[derive(Debug, Clone, PartialEq, Eq)]
pub enum Error {
    /// The string is not a uint type.
    NotAUintType(String),
    /// The string is not an int type.
    NotAIntType(String),
    /// The string is not a bytes type.
    NotABytesType(String),
    /// The string is not a ufixed type.
    NotAUfixedType(String),
    /// The string is not a fixed type.
    NotAFixedType(String),
    /// Invalid integer size suffix on a uint or int type.
    InvalidSize(String),
    /// Invalid size suffix on a fixed-size bytes type.
    InvalidBytesSize(String),
    /// A ufixed spelling without a `<total>x<fractional>` suffix.
    InvalidUfixedFormat(String),
    /// Invalid total bits of a fixed-point type.
    InvalidTotalBits(String),
    /// Invalid fractional bits of a fixed-point type.
    InvalidFractionalBits(String),
    /// A fixed spelling without a `<total>x<fractional>` suffix.
    InvalidFixedFormat(String),
    /// A spelling that belongs to no elementary type family.
    UnknownElementaryType(String),
    /// A source location that is not three colon-separated parts.
    InvalidLocationFormat(String),
    /// The offset part of a source location is not a valid number.
    InvalidOffset(String),
    /// The length part of a source location is not a valid number.
    InvalidLength(String),
    /// The source index part of a source location is not a valid number.
    InvalidSourceIndex(String),
}

/// The mathematical model of an [`Error`]: the same variants over character
/// sequences.
#[verifier::ext_equal]
pub enum ErrorModel {
    NotAUintType(Seq<char>),
    NotAIntType(Seq<char>),
    NotABytesType(Seq<char>),
    NotAUfixedType(Seq<char>),
    NotAFixedType(Seq<char>),
    InvalidSize(Seq<char>),
    InvalidBytesSize(Seq<char>),
    InvalidUfixedFormat(Seq<char>),
    InvalidTotalBits(Seq<char>),
    InvalidFractionalBits(Seq<char>),
    InvalidFixedFormat(Seq<char>),
    UnknownElementaryType(Seq<char>),
    InvalidLocationFormat(Seq<char>),
    InvalidOffset(Seq<char>),
    InvalidLength(Seq<char>),
    InvalidSourceIndex(Seq<char>),
}

impl Error {
    /// The model of this error.
    pub open spec fn model(self) -> ErrorModel {
        match self {
            Error::NotAUintType(s) => ErrorModel::NotAUintType(s@),
            Error::NotAIntType(s) => ErrorModel::NotAIntType(s@),
            Error::NotABytesType(s) => ErrorModel::NotABytesType(s@),
            Error::NotAUfixedType(s) => ErrorModel::NotAUfixedType(s@),
            Error::NotAFixedType(s) => ErrorModel::NotAFixedType(s@),
            Error::InvalidSize(s) => ErrorModel::InvalidSize(s@),
            Error::InvalidBytesSize(s) => ErrorModel::InvalidBytesSize(s@),
            Error::InvalidUfixedFormat(s) => ErrorModel::InvalidUfixedFormat(s@),
            Error::InvalidTotalBits(s) => ErrorModel::InvalidTotalBits(s@),
            Error::InvalidFractionalBits(s) => ErrorModel::InvalidFractionalBits(s@),
            Error::InvalidFixedFormat(s) => ErrorModel::InvalidFixedFormat(s@),
            Error::UnknownElementaryType(s) => ErrorModel::UnknownElementaryType(s@),
            Error::InvalidLocationFormat(s) => ErrorModel::InvalidLocationFormat(s@),
            Error::InvalidOffset(s) => ErrorModel::InvalidOffset(s@),
            Error::InvalidLength(s) => ErrorModel::InvalidLength(s@),
            Error::InvalidSourceIndex(s) => ErrorModel::InvalidSourceIndex(s@),
        }
    }

    /// A human-readable description, in the shape `<family>: <detail>`.
    pub fn message(&self) -> (r: String)
        ensures
            r@ == self.message_model(),
    {
        match self {
            Error::NotAUintType(s) => String::from_str("not a uint type: ").concat(s.as_str()),
            Error::NotAIntType(s) => String::from_str("not an int type: ").concat(s.as_str()),
            Error::NotABytesType(s) => String::from_str("not a bytes type: ").concat(s.as_str()),
            Error::NotAUfixedType(s) => String::from_str("not a ufixed type: ").concat(s.as_str()),
            Error::NotAFixedType(s) => String::from_str("not a fixed type: ").concat(s.as_str()),
            Error::InvalidSize(s) => String::from_str("invalid integer size: ").concat(s.as_str()),
            Error::InvalidBytesSize(s) => String::from_str("invalid bytes size: ").concat(
                s.as_str(),
            ),
            Error::InvalidUfixedFormat(s) => String::from_str(
                "invalid ufixed format: expected 'ufixed<total>x<fractional>', got: ",
            ).concat(s.as_str()),
            Error::InvalidTotalBits(s) => String::from_str("invalid total bits: ").concat(
                s.as_str(),
            ),
            Error::InvalidFractionalBits(s) => String::from_str("invalid fractional bits: ")
                .concat(s.as_str()),
            Error::InvalidFixedFormat(s) => String::from_str(
                "invalid fixed format: expected 'fixed<total>x<fractional>', got: ",
            ).concat(s.as_str()),
            Error::UnknownElementaryType(s) => String::from_str("unknown elementary type: ")
                .concat(s.as_str()),
            Error::InvalidLocationFormat(s) => String::from_str(
                "invalid source location: expected 'offset:length:sourceIndex', got: ",
            ).concat(s.as_str()),
            Error::InvalidOffset(s) => String::from_str("invalid offset: ").concat(s.as_str()),
            Error::InvalidLength(s) => String::from_str("invalid length: ").concat(s.as_str()),
            Error::InvalidSourceIndex(s) => String::from_str("invalid source index: ").concat(
                s.as_str(),
            ),
        }
    }

    /// What [`Error::message`] yields, at the level of the model.
    pub open spec fn message_model(self) -> Seq<char> {
        match self {
            Error::NotAUintType(s) => "not a uint type: "@ + s@,
            Error::NotAIntType(s) => "not an int type: "@ + s@,
            Error::NotABytesType(s) => "not a bytes type: "@ + s@,
            Error::NotAUfixedType(s) => "not a ufixed type: "@ + s@,
            Error::NotAFixedType(s) => "not a fixed type: "@ + s@,
            Error::InvalidSize(s) => "invalid integer size: "@ + s@,
            Error::InvalidBytesSize(s) => "invalid bytes size: "@ + s@,
            Error::InvalidUfixedFormat(s) => "invalid ufixed format: expected 'ufixed<total>x<fractional>', got: "@
                + s@,
            Error::InvalidTotalBits(s) => "invalid total bits: "@ + s@,
            Error::InvalidFractionalBits(s) => "invalid fractional bits: "@ + s@,
            Error::InvalidFixedFormat(s) => "invalid fixed format: expected 'fixed<total>x<fractional>', got: "@
                + s@,
            Error::UnknownElementaryType(s) => "unknown elementary type: "@ + s@,
            Error::InvalidLocationFormat(s) => "invalid source location: expected 'offset:length:sourceIndex', got: "@
                + s@,
            Error::InvalidOffset(s) => "invalid offset: "@ + s@,
            Error::InvalidLength(s) => "invalid length: "@ + s@,
            Error::InvalidSourceIndex(s) => "invalid source index: "@ + s@,
        }
    }
}

} // verus!
