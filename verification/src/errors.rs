//! The closed set of failures that decoding can end in.

use vstd::prelude::*;

verus! {

/// Why the URL parser rejected a text.
#[derive(Debug, Clone, Copy, PartialEq, Eq)]
pub enum UrlParseReason {
    EmptyHost,
    IdnaError,
    InvalidPort,
    InvalidIpv4Address,
    InvalidIpv6Address,
    InvalidDomainCharacter,
    RelativeUrlWithoutBase,
    /// Any other reason.
    Other,
}

/// How reading from the byte source failed.
#[derive(Debug, Clone, Copy, PartialEq, Eq)]
pub enum IoFailure {
    /// The source ended in the middle of a line.
    UnexpectedEof,
}

/// Every way in which decoding a card can fail. Each one ends the decoding of the card.
#[derive(Debug, PartialEq)]
#[non_exhaustive]
pub enum VCardError {
    Io(IoFailure),
    ParseIntError(std::num::ParseIntError),
    FromUTF8Error(std::string::FromUtf8Error),
    InvalidLine { reason: String, raw_line: String },
    InvalidName { actual_name: String, raw_line: String },
    UnknownType { given_type: String },
    InvalidPID { provided: String },
    InvalidVersion(String),
    InvalidGenderError(String),
    UrlParseError { raw_url: String, original_error: UrlParseReason },
    UnknownParameter(String),
    MaxLineLengthExceeded(u64),
    InvalidBeginProperty,
    InvalidVersionProperty,
    InvalidEndProperty,
    InvalidCardinality { expected: u64, property: String },
    InvalidAltID { expected_altid: String, actual_altid: String },
    InvalidSyntax { message: String, property: String },
}

/// What a `VCardError` says, as mathematical text. The errors that the standard library
/// hands over are opaque: only their kind is visible.
pub enum ErrorView {
    Io(IoFailure),
    ParseInt,
    FromUtf8,
    InvalidLine { reason: Seq<char>, raw_line: Seq<char> },
    InvalidName { actual_name: Seq<char>, raw_line: Seq<char> },
    UnknownType { given_type: Seq<char> },
    InvalidPID { provided: Seq<char> },
    InvalidVersion(Seq<char>),
    InvalidGender(Seq<char>),
    UrlParse { raw_url: Seq<char>, reason: UrlParseReason },
    UnknownParameter(Seq<char>),
    MaxLineLengthExceeded(u64),
    InvalidBeginProperty,
    InvalidVersionProperty,
    InvalidEndProperty,
    InvalidCardinality { expected: u64, property: Seq<char> },
    InvalidAltID { expected_altid: Seq<char>, actual_altid: Seq<char> },
    InvalidSyntax { message: Seq<char>, property: Seq<char> },
}

impl View for VCardError {
    type V = ErrorView;

    open spec fn view(&self) -> ErrorView {
        match *self {
            VCardError::Io(k) => ErrorView::Io(k),
            VCardError::ParseIntError(_) => ErrorView::ParseInt,
            VCardError::FromUTF8Error(_) => ErrorView::FromUtf8,
            VCardError::InvalidLine { reason, raw_line } => ErrorView::InvalidLine {
                reason: reason@,
                raw_line: raw_line@,
            },
            VCardError::InvalidName { actual_name, raw_line } => ErrorView::InvalidName {
                actual_name: actual_name@,
                raw_line: raw_line@,
            },
            VCardError::UnknownType { given_type } => ErrorView::UnknownType {
                given_type: given_type@,
            },
            VCardError::InvalidPID { provided } => ErrorView::InvalidPID { provided: provided@ },
            VCardError::InvalidVersion(v) => ErrorView::InvalidVersion(v@),
            VCardError::InvalidGenderError(g) => ErrorView::InvalidGender(g@),
            VCardError::UrlParseError { raw_url, original_error } => ErrorView::UrlParse {
                raw_url: raw_url@,
                reason: original_error,
            },
            VCardError::UnknownParameter(p) => ErrorView::UnknownParameter(p@),
            VCardError::MaxLineLengthExceeded(n) => ErrorView::MaxLineLengthExceeded(n),
            VCardError::InvalidBeginProperty => ErrorView::InvalidBeginProperty,
            VCardError::InvalidVersionProperty => ErrorView::InvalidVersionProperty,
            VCardError::InvalidEndProperty => ErrorView::InvalidEndProperty,
            VCardError::InvalidCardinality { expected, property } => ErrorView::InvalidCardinality {
                expected,
                property: property@,
            },
            VCardError::InvalidAltID { expected_altid, actual_altid } => ErrorView::InvalidAltID {
                expected_altid: expected_altid@,
                actual_altid: actual_altid@,
            },
            VCardError::InvalidSyntax { message, property } => ErrorView::InvalidSyntax {
                message: message@,
                property: property@,
            },
        }
    }
}

/// What a fallible step produced, as mathematical values.
pub open spec fn outcome<T: View>(r: Result<T, VCardError>) -> Result<T::V, ErrorView> {
    match r {
        Ok(t) => Ok(t@),
        Err(e) => Err(e@),
    }
}

} // verus!
