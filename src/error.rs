//! Errors of parsing and of loading metadata.

use vstd::prelude::*;

verus! {

#[verifier::external_type_specification]
#[verifier::external_body]
pub struct ExXmlError(quick_xml::Error);

#[verifier::external_type_specification]
#[verifier::external_body]
pub struct ExUtf8Error(std::str::Utf8Error);

#[verifier::external_type_specification]
#[verifier::external_body]
pub struct ExParseIntError(std::num::ParseIntError);

#[verifier::external_type_specification]
#[verifier::external_body]
pub struct ExParseBoolError(std::str::ParseBoolError);

#[verifier::external_type_specification]
#[verifier::external_body]
pub struct ExIoError(std::io::Error);

#[verifier::external_type_specification]
#[verifier::external_body]
pub struct ExRegexSyntaxError(regex_syntax::Error);

/// Why a phone number could not be parsed.
#[derive(Copy, Clone, Eq, PartialEq, Structural, Debug)]
pub enum Parse {
    /// The text holds no phone number.
    NoNumber,
    /// The country code is not that of a known region or non-geographic entity.
    InvalidCountryCode,
    /// After an international dialing prefix, too few digits were left.
    TooShortAfterIdd,
    /// After the country code, too few digits were left.
    TooShortNsn,
    /// The number has more digits than any phone number has.
    TooLong,
    /// An integer part of the number is malformed.
    MalformedInteger,
}

impl Parse {
    /// A short description of the error.
    pub fn as_str(&self) -> &'static str {
        match self {
            Parse::NoNumber => "not a number",
            Parse::InvalidCountryCode => "invalid country code",
            Parse::TooShortAfterIdd => "the number is too short after IDD",
            Parse::TooShortNsn => "the number is too short after the country code",
            Parse::TooLong => "the number is too long",
            Parse::MalformedInteger => "malformed integer part in phone number",
        }
    }
}

/// A defect in the structure of metadata.
#[derive(Clone, Debug)]
pub enum Metadata {
    /// The end of the input was reached before the metadata was complete.
    UnexpectedEof,
    /// A closing tag did not match the open element.
    MismatchedTag(String),
    /// A required value was missing.
    MissingValue { phase: String, name: String },
    /// An element was not handled.
    UnhandledElement { phase: String, name: String },
    /// An attribute was not handled.
    UnhandledAttribute { phase: String, name: String, value: String },
    /// An event was not handled.
    UnhandledEvent { phase: String, event: String },
}

/// Why metadata could not be loaded.
#[derive(Debug)]
pub enum LoadMetadata {
    /// The XML is malformed.
    Xml(quick_xml::Error),
    /// A string in the XML is not UTF-8.
    Utf8(std::str::Utf8Error),
    /// The metadata is malformed.
    Metadata(Metadata),
    /// An integer in the metadata is malformed.
    Integer(std::num::ParseIntError),
    /// A boolean in the metadata is malformed.
    Bool(std::str::ParseBoolError),
    /// Reading the metadata failed.
    Io(std::io::Error),
    /// A pattern in the metadata does not compile.
    Regex(regex::Error),
    /// A pattern in the metadata is not well formed.
    RegexSyntax(regex_syntax::Error),
}

} // verus!
