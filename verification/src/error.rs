//! The errors that reading and writing a document can end in.

use vstd::prelude::*;
use vstd::string::StringExecFns;

verus! {

/// What went wrong while a document was read or written.
///
/// The variants that carry an `Option<String>` hold a hint for the reader of
/// the message; without one the variant's standard sentence is used.
#[derive(Clone, Debug, PartialEq)]
pub enum Error {
    /// A message made by the data structure that was being read or written.
    Message(String),
    /// A node that stands for no shape a caller can ask for.
    InvalidType,
    ExpectedIdentifier,
    Eof,
    /// The text is no valid document; the string is the parser's message.
    Syntax(String),
    ExpectedBytes,
    ExpectedBoolean(Option<String>),
    ExpectedInteger(Option<String>),
    ExpectedFloat(Option<String>),
    ExpectedChar(Option<String>),
    ExpectedString(Option<String>),
    ExpectedNull,
    ExpectedArray(Option<String>),
    ExpectedArrayComma,
    ExpectedArrayEnd,
    ExpectedMap(Option<String>),
    ExpectedMapColon,
    ExpectedMapComma,
    ExpectedMapEnd,
    ExpectedEnum,
    UnitNotSupported,
    /// An object block without a value.
    ExpectedObjectValue,
    TrailingCharacters,
    ExpectedUnitVariant,
}

/// The hint where there is one, the standard sentence otherwise.
pub open spec fn hint_or(hint: Option<String>, standard: Seq<char>) -> Seq<char> {
    match hint {
        Some(text) => text@,
        None => standard,
    }
}

/// The message text: the hint `msg_option` if it is there, else `msg_default`.
pub fn write_error(msg_option: &Option<String>, msg_default: &str) -> (text: String)
    ensures
        text@ == hint_or(*msg_option, msg_default@),
{
    match msg_option {
        Some(msg_value) => msg_value.clone(),
        None => String::from_str(msg_default),
    }
}

impl Error {
    /// The sentence that describes this error.
    pub open spec fn text(self) -> Seq<char> {
        match self {
            Error::Syntax(msg) => 
                "Input text does not have a valid Gura format. Parsing failed with error \""@
                    + msg@ + "\""@,
            Error::Message(msg) => msg@,
            Error::Eof => "Unexpected end of input"@,
            Error::UnitNotSupported => "Unit values are not supported in Gura"@,
            Error::ExpectedBytes => "Expected byte sequence"@,
            Error::ExpectedBoolean(hint) => hint_or(hint, "Expected boolean"@),
            Error::ExpectedInteger(hint) => hint_or(hint, "Expected integer"@),
            Error::ExpectedFloat(hint) => hint_or(
                hint,
                "Expected float: perhaps you forgot decimal fractional part (no implicit conversion between int and float, see https://gura.netlify.app/docs/spec#float)"@,
            ),
            Error::ExpectedChar(hint) => hint_or(hint, "Expected char"@),
            Error::ExpectedString(hint) => hint_or(hint, "Expected string"@),
            Error::ExpectedNull => "Expected null value"@,
            Error::ExpectedArray(hint) => hint_or(hint, "Expected array"@),
            Error::ExpectedArrayEnd => "Expected array end"@,
            Error::ExpectedMap(hint) => hint_or(hint, "Expected map"@),
            Error::ExpectedMapColon => "Expected colon at map"@,
            Error::ExpectedMapComma => "Expected comma at map"@,
            Error::ExpectedMapEnd => "Expected map end"@,
            Error::ExpectedEnum => "Expected enum value"@,
            Error::ExpectedObjectValue => "Expected not empty object block"@,
            Error::TrailingCharacters => "Invalid trailing characters"@,
            Error::ExpectedUnitVariant => "Expected unit variant at enum"@,
            Error::ExpectedArrayComma => "Expected comma at array"@,
            Error::InvalidType => "Invalid type"@,
            Error::ExpectedIdentifier => "Expected identifier"@,
        }
    }

    /// An error that carries a message of the caller's own.
    pub fn custom(msg: &str) -> (error: Error)
        ensures
            error matches Error::Message(text) && text@ == msg@,
    {
        Error::Message(String::from_str(msg))
    }

    /// The sentence that describes this error, as an owned string.
    pub fn message(&self) -> (text: String)
        ensures
            text@ == self.text(),
    {
        match self {
            Error::Syntax(msg) => {
                let head = String::from_str(
                    "Input text does not have a valid Gura format. Parsing failed with error \"",
                );
                head.concat(msg.as_str()).concat("\"")
            },
            Error::Message(msg) => msg.clone(),
            Error::Eof => String::from_str("Unexpected end of input"),
            Error::UnitNotSupported => String::from_str("Unit values are not supported in Gura"),
            Error::ExpectedBytes => String::from_str("Expected byte sequence"),
            Error::ExpectedBoolean(msg) => write_error(msg, "Expected boolean"),
            Error::ExpectedInteger(msg) => write_error(msg, "Expected integer"),
            Error::ExpectedFloat(msg) => write_error(
                msg,
                "Expected float: perhaps you forgot decimal fractional part (no implicit conversion between int and float, see https://gura.netlify.app/docs/spec#float)",
            ),
            Error::ExpectedChar(msg) => write_error(msg, "Expected char"),
            Error::ExpectedString(msg) => write_error(msg, "Expected string"),
            Error::ExpectedNull => String::from_str("Expected null value"),
            Error::ExpectedArray(msg) => write_error(msg, "Expected array"),
            Error::ExpectedArrayEnd => String::from_str("Expected array end"),
            Error::ExpectedMap(msg) => write_error(msg, "Expected map"),
            Error::ExpectedMapColon => String::from_str("Expected colon at map"),
            Error::ExpectedMapComma => String::from_str("Expected comma at map"),
            Error::ExpectedMapEnd => String::from_str("Expected map end"),
            Error::ExpectedEnum => String::from_str("Expected enum value"),
            Error::ExpectedObjectValue => String::from_str("Expected not empty object block"),
            Error::TrailingCharacters => String::from_str("Invalid trailing characters"),
            Error::ExpectedUnitVariant => String::from_str("Expected unit variant at enum"),
            Error::ExpectedArrayComma => String::from_str("Expected comma at array"),
            Error::InvalidType => String::from_str("Invalid type"),
            Error::ExpectedIdentifier => String::from_str("Expected identifier"),
        }
    }
}

} // verus!
