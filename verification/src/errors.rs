//! The failures that normalizing a report can end in.

use vstd::prelude::*;

verus! {

/// `chrono::ParseError`, the diagnostic of chrono's date and time parsers.
/// Nothing is known of its contents: a value of it is only carried to the
/// caller.
#[verifier::external_type_specification]
#[verifier::external_body]
pub struct ExParseError(chrono::ParseError);

/// Why a report could not be normalized.
#[derive(Debug, PartialEq, Eq)]
pub enum XunitError {
    /// The deserializer produced no raw document; the text of its
    /// diagnostic is inside.
    Xml(String),
    /// A `timestamp` matched none of the accepted formats; the diagnostic of
    /// the last format tried is inside.
    InvalidDate(chrono::ParseError),
    /// Reserved for a document that the normalizer has no branch for.
    Unknown,
}

impl From<chrono::ParseError> for XunitError {
    /// A diagnostic of chrono's parsers is an invalid date.
    fn from(source: chrono::ParseError) -> (error: XunitError)
        ensures
            error == XunitError::InvalidDate(source),
    {
        XunitError::InvalidDate(source)
    }
}

impl vstd::std_specs::convert::FromSpecImpl<chrono::ParseError> for XunitError {
    open spec fn obeys_from_spec() -> bool {
        true
    }

    open spec fn from_spec(source: chrono::ParseError) -> XunitError {
        XunitError::InvalidDate(source)
    }
}

impl XunitError {
    /// The text that names the class of the failure.
    pub fn message(&self) -> (text: String)
        ensures
            text@ == self.message_text(),
    {
        match self {
            XunitError::Xml(_) => "xml parsing error".to_owned(),
            XunitError::InvalidDate(_) => "Could not parse date".to_owned(),
            XunitError::Unknown => "unknown xUnit error".to_owned(),
        }
    }

    /// The characters of [`XunitError::message`].
    pub open spec fn message_text(&self) -> Seq<char> {
        match self {
            XunitError::Xml(_) => "xml parsing error"@,
            XunitError::InvalidDate(_) => "Could not parse date"@,
            XunitError::Unknown => "unknown xUnit error"@,
        }
    }
}

} // verus!
