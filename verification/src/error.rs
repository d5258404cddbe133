//! The failures that end a polling session before it has an outcome.

use vstd::prelude::*;

verus! {

/// Why a response of the service could not be used.
#[derive(Clone, Copy, Debug, PartialEq, Eq, Structural)]
pub enum DecodeError {
    /// The body is not a JSON document.
    Syntax,
    /// The body is a JSON document of another shape than a status report.
    Schema,
    /// The first endpoint reports a grade that is not a known grade.
    Grade,
}

/// What to tell the user of each failure.
pub open spec fn decode_error_text(error: DecodeError) -> Seq<char> {
    match error {
        DecodeError::Syntax => "the response is not a JSON document"@,
        DecodeError::Schema => "the response is not a status report"@,
        DecodeError::Grade => "the endpoint reports an unknown grade"@,
    }
}

impl DecodeError {
    /// What to tell the user of this failure.
    pub fn describe(&self) -> (text: &'static str)
        ensures
            text@ == decode_error_text(*self),
    {
        match self {
            DecodeError::Syntax => "the response is not a JSON document",
            DecodeError::Schema => "the response is not a status report",
            DecodeError::Grade => "the endpoint reports an unknown grade",
        }
    }
}

/// The domain to analyse is not a valid domain name.
#[derive(Clone, Copy, Debug, PartialEq, Eq, Structural)]
pub struct DomainError;

} // verus!
