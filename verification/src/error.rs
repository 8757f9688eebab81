//! What can end a run before the record is known to be right.

use vstd::prelude::*;
use vstd::string::*;

verus! {

/// Why a run failed. Every failure is final: nothing is retried.
#[derive(Debug, Clone, Copy, PartialEq, Eq, Structural)]
pub enum Error {
    /// A request could not be completed.
    Network,
    /// The provider answered with `status` where another was owed.
    UnexpectedStatus { status: u16 },
    /// The provider's answer is not a list of records.
    MalformedResponse,
    /// The provider returned more than one record for the name.
    AmbiguousRecord,
    /// The record under the name is not an address record.
    WrongRecordType,
    /// The record does not hold exactly one value.
    MultipleValues,
    /// The configuration file is not a valid configuration.
    ConfigParse,
}

impl Error {
    /// The text of `message`.
    pub open spec fn message_text(self) -> Seq<char> {
        match self {
            Error::Network => "Request failed"@,
            Error::UnexpectedStatus { .. } => "Unexpected status code"@,
            Error::MalformedResponse => "Could not parse response"@,
            Error::AmbiguousRecord => "Non unique record received"@,
            Error::WrongRecordType => "Record is not an alias"@,
            Error::MultipleValues => "Multiple values for record"@,
            Error::ConfigParse => "Could not parse config"@,
        }
    }

    /// A line that names the failure to a person.
    pub fn message(&self) -> (text: String)
        ensures
            text@ == self.message_text(),
    {
        match self {
            Error::Network => String::from_str("Request failed"),
            Error::UnexpectedStatus { .. } => String::from_str("Unexpected status code"),
            Error::MalformedResponse => String::from_str("Could not parse response"),
            Error::AmbiguousRecord => String::from_str("Non unique record received"),
            Error::WrongRecordType => String::from_str("Record is not an alias"),
            Error::MultipleValues => String::from_str("Multiple values for record"),
            Error::ConfigParse => String::from_str("Could not parse config"),
        }
    }
}

} // verus!
