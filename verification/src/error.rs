//! What can go wrong while a client is set up.

use log::SetLoggerError;
use vstd::prelude::*;
use vstd::std_specs::convert::FromSpecImpl;

verus! {

/// The error `log` returns when a logger is installed a second time; opaque to
/// the verifier.
#[verifier::external_type_specification]
#[verifier::external_body]
pub struct ExSetLoggerError(SetLoggerError);

/// The errors that may occur when interacting with this library.
#[derive(Debug)]
pub enum Error {
    /// The API key handed to the builder was empty.
    EmptyApiKey,
    /// Another logger had already been installed.
    SetLoggerError(SetLoggerError),
}

/// `<log::SetLoggerError as Display>::fmt`: writes one fixed sentence,
/// whatever the formatter.
#[verifier::external_body]
fn set_logger_error_text(error: &SetLoggerError) -> (text: String)
    ensures
        text@ == "attempted to set a logger after the logging system was already initialized"@,
{
    error.to_string()
}

impl Error {
    /// The sentence that describes the error.
    pub open spec fn spec_message(self) -> Seq<char> {
        match self {
            Error::EmptyApiKey => "API Key cannot be empty"@,
            Error::SetLoggerError(_) =>
                "attempted to set a logger after the logging system was already initialized"@,
        }
    }

    /// The sentence that describes the error.
    pub fn message(&self) -> (text: String)
        ensures
            text@ == self.spec_message(),
    {
        match self {
            Error::EmptyApiKey => "API Key cannot be empty".to_owned(),
            Error::SetLoggerError(e) => set_logger_error_text(e),
        }
    }
}

impl From<SetLoggerError> for Error {
    fn from(value: SetLoggerError) -> (error: Self) {
        Error::SetLoggerError(value)
    }
}

impl FromSpecImpl<SetLoggerError> for Error {
    open spec fn obeys_from_spec() -> bool {
        true
    }

    open spec fn from_spec(value: SetLoggerError) -> Self {
        Error::SetLoggerError(value)
    }
}

} // verus!
