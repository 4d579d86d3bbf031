//! The counter's self-reported last error.

use vstd::prelude::*;

verus! {

/// Error code as the device layer decodes it from the counter's reply.
#[derive(Clone, Copy, Debug, PartialEq, Eq, Structural)]
pub enum ErrorCode {
    /// No error was encountered
    NoError,
    /// Unknown command received
    UnknownCommand,
    /// A reset had to occur
    ResetOccurred,
    /// The command to fetch the last error failed
    CommandError,
    /// Catch all for future error values
    UnknownError,
}

/// Error variants which can be returned by the radiation counter,
/// as the command surface reports them.
#[derive(Clone, Copy, Debug, PartialEq, Eq, Structural)]
pub enum Error {
    /// No error was encountered
    NoError,
    /// Unknown command received
    UnknownCommand,
    /// A reset had to occur
    ResetOccurred,
    /// The command to fetch the last error failed
    CommandError,
    /// Catch all for future error values
    UnknownError,
}

/// The reported variant that stands for a device error code.
pub open spec fn reported(error_code: ErrorCode) -> Error {
    match error_code {
        ErrorCode::NoError => Error::NoError,
        ErrorCode::CommandError => Error::CommandError,
        ErrorCode::ResetOccurred => Error::ResetOccurred,
        ErrorCode::UnknownCommand => Error::UnknownCommand,
        ErrorCode::UnknownError => Error::UnknownError,
    }
}

impl Error {
    /// The number under which the counter's protocol knows this error.
    pub open spec fn spec_value(self) -> u8 {
        match self {
            Error::NoError => 0x00,
            Error::UnknownCommand => 0x01,
            Error::ResetOccurred => 0x02,
            Error::CommandError => 0x03,
            Error::UnknownError => 0x04,
        }
    }

    /// The number under which the counter's protocol knows this error.
    #[verifier::when_used_as_spec(spec_value)]
    pub fn value(self) -> (number: u8)
        ensures
            number == self.spec_value(),
    {
        match self {
            Error::NoError => 0x00,
            Error::UnknownCommand => 0x01,
            Error::ResetOccurred => 0x02,
            Error::CommandError => 0x03,
            Error::UnknownError => 0x04,
        }
    }
}

/// Maps a device error code to the variant that the command surface reports.
pub fn to_error(error_code: ErrorCode) -> (error: Error)
    ensures
        error == reported(error_code),
{
    match error_code {
        ErrorCode::NoError => Error::NoError,
        ErrorCode::CommandError => Error::CommandError,
        ErrorCode::ResetOccurred => Error::ResetOccurred,
        ErrorCode::UnknownCommand => Error::UnknownCommand,
        ErrorCode::UnknownError => Error::UnknownError,
    }
}

impl From<ErrorCode> for Error {
    fn from(error_code: ErrorCode) -> (error: Error) {
        to_error(error_code)
    }
}

impl vstd::std_specs::convert::FromSpecImpl<ErrorCode> for Error {
    open spec fn obeys_from_spec() -> bool {
        true
    }

    open spec fn from_spec(error_code: ErrorCode) -> Error {
        reported(error_code)
    }
}

/// No two device codes are reported as the same variant, and every variant
/// is the report of some code.
pub proof fn lemma_reported_is_one_to_one(a: ErrorCode, b: ErrorCode, e: Error)
    ensures
        reported(a) == reported(b) ==> a == b,
        exists|c: ErrorCode| reported(c) == e,
{
    let c = match e {
        Error::NoError => ErrorCode::NoError,
        Error::UnknownCommand => ErrorCode::UnknownCommand,
        Error::ResetOccurred => ErrorCode::ResetOccurred,
        Error::CommandError => ErrorCode::CommandError,
        Error::UnknownError => ErrorCode::UnknownError,
    };
    assert(reported(c) == e);
}

} // verus!
