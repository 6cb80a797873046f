//! The errors of the crate.

use url::ParseError;
use vstd::prelude::*;
use vstd::std_specs::convert::FromSpecImpl;
use crate::status::CommandResponseCode;

verus! {

/// The error that the `url` crate reports for an address it cannot read.
/// Nothing is known of a value of it but which value it is: it is carried
/// to the caller as it came.
#[verifier::external_type_specification]
#[verifier::external_body]
pub struct ExParseError(ParseError);

/// Any error case exposed by this crate.
#[derive(Debug, PartialEq, Eq)]
pub enum Error {
    /// The link to the camera failed while a frame or a request was sent.
    TransportError,
    /// A notification is shorter than a response can be.
    MalformedFrame,
    /// A command with its parameters does not fit into one write.
    FrameTooLarge,
    /// The same command is still waiting for its response.
    CommandAlreadyInFlight,
    /// No response arrived in the time allowed.
    Timeout,
    /// The camera answered with a status other than success.
    DeviceRejected(CommandResponseCode),
    /// The notification stream ended while the call was waiting.
    ConnectionClosed,
    /// The base address is no URL.
    UrlParse(ParseError),
    /// The base address is a URL that cannot carry a port.
    BadBaseUrl { base: String },
}

impl From<ParseError> for Error {
    fn from(source: ParseError) -> (error: Self) {
        Error::UrlParse(source)
    }
}

impl FromSpecImpl<ParseError> for Error {
    open spec fn obeys_from_spec() -> bool {
        true
    }

    open spec fn from_spec(source: ParseError) -> Self {
        Error::UrlParse(source)
    }
}

} // verus!
