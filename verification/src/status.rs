//! The status byte of a response.

use vstd::prelude::*;
use vstd::std_specs::convert::FromSpecImpl;

verus! {

/// What the camera says of a command it has handled.
#[derive(Clone, Copy, Debug, PartialEq, Eq, Structural)]
pub enum CommandResponseCode {
    Success,
    Error,
    InvalidParameter,
    /// A status byte that the protocol does not define, kept as it arrived.
    Unrecognized(u8),
}

impl CommandResponseCode {
    /// The status that a byte on the wire stands for.
    pub open spec fn of_byte(value: u8) -> CommandResponseCode {
        if value == 0 {
            CommandResponseCode::Success
        } else if value == 1 {
            CommandResponseCode::Error
        } else if value == 2 {
            CommandResponseCode::InvalidParameter
        } else {
            CommandResponseCode::Unrecognized(value)
        }
    }

    /// The byte that stands for this status on the wire.
    pub open spec fn spec_byte(&self) -> u8 {
        match *self {
            CommandResponseCode::Success => 0,
            CommandResponseCode::Error => 1,
            CommandResponseCode::InvalidParameter => 2,
            CommandResponseCode::Unrecognized(raw) => raw,
        }
    }

    /// `Unrecognized` never carries a byte that the protocol defines.
    pub open spec fn wf(self) -> bool {
        self matches CommandResponseCode::Unrecognized(raw) ==> raw > 2
    }

    /// Everything but `Success` is a failure.
    pub open spec fn spec_is_error(&self) -> bool {
        !(*self is Success)
    }

    #[verifier::when_used_as_spec(spec_is_error)]
    pub fn is_error(&self) -> (failed: bool)
        ensures
            failed == self.spec_is_error(),
    {
        match self {
            CommandResponseCode::Success => false,
            _ => true,
        }
    }

    #[verifier::when_used_as_spec(spec_byte)]
    pub fn byte(&self) -> (raw: u8)
        ensures
            raw == self.spec_byte(),
    {
        match self {
            CommandResponseCode::Success => 0,
            CommandResponseCode::Error => 1,
            CommandResponseCode::InvalidParameter => 2,
            CommandResponseCode::Unrecognized(raw) => *raw,
        }
    }
}

impl From<u8> for CommandResponseCode {
    fn from(value: u8) -> (status: Self) {
        if value == 0 {
            CommandResponseCode::Success
        } else if value == 1 {
            CommandResponseCode::Error
        } else if value == 2 {
            CommandResponseCode::InvalidParameter
        } else {
            CommandResponseCode::Unrecognized(value)
        }
    }
}

impl FromSpecImpl<u8> for CommandResponseCode {
    open spec fn obeys_from_spec() -> bool {
        true
    }

    open spec fn from_spec(value: u8) -> Self {
        CommandResponseCode::of_byte(value)
    }
}

/// Every byte is classified to a well-formed status that encodes back to it.
pub proof fn lemma_status_of_byte(value: u8)
    ensures
        CommandResponseCode::of_byte(value).wf(),
        CommandResponseCode::of_byte(value).spec_byte() == value,
        CommandResponseCode::of_byte(value).spec_is_error() <==> value != 0,
{
}

/// A well-formed status is the classification of its own byte.
pub proof fn lemma_status_byte_round_trip(status: CommandResponseCode)
    requires
        status.wf(),
    ensures
        CommandResponseCode::of_byte(status.spec_byte()) == status,
{
}

} // verus!
