//! The layout of command frames and of the notifications that answer them.
//!
//! A command frame is `[length, opcode, parameter length, parameters..]`,
//! where `length` counts the bytes that follow it. A response is
//! `[length, opcode, status, payload..]`.

use vstd::prelude::*;
use crate::command::{lemma_of_opcode_inverts, CommandID};
use crate::error::Error;
use crate::status::CommandResponseCode;

verus! {

/// The most bytes that one write to the camera carries.
pub const MAX_FRAME_LEN: usize = 20;

/// The bytes of a command frame before its parameters: length, opcode and
/// parameter length.
pub const COMMAND_HEADER_LEN: usize = 3;

/// The bytes that every response has: length, opcode and status.
pub const MIN_RESPONSE_LEN: usize = 3;

/// The command that a notification names.
#[derive(Clone, Copy, Debug, PartialEq, Eq, Structural)]
pub enum Opcode {
    Known(CommandID),
    /// An opcode of no command of this crate, kept as it arrived.
    Unrecognized(u8),
}

impl Opcode {
    /// The command that an opcode byte stands for.
    pub open spec fn of_byte(value: u8) -> Opcode {
        match CommandID::of_opcode(value) {
            Some(command) => Opcode::Known(command),
            None => Opcode::Unrecognized(value),
        }
    }

    /// The byte that was, or would be, on the wire.
    pub open spec fn spec_byte(&self) -> u8 {
        match *self {
            Opcode::Known(command) => command.spec_opcode(),
            Opcode::Unrecognized(raw) => raw,
        }
    }

    /// `Unrecognized` never carries the opcode of a command.
    pub open spec fn wf(&self) -> bool {
        *self matches Opcode::Unrecognized(raw) ==> !CommandID::is_opcode(raw)
    }

    pub fn from_byte(value: u8) -> (opcode: Opcode)
        ensures
            opcode == Opcode::of_byte(value),
            opcode.wf(),
            opcode.spec_byte() == value,
    {
        match CommandID::try_from(value) {
            Ok(command) => Opcode::Known(command),
            Err(_) => Opcode::Unrecognized(value),
        }
    }

    #[verifier::when_used_as_spec(spec_byte)]
    pub fn byte(&self) -> (raw: u8)
        ensures
            raw == self.spec_byte(),
    {
        match self {
            Opcode::Known(command) => command.opcode(),
            Opcode::Unrecognized(raw) => *raw,
        }
    }
}

/// A response as the dispatcher reads it.
#[derive(Debug, PartialEq, Eq)]
pub struct NotificationFrame {
    pub command: Opcode,
    pub status: CommandResponseCode,
    pub payload: Vec<u8>,
}

/// What a `NotificationFrame` holds.
pub struct FrameView {
    pub command: Opcode,
    pub status: CommandResponseCode,
    pub payload: Seq<u8>,
}

impl View for NotificationFrame {
    type V = FrameView;

    open spec fn view(&self) -> FrameView {
        FrameView { command: self.command, status: self.status, payload: self.payload@ }
    }
}

/// Whether a command with these parameters fits into one write.
pub open spec fn fits(parameters: Seq<u8>) -> bool {
    COMMAND_HEADER_LEN + parameters.len() <= MAX_FRAME_LEN
}

/// The frame that carries a command.
pub open spec fn encoded(command: CommandID, parameters: Seq<u8>) -> Seq<u8> {
    seq![(parameters.len() + 2) as u8, command.spec_opcode(), parameters.len() as u8] + parameters
}

/// A response as the camera lays it out.
pub open spec fn response(length: u8, opcode: u8, status: u8, payload: Seq<u8>) -> Seq<u8> {
    seq![length, opcode, status] + payload
}

/// What a notification says, where it is long enough to say anything.
pub open spec fn decoded(raw: Seq<u8>) -> Option<FrameView> {
    if raw.len() < MIN_RESPONSE_LEN {
        None
    } else {
        Some(
            FrameView {
                command: Opcode::of_byte(raw[1]),
                status: CommandResponseCode::of_byte(raw[2]),
                payload: raw.subrange(MIN_RESPONSE_LEN as int, raw.len() as int),
            },
        )
    }
}

/// Lays a command out for the wire. Fails with `FrameTooLarge`, and only
/// then, when the frame would be longer than one write.
pub fn encode(command: CommandID, parameters: &[u8]) -> (frame: Result<Vec<u8>, Error>)
    ensures
        match frame {
            Ok(bytes) => fits(parameters@) && bytes@ == encoded(command, parameters@),
            Err(e) => !fits(parameters@) && e == Error::FrameTooLarge,
        },
{
    let count: usize = parameters.len();
    if count > MAX_FRAME_LEN - COMMAND_HEADER_LEN {
        return Err(Error::FrameTooLarge);
    }
    let mut bytes: Vec<u8> = Vec::new();
    bytes.push((count + 2) as u8);
    bytes.push(command.opcode());
    bytes.push(count as u8);
    let mut i: usize = 0;
    while i < count
        invariant
            i <= count,
            count == parameters@.len(),
            bytes@ == encoded(command, parameters@).subrange(0, 3 + i),
        decreases count - i,
    {
        bytes.push(parameters[i]);
        i = i + 1;
    }
    Ok(bytes)
}

/// Reads a notification. Fails with `MalformedFrame`, and only then, when
/// the buffer is shorter than a response can be. An opcode or a status that
/// the protocol does not define is kept in its `Unrecognized` variant.
pub fn decode(raw: &[u8]) -> (frame: Result<NotificationFrame, Error>)
    ensures
        match frame {
            Ok(read) => decoded(raw@) == Some(read@) && read.command.wf() && read.status.wf(),
            Err(e) => decoded(raw@) is None && e == Error::MalformedFrame,
        },
{
    let count: usize = raw.len();
    if count < MIN_RESPONSE_LEN {
        return Err(Error::MalformedFrame);
    }
    let command = Opcode::from_byte(raw[1]);
    let status = CommandResponseCode::from(raw[2]);
    let mut payload: Vec<u8> = Vec::new();
    let mut i: usize = MIN_RESPONSE_LEN;
    while i < count
        invariant
            MIN_RESPONSE_LEN <= i <= count,
            count == raw@.len(),
            payload@ == raw@.subrange(MIN_RESPONSE_LEN as int, i as int),
        decreases count - i,
    {
        payload.push(raw[i]);
        i = i + 1;
    }
    Ok(NotificationFrame { command, status, payload })
}

/// A response that echoes the opcode of an encoded command is read back as
/// a response to that command, with the status that its status byte stands
/// for and with its payload, whatever its length byte says.
pub proof fn lemma_response_names_its_command(
    command: CommandID,
    parameters: Seq<u8>,
    length: u8,
    status: u8,
    payload: Seq<u8>,
)
    ensures
        decoded(response(length, encoded(command, parameters)[1], status, payload)) == Some(
            FrameView {
                command: Opcode::Known(command),
                status: CommandResponseCode::of_byte(status),
                payload,
            },
        ),
        CommandResponseCode::of_byte(status).spec_byte() == status,
        CommandResponseCode::of_byte(status) is Success <==> status == 0,
{
    lemma_of_opcode_inverts(command);
    let raw = response(length, encoded(command, parameters)[1], status, payload);
    assert(raw.subrange(MIN_RESPONSE_LEN as int, raw.len() as int) == payload);
}

} // verus!
