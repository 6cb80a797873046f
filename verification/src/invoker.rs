//! The invoker: one command from the call to its result.
//!
//! A call has three steps. `invoke` enters it in the registry and lays out
//! the frame. The driver writes the frame and waits on the channel, no
//! longer than the caller allows. `complete` then takes what came of that,
//! as a `Completion`, and gives the result of the call.

use vstd::prelude::*;
use crate::codec::{encode, encoded, fits, FrameView, NotificationFrame};
use crate::command::CommandID;
use crate::dispatcher::{addressee, after_dispatch, routing, DispatchView};
use crate::error::Error;
use crate::registry::Registry;
use crate::status::CommandResponseCode;

verus! {

/// What came of a call after `invoke` has entered it.
#[derive(Debug, PartialEq, Eq)]
pub enum Completion {
    /// The frame could not be written.
    WriteFailed,
    /// The dispatcher sent this frame on the channel of the call.
    Response(NotificationFrame),
    /// The time allowed ran out with nothing on the channel.
    TimedOut,
    /// The channel closed with nothing on it.
    Closed,
}

/// What a `Completion` holds.
pub enum CompletionView {
    WriteFailed,
    Response(FrameView),
    TimedOut,
    Closed,
}

impl View for Completion {
    type V = CompletionView;

    open spec fn view(&self) -> CompletionView {
        match *self {
            Completion::WriteFailed => CompletionView::WriteFailed,
            Completion::Response(frame) => CompletionView::Response(frame@),
            Completion::TimedOut => CompletionView::TimedOut,
            Completion::Closed => CompletionView::Closed,
        }
    }
}

/// What `invoke` returns while `pending` holds the waiting calls: the frame
/// to write, or the reason why the call cannot start. A command that waits
/// already is refused before anything else is looked at.
pub open spec fn invoke_result<S>(
    pending: Map<CommandID, S>,
    command: CommandID,
    parameters: Seq<u8>,
) -> Result<Seq<u8>, Error> {
    if pending.contains_key(command) {
        Err(Error::CommandAlreadyInFlight)
    } else if !fits(parameters) {
        Err(Error::FrameTooLarge)
    } else {
        Ok(encoded(command, parameters))
    }
}

/// The waiting calls after `invoke`: the new call has joined them if, and
/// only if, it could start.
pub open spec fn after_invoke<S>(
    pending: Map<CommandID, S>,
    command: CommandID,
    parameters: Seq<u8>,
    channel: S,
) -> Map<CommandID, S> {
    if invoke_result(pending, command, parameters) is Ok {
        pending.insert(command, channel)
    } else {
        pending
    }
}

/// What a response means to the caller: its payload if the camera reports
/// success, else the status that the camera reports.
pub open spec fn resolved(frame: FrameView) -> Result<Seq<u8>, Error> {
    if frame.status is Success {
        Ok(frame.payload)
    } else {
        Err(Error::DeviceRejected(frame.status))
    }
}

/// The result of a call, given what came of it.
pub open spec fn complete_result(completion: CompletionView) -> Result<Seq<u8>, Error> {
    match completion {
        CompletionView::WriteFailed => Err(Error::TransportError),
        CompletionView::Response(frame) => resolved(frame),
        CompletionView::TimedOut => Err(Error::Timeout),
        CompletionView::Closed => Err(Error::ConnectionClosed),
    }
}

/// The waiting calls after `complete`: a call whose frame was not written,
/// or whose time ran out, has left. A call that was answered, or whose
/// channel closed, had left before.
pub open spec fn after_complete<S>(
    pending: Map<CommandID, S>,
    command: CommandID,
    completion: CompletionView,
) -> Map<CommandID, S> {
    match completion {
        CompletionView::WriteFailed | CompletionView::TimedOut => pending.remove(command),
        CompletionView::Response(_) | CompletionView::Closed => pending,
    }
}

/// Whether a `Result` of bytes is the one that a specification names.
pub open spec fn same_result(got: Result<Vec<u8>, Error>, wanted: Result<Seq<u8>, Error>) -> bool {
    match got {
        Ok(bytes) => wanted == Ok::<Seq<u8>, Error>(bytes@),
        Err(e) => wanted == Err::<Seq<u8>, Error>(e),
    }
}

/// Starts a call: enters `command` in the registry with the channel on
/// which its caller will wait, and returns the frame to write to the camera.
///
/// Fails with `CommandAlreadyInFlight` if a call for `command` waits
/// already, else with `FrameTooLarge` if `parameters` do not fit into one
/// write. A call that fails leaves the registry as it was.
pub fn invoke<S>(
    registry: &mut Registry<S>,
    command: CommandID,
    parameters: &[u8],
    channel: S,
) -> (frame: Result<Vec<u8>, Error>)
    ensures
        same_result(frame, invoke_result(old(registry)@, command, parameters@)),
        final(registry)@ == after_invoke(old(registry)@, command, parameters@, channel),
{
    if registry.is_pending(command) {
        return Err(Error::CommandAlreadyInFlight);
    }
    let bytes = encode(command, parameters)?;
    match registry.register(command, channel) {
        Ok(()) => Ok(bytes),
        Err(e) => Err(e),
    }
}

/// Reads the result of a call out of its response: the payload where the
/// status is `Success`, else `DeviceRejected` with the status.
pub fn resolve(frame: NotificationFrame) -> (result: Result<Vec<u8>, Error>)
    ensures
        same_result(result, resolved(frame@)),
{
    if frame.status.is_error() {
        Err(Error::DeviceRejected(frame.status))
    } else {
        Ok(frame.payload)
    }
}

/// Ends a call that `invoke` has started, and gives its result.
///
/// A frame that could not be written gives `TransportError`, and time that
/// ran out gives `Timeout`; in both cases the call leaves the registry, so
/// that a response that comes later is nobody's. A channel that closed gives
/// `ConnectionClosed`. A response gives what `resolve` reads from it.
pub fn complete<S>(registry: &mut Registry<S>, command: CommandID, completion: Completion) -> (result:
    Result<Vec<u8>, Error>)
    ensures
        same_result(result, complete_result(completion@)),
        final(registry)@ == after_complete(old(registry)@, command, completion@),
{
    match completion {
        Completion::WriteFailed => {
            registry.cancel(command);
            Err(Error::TransportError)
        },
        Completion::Response(frame) => resolve(frame),
        Completion::TimedOut => {
            registry.cancel(command);
            Err(Error::Timeout)
        },
        Completion::Closed => Err(Error::ConnectionClosed),
    }
}

/// A command that waits already cannot be invoked again: the second call
/// fails with `CommandAlreadyInFlight`, the first keeps its place and its
/// channel, and the response still goes to the first.
pub proof fn lemma_second_invoke_is_refused<S>(
    pending: Map<CommandID, S>,
    command: CommandID,
    parameters: Seq<u8>,
    channel: S,
    raw: Seq<u8>,
    endpoint: u128,
)
    requires
        pending.contains_key(command),
    ensures
        invoke_result(pending, command, parameters) == Err::<Seq<u8>, Error>(
            Error::CommandAlreadyInFlight,
        ),
        after_invoke(pending, command, parameters, channel) == pending,
        routing(after_invoke(pending, command, parameters, channel), endpoint, raw) == routing(
            pending,
            endpoint,
            raw,
        ),
        addressee(endpoint, raw) == Some(command) ==> (routing(
            after_invoke(pending, command, parameters, channel),
            endpoint,
            raw,
        ) matches DispatchView::Delivered { channel: first, .. } && first == pending[command]),
{
}

/// Once a call has timed out, a response to its command is nobody's: it is
/// reported as orphaned and changes nothing.
pub proof fn lemma_late_response_is_orphaned<S>(
    pending: Map<CommandID, S>,
    command: CommandID,
    endpoint: u128,
    raw: Seq<u8>,
)
    requires
        addressee(endpoint, raw) == Some(command),
    ensures
        complete_result(CompletionView::TimedOut) == Err::<Seq<u8>, Error>(Error::Timeout),
        !after_complete(pending, command, CompletionView::TimedOut).contains_key(command),
        routing(after_complete(pending, command, CompletionView::TimedOut), endpoint, raw)
            is Orphaned,
        after_dispatch(after_complete(pending, command, CompletionView::TimedOut), endpoint, raw)
            == after_complete(pending, command, CompletionView::TimedOut),
{
}

/// Calls for different commands do not meet: to start or to end a call for
/// one command leaves the call for every other command as it was.
pub proof fn lemma_other_commands_are_untouched<S>(
    pending: Map<CommandID, S>,
    command: CommandID,
    parameters: Seq<u8>,
    channel: S,
    completion: CompletionView,
    other: CommandID,
)
    requires
        other != command,
    ensures
        after_invoke(pending, command, parameters, channel).contains_key(other)
            == pending.contains_key(other),
        after_complete(pending, command, completion).contains_key(other) == pending.contains_key(
            other,
        ),
        pending.contains_key(other) ==> after_invoke(pending, command, parameters, channel)[other]
            == pending[other] && after_complete(pending, command, completion)[other]
            == pending[other],
{
}

} // verus!
