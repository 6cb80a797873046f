//! The dispatcher: what to do with each notification that the camera sends.
//!
//! One task for each connection pulls the notifications and hands them to
//! `dispatch`, one by one. Nothing that arrives ends that task: a frame that
//! cannot be read, or that nobody waits for, is reported and passed over.
//! When the stream ends the task calls `shutdown`.

use vstd::prelude::*;
use crate::ble::COMMAND_RESP_CHARACTERISTIC;
use crate::codec::{decode, decoded, FrameView, NotificationFrame, Opcode};
use crate::command::CommandID;
use crate::registry::{Delivery, Registry};

verus! {

/// What the dispatcher does with one notification.
pub enum Dispatch<S> {
    /// A caller waits for this response: send `frame` on `channel`.
    Delivered { channel: S, frame: NotificationFrame },
    /// A response that nobody waits for. The camera also reports on its own
    /// account, so this is no error.
    Orphaned { frame: NotificationFrame },
    /// The notification is too short to be a response.
    Malformed,
    /// The notification came from a characteristic other than the one that
    /// answers commands.
    Foreign,
}

/// What a `Dispatch` holds.
pub enum DispatchView<S> {
    Delivered { channel: S, frame: FrameView },
    Orphaned { frame: FrameView },
    Malformed,
    Foreign,
}

impl<S> View for Dispatch<S> {
    type V = DispatchView<S>;

    open spec fn view(&self) -> DispatchView<S> {
        match *self {
            Dispatch::Delivered { channel, frame } => DispatchView::Delivered {
                channel,
                frame: frame@,
            },
            Dispatch::Orphaned { frame } => DispatchView::Orphaned { frame: frame@ },
            Dispatch::Malformed => DispatchView::Malformed,
            Dispatch::Foreign => DispatchView::Foreign,
        }
    }
}

/// The command whose caller a notification is meant for, if it is a
/// response to a command of this crate.
pub open spec fn addressee(endpoint: u128, raw: Seq<u8>) -> Option<CommandID> {
    if endpoint != COMMAND_RESP_CHARACTERISTIC {
        None
    } else {
        match decoded(raw) {
            Some(frame) => match frame.command {
                Opcode::Known(command) => Some(command),
                Opcode::Unrecognized(_) => None,
            },
            None => None,
        }
    }
}

/// What is done with a notification while `pending` holds the waiting calls.
pub open spec fn routing<S>(pending: Map<CommandID, S>, endpoint: u128, raw: Seq<u8>)
    -> DispatchView<S> {
    if endpoint != COMMAND_RESP_CHARACTERISTIC {
        DispatchView::Foreign
    } else {
        match decoded(raw) {
            None => DispatchView::Malformed,
            Some(frame) => match addressee(endpoint, raw) {
                Some(command) if pending.contains_key(command) => DispatchView::Delivered {
                    channel: pending[command],
                    frame,
                },
                _ => DispatchView::Orphaned { frame },
            },
        }
    }
}

/// The waiting calls after a notification: the one it answers has left.
pub open spec fn after_dispatch<S>(pending: Map<CommandID, S>, endpoint: u128, raw: Seq<u8>)
    -> Map<CommandID, S> {
    match addressee(endpoint, raw) {
        Some(command) => pending.remove(command),
        None => pending,
    }
}

/// Decides what to do with one notification, `raw`, that arrived from the
/// characteristic `endpoint`, and takes the call that it answers out of the
/// registry.
pub fn dispatch<S>(registry: &mut Registry<S>, endpoint: u128, raw: &[u8]) -> (outcome: Dispatch<S>)
    ensures
        outcome@ == routing(old(registry)@, endpoint, raw@),
        final(registry)@ == after_dispatch(old(registry)@, endpoint, raw@),
{
    if endpoint != COMMAND_RESP_CHARACTERISTIC {
        return Dispatch::Foreign;
    }
    match decode(raw) {
        Err(_) => Dispatch::Malformed,
        Ok(frame) => match frame.command {
            Opcode::Known(command) => match registry.deliver(command, frame) {
                Delivery::Delivered { channel, frame } => Dispatch::Delivered { channel, frame },
                Delivery::Orphaned { frame } => Dispatch::Orphaned { frame },
            },
            Opcode::Unrecognized(_) => Dispatch::Orphaned { frame },
        },
    }
}

/// Ends the dispatcher when the notification stream has ended: every call
/// that still waits is forgotten and its channel dropped, so that each
/// caller sees its channel close instead of waiting for ever.
pub fn shutdown<S>(registry: &mut Registry<S>)
    ensures
        final(registry)@ == Map::<CommandID, S>::empty(),
{
    registry.clear();
}

/// A notification that answers no waiting call leaves every waiting call as
/// it was, and nothing is delivered.
pub proof fn lemma_orphan_leaves_calls_alone<S>(
    pending: Map<CommandID, S>,
    endpoint: u128,
    raw: Seq<u8>,
)
    requires
        addressee(endpoint, raw) matches Some(command) ==> !pending.contains_key(command),
    ensures
        after_dispatch(pending, endpoint, raw) == pending,
        !(routing(pending, endpoint, raw) is Delivered),
{
}

/// Whatever arrives, a call for another command than the one that the
/// notification answers stays in the registry with its channel.
pub proof fn lemma_dispatch_keeps_other_calls<S>(
    pending: Map<CommandID, S>,
    endpoint: u128,
    raw: Seq<u8>,
    other: CommandID,
)
    requires
        pending.contains_key(other),
        addressee(endpoint, raw) != Some(other),
    ensures
        after_dispatch(pending, endpoint, raw).contains_key(other),
        after_dispatch(pending, endpoint, raw)[other] == pending[other],
        routing(pending, endpoint, raw) matches DispatchView::Delivered { channel, .. }
            ==> channel == pending[addressee(endpoint, raw).unwrap()],
{
}

} // verus!
