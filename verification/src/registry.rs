//! The calls that wait for a response, one at most for each command.
//!
//! A response carries nothing but the opcode of the command it answers, so a
//! command that is waiting cannot be sent again: the registry is what tells
//! which caller a notification belongs to.

use std::collections::HashMap;
use vstd::prelude::*;
use crate::codec::NotificationFrame;
use crate::command::{lemma_opcode_injective, CommandID};
use crate::error::Error;

verus! {

broadcast use vstd::std_specs::hash::group_hash_axioms;

/// The calls in flight, each with the channel that its caller listens on.
/// `S` is the sending half of that channel; the registry owns it until the
/// call is answered or cancelled, and never looks inside.
pub struct Registry<S> {
    calls: HashMap<u8, S>,
}

/// What became of a notification that was offered to the registry.
pub enum Delivery<S> {
    /// A caller was waiting: the frame is to be sent on its channel.
    Delivered { channel: S, frame: NotificationFrame },
    /// Nobody was waiting for this command.
    Orphaned { frame: NotificationFrame },
}

impl<S> Delivery<S> {
    pub open spec fn spec_is_delivered(&self) -> bool {
        *self is Delivered
    }

    #[verifier::when_used_as_spec(spec_is_delivered)]
    pub fn is_delivered(&self) -> (delivered: bool)
        ensures
            delivered == self.spec_is_delivered(),
    {
        match self {
            Delivery::Delivered { .. } => true,
            Delivery::Orphaned { .. } => false,
        }
    }
}

impl<S> View for Registry<S> {
    type V = Map<CommandID, S>;

    /// The waiting commands, each with its channel.
    closed spec fn view(&self) -> Map<CommandID, S> {
        Map::new(
            |command: CommandID| self.calls@.contains_key(command.spec_opcode()),
            |command: CommandID| self.calls@[command.spec_opcode()],
        )
    }
}

impl<S> Registry<S> {
    /// A registry in which nothing waits.
    pub fn new() -> (registry: Self)
        ensures
            registry@ == Map::<CommandID, S>::empty(),
    {
        Registry { calls: HashMap::new() }
    }

    /// Whether a call for `command` is waiting.
    pub fn is_pending(&self, command: CommandID) -> (pending: bool)
        ensures
            pending == self@.contains_key(command),
    {
        let key: u8 = command.opcode();
        self.calls.contains_key(&key)
    }

    /// Enters a call for `command`. Fails with `CommandAlreadyInFlight`, and
    /// only then, when one is waiting already; the registry is then left as
    /// it was and `channel` is dropped.
    pub fn register(&mut self, command: CommandID, channel: S) -> (entered: Result<(), Error>)
        ensures
            match entered {
                Ok(()) => !old(self)@.contains_key(command) && final(self)@ == old(self)@.insert(
                    command,
                    channel,
                ),
                Err(e) => old(self)@.contains_key(command) && e == Error::CommandAlreadyInFlight
                    && final(self)@ == old(self)@,
            },
    {
        let key: u8 = command.opcode();
        if self.calls.contains_key(&key) {
            return Err(Error::CommandAlreadyInFlight);
        }
        self.calls.insert(key, channel);
        proof {
            assert forall|other: CommandID| other.spec_opcode() == key implies other
                == command by {
                lemma_opcode_injective(other, command);
            }
            assert(final(self)@ =~= old(self)@.insert(command, channel));
        }
        Ok(())
    }

    /// Takes the call for `command` out, if there is one, and hands back its
    /// channel together with the frame. Other calls are not touched.
    pub fn deliver(&mut self, command: CommandID, frame: NotificationFrame) -> (outcome: Delivery<S>)
        ensures
            final(self)@ == old(self)@.remove(command),
            match outcome {
                Delivery::Delivered { channel, frame: handed } => old(self)@.contains_key(command)
                    && channel == old(self)@[command] && handed == frame,
                Delivery::Orphaned { frame: handed } => !old(self)@.contains_key(command) && handed
                    == frame,
            },
    {
        let key: u8 = command.opcode();
        let taken = self.calls.remove(&key);
        proof {
            assert forall|other: CommandID| other.spec_opcode() == key implies other
                == command by {
                lemma_opcode_injective(other, command);
            }
            assert(final(self)@ =~= old(self)@.remove(command));
        }
        match taken {
            Some(channel) => Delivery::Delivered { channel, frame },
            None => Delivery::Orphaned { frame },
        }
    }

    /// Forgets the call for `command` and drops its channel, so that the
    /// caller sees the channel close. Does nothing if none is waiting.
    pub fn cancel(&mut self, command: CommandID)
        ensures
            final(self)@ == old(self)@.remove(command),
    {
        let key: u8 = command.opcode();
        let _ = self.calls.remove(&key);
        proof {
            assert forall|other: CommandID| other.spec_opcode() == key implies other
                == command by {
                lemma_opcode_injective(other, command);
            }
            assert(final(self)@ =~= old(self)@.remove(command));
        }
    }

    /// Forgets every call and drops every channel.
    pub fn clear(&mut self)
        ensures
            final(self)@ == Map::<CommandID, S>::empty(),
    {
        self.calls.clear();
    }
}

} // verus!
