use vstd::prelude::*;

use crate::channel::{try_send_signal, SendStatus};
use crate::errors::HostError;
use crate::message::Message;
use crate::signal::Signal;

verus! {

/// A reference to a spawned process, storable in resource tables, in
/// messages and in the shared name registry.
///
/// Processes can vary in their backing implementation, so the handle is
/// a tagged variant exposing only the capability set every variant has:
/// its identity and signal/message delivery.
#[derive(Clone, Debug)]
pub enum ProcessHandle {
    /// A process running inside this runtime instance: its identity and
    /// a sender feeding its signal queue.
    Local { id: u128, signals: async_std::channel::Sender<Signal> },
}

impl ProcessHandle {
    /// The identity of the process the handle refers to.
    pub open spec fn spec_id(self) -> u128 {
        match self {
            ProcessHandle::Local { id, .. } => id,
        }
    }

    /// The identity of the process the handle refers to.
    pub fn identity(&self) -> (r: u128)
        ensures
            r == self.spec_id(),
    {
        match self {
            ProcessHandle::Local { id, .. } => *id,
        }
    }

    /// Queue a control-plane signal for the process. Delivery can only
    /// fail when the receiving side is gone, which surfaces as
    /// [`HostError::ChannelClosed`]; whether it happens depends on the
    /// concurrent life of the receiver, so no more is promised.
    pub fn deliver_signal(&self, sig: Signal) -> (r: Result<(), HostError>)
        ensures
            r matches Err(e) ==> e == HostError::ChannelClosed,
    {
        match self {
            ProcessHandle::Local { signals, .. } => {
                match try_send_signal(signals, sig) {
                    SendStatus::Sent => Ok(()),
                    SendStatus::Full(_) => Err(HostError::ChannelClosed),
                    SendStatus::Closed(_) => Err(HostError::ChannelClosed),
                }
            },
        }
    }

    /// Queue an application-plane payload for the process; it rides the
    /// signal queue and is routed into the message mailbox by the
    /// receiver's run loop.
    pub fn deliver_message(&self, m: Message) -> (r: Result<(), HostError>)
        ensures
            r matches Err(e) ==> e == HostError::ChannelClosed,
    {
        self.deliver_signal(Signal::Message(m))
    }
}

} // verus!
