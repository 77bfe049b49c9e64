use vstd::prelude::*;

use crate::message::Message;

verus! {

/// A control-plane event delivered to a process.
///
/// Signals are produced by the scheduler or by peer processes and are
/// consumed only by the owning process's execution loop. Message
/// payloads ride the same queue so that a receive that is blocked on the
/// message mailbox observes them promptly.
#[derive(Clone, PartialEq, Eq, Debug)]
pub enum Signal {
    /// An application-plane payload for the message mailbox.
    Message(Message),
    /// Terminate the process unconditionally.
    Kill,
    /// A peer process, named by its identity, linked itself to this one.
    Link(u128),
    /// A peer process dissolved its link to this one.
    UnLink(u128),
    /// A linked process, named by its identity, died; death propagates
    /// along links.
    LinkDied(u128),
}

impl Signal {
    /// Whether the signal belongs to the terminate class: observing one
    /// must end the process, interrupting any blocked receive.
    pub open spec fn is_terminate(self) -> bool {
        self is Kill || self is LinkDied
    }
}

/// What a suspended receive observed on the signal queue: either a
/// signal arrived, or every sender was dropped and the channel reports
/// closure instead of blocking forever.
#[derive(Clone, PartialEq, Eq, Debug)]
pub enum SignalEvent {
    /// A signal was delivered.
    Arrived(Signal),
    /// All sender handles are gone; treated as implicit termination.
    Closed,
}

} // verus!
