use vstd::prelude::*;

use crate::signal::Signal;

verus! {

/// The sending half of the signal queue, clonable and distributable to
/// peer processes and to the scheduler.
#[verifier::external_type_specification]
#[verifier::external_body]
#[verifier::reject_recursive_types(T)]
pub struct ExSender<T>(async_std::channel::Sender<T>);

/// The receiving half of the signal queue, owned by the process whose
/// run loop drains it.
#[verifier::external_type_specification]
#[verifier::external_body]
#[verifier::reject_recursive_types(T)]
pub struct ExReceiver<T>(async_std::channel::Receiver<T>);

/// What an attempt to deliver a signal observed. Which outcome comes
/// back depends on the concurrent state of the channel, so the delivery
/// wrappers promise nothing about it.
#[derive(Clone, PartialEq, Eq, Debug)]
pub enum SendStatus {
    /// The signal was queued for the receiver.
    Sent,
    /// The channel reported itself full; the rejected signal is handed
    /// back. An unbounded signal queue never reports this.
    Full(Signal),
    /// The receiving half is gone; the rejected signal is handed back.
    Closed(Signal),
}

/// What a non-blocking look at the signal queue observed. Which outcome
/// comes back depends on the concurrent senders, so the polling wrapper
/// promises nothing about it.
#[derive(Clone, PartialEq, Eq, Debug)]
pub enum SignalPoll {
    /// The oldest queued signal, detached from the queue.
    Received(Signal),
    /// Nothing is queued right now; senders still exist.
    Empty,
    /// Nothing is queued and every sender was dropped.
    Closed,
}

/// Relies on async_std::channel::unbounded for the pair of connected
/// channel halves backing a signal queue.
#[verifier::external_body]
pub(crate) fn signal_channel() -> (
    async_std::channel::Sender<Signal>,
    async_std::channel::Receiver<Signal>,
) {
    async_std::channel::unbounded()
}

/// Relies on async_std::channel::Sender::try_send, mapping its result
/// one variant at a time; what comes back depends on the channel's
/// concurrent state, so nothing is promised of it.
#[verifier::external_body]
pub(crate) fn try_send_signal(
    sender: &async_std::channel::Sender<Signal>,
    sig: Signal,
) -> SendStatus {
    match sender.try_send(sig) {
        Ok(()) => SendStatus::Sent,
        Err(async_std::channel::TrySendError::Full(rejected)) => SendStatus::Full(rejected),
        Err(async_std::channel::TrySendError::Closed(rejected)) => SendStatus::Closed(rejected),
    }
}

/// Relies on async_std::channel::Receiver::try_recv, mapping its result
/// one variant at a time; what comes back depends on the concurrent
/// senders, so nothing is promised of it.
#[verifier::external_body]
pub(crate) fn poll_signal_queue(
    receiver: &async_std::channel::Receiver<Signal>,
) -> SignalPoll {
    match receiver.try_recv() {
        Ok(sig) => SignalPoll::Received(sig),
        Err(async_std::channel::TryRecvError::Empty) => SignalPoll::Empty,
        Err(async_std::channel::TryRecvError::Closed) => SignalPoll::Closed,
    }
}

/// Relies on the Clone impl of async_std::channel::Sender: the clone
/// feeds the same queue as the original, a fact no contract here needs.
pub assume_specification<T>[ <async_std::channel::Sender<T> as Clone>::clone ](
    sender: &async_std::channel::Sender<T>,
) -> async_std::channel::Sender<T>;

} // verus!
