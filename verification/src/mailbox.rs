use vstd::prelude::*;

use crate::message::{matches_tags, message_matches, tags_view, Message};
use crate::signal::{Signal, SignalEvent};

verus! {

/// The queue of application-plane messages owned by one process.
///
/// A receive may be selective: it asks for the first message passing a
/// tag filter and leaves every non-matching message queued, in its
/// original relative order, for a later receive.
#[derive(Debug)]
pub struct MessageMailbox {
    queue: Vec<Message>,
}

/// What one step of a suspended receive decided.
#[derive(Clone, PartialEq, Eq, Debug)]
pub enum ReceiveStatus {
    /// A message passing the filter is handed to the receiver.
    Delivered(Message),
    /// A terminate-class signal or channel closure ended the wait; the
    /// process must stop instead of staying parked.
    Terminated,
    /// Nothing for this receive yet; the wait goes on.
    KeepWaiting,
}

impl View for MessageMailbox {
    type V = Seq<Message>;

    closed spec fn view(&self) -> Seq<Message> {
        self.queue@
    }
}

impl MessageMailbox {
    /// An empty mailbox.
    pub fn new() -> (m: Self)
        ensures
            m@ == Seq::<Message>::empty(),
    {
        let m = MessageMailbox { queue: Vec::new() };
        proof {
            assert(m@ =~= Seq::<Message>::empty());
        }
        m
    }

    /// Append a delivered message behind every queued one.
    pub fn push(&mut self, m: Message)
        ensures
            final(self)@ == old(self)@.push(m),
    {
        self.queue.push(m);
    }

    /// The number of queued messages.
    pub fn len(&self) -> (n: usize)
        ensures
            n == self@.len(),
    {
        self.queue.len()
    }

    /// Selective receive over the queued messages: detach and return the
    /// first message passing the tag filter. Non-matching messages stay
    /// queued, in their original relative order; if nothing matches, the
    /// queue is left untouched and the caller has to suspend.
    pub fn pop(&mut self, tags: Option<&Vec<i64>>) -> (r: Option<Message>)
        ensures
            r is None ==> final(self)@ == old(self)@ && (forall|j: int|
                0 <= j < old(self)@.len() ==> !matches_tags(
                    old(self)@[j],
                    tags_view(tags),
                )),
            r matches Some(m) ==> (exists|i: int|
                #![auto]
                {
                    &&& 0 <= i < old(self)@.len()
                    &&& m == old(self)@[i]
                    &&& matches_tags(m, tags_view(tags))
                    &&& forall|j: int| 0 <= j < i ==> !matches_tags(
                        old(self)@[j],
                        tags_view(tags),
                    )
                    &&& final(self)@ == old(self)@.remove(i)
                }),
    {
        let mut i: usize = 0;
        while i < self.queue.len()
            invariant
                i <= self.queue@.len(),
                self.queue@ == old(self).queue@,
                forall|j: int| 0 <= j < i ==> !matches_tags(
                    self.queue@[j],
                    tags_view(tags),
                ),
            decreases self.queue@.len() - i,
        {
            if message_matches(&self.queue[i], tags) {
                let m = self.queue.remove(i);
                proof {
                    assert(exists|w: int|
                        #![auto]
                        {
                            &&& 0 <= w < old(self)@.len()
                            &&& m == old(self)@[w]
                            &&& matches_tags(m, tags_view(tags))
                            &&& forall|j: int| 0 <= j < w ==> !matches_tags(
                                old(self)@[j],
                                tags_view(tags),
                            )
                            &&& self@ == old(self)@.remove(w)
                        }) by {
                        assert((i as int) < old(self)@.len());
                        assert(m == old(self)@[i as int]);
                        assert(self@ == old(self)@.remove(i as int));
                    }
                }
                return Some(m);
            }
            i = i + 1;
        }
        None
    }

    /// One decision step of a receive that found no queued match and is
    /// suspended on the signal queue. A terminate-class signal or channel
    /// closure unblocks the wait and reports termination; a matching
    /// message is delivered at once; everything else leaves the receive
    /// waiting, with non-matching messages queued for later receives.
    pub fn receive_step(&mut self, tags: Option<&Vec<i64>>, event: SignalEvent) -> (r:
        ReceiveStatus)
        ensures
            (match event {
                SignalEvent::Closed => r is Terminated && final(self)@ == old(self)@,
                SignalEvent::Arrived(sig) => match sig {
                    Signal::Kill => r is Terminated && final(self)@ == old(self)@,
                    Signal::LinkDied(_) => r is Terminated && final(self)@ == old(self)@,
                    Signal::Message(m) => if matches_tags(m, tags_view(tags)) {
                        &&& r matches ReceiveStatus::Delivered(d) && d == m
                        &&& final(self)@ == old(self)@
                    } else {
                        &&& r is KeepWaiting
                        &&& final(self)@ == old(self)@.push(m)
                    },
                    Signal::Link(_) => r is KeepWaiting && final(self)@ == old(self)@,
                    Signal::UnLink(_) => r is KeepWaiting && final(self)@ == old(self)@,
                },
            }),
    {
        match event {
            SignalEvent::Closed => ReceiveStatus::Terminated,
            SignalEvent::Arrived(sig) => match sig {
                Signal::Kill => ReceiveStatus::Terminated,
                Signal::LinkDied(_) => ReceiveStatus::Terminated,
                Signal::Message(m) => {
                    if message_matches(&m, tags) {
                        ReceiveStatus::Delivered(m)
                    } else {
                        self.push(m);
                        ReceiveStatus::KeepWaiting
                    }
                },
                Signal::Link(_) => ReceiveStatus::KeepWaiting,
                Signal::UnLink(_) => ReceiveStatus::KeepWaiting,
            },
        }
    }
}

impl Default for MessageMailbox {
    /// Same as [`MessageMailbox::new`]: no message is queued.
    fn default() -> (m: Self)
        ensures
            m@ == Seq::<Message>::empty(),
    {
        MessageMailbox::new()
    }
}

} // verus!
