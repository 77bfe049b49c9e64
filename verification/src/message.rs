use vstd::prelude::*;

verus! {

/// An application-plane payload exchanged between processes.
///
/// A message is optionally tagged for selective receive and may carry
/// handles of resources that were re-homed into the receiving process's
/// own resource tables when the message was delivered.
#[derive(Clone, PartialEq, Eq, Debug)]
pub struct Message {
    /// Tag used by selective receive; untagged messages match only
    /// untagged receives.
    pub tag: Option<i64>,
    /// The raw payload bytes.
    pub data: Vec<u8>,
    /// Handles of re-homed resources, valid in the receiver's tables.
    pub resources: Vec<u64>,
}

/// The tag filter of a receive, as a mathematical value: `None` accepts
/// any message, `Some(ts)` accepts exactly the messages whose tag is one
/// of `ts`.
pub open spec fn tags_view(tags: Option<&Vec<i64>>) -> Option<Seq<i64>> {
    match tags {
        None => None,
        Some(ts) => Some(ts@),
    }
}

/// Whether a message passes a tag filter.
pub open spec fn matches_tags(m: Message, tags: Option<Seq<i64>>) -> bool {
    match tags {
        None => true,
        Some(ts) => m.tag matches Some(t) && ts.contains(t),
    }
}

/// Whether a tag list holds a given tag.
fn tag_list_contains(ts: &Vec<i64>, t: i64) -> (r: bool)
    ensures
        r == ts@.contains(t),
{
    let mut i: usize = 0;
    while i < ts.len()
        invariant
            i <= ts@.len(),
            forall|j: int| 0 <= j < i ==> ts@[j] != t,
        decreases ts@.len() - i,
    {
        if ts[i] == t {
            return true;
        }
        i = i + 1;
    }
    false
}

/// Whether a message passes a tag filter; the executable counterpart of
/// [`matches_tags`].
pub fn message_matches(m: &Message, tags: Option<&Vec<i64>>) -> (r: bool)
    ensures
        r == matches_tags(*m, tags_view(tags)),
{
    match tags {
        None => true,
        Some(ts) => {
            match m.tag {
                Some(t) => tag_list_contains(ts, t),
                None => false,
            }
        }
    }
}

/// The single scratch slot bridging the two host-call steps of receiving
/// a message: the sandbox first asks for the pending message's size, so
/// that it can reserve guest-side buffer space, and only then copies the
/// message out. The slot must be emptied before the size of a different
/// message can be queried.
#[derive(Clone, PartialEq, Eq, Debug)]
pub enum MessageScratchArea {
    /// No message is in flight across host calls.
    Empty,
    /// A message whose size the sandbox has queried, waiting to be
    /// copied out.
    SizeKnown(Message),
}

impl MessageScratchArea {
    /// Park a message across the two receive steps. The slot must be
    /// empty: querying the size of a second message before the first is
    /// consumed is a programming error of the caller.
    pub fn stage(&mut self, m: Message)
        requires
            *old(self) is Empty,
        ensures
            *final(self) == MessageScratchArea::SizeKnown(m),
    {
        *self = MessageScratchArea::SizeKnown(m);
    }

    /// The byte size of the parked message.
    pub fn size(&self) -> (n: usize)
        requires
            *self is SizeKnown,
        ensures
            *self matches MessageScratchArea::SizeKnown(m) && n == m.data@.len(),
    {
        match self {
            MessageScratchArea::SizeKnown(m) => m.data.len(),
            MessageScratchArea::Empty => unreached(),
        }
    }

    /// Consume the parked message, emptying the slot for the next
    /// two-step receive.
    pub fn take(&mut self) -> (m: Message)
        requires
            *old(self) is SizeKnown,
        ensures
            *old(self) == MessageScratchArea::SizeKnown(m),
            *final(self) is Empty,
    {
        let mut tmp = MessageScratchArea::Empty;
        core::mem::swap(self, &mut tmp);
        match tmp {
            MessageScratchArea::SizeKnown(m) => m,
            MessageScratchArea::Empty => unreached(),
        }
    }

    /// Whether a message is parked in the slot.
    pub fn is_occupied(&self) -> (r: bool)
        ensures
            r == (*self is SizeKnown),
    {
        match self {
            MessageScratchArea::SizeKnown(_) => true,
            MessageScratchArea::Empty => false,
        }
    }
}

impl Default for MessageScratchArea {
    /// A freshly constructed slot is empty.
    fn default() -> (s: Self)
        ensures
            s is Empty,
    {
        MessageScratchArea::Empty
    }
}

} // verus!
