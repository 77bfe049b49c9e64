use vstd::prelude::*;

use crate::errors::HostError;

verus! {

/// A kind-scoped registry mapping opaque integer handles to stored values.
///
/// One table is instantiated per resource kind, so a handle issued by one
/// kind's table can never be mistaken for a handle of another kind: looking
/// a foreign or stale handle up is a well-defined [`HostError::NotFound`],
/// never undefined behaviour. Handles are issued monotonically and a
/// removed handle is never reissued.
#[derive(Debug)]
pub struct ResourceTable<T> {
    slots: Vec<Option<T>>,
}

impl<T> View for ResourceTable<T> {
    type V = Map<u64, T>;

    closed spec fn view(&self) -> Map<u64, T> {
        Map::new(
            |h: u64| (h as int) < self.slots@.len() && self.slots@[h as int] is Some,
            |h: u64| self.slots@[h as int]->0,
        )
    }
}

impl<T> ResourceTable<T> {
    /// An empty table: no handle is live.
    pub fn new() -> (t: Self)
        ensures
            t@ == Map::<u64, T>::empty(),
    {
        let t = ResourceTable { slots: Vec::new() };
        proof {
            assert(t@ =~= Map::<u64, T>::empty());
        }
        t
    }

    /// Store a value, returning a handle that is unique among the live
    /// entries of this table; the stored value is retrievable under it.
    pub fn insert(&mut self, value: T) -> (h: u64)
        ensures
            !old(self)@.dom().contains(h),
            final(self)@ == old(self)@.insert(h, value),
    {
        let h = self.slots.len() as u64;
        self.slots.push(Some(value));
        proof {
            assert(self@ =~= old(self)@.insert(h, value));
        }
        h
    }

    /// Whether a handle currently refers to a live entry.
    pub fn contains(&self, handle: u64) -> (r: bool)
        ensures
            r == self@.dom().contains(handle),
    {
        if handle < self.slots.len() as u64 {
            self.slots[handle as usize].is_some()
        } else {
            false
        }
    }

    /// Borrow the value a live handle refers to; a stale or foreign handle
    /// yields [`HostError::NotFound`].
    pub fn get(&self, handle: u64) -> (r: Result<&T, HostError>)
        ensures
            self@.dom().contains(handle) ==> (r matches Ok(v) && *v == self@[handle]),
            !self@.dom().contains(handle) ==> r == Err::<&T, HostError>(HostError::NotFound),
    {
        if handle < self.slots.len() as u64 {
            match self.slots[handle as usize].as_ref() {
                Some(v) => Ok(v),
                None => Err(HostError::NotFound),
            }
        } else {
            Err(HostError::NotFound)
        }
    }

    /// Mutably borrow the value a live handle refers to; a stale or
    /// foreign handle yields [`HostError::NotFound`] and leaves the
    /// table unchanged. The lookup itself adds, removes and rebinds
    /// nothing: only the borrowed value can change under the handle it
    /// was found under.
    pub fn get_mut(&mut self, handle: u64) -> (r: Result<&mut T, HostError>)
        ensures
            old(self)@.dom().contains(handle) ==> (r matches Ok(v)
                && *v == old(self)@[handle]
                && final(self)@ =~= old(self)@.insert(handle, *final(v))),
            !old(self)@.dom().contains(handle) ==> (r matches Err(e)
                && e == HostError::NotFound
                && final(self)@ == old(self)@),
    {
        let len: usize = self.slots.len();
        if handle < len as u64 {
            let idx = handle as usize;
            if self.slots[idx].is_some() {
                let slot: &mut Option<T> = &mut self.slots[idx];
                match slot {
                    Some(v) => Ok(v),
                    None => unreached(),
                }
            } else {
                Err(HostError::NotFound)
            }
        } else {
            Err(HostError::NotFound)
        }
    }

    /// Detach and return the value a live handle refers to, invalidating
    /// the handle for every subsequent lookup; a stale or foreign handle
    /// yields [`HostError::NotFound`] and leaves the table unchanged.
    pub fn remove(&mut self, handle: u64) -> (r: Result<T, HostError>)
        ensures
            old(self)@.dom().contains(handle) ==> (r matches Ok(v)
                && v == old(self)@[handle]
                && final(self)@ == old(self)@.remove(handle)),
            !old(self)@.dom().contains(handle) ==> (r == Err::<T, HostError>(HostError::NotFound)
                && final(self)@ == old(self)@),
    {
        if handle < self.slots.len() as u64 {
            let idx = handle as usize;
            let slot: &mut Option<T> = &mut self.slots[idx];
            let mut taken: Option<T> = None;
            core::mem::swap(slot, &mut taken);
            match taken {
                Some(v) => {
                    proof {
                        assert(self@ =~= old(self)@.remove(handle));
                    }
                    Ok(v)
                }
                None => {
                    proof {
                        assert(self@ =~= old(self)@);
                    }
                    Err(HostError::NotFound)
                }
            }
        } else {
            Err(HostError::NotFound)
        }
    }
}

impl<T> Default for ResourceTable<T> {
    /// Same as [`ResourceTable::new`]: a table with no live handle.
    fn default() -> (t: Self)
        ensures
            t@ == Map::<u64, T>::empty(),
    {
        ResourceTable::new()
    }
}

/// Inserting two values one after the other yields distinct handles, and
/// while both are live each handle retrieves exactly the value stored
/// under it.
pub proof fn lemma_insert_two_distinct<T>(m0: Map<u64, T>, v1: T, v2: T, h1: u64, h2: u64)
    requires
        !m0.dom().contains(h1),
        !m0.insert(h1, v1).dom().contains(h2),
    ensures
        h1 != h2,
        m0.insert(h1, v1).insert(h2, v2)[h1] == v1,
        m0.insert(h1, v1).insert(h2, v2)[h2] == v2,
{
    assert(m0.insert(h1, v1).dom().contains(h1));
}

/// After a handle is removed, every subsequent lookup of it misses: the
/// table's contract then owes the caller [`HostError::NotFound`].
pub proof fn lemma_removed_handle_is_dead<T>(m0: Map<u64, T>, h: u64)
    ensures
        !m0.remove(h).dom().contains(h),
{
}

} // verus!
