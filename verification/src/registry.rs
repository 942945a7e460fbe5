//! A slot-based registry: an arena of slots addressed by generation-tagged
//! handles.  A handle stays valid until its value is removed; once removed it
//! is dead forever, so a stale handle can never resolve to a later occupant of
//! the same slot.

use vstd::prelude::*;

verus! {

/// A generation-tagged handle into a [`Registry`].
///
/// A handle is issued by [`Registry::insert`] and names the inserted value
/// until that value is removed.  Handles are plain copyable values; comparing
/// two of them compares the slot index and the generation tag.
#[derive(Clone, Copy, PartialEq, Eq, Structural, Debug, Hash)]
pub struct Handle {
    index: usize,
    generation: u64,
}

struct Slot<T> {
    generation: u64,
    value: Option<T>,
}

/// An arena assigning stable, reusable handles to owned values.
///
/// A slot's generation tag is bumped whenever its value is removed, so a
/// handle issued for an earlier occupant can never be confused with a later
/// one: lookups with such a handle return `None`.  A slot whose generation
/// tag can no longer grow is retired rather than reused.
pub struct Registry<T> {
    slots: Vec<Slot<T>>,
}

impl<T> Registry<T> {
    /// `h` presently names a stored value.
    pub closed spec fn spec_live(self, h: Handle) -> bool {
        &&& h.index < self.slots.len()
        &&& self.slots[h.index as int].generation == h.generation
        &&& self.slots[h.index as int].value is Some
    }

    /// The value a live handle `h` names.
    pub closed spec fn spec_at(self, h: Handle) -> T
        recommends
            self.spec_live(h),
    {
        self.slots[h.index as int].value->0
    }

    /// `h` named a value once, and can never name one again: its slot has
    /// either moved past `h`'s generation or been retired at the last one.
    pub closed spec fn spec_dead(self, h: Handle) -> bool {
        &&& h.index < self.slots.len()
        &&& {
            ||| h.generation < self.slots[h.index as int].generation
            ||| (h.generation == self.slots[h.index as int].generation
                && h.generation == u64::MAX
                && self.slots[h.index as int].value is None)
        }
    }

    /// An empty registry: no handle is live, none is dead.
    pub fn new() -> (r: Registry<T>)
        ensures
            forall|h: Handle| !r.spec_live(h) && !r.spec_dead(h),
    {
        Registry { slots: Vec::new() }
    }

    /// Stores `value` and returns a fresh handle for it: one that was neither
    /// live nor dead before, so it is distinct from every handle the registry
    /// has ever issued.  All other handles keep their standing and value.
    pub fn insert(&mut self, value: T) -> (h: Handle)
        ensures
            final(self).spec_live(h),
            final(self).spec_at(h) == value,
            !old(self).spec_live(h),
            !old(self).spec_dead(h),
            forall|g: Handle| g != h
                ==> (final(self).spec_live(g) <==> old(self).spec_live(g)),
            forall|g: Handle| old(self).spec_live(g)
                ==> final(self).spec_at(g) == old(self).spec_at(g),
            forall|g: Handle| final(self).spec_dead(g) <==> old(self).spec_dead(g),
    {
        let n = self.slots.len();
        let mut i: usize = 0;
        while i < n
            invariant
                i <= n,
                self == old(self),
                n == self.slots.len(),
                forall|j: int| 0 <= j < i
                    ==> !(#[trigger] self.slots[j].value is None
                        && self.slots[j].generation < u64::MAX),
            decreases n - i,
        {
            if self.slots[i].value.is_none() && self.slots[i].generation < u64::MAX {
                let generation = self.slots[i].generation;
                let slot = &mut self.slots[i];
                slot.value = Some(value);
                return Handle { index: i, generation };
            }
            i += 1;
        }
        self.slots.push(Slot { generation: 0, value: Some(value) });
        Handle { index: n, generation: 0 }
    }

    /// Removes and returns the value a live handle names, after which the
    /// handle is dead; with a handle that is not live, removes nothing.
    pub fn remove(&mut self, h: Handle) -> (r: Option<T>)
        ensures
            old(self).spec_live(h) ==> {
                &&& r == Some(old(self).spec_at(h))
                &&& !final(self).spec_live(h)
                &&& final(self).spec_dead(h)
                &&& forall|g: Handle| g != h
                    ==> (final(self).spec_live(g) <==> old(self).spec_live(g))
                &&& forall|g: Handle| g != h && old(self).spec_live(g)
                    ==> final(self).spec_at(g) == old(self).spec_at(g)
                &&& forall|g: Handle| old(self).spec_dead(g) ==> final(self).spec_dead(g)
            },
            !old(self).spec_live(h) ==> r is None && *final(self) == *old(self),
    {
        if h.index < self.slots.len() {
            if self.slots[h.index].generation == h.generation && self.slots[h.index].value.is_some() {
                let slot = &mut self.slots[h.index];
                let value = slot.value.take();
                if h.generation < u64::MAX {
                    slot.generation = h.generation + 1;
                }
                return value;
            }
        }
        None
    }

    /// Borrows the value a live handle names; `None` for any other handle.
    pub fn get(&self, h: Handle) -> (r: Option<&T>)
        ensures
            self.spec_live(h) ==> (r matches Some(v) && *v == self.spec_at(h)),
            !self.spec_live(h) ==> r is None,
    {
        if h.index < self.slots.len() {
            if self.slots[h.index].generation == h.generation {
                return self.slots[h.index].value.as_ref();
            }
        }
        None
    }

    /// Mutably borrows the value a live handle names; the registry afterwards
    /// holds whatever the caller left in the borrow, at the same handle, with
    /// every other handle's standing and value untouched.
    pub(crate) fn borrow_mut(&mut self, h: Handle) -> (v: &mut T)
        requires
            old(self).spec_live(h),
        ensures
            *v == old(self).spec_at(h),
            final(self).spec_live(h),
            final(self).spec_at(h) == *final(v),
            forall|g: Handle| g != h
                ==> (final(self).spec_live(g) <==> old(self).spec_live(g)),
            forall|g: Handle| g != h && old(self).spec_live(g)
                ==> final(self).spec_at(g) == old(self).spec_at(g),
            forall|g: Handle| final(self).spec_dead(g) <==> old(self).spec_dead(g),
    {
        let slot = &mut self.slots[h.index];
        slot.value.as_mut().unwrap()
    }

    /// Mutably borrows the value a live handle names; `None` for any other
    /// handle, leaving the registry unchanged.
    pub fn get_mut(&mut self, h: Handle) -> (r: Option<&mut T>)
        ensures
            old(self).spec_live(h) ==> (r matches Some(v)
                && *v == old(self).spec_at(h)
                && final(self).spec_live(h)
                && final(self).spec_at(h) == *final(v)
                && (forall|g: Handle| g != h
                    ==> (final(self).spec_live(g) <==> old(self).spec_live(g)))
                && (forall|g: Handle| g != h && old(self).spec_live(g)
                    ==> final(self).spec_at(g) == old(self).spec_at(g))
                && (forall|g: Handle| final(self).spec_dead(g) <==> old(self).spec_dead(g))),
            !old(self).spec_live(h) ==> r is None && *final(self) == *old(self),
    {
        if self.contains(h) {
            Some(self.borrow_mut(h))
        } else {
            None
        }
    }

    /// A dead handle is never live: once a removal has invalidated a handle,
    /// no lookup with it can resolve to a value again.
    pub proof fn lemma_dead_not_live(self, h: Handle)
        ensures
            self.spec_dead(h) ==> !self.spec_live(h),
    {
    }

    /// `true` exactly when `h` is live.
    pub fn contains(&self, h: Handle) -> (r: bool)
        ensures
            r == self.spec_live(h),
    {
        if h.index < self.slots.len() {
            if self.slots[h.index].generation == h.generation {
                return self.slots[h.index].value.is_some();
            }
        }
        false
    }
}

} // verus!
