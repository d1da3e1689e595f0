//! Reference-counted handles: the strategy in which a copy of a handle is
//! the same handle with one more reference, and a free gives one reference
//! back.
//!
//! The underlying value lives exactly as long as references are
//! outstanding. It is never mutated through a handle, so copies can be used
//! side by side. A free without a matching reference is an error that the
//! caller sees, never ignored.

use crate::worker::Handle;
use vstd::prelude::*;

verus! {

/// A misuse of a handle's lifetime.
#[derive(Clone, Copy, Debug, PartialEq, Eq, Structural)]
pub enum LifetimeError {
    /// The handle names no live value: it was never produced here, or its
    /// last reference was freed already.
    NotAlive,
    /// The value has as many references as can be counted.
    TooManyReferences,
}

struct Slot<T> {
    /// The references beyond the first.
    extra: usize,
    value: T,
}

/// A store of reference-counted values, each named by a handle.
pub struct SharedHandles<T> {
    slots: Vec<Option<Slot<T>>>,
}

/// The counts after one more reference to the value at `index`.
pub open spec fn copied(counts: Seq<nat>, index: int) -> Seq<nat> {
    counts.update(index, counts[index] + 1)
}

/// The counts after one reference to the value at `index` is given back.
pub open spec fn freed(counts: Seq<nat>, index: int) -> Seq<nat> {
    counts.update(index, (counts[index] - 1) as nat)
}

/// Whether the value at `index` is alive under `counts`.
pub open spec fn alive(counts: Seq<nat>, index: int) -> bool {
    0 <= index < counts.len() && counts[index] > 0
}

impl<T> SharedHandles<T> {
    /// The number of outstanding references of every value ever produced, by
    /// handle id. Zero: the value is deallocated.
    pub closed spec fn counts(&self) -> Seq<nat> {
        Seq::new(
            self.slots@.len(),
            |i: int|
                match self.slots@[i] {
                    Some(slot) => (slot.extra + 1) as nat,
                    None => 0nat,
                },
        )
    }

    /// The live value that a handle id names.
    pub closed spec fn value(&self, index: int) -> T
        recommends
            alive(self.counts(), index),
    {
        self.slots@[index]->Some_0.value
    }

    /// Whether `handle` names a live value.
    pub open spec fn is_live(&self, handle: Handle) -> bool {
        alive(self.counts(), handle.id as int)
    }

    /// An empty store.
    pub fn new() -> (store: Self)
        ensures
            store.counts() == Seq::<nat>::empty(),
    {
        let store = SharedHandles { slots: Vec::new() };
        assert(store.counts() =~= Seq::<nat>::empty());
        store
    }

    /// Takes a value into the store and produces its handle, with one
    /// reference.
    pub fn produce(&mut self, value: T) -> (handle: Handle)
        ensures
            handle.id == old(self).counts().len(),
            final(self).counts() == old(self).counts().push(1),
            final(self).value(handle.id as int) == value,
            forall|i: int|
                0 <= i < old(self).counts().len() ==> final(self).value(i) == old(self).value(i),
    {
        let index = self.slots.len();
        self.slots.push(Some(Slot { extra: 0, value }));
        assert(self.counts() =~= old(self).counts().push(1));
        Handle { id: index as u64 }
    }

    /// The slot of a live handle.
    fn index_of(&self, handle: Handle) -> (r: Option<usize>)
        ensures
            match r {
                Some(index) => {
                    &&& index == handle.id
                    &&& index < self.slots@.len()
                    &&& self.slots@[index as int] is Some
                    &&& self.is_live(handle)
                    &&& self.counts()[index as int] == self.slots@[index as int]->Some_0.extra + 1
                },
                None => !self.is_live(handle),
            },
            self.counts().len() == self.slots@.len(),
    {
        if handle.id >= self.slots.len() as u64 {
            None
        } else {
            let index = handle.id as usize;
            if self.slots[index].is_some() {
                Some(index)
            } else {
                None
            }
        }
    }

    /// Whether `handle` names a live value.
    pub fn is_alive(&self, handle: Handle) -> (live: bool)
        ensures
            live == self.is_live(handle),
    {
        self.index_of(handle).is_some()
    }

    /// The number of outstanding references of `handle`, as far as a
    /// `usize` can say it; zero when it names no live value.
    pub fn ref_count(&self, handle: Handle) -> (count: usize)
        ensures
            count == if !self.is_live(handle) {
                0
            } else if self.counts()[handle.id as int] <= usize::MAX {
                self.counts()[handle.id as int]
            } else {
                usize::MAX as nat
            },
    {
        match self.index_of(handle) {
            Some(index) => match &self.slots[index] {
                Some(slot) => if slot.extra == usize::MAX {
                    usize::MAX
                } else {
                    slot.extra + 1
                },
                None => 0,
            },
            None => 0,
        }
    }

    /// Copies a handle: the same handle comes back, and the value has one
    /// more reference.
    pub fn copy(&mut self, handle: Handle) -> (r: Result<Handle, LifetimeError>)
        ensures
            match r {
                Ok(same) => {
                    &&& same == handle
                    &&& old(self).is_live(handle)
                    &&& old(self).counts()[handle.id as int] < usize::MAX
                    &&& final(self).counts() == copied(old(self).counts(), handle.id as int)
                },
                Err(LifetimeError::NotAlive) => !old(self).is_live(handle) && *final(self) == *old(
                    self,
                ),
                Err(LifetimeError::TooManyReferences) => {
                    &&& old(self).is_live(handle)
                    &&& old(self).counts()[handle.id as int] >= usize::MAX
                    &&& *final(self) == *old(self)
                },
            },
            forall|i: int|
                alive(old(self).counts(), i) ==> final(self).value(i) == old(self).value(i),
    {
        let index = match self.index_of(handle) {
            Some(index) => index,
            None => {
                return Err(LifetimeError::NotAlive);
            },
        };
        let extra = match &self.slots[index] {
            Some(slot) => slot.extra,
            None => 0,
        };
        if extra >= usize::MAX - 1 {
            return Err(LifetimeError::TooManyReferences);
        }
        match &mut self.slots[index] {
            Some(slot) => {
                slot.extra = extra + 1;
            },
            None => {},
        }
        assert(self.counts() =~= copied(old(self).counts(), handle.id as int));
        Ok(handle)
    }

    /// Frees one reference of a handle. The value is deallocated with its
    /// last reference, and is then handed back. A free of a handle that
    /// names no live value is an error and changes nothing.
    pub fn free(&mut self, handle: Handle) -> (r: Result<Option<T>, LifetimeError>)
        ensures
            match r {
                Ok(last) => {
                    &&& old(self).is_live(handle)
                    &&& final(self).counts() == freed(old(self).counts(), handle.id as int)
                    &&& match last {
                        Some(value) => old(self).counts()[handle.id as int] == 1 && value == old(
                            self,
                        ).value(handle.id as int),
                        None => old(self).counts()[handle.id as int] > 1,
                    }
                },
                Err(e) => {
                    &&& e == LifetimeError::NotAlive
                    &&& !old(self).is_live(handle)
                    &&& *final(self) == *old(self)
                },
            },
            forall|i: int|
                alive(final(self).counts(), i) ==> final(self).value(i) == old(self).value(i),
    {
        let index = match self.index_of(handle) {
            Some(index) => index,
            None => {
                return Err(LifetimeError::NotAlive);
            },
        };
        let extra = match &self.slots[index] {
            Some(slot) => slot.extra,
            None => 0,
        };
        if extra == 0 {
            let mut taken: Option<Slot<T>> = None;
            std::mem::swap(&mut self.slots[index], &mut taken);
            assert(self.counts() =~= freed(old(self).counts(), handle.id as int));
            match taken {
                Some(slot) => Ok(Some(slot.value)),
                None => Ok(None),
            }
        } else {
            match &mut self.slots[index] {
                Some(slot) => {
                    slot.extra = extra - 1;
                },
                None => {},
            }
            assert(self.counts() =~= freed(old(self).counts(), handle.id as int));
            Ok(None)
        }
    }

    /// The live value that `handle` names, for reading.
    pub fn get(&self, handle: Handle) -> (r: Option<&T>)
        ensures
            match r {
                Some(value) => self.is_live(handle) && *value == self.value(handle.id as int),
                None => !self.is_live(handle),
            },
    {
        match self.index_of(handle) {
            Some(index) => match &self.slots[index] {
                Some(slot) => Some(&slot.value),
                None => None,
            },
            None => None,
        }
    }
}

/// A copy and a free balance: after a copy and then a free the counts are
/// what they were, and the value is alive throughout.
pub proof fn law_copy_then_free(counts: Seq<nat>, index: int)
    requires
        alive(counts, index),
    ensures
        alive(copied(counts, index), index),
        freed(copied(counts, index), index) == counts,
{
    assert(freed(copied(counts, index), index) =~= counts);
}

/// Two copies of one handle, then one free for each copy: the value is
/// alive after every step, and the counts end as they began. With the
/// owner's own reference given back first, the value stays alive until
/// the free of the second copy, and is deallocated by it.
pub proof fn law_two_copies_two_frees(counts: Seq<nat>, index: int)
    requires
        alive(counts, index),
    ensures
        ({
            let two = copied(copied(counts, index), index);
            &&& alive(two, index)
            &&& alive(freed(two, index), index)
            &&& freed(freed(two, index), index) == counts
            &&& counts[index] == 1 ==> {
                let disowned = freed(two, index);
                &&& alive(freed(disowned, index), index)
                &&& !alive(freed(freed(disowned, index), index), index)
            }
        }),
{
    let two = copied(copied(counts, index), index);
    assert(freed(freed(two, index), index) =~= counts);
}

/// A value is alive exactly while more references were produced than
/// freed.
pub proof fn law_alive_iff_references(counts: Seq<nat>, index: int)
    requires
        0 <= index < counts.len(),
    ensures
        alive(counts, index) <==> counts[index] >= 1,
        alive(counts, index) ==> (alive(freed(counts, index), index) <==> counts[index] >= 2),
{
}

} // verus!
