//! Generation-checked slots.
//!
//! Every object that the host holds on to between two calls (a servlet
//! instance, the private data of an asynchronous task, the state pushed to a
//! pipe) lives in an [`Arena`]. The host is given a [`Handle`], packed into
//! one 64-bit word, in place of an address. A handle names a slot and the
//! generation of the value that was put there; once that value has left the
//! arena the handle is retired and no later value answers to it.

use vstd::prelude::*;

verus! {

/// The word that stands for "no object" on the host's side.
pub const NULL_HANDLE: u64 = 0;

/// The name of one value in an [`Arena`].
#[derive(Clone, Copy, Debug, PartialEq, Eq, Structural)]
pub struct Handle {
    pub index: u32,
    pub generation: u32,
}

impl Handle {
    /// The word handed to the host: the generation in the upper half, the
    /// slot in the lower half.
    pub open spec fn spec_to_raw(self) -> u64 {
        (self.generation as int * 0x1_0000_0000 + self.index as int) as u64
    }

    /// The handle that a word unpacks to, if any. Words whose upper half is
    /// zero, the null word among them, unpack to nothing.
    pub open spec fn spec_from_raw(raw: u64) -> Option<Handle> {
        if raw / 0x1_0000_0000 == 0 {
            None
        } else {
            Some(
                Handle {
                    index: (raw % 0x1_0000_0000) as u32,
                    generation: (raw / 0x1_0000_0000) as u32,
                },
            )
        }
    }

    /// Packs the handle into the word that crosses the host boundary.
    pub fn to_raw(self) -> (raw: u64)
        ensures
            raw == self.spec_to_raw(),
            self.generation >= 1 ==> raw != NULL_HANDLE,
    {
        self.generation as u64 * 0x1_0000_0000 + self.index as u64
    }

    /// Unpacks a word that came back from the host.
    pub fn from_raw(raw: u64) -> (r: Option<Handle>)
        ensures
            r == Handle::spec_from_raw(raw),
            r matches Some(h) ==> h.generation >= 1 && h.spec_to_raw() == raw,
            raw == NULL_HANDLE ==> r is None,
    {
        let generation: u64 = raw / 0x1_0000_0000;
        let index: u64 = raw % 0x1_0000_0000;
        if generation == 0 {
            None
        } else {
            Some(Handle { index: index as u32, generation: generation as u32 })
        }
    }
}

/// Packing a handle of a live value and unpacking the word gives the handle
/// back.
pub proof fn lemma_raw_round_trip(h: Handle)
    requires
        h.generation >= 1,
    ensures
        Handle::spec_from_raw(h.spec_to_raw()) == Some(h),
        h.spec_to_raw() != NULL_HANDLE,
{
}

/// One place in an arena. `generation` is that of the value in the slot, or
/// of the next value to be put there; zero marks a slot that is used up.
struct Slot<T> {
    generation: u32,
    value: Option<T>,
}

/// A store of values named by generation-checked handles.
pub struct Arena<T> {
    slots: Vec<Slot<T>>,
}

impl<T> Arena<T> {
    /// For each slot, its generation and whether it holds a value.
    pub closed spec fn layout(&self) -> Seq<(u32, bool)> {
        Seq::new(
            self.slots@.len(),
            |i: int| (self.slots@[i].generation, self.slots@[i].value is Some),
        )
    }

    /// Two stores agree on the number of slots, on every generation, and on
    /// which slots hold a value.
    spec fn same_places(&self, other: Arena<T>) -> bool {
        &&& self.slots@.len() == other.slots@.len()
        &&& forall|i: int|
            0 <= i < self.slots@.len() ==> (#[trigger] other.slots@[i]).generation
                == self.slots@[i].generation && (other.slots@[i].value is Some
                <==> self.slots@[i].value is Some)
    }

    /// The invariant of the store: every slot has an index that fits a
    /// handle, and a slot that is used up is empty.
    pub closed spec fn wf(&self) -> bool {
        &&& self.layout().len() <= u32::MAX
        &&& forall|i: int|
            0 <= i < self.layout().len() && (#[trigger] self.layout()[i]).0 == 0
                ==> !self.layout()[i].1
    }

    /// `h` names a value that is in the store now.
    pub closed spec fn live(&self, h: Handle) -> bool {
        &&& (h.index as int) < self.layout().len()
        &&& self.layout()[h.index as int] == (h.generation, true)
    }

    /// `h` names a value that has left the store, or never named one:
    /// nothing that happens to the store later makes it live.
    pub closed spec fn retired(&self, h: Handle) -> bool {
        ||| h.generation == 0
        ||| {
            &&& (h.index as int) < self.layout().len()
            &&& {
                ||| self.layout()[h.index as int].0 == 0
                ||| self.layout()[h.index as int].0 > h.generation
            }
        }
    }

    /// The store can take one more value.
    pub closed spec fn has_room(&self) -> bool {
        ||| self.layout().len() < u32::MAX
        ||| exists|i: int|
            0 <= i < self.layout().len() && (#[trigger] self.layout()[i]).0 != 0
                && !self.layout()[i].1
    }

    /// The live values, by handle.
    pub closed spec fn view(&self) -> Map<Handle, T> {
        Map::new(|h: Handle| self.live(h), |h: Handle| self.slots@[h.index as int].value->0)
    }

    /// A retired handle is not live.
    pub proof fn lemma_retired_not_live(&self, h: Handle)
        requires
            self.wf(),
            self.retired(h),
        ensures
            !self@.dom().contains(h),
    {
    }

    /// A live handle unpacks from its own word.
    pub proof fn lemma_live_round_trip(&self, h: Handle)
        requires
            self.wf(),
            self@.dom().contains(h),
        ensures
            h.generation >= 1,
            Handle::spec_from_raw(h.spec_to_raw()) == Some(h),
    {
    }

    /// An empty store.
    pub fn new() -> (arena: Self)
        ensures
            arena.wf(),
            arena@ == Map::<Handle, T>::empty(),
            arena.has_room(),
            forall|h: Handle| arena.retired(h) <==> h.generation == 0,
    {
        let arena = Arena { slots: Vec::new() };
        assert(arena@ =~= Map::<Handle, T>::empty());
        arena
    }

    /// Whether `h` names a value in the store.
    pub fn contains(&self, h: Handle) -> (r: bool)
        ensures
            r == self@.dom().contains(h),
    {
        let i = h.index as usize;
        i < self.slots.len() && self.slots[i].generation == h.generation
            && self.slots[i].value.is_some()
    }

    /// The value that `h` names, if it is in the store.
    pub fn get(&self, h: Handle) -> (r: Option<&T>)
        ensures
            r matches Some(v) ==> self@.dom().contains(h) && *v == self@[h],
            r is None ==> !self@.dom().contains(h),
    {
        let i = h.index as usize;
        if i >= self.slots.len() {
            return None;
        }
        if self.slots[i].generation != h.generation {
            return None;
        }
        self.slots[i].value.as_ref()
    }

    /// Puts `value` into the store and returns its handle, or drops it and
    /// returns nothing when the store has no room. The handle is one that no
    /// value had before.
    pub fn insert(&mut self, value: T) -> (r: Option<Handle>)
        requires
            old(self).wf(),
        ensures
            final(self).wf(),
            r is Some <==> old(self).has_room(),
            r matches Some(h) ==> {
                &&& h.generation >= 1
                &&& !old(self)@.dom().contains(h)
                &&& !old(self).retired(h)
                &&& final(self)@ == old(self)@.insert(h, value)
            },
            r is None ==> final(self)@ == old(self)@ && final(self).layout() == old(self).layout(),
            forall|k: Handle| old(self).retired(k) ==> final(self).retired(k),
            forall|k: Handle| final(self).retired(k) ==> old(self).retired(k),
    {
        let mut i: usize = 0;
        while i < self.slots.len()
            invariant
                *self == *old(self),
                self.wf(),
                i <= self.slots@.len(),
                forall|j: int|
                    0 <= j < i ==> (#[trigger] self.layout()[j]).0 == 0 || self.layout()[j].1,
            decreases self.slots@.len() - i,
        {
            if self.slots[i].generation != 0 && self.slots[i].value.is_none() {
                let h = Handle { index: i as u32, generation: self.slots[i].generation };
                self.slots[i].value = Some(value);
                assert(self.layout() =~= old(self).layout().update(i as int, (h.generation, true)));
                assert(self@ =~= old(self)@.insert(h, value));
                assert(old(self).layout()[i as int] == (h.generation, false));
                return Some(h);
            }
            i += 1;
        }
        if self.slots.len() >= u32::MAX as usize {
            assert(self@ =~= old(self)@);
            return None;
        }
        let h = Handle { index: self.slots.len() as u32, generation: 1 };
        self.slots.push(Slot { generation: 1, value: Some(value) });
        assert(self.layout() =~= old(self).layout().push((1u32, true)));
        assert(self@ =~= old(self)@.insert(h, value));
        Some(h)
    }

    /// Takes the value that `h` names out of the store. The handle is
    /// retired: no later value answers to it.
    pub fn remove(&mut self, h: Handle) -> (r: Option<T>)
        requires
            old(self).wf(),
        ensures
            final(self).wf(),
            r is Some <==> old(self)@.dom().contains(h),
            r matches Some(v) ==> v == old(self)@[h] && final(self).retired(h),
            r is None ==> *final(self) == *old(self),
            final(self)@ == old(self)@.remove(h),
            forall|k: Handle| old(self).retired(k) ==> final(self).retired(k),
            final(self).has_room() <==> old(self).has_room() || (r is Some && h.generation
                < u32::MAX),
    {
        let i = h.index as usize;
        if i >= self.slots.len() {
            assert(self@ =~= old(self)@.remove(h));
            return None;
        }
        if self.slots[i].generation != h.generation || self.slots[i].value.is_none() {
            assert(self@ =~= old(self)@.remove(h));
            return None;
        }
        let value = self.slots[i].value.take();
        self.slots[i].generation = if h.generation == u32::MAX {
            0
        } else {
            h.generation + 1
        };
        assert(self.layout() =~= old(self).layout().update(
            i as int,
            (self.slots@[i as int].generation, false),
        ));
        assert(self@ =~= old(self)@.remove(h));
        proof {
            if old(self).has_room() && old(self).layout().len() >= u32::MAX {
                let j = choose|j: int|
                    0 <= j < old(self).layout().len() && (#[trigger] old(self).layout()[j]).0 != 0
                        && !old(self).layout()[j].1;
                assert(self.layout()[j] == old(self).layout()[j]);
            }
            if h.generation < u32::MAX {
                assert(self.layout()[i as int] == ((h.generation + 1) as u32, false));
            }
            if self.has_room() && self.layout().len() >= u32::MAX && h.generation == u32::MAX {
                let j = choose|j: int|
                    0 <= j < self.layout().len() && (#[trigger] self.layout()[j]).0 != 0
                        && !self.layout()[j].1;
                assert(old(self).layout()[j] == self.layout()[j]);
            }
        }
        value
    }

    /// The value that `h` names, for changing in place. The store after the
    /// borrow differs from the store before only in that value.
    pub fn get_mut(&mut self, h: Handle) -> (r: Option<&mut T>)
        requires
            old(self).wf(),
        ensures
            final(self).layout() == old(self).layout(),
            final(self).wf(),
            r is Some <==> old(self)@.dom().contains(h),
            r matches Some(v) ==> *v == old(self)@[h] && final(self)@ == old(self)@.insert(
                h,
                *final(v),
            ),
            r is None ==> *final(self) == *old(self),
            forall|k: Handle| old(self).retired(k) == final(self).retired(k),
            final(self).has_room() == old(self).has_room(),
    {
        let i = h.index as usize;
        if i >= self.slots.len() {
            return None;
        }
        if self.slots[i].generation != h.generation {
            return None;
        }
        if self.slots[i].value.is_none() {
            return None;
        }
        proof {
            let before = *self;
            assert forall|after: Arena<T>| before.same_places(after) implies #[trigger] after.layout()
                == before.layout() by {
                assert(after.layout() =~= before.layout());
            }
        }
        match &mut self.slots[i].value {
            Some(v) => {
                Some(v)
            },
            None => None,
        }
    }
}

} // verus!
