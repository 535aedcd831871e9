//! A table of counted values behind opaque handles. A handle names a slot and the
//! generation of its content, so a handle that outlives its value names nothing and can
//! never be taken for the slot's next content.
//!
//! A value is held in two ways. References are what the owner of a handle counts: one
//! for the handle it was given, one more for each copy it keeps. Pins are what other
//! values of the library count while they point at the value. The value stays until
//! neither is left, and giving up references cannot take a pinned value away.

use vstd::prelude::*;

verus! {

/// The name of a value in an arena.
#[derive(Clone, Copy, Debug, PartialEq, Eq, Structural)]
pub struct Handle {
    pub index: usize,
    pub generation: u64,
}

/// A place in an arena. It holds a value exactly while a reference or a pin is counted.
#[derive(Debug)]
pub struct Slot<T> {
    pub generation: u64,
    pub refs: u64,
    pub pins: u64,
    pub value: Option<T>,
}

/// What a live handle stands for: the value, and how many references and pins are
/// counted for it.
pub struct Entry<T> {
    pub value: T,
    pub refs: nat,
    pub pins: nat,
}

/// The table.
#[derive(Debug)]
pub struct Arena<T> {
    pub slots: Vec<Slot<T>>,
}

impl<T> View for Arena<T> {
    type V = Map<Handle, Entry<T>>;

    /// The live handles, each with its value and its counts.
    open spec fn view(&self) -> Map<Handle, Entry<T>> {
        Map::new(
            |h: Handle| self.live(h),
            |h: Handle|
                Entry {
                    value: self.slots@[h.index as int].value->0,
                    refs: self.slots@[h.index as int].refs as nat,
                    pins: self.slots@[h.index as int].pins as nat,
                },
        )
    }
}

/// Whether one more reference to what `h` names can be counted.
pub open spec fn can_retain<T>(entries: Map<Handle, Entry<T>>, h: Handle) -> bool {
    entries.dom().contains(h) && entries[h].refs < u64::MAX
}

/// The live handles after one more reference to what `h` names. Nothing changes if `h`
/// names nothing or the count cannot grow.
pub open spec fn retained<T>(entries: Map<Handle, Entry<T>>, h: Handle) -> Map<Handle, Entry<T>> {
    if can_retain(entries, h) {
        entries.insert(
            h,
            Entry { value: entries[h].value, refs: entries[h].refs + 1, pins: entries[h].pins },
        )
    } else {
        entries
    }
}

/// Whether `h` names a value that a single reference and no pin holds.
pub open spec fn is_last<T>(entries: Map<Handle, Entry<T>>, h: Handle) -> bool {
    entries.dom().contains(h) && entries[h].refs == 1 && entries[h].pins == 0
}

/// The live handles after one reference to what `h` names was given up. The handle
/// goes if that was the last reference and there is no pin. Nothing changes if `h`
/// names nothing or no reference is counted.
pub open spec fn released<T>(entries: Map<Handle, Entry<T>>, h: Handle) -> Map<Handle, Entry<T>> {
    if !entries.dom().contains(h) || entries[h].refs == 0 {
        entries
    } else if is_last(entries, h) {
        entries.remove(h)
    } else {
        entries.insert(
            h,
            Entry {
                value: entries[h].value,
                refs: (entries[h].refs - 1) as nat,
                pins: entries[h].pins,
            },
        )
    }
}

/// Whether one more pin on what `h` names can be counted.
pub open spec fn can_pin<T>(entries: Map<Handle, Entry<T>>, h: Handle) -> bool {
    entries.dom().contains(h) && entries[h].pins < u64::MAX
}

/// The live handles after one more pin on what `h` names. Nothing changes if `h` names
/// nothing or the count cannot grow.
pub open spec fn pinned<T>(entries: Map<Handle, Entry<T>>, h: Handle) -> Map<Handle, Entry<T>> {
    if can_pin(entries, h) {
        entries.insert(
            h,
            Entry { value: entries[h].value, refs: entries[h].refs, pins: entries[h].pins + 1 },
        )
    } else {
        entries
    }
}

/// Whether `h` names a value that a single pin and no reference holds.
pub open spec fn is_last_pin<T>(entries: Map<Handle, Entry<T>>, h: Handle) -> bool {
    entries.dom().contains(h) && entries[h].pins == 1 && entries[h].refs == 0
}

/// The live handles after one pin on what `h` names was given up. The handle goes if
/// that was the last pin and there is no reference. Nothing changes if `h` names
/// nothing or no pin is counted.
pub open spec fn unpinned<T>(entries: Map<Handle, Entry<T>>, h: Handle) -> Map<Handle, Entry<T>> {
    if !entries.dom().contains(h) || entries[h].pins == 0 {
        entries
    } else if is_last_pin(entries, h) {
        entries.remove(h)
    } else {
        entries.insert(
            h,
            Entry {
                value: entries[h].value,
                refs: entries[h].refs,
                pins: (entries[h].pins - 1) as nat,
            },
        )
    }
}

impl<T> Arena<T> {
    /// A slot holds a value exactly while a reference or a pin is counted.
    pub open spec fn wf(&self) -> bool {
        forall|i: int|
            0 <= i < self.slots@.len() ==> (((#[trigger] self.slots@[i]).refs > 0
                || self.slots@[i].pins > 0) <==> self.slots@[i].value.is_some())
    }

    /// Whether `h` names a value.
    pub open spec fn live(&self, h: Handle) -> bool {
        &&& h.index < self.slots@.len()
        &&& self.slots@[h.index as int].generation == h.generation
        &&& (self.slots@[h.index as int].refs > 0 || self.slots@[h.index as int].pins > 0)
    }

    /// What the slots hold, slot by slot.
    pub open spec fn values(&self) -> Seq<Option<T>> {
        Seq::new(self.slots@.len(), |i: int| self.slots@[i].value)
    }

    /// An empty arena.
    pub fn new() -> (arena: Arena<T>)
        ensures
            arena@ == Map::<Handle, Entry<T>>::empty(),
            arena.values() == Seq::<Option<T>>::empty(),
            arena.wf(),
    {
        let arena = Arena { slots: Vec::new() };
        assert(arena@ =~= Map::<Handle, Entry<T>>::empty());
        assert(arena.values() =~= Seq::<Option<T>>::empty());
        arena
    }

    /// Whether `h` names a value.
    pub fn is_live(&self, h: Handle) -> (live: bool)
        ensures
            live == self@.dom().contains(h),
    {
        h.index < self.slots.len() && self.slots[h.index].generation == h.generation && (
        self.slots[h.index].refs > 0 || self.slots[h.index].pins > 0)
    }

    /// The value that `h` names, if it names one.
    pub fn get(&self, h: Handle) -> (found: Option<&T>)
        requires
            self.wf(),
        ensures
            found.is_some() <==> self@.dom().contains(h),
            found matches Some(value) ==> *value == self@[h].value,
    {
        if self.is_live(h) {
            self.slots[h.index].value.as_ref()
        } else {
            None
        }
    }

    /// How many references are counted for the value that `h` names; zero if it names
    /// none.
    pub fn ref_count(&self, h: Handle) -> (refs: u64)
        ensures
            self@.dom().contains(h) ==> refs == self@[h].refs,
            !self@.dom().contains(h) ==> refs == 0,
    {
        if self.is_live(h) {
            self.slots[h.index].refs
        } else {
            0
        }
    }

    /// How many pins are counted for the value that `h` names; zero if it names none.
    pub fn pin_count(&self, h: Handle) -> (pins: u64)
        ensures
            self@.dom().contains(h) ==> pins == self@[h].pins,
            !self@.dom().contains(h) ==> pins == 0,
    {
        if self.is_live(h) {
            self.slots[h.index].pins
        } else {
            0
        }
    }

    /// Puts `value` into the arena under a handle that named nothing, with one
    /// reference and no pin. Every other handle stands for what it stood for. The value
    /// goes into a slot that held none, or into a new slot at the end.
    pub fn insert(&mut self, value: T) -> (h: Handle)
        requires
            old(self).wf(),
        ensures
            !old(self)@.dom().contains(h),
            final(self)@ == old(self)@.insert(h, Entry { value, refs: 1, pins: 0 }),
            h.index <= old(self).slots@.len(),
            h.index < old(self).slots@.len() ==> old(self).values()[h.index as int].is_none()
                && final(self).values() == old(self).values().update(h.index as int, Some(value)),
            h.index == old(self).slots@.len() ==> final(self).values() == old(self).values().push(
                Some(value),
            ),
            final(self).wf(),
    {
        let mut i: usize = 0;
        while i < self.slots.len() && !(self.slots[i].refs == 0 && self.slots[i].pins == 0
            && self.slots[i].generation < u64::MAX)
            invariant
                i <= self.slots.len(),
            decreases self.slots.len() - i,
        {
            i = i + 1;
        }
        if i < self.slots.len() {
            let generation = self.slots[i].generation + 1;
            self.slots[i] = Slot { generation, refs: 1, pins: 0, value: Some(value) };
            let h = Handle { index: i, generation };
            assert(final(self)@ =~= old(self)@.insert(h, Entry { value, refs: 1, pins: 0 })) by {
                assert forall|g: Handle| #[trigger] self.live(g) == (old(self).live(g) || g == h) by {
                    if g.index != i {
                        assert(self.slots@[g.index as int] == old(self).slots@[g.index as int]
                            || g.index >= self.slots@.len());
                    }
                }
            }
            assert(self.values() =~= old(self).values().update(i as int, Some(value)));
            h
        } else {
            let index = self.slots.len();
            self.slots.push(Slot { generation: 0, refs: 1, pins: 0, value: Some(value) });
            let h = Handle { index, generation: 0 };
            assert(self@ =~= old(self)@.insert(h, Entry { value, refs: 1, pins: 0 }));
            assert(self.values() =~= old(self).values().push(Some(value)));
            h
        }
    }

    /// Counts one more reference to the value that `h` names. Nothing changes, and the
    /// answer is `false`, if `h` names nothing or the count cannot grow.
    pub fn retain(&mut self, h: Handle) -> (done: bool)
        requires
            old(self).wf(),
        ensures
            done == can_retain(old(self)@, h),
            final(self)@ == retained(old(self)@, h),
            final(self).values() == old(self).values(),
            final(self).wf(),
    {
        if self.is_live(h) && self.slots[h.index].refs < u64::MAX {
            self.slots[h.index].refs = self.slots[h.index].refs + 1;
            assert(self@ =~= retained(old(self)@, h));
            assert(self.values() =~= old(self).values());
            true
        } else {
            false
        }
    }

    /// Gives up a reference to the value that `h` names. When it was the last and no
    /// pin is counted, the value leaves the arena and is handed back, and `h` names
    /// nothing from then on. Nothing changes if `h` names nothing or no reference is
    /// counted.
    pub fn release(&mut self, h: Handle) -> (last: Option<T>)
        requires
            old(self).wf(),
        ensures
            last.is_some() == is_last(old(self)@, h),
            last matches Some(value) ==> value == old(self)@[h].value,
            final(self)@ == released(old(self)@, h),
            final(self).values() == (if is_last(old(self)@, h) {
                old(self).values().update(h.index as int, None)
            } else {
                old(self).values()
            }),
            final(self).wf(),
    {
        if !self.is_live(h) || self.slots[h.index].refs == 0 {
            return None;
        }
        self.slots[h.index].refs = self.slots[h.index].refs - 1;
        if self.slots[h.index].refs == 0 && self.slots[h.index].pins == 0 {
            let last = self.slots[h.index].value.take();
            assert(self@ =~= released(old(self)@, h));
            assert(self.values() =~= old(self).values().update(h.index as int, None));
            last
        } else {
            assert(self@ =~= released(old(self)@, h));
            assert(self.values() =~= old(self).values());
            None
        }
    }

    /// Counts one more pin on the value that `h` names. Nothing changes, and the answer
    /// is `false`, if `h` names nothing or the count cannot grow.
    pub fn pin(&mut self, h: Handle) -> (done: bool)
        requires
            old(self).wf(),
        ensures
            done == can_pin(old(self)@, h),
            final(self)@ == pinned(old(self)@, h),
            final(self).values() == old(self).values(),
            final(self).wf(),
    {
        if self.is_live(h) && self.slots[h.index].pins < u64::MAX {
            self.slots[h.index].pins = self.slots[h.index].pins + 1;
            assert(self@ =~= pinned(old(self)@, h));
            assert(self.values() =~= old(self).values());
            true
        } else {
            false
        }
    }

    /// Gives up a pin on the value that `h` names. When it was the last and no
    /// reference is counted, the value leaves the arena and is handed back, and `h`
    /// names nothing from then on. Nothing changes if `h` names nothing or no pin is
    /// counted.
    pub fn unpin(&mut self, h: Handle) -> (last: Option<T>)
        requires
            old(self).wf(),
        ensures
            last.is_some() == is_last_pin(old(self)@, h),
            last matches Some(value) ==> value == old(self)@[h].value,
            final(self)@ == unpinned(old(self)@, h),
            final(self).values() == (if is_last_pin(old(self)@, h) {
                old(self).values().update(h.index as int, None)
            } else {
                old(self).values()
            }),
            final(self).wf(),
    {
        if !self.is_live(h) || self.slots[h.index].pins == 0 {
            return None;
        }
        self.slots[h.index].pins = self.slots[h.index].pins - 1;
        if self.slots[h.index].refs == 0 && self.slots[h.index].pins == 0 {
            let last = self.slots[h.index].value.take();
            assert(self@ =~= unpinned(old(self)@, h));
            assert(self.values() =~= old(self).values().update(h.index as int, None));
            last
        } else {
            assert(self@ =~= unpinned(old(self)@, h));
            assert(self.values() =~= old(self).values());
            None
        }
    }
}

} // verus!
