//! Host objects embedded in VM values.
//!
//! A [`Heap`] is the arena of the embedded objects of one host type. Each
//! object is reference-counted. Host code holds strong references as
//! [`Handle`]s; wrapping an object into a VM value moves one strong reference
//! into the VM, and only the VM's finalizer gives it back. The object is
//! handed out of the arena, to be dropped, by the call that releases its last
//! reference, and by no other.

use vstd::prelude::*;
use crate::value::{Term, Value};

verus! {

/// Why a VM value did not give an embedded object.
#[derive(Clone, Copy, Debug, PartialEq, Eq, Hash, Structural)]
pub enum Error {
    /// The value embeds an object of another type.
    TypeMismatch,
    /// The value embeds no object: it has another tag, or the VM holds no
    /// reference under it.
    NotEmbedded,
    /// The object has as many references as the machine can count.
    Overflow,
}

/// The model of one embedded object: the object while it is alive, the number
/// of strong references to it, and how many of them the VM holds.
pub ghost struct Slot<T> {
    pub object: Option<T>,
    pub strong: nat,
    pub wrapped: nat,
}

/// The model of an arena of embedded objects.
pub ghost struct Arena<T> {
    pub class: u32,
    pub slots: Seq<Slot<T>>,
}

impl<T> Slot<T> {
    /// An object is alive exactly while it has a strong reference, and the VM
    /// holds no more references than there are.
    pub open spec fn wf(self) -> bool {
        &&& self.object is Some <==> self.strong > 0
        &&& self.wrapped <= self.strong
    }

    /// One strong reference more.
    pub open spec fn retain(self) -> Slot<T> {
        Slot { strong: self.strong + 1, ..self }
    }

    /// One strong reference fewer; the last one takes the object with it.
    pub open spec fn release(self) -> Slot<T> {
        Slot {
            object: if self.strong == 1 {
                None
            } else {
                self.object
            },
            strong: (self.strong - 1) as nat,
            ..self
        }
    }

    /// The object that leaves the arena when one reference is released.
    pub open spec fn released(self) -> Option<T> {
        if self.strong == 1 {
            self.object
        } else {
            None
        }
    }
}

impl<T> Arena<T> {
    /// Every slot of the arena is well formed.
    pub open spec fn wf(self) -> bool {
        forall|slot: int| 0 <= slot < self.slots.len() ==> (#[trigger] self.slots[slot]).wf()
    }

    /// The arena with the state of one slot replaced.
    pub open spec fn with(self, slot: int, state: Slot<T>) -> Arena<T> {
        Arena { slots: self.slots.update(slot, state), ..self }
    }

    /// The arena after a new object entered it, with one reference that host
    /// code holds.
    pub open spec fn insert(self, object: T) -> Arena<T> {
        Arena {
            slots: self.slots.push(Slot { object: Some(object), strong: 1, wrapped: 0 }),
            ..self
        }
    }

    /// Whether host code holds a reference to the object in `slot`.
    pub open spec fn held(self, slot: int) -> bool {
        0 <= slot < self.slots.len() && self.slots[slot].wrapped < self.slots[slot].strong
    }

    /// The arena after host code copied a reference.
    pub open spec fn retain(self, slot: int) -> Arena<T> {
        self.with(slot, self.slots[slot].retain())
    }

    /// The arena after host code gave a reference to the VM.
    pub open spec fn wrap(self, slot: int) -> Arena<T> {
        self.with(slot, Slot { wrapped: self.slots[slot].wrapped + 1, ..self.slots[slot] })
    }

    /// The arena after host code dropped a reference.
    pub open spec fn release(self, slot: int) -> Arena<T> {
        self.with(slot, self.slots[slot].release())
    }

    /// The slot of the object that a VM value embeds.
    pub open spec fn lookup(self, term: Term) -> Result<int, Error> {
        match term {
            Term::Data { class, slot } => if class != self.class {
                Err(Error::TypeMismatch)
            } else if slot >= self.slots.len() || self.slots[slot as int].wrapped == 0 {
                Err(Error::NotEmbedded)
            } else {
                Ok(slot as int)
            },
            _ => Err(Error::NotEmbedded),
        }
    }

    /// The arena after the VM finalized a value that embeds the object in
    /// `slot`.
    pub open spec fn finalize(self, slot: int) -> Arena<T> {
        self.with(
            slot,
            Slot {
                wrapped: (self.slots[slot].wrapped - 1) as nat,
                ..self.slots[slot].release()
            },
        )
    }

    /// The arena after `n` references were copied.
    pub open spec fn retain_times(self, slot: int, n: nat) -> Arena<T>
        decreases n,
    {
        if n == 0 {
            self
        } else {
            self.retain_times(slot, (n - 1) as nat).retain(slot)
        }
    }

    /// The arena after `n` references were dropped.
    pub open spec fn release_times(self, slot: int, n: nat) -> Arena<T>
        decreases n,
    {
        if n == 0 {
            self
        } else {
            self.release_times(slot, (n - 1) as nat).release(slot)
        }
    }

    /// After an object entered the arena and its one reference was wrapped,
    /// the VM holds the only reference to it, and the value embeds it.
    pub proof fn lemma_wrapped(self, object: T)
        requires
            self.wf(),
            self.slots.len() <= usize::MAX,
        ensures
            ({
                let slot = self.slots.len() as int;
                let value = Term::Data { class: self.class, slot: slot as usize };
                let wrapped = self.insert(object).wrap(slot);
                &&& wrapped.wf()
                &&& wrapped.lookup(value) == Ok::<int, Error>(slot)
                &&& wrapped.slots[slot] == (Slot { object: Some(object), strong: 1, wrapped: 1 })
            }),
    {
    }

    /// Where the VM holds the only reference to an object, host code having
    /// dropped all of its own, the object is alive until the VM finalizes the
    /// value, and leaves the arena then. After that the value embeds nothing:
    /// a second finalizing is refused, and the object cannot leave the arena
    /// twice.
    pub proof fn lemma_finalize_once(self, value: Term)
        requires
            self.wf(),
            self.lookup(value) is Ok,
            self.slots[self.lookup(value)->Ok_0].strong == 1,
        ensures
            ({
                let slot = self.lookup(value)->Ok_0;
                let finalized = self.finalize(slot);
                &&& self.slots[slot].object is Some
                &&& self.slots[slot].released() == self.slots[slot].object
                &&& finalized.wf()
                &&& finalized.slots[slot] == (Slot::<T> { object: None, strong: 0, wrapped: 0 })
                &&& finalized.lookup(value) == Err::<int, Error>(Error::NotEmbedded)
            }),
    {
        let slot = self.lookup(value)->Ok_0;
        assert(self.slots[slot].wf());
    }

    /// Taking `n` references out of a wrapped value and dropping each of them
    /// leaves the arena as it was: the reference that the VM holds is still
    /// there, and none of the drops takes the object out.
    pub proof fn lemma_unwrap_release(self, value: Term, n: nat)
        requires
            self.wf(),
            self.lookup(value) is Ok,
        ensures
            ({
                let slot = self.lookup(value)->Ok_0;
                let taken = self.retain_times(slot, n);
                &&& taken.wf()
                &&& taken.lookup(value) == Ok::<int, Error>(slot)
                &&& taken.slots[slot].strong == self.slots[slot].strong + n
                &&& taken.release_times(slot, n) == self
                &&& forall|k: nat|
                    k < n ==> (#[trigger] taken.release_times(slot, k)).slots[slot].released()
                        is None
            }),
        decreases n,
    {
        let slot = self.lookup(value)->Ok_0;
        if n > 0 {
            let fewer = (n - 1) as nat;
            self.lemma_unwrap_release(value, fewer);
            let before = self.retain_times(slot, fewer);
            let taken = self.retain_times(slot, n);
            assert(taken == before.retain(slot));
            assert(taken.release(slot) =~= before) by {
                assert(taken.release(slot).slots =~= before.slots);
            }
            Self::lemma_release_times_shift(taken, slot, fewer);
            assert forall|k: nat| k < n implies (#[trigger] taken.release_times(
                slot,
                k,
            )).slots[slot].released() is None by {
                Self::lemma_release_times_count(taken, slot, k);
            }
        }
    }

    /// Dropping one reference and then `n` more is dropping `n` and then one.
    proof fn lemma_release_times_shift(arena: Arena<T>, slot: int, n: nat)
        ensures
            arena.release(slot).release_times(slot, n) == arena.release_times(slot, n + 1),
        decreases n,
    {
        assert(arena.release_times(slot, n + 1) == arena.release_times(slot, n).release(slot));
        if n > 0 {
            Self::lemma_release_times_shift(arena, slot, (n - 1) as nat);
        } else {
            assert(arena.release_times(slot, 0) == arena);
        }
    }

    /// The count after `n` drops, where there are at least `n` references.
    proof fn lemma_release_times_count(arena: Arena<T>, slot: int, n: nat)
        requires
            0 <= slot < arena.slots.len(),
            n <= arena.slots[slot].strong,
        ensures
            arena.release_times(slot, n).slots.len() == arena.slots.len(),
            arena.release_times(slot, n).slots[slot].strong == arena.slots[slot].strong - n,
            n < arena.slots[slot].strong ==> arena.release_times(slot, n).slots[slot].object
                == arena.slots[slot].object,
        decreases n,
    {
        if n > 0 {
            Self::lemma_release_times_count(arena, slot, (n - 1) as nat);
        }
    }
}

/// A strong reference to an embedded object, held by host code.
///
/// A handle is not copied: [`Heap::retain`] makes another, and
/// [`Heap::release`] and [`Heap::wrap`] use one up.
#[derive(Debug)]
pub struct Handle {
    slot: usize,
}

impl Handle {
    /// The slot of the object that the handle refers to.
    pub closed spec fn slot(&self) -> int {
        self.slot as int
    }

    /// The slot of the object that the handle refers to.
    pub fn index(&self) -> (slot: usize)
        ensures
            slot == self.slot(),
    {
        self.slot
    }
}

struct Entry<T> {
    object: Option<T>,
    strong: usize,
    wrapped: usize,
}

impl<T> Entry<T> {
    spec fn state(self) -> Slot<T> {
        Slot { object: self.object, strong: self.strong as nat, wrapped: self.wrapped as nat }
    }
}

/// The states of the slots of a list of entries.
spec fn states<T>(entries: Seq<Entry<T>>) -> Seq<Slot<T>> {
    Seq::new(entries.len(), |slot: int| entries[slot].state())
}

/// Sets the two counts of a live object.
fn set_counts<T>(entries: &mut Vec<Entry<T>>, slot: usize, strong: usize, wrapped: usize)
    requires
        slot < old(entries).len(),
    ensures
        states(final(entries)@) == states(old(entries)@).update(
            slot as int,
            Slot {
                strong: strong as nat,
                wrapped: wrapped as nat,
                ..states(old(entries)@)[slot as int]
            },
        ),
{
    let mut swapped = Entry { object: None, strong: 0, wrapped: 0 };
    std::mem::swap(&mut entries[slot], &mut swapped);
    entries[slot] = Entry { object: swapped.object, strong, wrapped };
    assert(states(entries@) =~= states(old(entries)@).update(
        slot as int,
        Slot {
            strong: strong as nat,
            wrapped: wrapped as nat,
            ..states(old(entries)@)[slot as int]
        },
    ));
}

/// Takes one strong reference from a live object, and sets the number of
/// those that the VM holds.
fn drop_strong<T>(entries: &mut Vec<Entry<T>>, slot: usize, wrapped: usize) -> (object: Option<T>)
    requires
        slot < old(entries).len(),
        old(entries)[slot as int].strong > 0,
    ensures
        states(final(entries)@) == states(old(entries)@).update(
            slot as int,
            Slot { wrapped: wrapped as nat, ..states(old(entries)@)[slot as int].release() },
        ),
        object == states(old(entries)@)[slot as int].released(),
{
    let mut swapped = Entry { object: None, strong: 0, wrapped: 0 };
    std::mem::swap(&mut entries[slot], &mut swapped);
    let strong = swapped.strong - 1;
    let (kept, object) = if strong == 0 {
        (None, swapped.object)
    } else {
        (swapped.object, None)
    };
    entries[slot] = Entry { object: kept, strong, wrapped };
    assert(states(entries@) =~= states(old(entries)@).update(
        slot as int,
        Slot { wrapped: wrapped as nat, ..states(old(entries)@)[slot as int].release() },
    ));
    object
}

/// The arena of the embedded objects of the host type `T`.
pub struct Heap<T> {
    class: u32,
    entries: Vec<Entry<T>>,
}

impl<T> View for Heap<T> {
    type V = Arena<T>;

    closed spec fn view(&self) -> Arena<T> {
        Arena { class: self.class, slots: states(self.entries@) }
    }
}

impl<T> Heap<T> {
    #[verifier::type_invariant]
    spec fn inv(self) -> bool {
        self@.wf()
    }

    /// An empty arena for objects that are wrapped under the marker `class`.
    pub fn new(class: u32) -> (heap: Heap<T>)
        ensures
            heap@ == (Arena::<T> { class, slots: Seq::empty() }),
            heap@.wf(),
    {
        let heap = Heap { class, entries: Vec::new() };
        assert(heap@.slots =~= Seq::empty());
        heap
    }

    /// The marker under which the objects of this arena are wrapped.
    pub fn class(&self) -> (class: u32)
        ensures
            class == self@.class,
            self@.wf(),
    {
        proof {
            use_type_invariant(self);
        }
        self.class
    }

    /// The number of objects that ever entered the arena.
    pub fn len(&self) -> (len: usize)
        ensures
            len == self@.slots.len(),
            self@.wf(),
    {
        proof {
            use_type_invariant(self);
        }
        self.entries.len()
    }

    /// The number of strong references to the object in `slot`; zero where
    /// there is no such object, or no longer.
    pub fn strong_count(&self, slot: usize) -> (count: usize)
        ensures
            count == (if slot < self@.slots.len() {
                self@.slots[slot as int].strong
            } else {
                0
            }),
    {
        if slot < self.entries.len() {
            self.entries[slot].strong
        } else {
            0
        }
    }

    /// Whether host code holds a reference to the object in `slot`.
    pub fn is_held(&self, slot: usize) -> (held: bool)
        ensures
            held == self@.held(slot as int),
    {
        slot < self.entries.len() && self.entries[slot].wrapped < self.entries[slot].strong
    }

    /// Takes the entries out of the arena, to be changed and put back.
    fn take(&mut self) -> (entries: Vec<Entry<T>>)
        ensures
            entries == old(self).entries,
            states(entries@) == old(self)@.slots,
            old(self)@.wf(),
            final(self).class == old(self).class,
            final(self).entries@.len() == 0,
    {
        proof {
            use_type_invariant(&*self);
        }
        let mut entries: Vec<Entry<T>> = Vec::new();
        assert(states(entries@) =~= Seq::empty());
        std::mem::swap(&mut self.entries, &mut entries);
        entries
    }

    /// Puts changed entries back into the arena.
    fn put(&mut self, entries: Vec<Entry<T>>)
        requires
            (Arena { class: old(self).class, slots: states(entries@) }).wf(),
        ensures
            final(self)@ == (Arena { class: old(self).class, slots: states(entries@) }),
            final(self)@.wf(),
    {
        let mut entries = entries;
        std::mem::swap(&mut self.entries, &mut entries);
    }

    /// Moves an object into the arena. The caller holds the one reference to
    /// it.
    pub fn insert(&mut self, object: T) -> (handle: Handle)
        ensures
            final(self)@ == old(self)@.insert(object),
            final(self)@.wf(),
            handle.slot() == old(self)@.slots.len(),
    {
        let mut entries = self.take();
        let slot = entries.len();
        entries.push(Entry { object: Some(object), strong: 1, wrapped: 0 });
        assert(states(entries@) =~= old(self)@.insert(object).slots);
        assert(old(self)@.insert(object).wf());
        self.put(entries);
        Handle { slot }
    }

    /// Makes another reference to the object of `handle`.
    pub fn retain(&mut self, handle: &Handle) -> (copy: Handle)
        requires
            old(self)@.held(handle.slot()),
            old(self)@.slots[handle.slot()].strong < usize::MAX,
        ensures
            final(self)@ == old(self)@.retain(handle.slot()),
            final(self)@.wf(),
            final(self)@.held(handle.slot()),
            copy.slot() == handle.slot(),
    {
        let slot = handle.slot;
        let mut entries = self.take();
        assert(old(self)@.slots[slot as int].wf());
        let strong = entries[slot].strong;
        let wrapped = entries[slot].wrapped;
        set_counts(&mut entries, slot, strong + 1, wrapped);
        assert(old(self)@.retain(slot as int).wf());
        self.put(entries);
        Handle { slot }
    }

    /// Borrows the object of `handle`.
    pub fn get(&self, handle: &Handle) -> (object: &T)
        requires
            self@.held(handle.slot()),
        ensures
            self@.slots[handle.slot()].object == Some(*object),
    {
        proof {
            use_type_invariant(self);
        }
        assert(self@.slots[handle.slot()].wf());
        self.entries[handle.slot].object.as_ref().unwrap()
    }

    /// Wraps the object of `handle` into a VM value. The reference moves into
    /// the VM: the count of the object stays as it is.
    pub fn wrap(&mut self, handle: Handle) -> (value: Value)
        requires
            old(self)@.held(handle.slot()),
        ensures
            final(self)@ == old(self)@.wrap(handle.slot()),
            final(self)@.wf(),
            value@ == (Term::Data { class: old(self)@.class, slot: handle.slot() as usize }),
            final(self)@.lookup(value@) == Ok::<int, Error>(handle.slot()),
    {
        let slot = handle.slot;
        let mut entries = self.take();
        assert(old(self)@.slots[slot as int].wf());
        let strong = entries[slot].strong;
        let wrapped = entries[slot].wrapped;
        set_counts(&mut entries, slot, strong, wrapped + 1);
        assert(old(self)@.wrap(slot as int).wf());
        self.put(entries);
        Value::Data { class: self.class, slot }
    }

    /// Wraps the object of `handle` into a VM value and leaves the handle with
    /// the caller: the VM value holds one more reference of its own.
    pub fn share(&mut self, handle: &Handle) -> (value: Value)
        requires
            old(self)@.held(handle.slot()),
            old(self)@.slots[handle.slot()].strong < usize::MAX,
        ensures
            final(self)@ == old(self)@.retain(handle.slot()).wrap(handle.slot()),
            final(self)@.wf(),
            final(self)@.held(handle.slot()),
            value@ == (Term::Data { class: old(self)@.class, slot: handle.slot() as usize }),
            final(self)@.lookup(value@) == Ok::<int, Error>(handle.slot()),
    {
        let copy = self.retain(handle);
        self.wrap(copy)
    }

    /// Drops the reference that `handle` is. Where it was the last one, the
    /// object leaves the arena and is returned.
    pub fn release(&mut self, handle: Handle) -> (object: Option<T>)
        requires
            old(self)@.held(handle.slot()),
        ensures
            final(self)@ == old(self)@.release(handle.slot()),
            final(self)@.wf(),
            object == old(self)@.slots[handle.slot()].released(),
    {
        let slot = handle.slot;
        let mut entries = self.take();
        assert(old(self)@.slots[slot as int].wf());
        let wrapped = entries[slot].wrapped;
        let object = drop_strong(&mut entries, slot, wrapped);
        assert(states(entries@) =~= old(self)@.release(slot as int).slots);
        assert(old(self)@.release(slot as int).wf());
        self.put(entries);
        object
    }

    /// Finds the slot of the object that `value` embeds.
    pub fn lookup(&self, value: &Value) -> (result: Result<usize, Error>)
        ensures
            match result {
                Ok(slot) => self@.lookup(value@) == Ok::<int, Error>(slot as int),
                Err(error) => self@.lookup(value@) == Err::<int, Error>(error),
            },
            self@.wf(),
    {
        proof {
            use_type_invariant(self);
        }
        match value {
            Value::Data { class, slot } => {
                if *class != self.class {
                    Err(Error::TypeMismatch)
                } else if *slot >= self.entries.len() || self.entries[*slot].wrapped == 0 {
                    Err(Error::NotEmbedded)
                } else {
                    Ok(*slot)
                }
            },
            _ => Err(Error::NotEmbedded),
        }
    }

    /// Borrows the object that `value` embeds, without taking a reference.
    pub fn borrow(&self, value: &Value) -> (result: Result<&T, Error>)
        ensures
            match result {
                Ok(object) => self@.lookup(value@) is Ok && self@.slots[self@.lookup(
                    value@,
                )->Ok_0].object == Some(*object),
                Err(error) => self@.lookup(value@) == Err::<int, Error>(error),
            },
    {
        proof {
            use_type_invariant(self);
        }
        match self.lookup(value) {
            Ok(slot) => {
                assert(self@.slots[slot as int].wf());
                Ok(self.entries[slot].object.as_ref().unwrap())
            },
            Err(error) => Err(error),
        }
    }

    /// Takes a new strong reference to the object that `value` embeds. The
    /// reference that the VM holds is not touched.
    pub fn unwrap(&mut self, value: &Value) -> (result: Result<Handle, Error>)
        ensures
            final(self)@.wf(),
            match old(self)@.lookup(value@) {
                Err(error) => result == Err::<Handle, Error>(error) && final(self)@ == old(self)@,
                Ok(slot) => if old(self)@.slots[slot].strong >= usize::MAX {
                    result == Err::<Handle, Error>(Error::Overflow) && final(self)@ == old(self)@
                } else {
                    result matches Ok(handle) && handle.slot() == slot && final(self)@.held(slot)
                        && final(self)@ == old(self)@.retain(slot)
                },
            },
    {
        proof {
            use_type_invariant(&*self);
        }
        let slot = match self.lookup(value) {
            Ok(slot) => slot,
            Err(error) => {
                return Err(error);
            },
        };
        if self.entries[slot].strong == usize::MAX {
            return Err(Error::Overflow);
        }
        let mut entries = self.take();
        assert(old(self)@.slots[slot as int].wf());
        let strong = entries[slot].strong;
        let wrapped = entries[slot].wrapped;
        set_counts(&mut entries, slot, strong + 1, wrapped);
        assert(old(self)@.retain(slot as int).wf());
        self.put(entries);
        Ok(Handle { slot })
    }

    /// Releases the reference that the VM held under `value`, which its
    /// collector found unreachable. Where it was the last one, the object
    /// leaves the arena and is returned.
    pub fn finalize(&mut self, value: &Value) -> (result: Result<Option<T>, Error>)
        ensures
            final(self)@.wf(),
            match old(self)@.lookup(value@) {
                Err(error) => result == Err::<Option<T>, Error>(error)
                    && final(self)@ == old(self)@,
                Ok(slot) => result == Ok::<Option<T>, Error>(old(self)@.slots[slot].released())
                    && final(self)@ == old(self)@.finalize(slot),
            },
    {
        proof {
            use_type_invariant(&*self);
        }
        let slot = match self.lookup(value) {
            Ok(slot) => slot,
            Err(error) => {
                return Err(error);
            },
        };
        let mut entries = self.take();
        assert(old(self)@.slots[slot as int].wf());
        let wrapped = entries[slot].wrapped;
        let object = drop_strong(&mut entries, slot, wrapped - 1);
        assert(states(entries@) =~= old(self)@.finalize(slot as int).slots);
        assert(old(self)@.finalize(slot as int).wf());
        self.put(entries);
        Ok(object)
    }
}

} // verus!
