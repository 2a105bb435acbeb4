use vstd::prelude::*;

use crate::ForceMut;

verus! {

/// A handle to one slot of a `Slots` store: its index and whether writes
/// through it are allowed.
#[derive(Clone, Copy, Debug, PartialEq, Eq)]
pub struct Slot {
    index: usize,
    writable: bool,
}

impl Slot {
    /// The handle that `forcemut` returns for this one.
    pub closed spec fn forced(self) -> Slot {
        Slot { index: self.index, writable: true }
    }

    /// The index of the slot.
    pub fn index(&self) -> (r: usize)
        ensures
            r == self.address(),
    {
        self.index
    }

    /// Whether writes through this handle are allowed.
    pub fn writable(&self) -> (r: bool)
        ensures
            r == self.is_writable(),
    {
        self.writable
    }
}

impl ForceMut for Slot {
    closed spec fn address(&self) -> nat {
        self.index as nat
    }

    closed spec fn is_writable(&self) -> bool {
        self.writable
    }

    fn forcemut(&self) -> (r: Slot)
        ensures
            r == self.forced(),
    {
        Slot { index: self.index, writable: true }
    }
}

/// A store of values of any one type, each in a slot of its own. Handles to
/// the slots may share a slot; a write through any writable handle is seen
/// through every other handle to that slot.
pub struct Slots<T> {
    cells: Vec<T>,
}

impl<T> View for Slots<T> {
    type V = Seq<T>;

    closed spec fn view(&self) -> Seq<T> {
        self.cells@
    }
}

impl<T> Slots<T> {
    /// An empty store.
    pub fn new() -> (r: Slots<T>)
        ensures
            r@ == Seq::<T>::empty(),
    {
        Slots { cells: Vec::new() }
    }

    /// The number of slots.
    pub fn len(&self) -> (r: usize)
        ensures
            r == self@.len(),
    {
        self.cells.len()
    }

    /// Puts `v` in a new slot and returns a read-only handle to it.
    pub fn place(&mut self, v: T) -> (r: Slot)
        requires
            old(self)@.len() < usize::MAX,
        ensures
            final(self)@ == old(self)@.push(v),
            r.address() == old(self)@.len(),
            !r.is_writable(),
    {
        let index = self.cells.len();
        self.cells.push(v);
        Slot { index, writable: false }
    }

    /// The value in the slot of `s`.
    pub fn get(&self, s: &Slot) -> (r: &T)
        requires
            s.address() < self@.len(),
        ensures
            *r == self@[s.address() as int],
    {
        &self.cells[s.index]
    }

    /// Replaces the value in the slot of `s` by `v`; every other slot keeps
    /// its value.
    pub fn set(&mut self, s: &Slot, v: T)
        requires
            s.is_writable(),
            s.address() < old(self)@.len(),
        ensures
            final(self)@ == old(self)@.update(s.address() as int, v),
    {
        self.cells.set(s.index, v);
    }
}

/// A value written through the handle that `forcemut` gives is what a read
/// through the original handle then finds, and no other slot changes.
pub proof fn lemma_write_through_forced<T>(cells: Seq<T>, s: Slot, w: T)
    requires
        s.address() < cells.len(),
    ensures
        s.forced().address() == s.address(),
        s.forced().is_writable(),
        cells.update(s.forced().address() as int, w)[s.address() as int] == w,
        forall|i: int|
            0 <= i < cells.len() && i != s.address() ==> #[trigger] cells.update(
                s.forced().address() as int,
                w,
            )[i] == cells[i],
{
}

} // verus!
