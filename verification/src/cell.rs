//! The reactive cell store: typed mutable slots with stable identities.
//!
//! Handlers do not capture cell values. They hold a `CellId`, a small copyable
//! handle, and reach the value through the store that owns it, so every
//! handler bound to the same cell sees the same slot.

use vstd::prelude::*;

verus! {

/// The handle of one cell. Its view is the position of the cell in its store.
#[derive(Clone, Copy, Debug, PartialEq, Eq, Structural, Hash)]
pub struct CellId {
    index: usize,
}

impl View for CellId {
    type V = nat;

    closed spec fn view(&self) -> nat {
        self.index as nat
    }
}

impl CellId {
    /// The position of the cell in its store.
    pub fn index(&self) -> (i: usize)
        ensures
            i as nat == self@,
    {
        self.index
    }

    /// Two handles with the same position are the same handle.
    pub proof fn lemma_view_injective(a: CellId, b: CellId)
        requires
            a@ == b@,
        ensures
            a == b,
    {
    }
}

/// A store of cells that hold values of type `T`. Its view is the sequence of
/// the current values, by position.
#[derive(Debug)]
pub struct CellStore<T> {
    slots: Vec<T>,
}

impl<T> View for CellStore<T> {
    type V = Seq<T>;

    closed spec fn view(&self) -> Seq<T> {
        self.slots@
    }
}

impl<T> CellStore<T> {
    /// Whether `id` names a cell of this store.
    pub open spec fn has(&self, id: CellId) -> bool {
        id@ < self@.len()
    }

    /// The current value of the cell `id`.
    pub open spec fn value(&self, id: CellId) -> T
        recommends
            self.has(id),
    {
        self@[id@ as int]
    }

    /// A store without cells.
    pub fn new() -> (store: Self)
        ensures
            store@ == Seq::<T>::empty(),
    {
        CellStore { slots: Vec::new() }
    }

    /// The number of cells.
    pub fn len(&self) -> (n: usize)
        ensures
            n as nat == self@.len(),
    {
        self.slots.len()
    }

    /// Creates a cell that holds `value`. The cells that exist keep their
    /// handles and their values.
    pub fn create(&mut self, value: T) -> (id: CellId)
        ensures
            final(self)@ == old(self)@.push(value),
            id@ == old(self)@.len(),
            final(self).has(id),
            final(self).value(id) == value,
    {
        let index: usize = self.slots.len();
        self.slots.push(value);
        CellId { index }
    }

    /// Whether `id` names a cell of this store.
    pub fn contains(&self, id: CellId) -> (b: bool)
        ensures
            b == self.has(id),
    {
        id.index < self.slots.len()
    }

    /// The current value of the cell: the value of the latest write, or the
    /// initial value where there was none. Reading changes nothing.
    pub fn read(&self, id: CellId) -> (value: &T)
        requires
            self.has(id),
        ensures
            *value == self.value(id),
    {
        &self.slots[id.index]
    }

    /// Replaces the value of the cell `id`. Every other cell keeps its
    /// value, and the next read of `id` returns `value`.
    pub fn write(&mut self, id: CellId, value: T)
        requires
            old(self).has(id),
        ensures
            final(self)@ == old(self)@.update(id@ as int, value),
            final(self).has(id),
            final(self).value(id) == value,
    {
        self.slots[id.index] = value;
    }
}

/// A write is visible to the read that follows it, and to no other cell: after
/// `v` was written to `id`, reading `id` gives `v`, and reading any other cell
/// gives what it held before.
pub proof fn lemma_read_after_write<T>(before: CellStore<T>, after: CellStore<T>, id: CellId, v: T)
    requires
        before.has(id),
        after@ == before@.update(id@ as int, v),
    ensures
        after.has(id),
        after.value(id) == v,
        forall|other: CellId| before.has(other) && other@ != id@ ==> after.value(other) == before.value(other),
        forall|other: CellId| after.has(other) <==> before.has(other),
{
}

} // verus!
