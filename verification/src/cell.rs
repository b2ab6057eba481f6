//! Borrow-checked cells.
//!
//! A `ReCell` pairs a value with a borrow counter: `0` means free, a positive count is
//! that many shared borrows, and `-1` means mutably borrowed. Every borrow is a guard
//! that has to be handed back to the cell that it came from; while guards are out the
//! counter decides which further borrows are allowed.
use std::marker::PhantomData;
use vstd::prelude::*;

verus! {

/// A value guarded by a run-time borrow counter.
pub struct ReCell<T> {
    borrow: isize,
    value: T,
    id: Ghost<int>,
}

/// What a `ReCell` holds: the value and the borrow counter.
pub struct CellView<T> {
    pub value: T,
    pub borrow: int,
}

impl<T> CellView<T> {
    /// The counter is `-1`, `0`, or a count of shared borrows.
    pub open spec fn well_formed(self) -> bool {
        self.borrow >= -1
    }

    /// No guard is out.
    pub open spec fn is_free(self) -> bool {
        self.borrow == 0
    }

    /// A shared borrow is allowed: nobody is writing.
    pub open spec fn is_readable(self) -> bool {
        self.borrow >= 0
    }

    /// The cell after one more shared borrow.
    pub open spec fn shared_once_more(self) -> CellView<T> {
        CellView { value: self.value, borrow: self.borrow + 1 }
    }

    /// The cell after one shared borrow was handed back.
    pub open spec fn shared_once_less(self) -> CellView<T> {
        CellView { value: self.value, borrow: self.borrow - 1 }
    }

    /// The cell while it is mutably borrowed.
    pub open spec fn writing(self) -> CellView<T> {
        CellView { value: self.value, borrow: -1 }
    }

    /// The cell with another value, no guard out.
    pub open spec fn free_with(self, value: T) -> CellView<T> {
        CellView { value, borrow: 0 }
    }
}

impl<T> View for ReCell<T> {
    type V = CellView<T>;

    closed spec fn view(&self) -> CellView<T> {
        CellView { value: self.value, borrow: self.borrow as int }
    }
}

/// A shared borrow of a `ReCell<T>`, until it is released.
pub struct Ref<T> {
    cell: PhantomData<T>,
    of: Ghost<int>,
}

/// The mutable borrow of a `ReCell<T>`, until it is released.
pub struct RefMut<T> {
    cell: PhantomData<T>,
    of: Ghost<int>,
}

impl<T> ReCell<T> {
    /// Which cell it is. Nothing is said of the id of a new cell, so a guard is known to
    /// belong to the cell that it came from, and to no other.
    pub closed spec fn id(&self) -> int {
        self.id@
    }

    /// A free cell.
    pub fn new(value: T) -> (cell: Self)
        ensures
            cell@ == (CellView { value, borrow: 0 }),
    {
        ReCell { borrow: 0, value, id: Ghost(arbitrary()) }
    }

    /// Take a shared borrow. The cell must not be mutably borrowed.
    pub fn borrow(&mut self) -> (guard: Ref<T>)
        requires
            old(self)@.is_readable(),
            old(self)@.borrow < isize::MAX,
        ensures
            guard.of() == old(self).id(),
            final(self).id() == old(self).id(),
            final(self)@ == old(self)@.shared_once_more(),
    {
        self.count_reader();
        Ref { cell: PhantomData, of: Ghost(self.id()) }
    }

    /// Count one more shared borrow.
    pub(crate) fn count_reader(&mut self)
        requires
            old(self)@.is_readable(),
            old(self)@.borrow < isize::MAX,
        ensures
            final(self).id() == old(self).id(),
            final(self)@ == old(self)@.shared_once_more(),
    {
        self.borrow = self.borrow + 1;
    }

    /// Count one shared borrow less.
    pub(crate) fn discount_reader(&mut self)
        requires
            old(self)@.borrow > 0,
        ensures
            final(self).id() == old(self).id(),
            final(self)@ == old(self)@.shared_once_less(),
    {
        self.borrow = self.borrow - 1;
    }

    /// Take the mutable borrow. The cell must be free.
    pub fn borrow_mut(&mut self) -> (guard: RefMut<T>)
        requires
            old(self)@.is_free(),
        ensures
            guard.of() == old(self).id(),
            final(self).id() == old(self).id(),
            final(self)@ == old(self)@.writing(),
    {
        self.borrow = -1;
        RefMut { cell: PhantomData, of: Ghost(self.id()) }
    }

    /// Take the mutable borrow if the cell is free; otherwise leave it as it is.
    pub fn try_borrow_mut(&mut self) -> (guard: Option<RefMut<T>>)
        ensures
            guard is Some <==> old(self)@.is_free(),
            guard matches Some(guard) ==> guard.of() == old(self).id(),
            final(self).id() == old(self).id(),
            final(self)@ == if old(self)@.is_free() {
                old(self)@.writing()
            } else {
                old(self)@
            },
    {
        if self.borrow == 0 {
            Some(self.borrow_mut())
        } else {
            None
        }
    }

    /// Look at the value without keeping a borrow. The cell must not be mutably borrowed.
    pub fn peek(&self) -> (value: &T)
        requires
            self@.is_readable(),
        ensures
            *value == self@.value,
    {
        &self.value
    }
}

impl<T> Ref<T> {
    /// Which cell is borrowed.
    pub closed spec fn of(&self) -> int {
        self.of@
    }

    /// The borrowed value.
    pub fn deref<'a>(&'a self, cell: &'a ReCell<T>) -> (value: &'a T)
        requires
            self.of() == cell.id(),
            cell@.borrow > 0,
        ensures
            *value == cell@.value,
    {
        &cell.value
    }

    /// Hand the borrow back.
    pub fn release(self, cell: &mut ReCell<T>)
        requires
            self.of() == old(cell).id(),
            old(cell)@.borrow > 0,
        ensures
            final(cell).id() == old(cell).id(),
            final(cell)@ == old(cell)@.shared_once_less(),
    {
        cell.discount_reader();
    }
}

impl<T> RefMut<T> {
    /// Which cell is borrowed.
    pub closed spec fn of(&self) -> int {
        self.of@
    }

    /// The borrowed value.
    pub fn deref<'a>(&'a self, cell: &'a ReCell<T>) -> (value: &'a T)
        requires
            self.of() == cell.id(),
            cell@.borrow == -1,
        ensures
            *value == cell@.value,
    {
        &cell.value
    }

    /// The borrowed value, for writing.
    pub fn deref_mut<'a>(&'a self, cell: &'a mut ReCell<T>) -> (value: &'a mut T)
        requires
            self.of() == old(cell).id(),
            old(cell)@.borrow == -1,
        ensures
            *value == old(cell)@.value,
            final(cell).id() == old(cell).id(),
            final(cell)@ == (CellView { value: *final(value), borrow: -1 }),
    {
        &mut cell.value
    }

    /// Hand the borrow back.
    pub fn release(self, cell: &mut ReCell<T>)
        requires
            self.of() == old(cell).id(),
            old(cell)@.borrow == -1,
        ensures
            final(cell).id() == old(cell).id(),
            final(cell)@ == old(cell)@.free_with(old(cell)@.value),
    {
        cell.borrow = 0;
    }
}

} // verus!
