//! The scoped mutation cell itself.

use vstd::prelude::*;

use crate::model::{step, CellOp, CellState};

verus! {

/// A scoped, revertible mutation cell.
///
/// The cell borrows `original` for its whole lifetime and never mutates it.
/// All write access goes to a private overlay copy, created lazily on the
/// first write since creation or since the last revert. Dropping the cell
/// discards the overlay; consuming it with [`ScopeCell::into_inner`] is the
/// only way to carry a modification out of the cell's scope.
///
/// The abstract state of a cell is a [`CellState`], reached as `self@`.
pub struct ScopeCell<'a, T: Clone> {
    original: &'a T,
    overlay: Option<T>,
}

impl<'a, T: Clone> View for ScopeCell<'a, T> {
    type V = CellState<T>;

    closed spec fn view(&self) -> CellState<T> {
        CellState { original: *self.original, overlay: self.overlay }
    }
}

impl<'a, T: Clone> ScopeCell<'a, T> {
    /// Creates a cell over a borrow of `data`. The new cell is clean: no
    /// overlay exists and nothing has been duplicated.
    pub fn new(data: &'a T) -> (cell: Self)
        ensures
            cell@ == CellState::fresh(*data),
    {
        ScopeCell { original: data, overlay: None }
    }

    /// Returns the effective value: the overlay if one exists, else the
    /// borrowed original. Never changes the cell.
    pub fn get(&self) -> (value: &T)
        ensures
            *value == self@.effective(),
    {
        match &self.overlay {
            Option::Some(v) => v,
            Option::None => self.original,
        }
    }

    /// Returns a mutable handle to the effective value, guaranteed to touch
    /// only the overlay. A clean cell first duplicates the current effective
    /// value (which then equals the original) into a fresh overlay; a dirty
    /// cell hands out its existing overlay without duplicating again.
    ///
    /// Whatever the caller leaves in the handle becomes the effective value:
    /// the cell ends dirty, in the state `step(old(self)@, Write(written))`.
    pub fn get_mut(&mut self) -> (value: &mut T)
        ensures
            old(self)@.is_dirty() ==> *value == old(self)@.effective(),
            !old(self)@.is_dirty() ==> cloned(old(self)@.effective(), *value),
            final(self)@ == step(old(self)@, CellOp::Write(*final(value))),
            final(self)@.original == old(self)@.original,
            final(self)@.effective() == *final(value),
    {
        if self.overlay.is_none() {
            self.overlay = Some(self.original.clone());
        }
        match &mut self.overlay {
            Option::Some(v) => v,
            Option::None => unreached(),
        }
    }

    /// Discards the overlay, if any: the effective value is the original
    /// again. Reverting a clean cell changes nothing, so reverting twice in a
    /// row is the same as reverting once.
    pub fn revert(&mut self)
        ensures
            final(self)@ == step(old(self)@, CellOp::Revert),
            final(self)@ == old(self)@.discarded(),
            !final(self)@.is_dirty(),
            final(self)@.effective() == old(self)@.original,
    {
        self.overlay = None;
    }

    /// Consumes the cell and yields its effective value: the overlay itself
    /// if one exists (no duplication), else a duplicate of the borrowed
    /// original. The original is left untouched either way.
    pub fn into_inner(self) -> (value: T)
        ensures
            cloned(self@.effective(), value),
            self@.is_dirty() ==> value == self@.effective(),
    {
        let ScopeCell { original, overlay } = self;
        match overlay {
            Option::Some(v) => v,
            Option::None => original.clone(),
        }
    }
}

/// A read handle onto a cell: a borrow-shaped wrapper that exposes the
/// effective value by delegating to [`ScopeCell::get`]. It carries no state
/// of its own; its view is the state of the cell it watches.
pub struct ScopeBorrow<'b, 'a, T: Clone> {
    cell: &'b ScopeCell<'a, T>,
}

impl<'b, 'a, T: Clone> View for ScopeBorrow<'b, 'a, T> {
    type V = CellState<T>;

    closed spec fn view(&self) -> CellState<T> {
        (*self.cell)@
    }
}

impl<'b, 'a, T: Clone> ScopeBorrow<'b, 'a, T> {
    /// Wraps a borrow of the cell. The handle observes exactly the cell's
    /// state.
    pub fn new(cell: &'b ScopeCell<'a, T>) -> (handle: Self)
        ensures
            handle@ == cell@,
    {
        ScopeBorrow { cell }
    }

    /// The effective value of the watched cell, as [`ScopeCell::get`] returns
    /// it.
    pub fn get(&self) -> (value: &T)
        ensures
            *value == self@.effective(),
    {
        self.cell.get()
    }
}

/// A write handle onto a cell. Creating one performs the lazy copy at once —
/// it is [`ScopeCell::get_mut`] with the returned handle wrapped in a struct
/// — so the handle holds exclusive access to the cell's overlay for its whole
/// lifetime, and every write through it lands in the overlay, never in the
/// original.
pub struct ScopeBorrowMut<'b, T> {
    /// The mutable handle onto the cell's overlay. Whatever value it holds
    /// when the handle is released becomes the cell's effective value.
    pub value: &'b mut T,
}

impl<'b, T: Clone> ScopeBorrowMut<'b, T> {
    /// Takes the cell's write handle: a clean cell first duplicates its
    /// effective value into a fresh overlay, a dirty cell hands out the
    /// existing overlay. The cell ends dirty, holding whatever the handle is
    /// released with.
    pub fn new<'a>(cell: &'b mut ScopeCell<'a, T>) -> (handle: Self)
        ensures
            old(cell)@.is_dirty() ==> *handle.value == old(cell)@.effective(),
            !old(cell)@.is_dirty() ==> cloned(old(cell)@.effective(), *handle.value),
            final(cell)@ == step(old(cell)@, CellOp::Write(*final(handle.value))),
            final(cell)@.effective() == *final(handle.value),
            final(cell)@.original == old(cell)@.original,
    {
        ScopeBorrowMut { value: cell.get_mut() }
    }
}

} // verus!
