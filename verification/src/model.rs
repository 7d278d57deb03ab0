//! The mathematical model of a scoped mutation cell.
//!
//! A cell is modelled by a [`CellState`]: the original value it was created
//! over, and the optional overlay that absorbs writes. The operations that
//! change a cell mid-scope are modelled by [`CellOp`] and the transition
//! function [`step`]; [`run`] folds a whole sequence of operations over a
//! state. The laws of the cell are stated and proved over this model in
//! [`crate::laws`].

use vstd::prelude::*;

verus! {

/// The abstract state of a cell: the value it was created over, and the
/// overlay holding the effective value once a write access has occurred.
pub struct CellState<T> {
    /// The value the cell was created over. No operation changes it.
    pub original: T,
    /// The private copy that absorbs writes; `None` while the cell is clean.
    pub overlay: Option<T>,
}

impl<T> CellState<T> {
    /// The state of a freshly created cell over `original`: clean, no overlay.
    pub open spec fn fresh(original: T) -> CellState<T> {
        CellState { original, overlay: None }
    }

    /// A cell is dirty when an overlay is present.
    pub open spec fn is_dirty(self) -> bool {
        self.overlay is Some
    }

    /// The value a reader observes: the overlay if present, else the original.
    pub open spec fn effective(self) -> T {
        match self.overlay {
            Option::Some(v) => v,
            Option::None => self.original,
        }
    }

    /// The state after the overlay is discarded (a revert, or scope exit
    /// without a consume).
    pub open spec fn discarded(self) -> CellState<T> {
        CellState { original: self.original, overlay: None }
    }
}

/// An operation that changes a cell mid-scope. A write access is modelled by
/// the value it leaves in the overlay; reads do not change the state and so
/// do not appear.
pub enum CellOp<T> {
    /// A write access that leaves the overlay holding the given value.
    Write(T),
    /// An explicit revert: the overlay is discarded.
    Revert,
}

/// The transition function of the cell's state machine.
pub open spec fn step<T>(s: CellState<T>, op: CellOp<T>) -> CellState<T> {
    match op {
        CellOp::Write(v) => CellState { original: s.original, overlay: Option::Some(v) },
        CellOp::Revert => s.discarded(),
    }
}

/// The state after a whole sequence of operations, first to last.
pub open spec fn run<T>(s: CellState<T>, ops: Seq<CellOp<T>>) -> CellState<T>
    decreases ops.len(),
{
    if ops.len() == 0 {
        s
    } else {
        run(step(s, ops[0]), ops.drop_first())
    }
}

} // verus!
