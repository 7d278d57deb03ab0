//! The laws of the scoped mutation cell, proved over the model in
//! [`crate::model`].
//!
//! Each executable operation of [`crate::cell::ScopeCell`] promises in its
//! `ensures` that the new abstract state is `step` of the old one (writes and
//! reverts), or that the state is unchanged (reads). The proof functions here
//! state what follows for whole histories: no sequence of operations ever
//! changes the original, a write is immediately visible, a revert restores
//! the original as the effective value and is idempotent, and operations on
//! one cell never touch another.

use vstd::prelude::*;

use crate::model::{run, step, CellOp, CellState};

verus! {

/// No operation changes the original: after any sequence of writes and
/// reverts, the original component of the state is what it was at the start.
/// In particular a cell that is dropped without being consumed — its overlay
/// discarded — leaves as effective value exactly the value it was created
/// over.
pub proof fn lemma_original_preserved<T>(s: CellState<T>, ops: Seq<CellOp<T>>)
    ensures
        run(s, ops).original == s.original,
        run(s, ops).discarded().effective() == s.original,
    decreases ops.len(),
{
    if ops.len() > 0 {
        lemma_original_preserved(step(s, ops[0]), ops.drop_first());
    }
}

/// A read reflects the last write: immediately after a write access leaves
/// the value `v` in the overlay, the effective value is `v`, whatever the
/// state was before.
pub proof fn lemma_read_reflects_write<T>(s: CellState<T>, v: T)
    ensures
        step(s, CellOp::Write(v)).effective() == v,
        step(s, CellOp::Write(v)).is_dirty(),
{
}

/// A revert clears the overlay: after a write followed by a revert the
/// effective value is the original again, and a further write re-dirties the
/// cell from that baseline without having changed the original.
pub proof fn lemma_revert_clears_write<T>(s: CellState<T>, v: T, w: T)
    ensures
        step(step(s, CellOp::Write(v)), CellOp::Revert).effective() == s.original,
        !step(step(s, CellOp::Write(v)), CellOp::Revert).is_dirty(),
        step(step(step(s, CellOp::Write(v)), CellOp::Revert), CellOp::Write(w)).effective() == w,
        step(step(step(s, CellOp::Write(v)), CellOp::Revert), CellOp::Write(w)).original
            == s.original,
{
}

/// Reverting is idempotent: a second revert in a row changes nothing, and
/// reverting a clean cell is a no-op — the state, not only the effective
/// value, is exactly what it was.
pub proof fn lemma_revert_idempotent<T>(s: CellState<T>)
    ensures
        step(step(s, CellOp::Revert), CellOp::Revert) == step(s, CellOp::Revert),
        !s.is_dirty() ==> step(s, CellOp::Revert) == s,
        !step(s, CellOp::Revert).is_dirty(),
{
}

/// A cell that is never written stays exactly as created: reads do not
/// change the state (and so do not appear in a history at all), and a
/// history of reverts alone leaves a fresh cell untouched — clean, with the
/// original as its effective value. Releasing such a cell therefore changes
/// nothing.
pub proof fn lemma_no_write_no_op<T>(v: T, ops: Seq<CellOp<T>>)
    requires
        forall|i: int| 0 <= i < ops.len() ==> ops[i] is Revert,
    ensures
        run(CellState::fresh(v), ops) == CellState::fresh(v),
    decreases ops.len(),
{
    if ops.len() > 0 {
        assert(step(CellState::fresh(v), ops[0]) == CellState::fresh(v));
        lemma_no_write_no_op(v, ops.drop_first());
    }
}

/// An operation aimed at one of two cells, as seen by a history of a pair of
/// cells: each entry names the cell it acts on.
pub enum PairOp<T> {
    /// An operation on the first cell.
    First(CellOp<T>),
    /// An operation on the second cell.
    Second(CellOp<T>),
}

/// The pair of states after an interleaved history: each entry steps the
/// cell it names and leaves the other state exactly as it was.
pub open spec fn run_pair<T>(
    s1: CellState<T>,
    s2: CellState<T>,
    ops: Seq<PairOp<T>>,
) -> (CellState<T>, CellState<T>)
    decreases ops.len(),
{
    if ops.len() == 0 {
        (s1, s2)
    } else {
        match ops[0] {
            PairOp::First(op) => run_pair(step(s1, op), s2, ops.drop_first()),
            PairOp::Second(op) => run_pair(s1, step(s2, op), ops.drop_first()),
        }
    }
}

/// The operations of an interleaved history that act on the first cell, in
/// order.
pub open spec fn firsts<T>(ops: Seq<PairOp<T>>) -> Seq<CellOp<T>>
    decreases ops.len(),
{
    if ops.len() == 0 {
        Seq::empty()
    } else {
        match ops[0] {
            PairOp::First(op) => seq![op] + firsts(ops.drop_first()),
            PairOp::Second(_) => firsts(ops.drop_first()),
        }
    }
}

/// The operations of an interleaved history that act on the second cell, in
/// order.
pub open spec fn seconds<T>(ops: Seq<PairOp<T>>) -> Seq<CellOp<T>>
    decreases ops.len(),
{
    if ops.len() == 0 {
        Seq::empty()
    } else {
        match ops[0] {
            PairOp::First(_) => seconds(ops.drop_first()),
            PairOp::Second(op) => seq![op] + seconds(ops.drop_first()),
        }
    }
}

/// Two cells are independent: however operations on the two are interleaved,
/// each cell ends in the state its own operations alone produce. Mutating
/// one never affects the other's effective value, nor the other's original.
pub proof fn lemma_independent_cells<T>(
    s1: CellState<T>,
    s2: CellState<T>,
    ops: Seq<PairOp<T>>,
)
    ensures
        run_pair(s1, s2, ops).0 == run(s1, firsts(ops)),
        run_pair(s1, s2, ops).1 == run(s2, seconds(ops)),
    decreases ops.len(),
{
    if ops.len() > 0 {
        match ops[0] {
            PairOp::First(op) => {
                lemma_independent_cells(step(s1, op), s2, ops.drop_first());
                assert(firsts(ops) == seq![op] + firsts(ops.drop_first()));
                assert((seq![op] + firsts(ops.drop_first())).drop_first()
                    =~= firsts(ops.drop_first()));
            },
            PairOp::Second(op) => {
                lemma_independent_cells(s1, step(s2, op), ops.drop_first());
                assert(seconds(ops) == seq![op] + seconds(ops.drop_first()));
                assert((seq![op] + seconds(ops.drop_first())).drop_first()
                    =~= seconds(ops.drop_first()));
            },
        }
    }
}

} // verus!
