//! A scoped, revertible mutation cell.
//!
//! [`cell::ScopeCell`] wraps a shared borrow of a value and lets a caller
//! mutate a private overlay copy in its place. The borrowed original is never
//! touched: writes go to a lazily created duplicate, which is discarded when
//! the cell goes out of scope or is reverted, and which can be extracted by
//! consuming the cell.

pub mod cell;
pub mod laws;
pub mod model;

pub use cell::ScopeBorrow;
pub use cell::ScopeBorrowMut;
pub use cell::ScopeCell;
