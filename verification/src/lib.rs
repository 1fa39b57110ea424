//! An observable value primitive: a cell that holds a value, lets callers
//! mutate it under a choice of change-detection policies, and notifies every
//! registered observer, in registration order, whenever a mutation commits.
//! On top of the cell sit a `derive` operator, which keeps a child cell equal
//! to a pure function of its parent's value, and a pairwise `merge`
//! combinator, which keeps one tuple-valued cell in sync with two parents.
//!
//! Everything here is sequential and ownership-based: a derivation or a merge
//! owns its parents, which renders the retention rule — a parent keeps its
//! derived children alive and updated for as long as the parent itself lives —
//! directly in the type structure. Observers are recording slots owned by the
//! cell: the one capability a cell ever exercises on an observer is handing it
//! each committed value, and that is exactly what the logs capture and what
//! the contracts pin down.

pub mod base;
pub mod derived;
mod fingerprint;
pub mod laws;
pub mod merge;
pub mod model;
pub mod observers;
pub mod reactive;

pub use base::ReactiveBase;
pub use derived::Derived;
pub use merge::{Merge, Merged, MergedDerived, MergedNested};
pub use observers::ObserverList;
pub use reactive::Reactive;
