//! The mathematical model of a reactive cell and of its notification events.
use vstd::prelude::*;
use vstd::std_specs::cmp::PartialEqSpec;

verus! {

/// Model of one reactive cell: the value it currently holds and, for each
/// registered observer in registration order, the sequence of values that
/// observer has been handed so far.
#[verifier::ext_equal]
pub ghost struct ReactiveModel<T> {
    pub value: T,
    pub observers: Seq<Seq<T>>,
}

/// One observer's log across one notification: exactly one new entry, a clone
/// of the committed value, appended at the end.
pub open spec fn observer_received<T: Clone>(pre: Seq<T>, post: Seq<T>, v: T) -> bool {
    exists|e: T| post == pre.push(e) && cloned::<T>(v, e)
}

/// A notification event over a whole observer list: every observer, in list
/// order, is handed the value exactly once; none is added or dropped.
pub open spec fn received_all<T: Clone>(pre: Seq<Seq<T>>, post: Seq<Seq<T>>, v: T) -> bool {
    &&& post.len() == pre.len()
    &&& forall|i: int| 0 <= i < pre.len() ==> observer_received(pre[i], #[trigger] post[i], v)
}

/// An unconditional commit: the new value is stored and every observer is
/// notified with it.
pub open spec fn committed<T: Clone>(pre: ReactiveModel<T>, post: ReactiveModel<T>, nv: T) -> bool {
    &&& post.value == nv
    &&& received_all(pre.observers, post.observers, nv)
}

/// A commit that nobody hears of: the new value is stored, the observers'
/// logs stay as they were.
pub open spec fn silent_commit<T>(pre: ReactiveModel<T>, post: ReactiveModel<T>, nv: T) -> bool {
    &&& post.value == nv
    &&& post.observers == pre.observers
}

/// A merge propagation step into the first slot of a pair-valued cell: the
/// first slot is replaced by `x`, the second keeps its exact value, and every
/// observer is notified of the new pair — unconditionally, since the parent
/// already decided that a real change occurred before notifying.
pub open spec fn first_slot_set<X: Clone, Y: Clone>(
    pre: ReactiveModel<(X, Y)>,
    post: ReactiveModel<(X, Y)>,
    x: X,
) -> bool {
    &&& post.value == (x, pre.value.1)
    &&& received_all(pre.observers, post.observers, post.value)
}

/// A merge propagation step into the second slot of a pair-valued cell;
/// mirror image of [`first_slot_set`].
pub open spec fn second_slot_set<X: Clone, Y: Clone>(
    pre: ReactiveModel<(X, Y)>,
    post: ReactiveModel<(X, Y)>,
    y: Y,
) -> bool {
    &&& post.value == (pre.value.0, y)
    &&& received_all(pre.observers, post.observers, post.value)
}

/// Whether `dst` is a slot-wise clone of the pair `src`.
pub open spec fn cloned_pair<X: Clone, Y: Clone>(src: (X, Y), dst: (X, Y)) -> bool {
    cloned::<X>(src.0, dst.0) && cloned::<Y>(src.1, dst.1)
}

/// An equality-conditional commit of candidate `nv`: either the cell is left
/// exactly as it was — under an equality that obeys its specification this is
/// the outcome exactly when the candidate compares equal to the stored value —
/// or the candidate is committed and every observer notified.
pub open spec fn conditional_commit<T: PartialEq + Clone>(
    pre: ReactiveModel<T>,
    post: ReactiveModel<T>,
    nv: T,
) -> bool {
    ||| (post == pre && (T::obeys_eq_spec() ==> nv.eq_spec(&pre.value)))
    ||| (committed(pre, post, nv) && (T::obeys_eq_spec() ==> !nv.eq_spec(&pre.value)))
}

} // verus!
