//! The protocol's laws, stated over the model and proved once and for all.
//!
//! Each law quantifies over the state relations that the executable
//! operations' contracts establish, so it applies to every container and
//! every sequence of calls.
use vstd::prelude::*;

use crate::model::{
    committed, conditional_commit, observer_received, received_all, ReactiveModel,
};
use vstd::std_specs::cmp::PartialEqSpec;

verus! {

/// Whether `T`'s executable equality is the mathematical equality of values:
/// it obeys its specification, and that specification coincides with `==` of
/// the model. Primitive types qualify; a type with an eccentric `PartialEq`
/// need not.
pub open spec fn eq_is_equality<T: PartialEq>() -> bool {
    &&& T::obeys_eq_spec()
    &&& forall|a: T, b: T| #[trigger] a.eq_spec(&b) <==> a == b
}

/// The state relation of one equality-conditional update whose transform is
/// the mathematical function `f`: exactly what the `update` contract says of
/// a call whose transform always returns `f` of its argument.
pub open spec fn update_step<T: PartialEq + Clone>(
    pre: ReactiveModel<T>,
    post: ReactiveModel<T>,
    f: spec_fn(T) -> T,
) -> bool {
    conditional_commit(pre, post, f(pre.value))
}

/// `fs` applied in order: `apply_chain([f1, f2, ..., fk], v)` is
/// `fk(...f2(f1(v))...)`.
pub open spec fn apply_chain<T>(fs: Seq<spec_fn(T) -> T>, v: T) -> T
    decreases fs.len(),
{
    if fs.len() == 0 {
        v
    } else {
        apply_chain(fs.drop_first(), fs.first()(v))
    }
}

/// A run of conditional updates: `states` are the successive models of one
/// container, each step related to the next by the update with transform
/// `fs[i]`.
pub open spec fn update_chain<T: PartialEq + Clone>(
    states: Seq<ReactiveModel<T>>,
    fs: Seq<spec_fn(T) -> T>,
) -> bool {
    &&& states.len() == fs.len() + 1
    &&& forall|i: int| 0 <= i < fs.len() ==> update_step(states[i], states[i + 1], #[trigger] fs[i])
}

/// Whether every value the executable transform `g` can return is `f` of its
/// argument: `g` computes the mathematical function `f`.
pub open spec fn computes<T, G: FnOnce(&T) -> T>(g: G, f: spec_fn(T) -> T) -> bool {
    forall|v: &T, r: T| #[trigger] call_ensures(g, (v,), r) ==> r == f(*v)
}

/// Bridge from the executable operation to the law level: one call of the
/// equality-conditional update — whose contract establishes
/// `conditional_commit` for some possible return `nv` of its transform — is
/// one [`update_step`] with `f`, whenever the transform computes `f`.
pub proof fn lemma_update_call_is_step<T: PartialEq + Clone, G: FnOnce(&T) -> T>(
    g: G,
    f: spec_fn(T) -> T,
    pre: ReactiveModel<T>,
    post: ReactiveModel<T>,
    nv: T,
)
    requires
        computes(g, f),
        call_ensures(g, (&pre.value,), nv),
        conditional_commit(pre, post, nv),
    ensures
        update_step(pre, post, f),
{
}

/// After one conditional update the stored value is the transform of the old
/// value — whether or not the commit notified.
pub proof fn lemma_update_final_value<T: PartialEq + Clone>(
    pre: ReactiveModel<T>,
    post: ReactiveModel<T>,
    f: spec_fn(T) -> T,
)
    requires
        eq_is_equality::<T>(),
        update_step(pre, post, f),
    ensures
        post.value == f(pre.value),
{
}

/// Law: a sequence of conditional updates with transforms `f1, ..., fk`
/// leaves the container holding `fk(...f2(f1(initial))...)` — no call lost,
/// none reordered, none duplicated.
pub proof fn lemma_updates_compose<T: PartialEq + Clone>(
    states: Seq<ReactiveModel<T>>,
    fs: Seq<spec_fn(T) -> T>,
)
    requires
        eq_is_equality::<T>(),
        update_chain(states, fs),
    ensures
        states.last().value == apply_chain(fs, states.first().value),
    decreases fs.len(),
{
    if fs.len() == 0 {
    } else {
        assert(update_step(states[0], states[1], fs[0]));
        lemma_update_final_value(states[0], states[1], fs[0]);
        let states2 = states.drop_first();
        let fs2 = fs.drop_first();
        assert forall|i: int| 0 <= i < fs2.len() implies update_step(
            states2[i],
            states2[i + 1],
            #[trigger] fs2[i],
        ) by {
            assert(update_step(states[i + 1], states[i + 2], fs[i + 1]));
        }
        lemma_updates_compose(states2, fs2);
        assert(states2.first() == states[1]);
        assert(states.last() == states2.last());
    }
}

/// Law: a notification event over a list of `k` observers reaches each of
/// them exactly once — every log grows by exactly one entry — in list order,
/// each receiving (a clone of) the newly committed value at the end of its
/// log, with the earlier entries untouched.
pub proof fn lemma_notification_fanout<T: Clone>(pre: Seq<Seq<T>>, post: Seq<Seq<T>>, v: T)
    requires
        received_all(pre, post, v),
    ensures
        post.len() == pre.len(),
        forall|i: int| 0 <= i < pre.len() ==> #[trigger] post[i].len() == pre[i].len() + 1,
        forall|i: int|
            0 <= i < pre.len() ==> #[trigger] post[i].subrange(0, pre[i].len() as int) == pre[i],
        forall|i: int| 0 <= i < pre.len() ==> cloned::<T>(v, #[trigger] post[i].last()),
{
    assert forall|i: int| 0 <= i < pre.len() implies #[trigger] post[i].len() == pre[i].len() + 1
        && post[i].subrange(0, pre[i].len() as int) == pre[i] && cloned::<T>(
        v,
        post[i].last(),
    ) by {
        assert(observer_received(pre[i], post[i], v));
        let e = choose|e: T| post[i] == pre[i].push(e) && cloned::<T>(v, e);
        assert(post[i].subrange(0, pre[i].len() as int) =~= pre[i]);
    }
}

/// Law: a conditional update whose transform hands the value back unchanged
/// commits nothing and invokes zero observers.
pub proof fn lemma_identity_update_is_silent<T: PartialEq + Clone>(
    pre: ReactiveModel<T>,
    post: ReactiveModel<T>,
    f: spec_fn(T) -> T,
)
    requires
        eq_is_equality::<T>(),
        update_step(pre, post, f),
        f(pre.value) == pre.value,
    ensures
        post == pre,
{
}

/// Law: an unconditional commit notifies every observer even when the new
/// value equals the old one — every log still grows by exactly one entry.
pub proof fn lemma_unconditional_notifies_unchanged<T: Clone>(
    pre: ReactiveModel<T>,
    post: ReactiveModel<T>,
)
    requires
        committed(pre, post, pre.value),
    ensures
        post.value == pre.value,
        post.observers.len() == pre.observers.len(),
        forall|i: int|
            0 <= i < pre.observers.len() ==> #[trigger] post.observers[i].len()
                == pre.observers[i].len() + 1,
{
    lemma_notification_fanout(pre.observers, post.observers, pre.value);
}

/// Law: once the observer list is cleared, a conditional update still
/// commits its value, but the notification reaches nobody: the observer list
/// stays empty, so no previously registered observer hears anything.
pub proof fn lemma_cleared_update_notifies_nobody<T: PartialEq + Clone>(
    pre: ReactiveModel<T>,
    post: ReactiveModel<T>,
    f: spec_fn(T) -> T,
)
    requires
        eq_is_equality::<T>(),
        pre.observers == Seq::<Seq<T>>::empty(),
        update_step(pre, post, f),
    ensures
        post.value == f(pre.value),
        post.observers == Seq::<Seq<T>>::empty(),
{
    lemma_update_final_value(pre, post, f);
    assert(post.observers =~= Seq::<Seq<T>>::empty());
}

} // verus!
