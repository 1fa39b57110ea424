//! The merge combinator: one pair-valued container kept in sync with two
//! parent containers.
//!
//! Merging is pairwise — wider combinations nest pairs — and each supported
//! shape is its own explicit type: [`Merged`] joins two plain containers,
//! [`MergedNested`] joins a container with an already-merged pair, and
//! [`MergedDerived`] hangs a derivation off a merged pair. A merged container
//! owns its parents, so the retention rule — the subscriptions keep the
//! combined container alive and updated for as long as the parents live — is
//! rendered directly in the type structure, and every parent's mutation
//! surface is reached through the combinator.
//!
//! When a parent's commit notifies, the combined pair updates its slot and
//! notifies unconditionally: the parent already decided that a real change
//! occurred, so re-checking the whole pair would be redundant.
use vstd::prelude::*;

use crate::derived::child_synced;
use crate::model::{
    cloned_pair, committed, first_slot_set, second_slot_set, ReactiveModel,
};
use crate::reactive::Reactive;
use vstd::std_specs::cmp::PartialEqSpec;

verus! {

/// Converts a reactive source, or a tuple of them, into one combined
/// container that stays in sync with every input.
pub trait Merge: Sized {
    type Output;

    /// What merging promises of its result; each implementation states it as
    /// an open spec, so a caller of `merge` learns the combined container's
    /// initial state and that every link starts live.
    spec fn merge_post(self, r: Self::Output) -> bool;

    fn merge(self) -> (r: Self::Output)
        ensures
            self.merge_post(r),
    ;
}

/// A single container merges to itself.
impl<T> Merge for Reactive<T> {
    type Output = Reactive<T>;

    open spec fn merge_post(self, r: Self::Output) -> bool {
        r == self
    }

    fn merge(self) -> (r: Self::Output) {
        self
    }
}

/// Two containers merge to a pair.
impl<A: Clone, B: Clone> Merge for (Reactive<A>, Reactive<B>) {
    type Output = Merged<A, B>;

    open spec fn merge_post(self, r: Self::Output) -> bool {
        &&& r.left_model() == self.0@
        &&& r.right_model() == self.1@
        &&& r.left_linked && r.right_linked
        &&& cloned::<A>(self.0@.value, r.out_model().value.0)
        &&& cloned::<B>(self.1@.value, r.out_model().value.1)
        &&& r.out_model().observers == Seq::<Seq<(A, B)>>::empty()
    }

    fn merge(self) -> (r: Self::Output) {
        Merged::new(self.0, self.1)
    }
}

/// A container and a pair of containers merge to a nested pair.
impl<A: Clone, B: Clone, C: Clone> Merge for (Reactive<A>, (Reactive<B>, Reactive<C>)) {
    type Output = MergedNested<A, B, C>;

    open spec fn merge_post(self, r: Self::Output) -> bool {
        &&& r.left_model() == self.0@
        &&& r.left_linked && r.right_linked
        &&& cloned::<A>(self.0@.value, r.out_model().value.0)
        &&& r.right.left_model() == self.1.0@
        &&& r.right.right_model() == self.1.1@
        &&& r.right.left_linked && r.right.right_linked
        &&& cloned::<B>(self.1.0@.value, r.right.out_model().value.0)
        &&& cloned::<C>(self.1.1@.value, r.right.out_model().value.1)
        &&& cloned_pair(r.right.out_model().value, r.out_model().value.1)
        &&& r.right.out_model().observers == Seq::<Seq<(B, C)>>::empty()
        &&& r.out_model().observers == Seq::<Seq<(A, (B, C))>>::empty()
    }

    fn merge(self) -> (r: Self::Output) {
        let (a, (b, c)) = self;
        MergedNested::new(a, Merged::new(b, c))
    }
}

/// A container and an already-merged pair merge to a nested pair.
impl<A: Clone, B: Clone, C: Clone> Merge for (Reactive<A>, Merged<B, C>) {
    type Output = MergedNested<A, B, C>;

    open spec fn merge_post(self, r: Self::Output) -> bool {
        &&& r.left_model() == self.0@
        &&& r.right == self.1
        &&& r.left_linked && r.right_linked
        &&& cloned::<A>(self.0@.value, r.out_model().value.0)
        &&& cloned_pair(self.1.out_model().value, r.out_model().value.1)
        &&& r.out_model().observers == Seq::<Seq<(A, (B, C))>>::empty()
    }

    fn merge(self) -> (r: Self::Output) {
        MergedNested::new(self.0, self.1)
    }
}

/// Two containers joined into one pair-valued container.
///
/// The fields are public so that the contracts can speak about them; the
/// methods below are the protocol, and touching the fields directly is raw
/// access in the same sense as [`Reactive::with`].
pub struct Merged<A, B> {
    pub left: Reactive<A>,
    pub right: Reactive<B>,
    pub out: Reactive<(A, B)>,
    pub left_linked: bool,
    pub right_linked: bool,
}

impl<A, B> Merged<A, B> {
    /// Model of the left parent.
    pub open spec fn left_model(&self) -> ReactiveModel<A> {
        self.left@
    }

    /// Model of the right parent.
    pub open spec fn right_model(&self) -> ReactiveModel<B> {
        self.right@
    }

    /// Model of the combined pair-valued container.
    pub open spec fn out_model(&self) -> ReactiveModel<(A, B)> {
        self.out@
    }

    /// Everything a mutation leaves untouched: the two link flags.
    pub open spec fn same_links(&self, post: &Self) -> bool {
        post.left_linked == self.left_linked && post.right_linked == self.right_linked
    }
}

impl<A: Clone, B: Clone> Merged<A, B> {
    /// Joins two containers: the combined pair starts from a clone of each
    /// parent's current value, read left first — the two reads are not one
    /// atomic snapshot — with no observers yet.
    pub fn new(left: Reactive<A>, right: Reactive<B>) -> (r: Self)
        ensures
            r.left_model() == left@,
            r.right_model() == right@,
            r.left_linked && r.right_linked,
            cloned::<A>(left@.value, r.out_model().value.0),
            cloned::<B>(right@.value, r.out_model().value.1),
            r.out_model().observers == Seq::<Seq<(A, B)>>::empty(),
    {
        let a = left.value();
        let b = right.value();
        Merged { left, right, out: Reactive::new((a, b)), left_linked: true, right_linked: true }
    }

    /// A slot-wise clone of the combined pair's current value.
    pub fn value(&self) -> (r: (A, B))
        ensures
            cloned_pair(self.out_model().value, r),
    {
        let p = self.out.value_ref();
        (p.0.clone(), p.1.clone())
    }

    /// The left parent's equality-conditional update; on a commit, while the
    /// left link holds, the combined pair replaces its first slot with a
    /// clone of the committed value and notifies unconditionally. Returns
    /// whether the combined pair's observers were notified.
    pub(crate) fn update_left_reporting<G: FnOnce(&A) -> A>(&mut self, g: G) -> (out_notified:
        bool) where
        A: PartialEq,

        requires
            call_requires(g, (&old(self).left_model().value,)),
        ensures
            old(self).same_links(final(self)),
            final(self).right_model() == old(self).right_model(),
            exists|nv: A|
                {
                    &&& #[trigger] call_ensures(g, (&old(self).left_model().value,), nv)
                    &&& if out_notified {
                        &&& old(self).left_linked
                        &&& committed(old(self).left_model(), final(self).left_model(), nv)
                        &&& A::obeys_eq_spec() ==> !nv.eq_spec(&old(self).left_model().value)
                        &&& exists|ac: A|
                            #[trigger] cloned::<A>(nv, ac) && first_slot_set(
                                old(self).out_model(),
                                final(self).out_model(),
                                ac,
                            )
                    } else {
                        &&& final(self).out_model() == old(self).out_model()
                        &&& {
                            ||| {
                                &&& final(self).left_model() == old(self).left_model()
                                &&& A::obeys_eq_spec() ==> nv.eq_spec(&old(self).left_model().value)
                            }
                            ||| {
                                &&& !old(self).left_linked
                                &&& committed(old(self).left_model(), final(self).left_model(), nv)
                                &&& A::obeys_eq_spec() ==> !nv.eq_spec(
                                    &old(self).left_model().value,
                                )
                            }
                        }
                    }
                },
    {
        let nv = g(self.left.value_ref());
        let ac_opt = if self.left_linked {
            Some(nv.clone())
        } else {
            None
        };
        let notified = self.left.commit_if_changed(nv);
        if notified {
            match ac_opt {
                Some(ac) => {
                    self.out.set_first_notify(ac);
                    proof {
                        assert(cloned::<A>(nv, ac));
                    }
                    true
                },
                None => false,
            }
        } else {
            false
        }
    }

    /// The right parent's equality-conditional update; mirror image of
    /// [`Self::update_left_reporting`].
    pub(crate) fn update_right_reporting<G: FnOnce(&B) -> B>(&mut self, g: G) -> (out_notified:
        bool) where
        B: PartialEq,

        requires
            call_requires(g, (&old(self).right_model().value,)),
        ensures
            old(self).same_links(final(self)),
            final(self).left_model() == old(self).left_model(),
            exists|nv: B|
                {
                    &&& #[trigger] call_ensures(g, (&old(self).right_model().value,), nv)
                    &&& if out_notified {
                        &&& old(self).right_linked
                        &&& committed(old(self).right_model(), final(self).right_model(), nv)
                        &&& B::obeys_eq_spec() ==> !nv.eq_spec(&old(self).right_model().value)
                        &&& exists|bc: B|
                            #[trigger] cloned::<B>(nv, bc) && second_slot_set(
                                old(self).out_model(),
                                final(self).out_model(),
                                bc,
                            )
                    } else {
                        &&& final(self).out_model() == old(self).out_model()
                        &&& {
                            ||| {
                                &&& final(self).right_model() == old(self).right_model()
                                &&& B::obeys_eq_spec() ==> nv.eq_spec(
                                    &old(self).right_model().value,
                                )
                            }
                            ||| {
                                &&& !old(self).right_linked
                                &&& committed(old(self).right_model(), final(self).right_model(), nv)
                                &&& B::obeys_eq_spec() ==> !nv.eq_spec(
                                    &old(self).right_model().value,
                                )
                            }
                        }
                    }
                },
    {
        let nv = g(self.right.value_ref());
        let bc_opt = if self.right_linked {
            Some(nv.clone())
        } else {
            None
        };
        let notified = self.right.commit_if_changed(nv);
        if notified {
            match bc_opt {
                Some(bc) => {
                    self.out.set_second_notify(bc);
                    proof {
                        assert(cloned::<B>(nv, bc));
                    }
                    true
                },
                None => false,
            }
        } else {
            false
        }
    }

    /// The left parent's equality-conditional update; on a commit, while the
    /// left link holds, the combined pair replaces its first slot with a
    /// clone of the committed value and notifies unconditionally.
    pub fn update_left<G: FnOnce(&A) -> A>(&mut self, g: G) where A: PartialEq
        requires
            call_requires(g, (&old(self).left_model().value,)),
        ensures
            old(self).same_links(final(self)),
            final(self).right_model() == old(self).right_model(),
            exists|nv: A|
                {
                    &&& #[trigger] call_ensures(g, (&old(self).left_model().value,), nv)
                    &&& {
                        ||| {
                            &&& final(self).left_model() == old(self).left_model()
                            &&& final(self).out_model() == old(self).out_model()
                            &&& A::obeys_eq_spec() ==> nv.eq_spec(&old(self).left_model().value)
                        }
                        ||| {
                            &&& committed(old(self).left_model(), final(self).left_model(), nv)
                            &&& A::obeys_eq_spec() ==> !nv.eq_spec(&old(self).left_model().value)
                            &&& if old(self).left_linked {
                                exists|ac: A|
                                    #[trigger] cloned::<A>(nv, ac) && first_slot_set(
                                        old(self).out_model(),
                                        final(self).out_model(),
                                        ac,
                                    )
                            } else {
                                final(self).out_model() == old(self).out_model()
                            }
                        }
                    }
                },
    {
        let _ = self.update_left_reporting(g);
    }

    /// The right parent's equality-conditional update; mirror image of
    /// [`Self::update_left`].
    pub fn update_right<G: FnOnce(&B) -> B>(&mut self, g: G) where B: PartialEq
        requires
            call_requires(g, (&old(self).right_model().value,)),
        ensures
            old(self).same_links(final(self)),
            final(self).left_model() == old(self).left_model(),
            exists|nv: B|
                {
                    &&& #[trigger] call_ensures(g, (&old(self).right_model().value,), nv)
                    &&& {
                        ||| {
                            &&& final(self).right_model() == old(self).right_model()
                            &&& final(self).out_model() == old(self).out_model()
                            &&& B::obeys_eq_spec() ==> nv.eq_spec(&old(self).right_model().value)
                        }
                        ||| {
                            &&& committed(old(self).right_model(), final(self).right_model(), nv)
                            &&& B::obeys_eq_spec() ==> !nv.eq_spec(&old(self).right_model().value)
                            &&& if old(self).right_linked {
                                exists|bc: B|
                                    #[trigger] cloned::<B>(nv, bc) && second_slot_set(
                                        old(self).out_model(),
                                        final(self).out_model(),
                                        bc,
                                    )
                            } else {
                                final(self).out_model() == old(self).out_model()
                            }
                        }
                    }
                },
    {
        let _ = self.update_right_reporting(g);
    }

    /// Hangs a derivation off the combined pair: computes `f` of the current
    /// pair eagerly — the child starts already caught up, and no observer of
    /// the child is invoked for this first value — then keeps the child in
    /// sync with every later notification of the combined pair.
    pub fn derive<U: PartialEq + Clone, F: Fn(&(A, B)) -> U>(self, f: F) -> (d: MergedDerived<
        A,
        B,
        U,
        F,
    >)
        requires
            call_requires(f, (&self.out_model().value,)),
        ensures
            d.parent == self,
            d.f == f,
            d.linked,
            call_ensures(f, (&self.out_model().value,), d.child@.value),
            d.child@.observers == Seq::<Seq<U>>::empty(),
    {
        let u = f(self.out.value_ref());
        MergedDerived { parent: self, f, child: Reactive::new(u), linked: true }
    }
}

/// A derivation hanging off a merged pair: the child container is kept in
/// sync with a pure function of the combined pair's value.
///
/// The fields are public so that the contracts can speak about the stored
/// mapping; the methods below are the protocol.
#[verifier::reject_recursive_types(A)]
#[verifier::reject_recursive_types(B)]
#[verifier::reject_recursive_types(U)]
pub struct MergedDerived<A, B, U, F: Fn(&(A, B)) -> U> {
    pub parent: Merged<A, B>,
    pub f: F,
    pub child: Reactive<U>,
    pub linked: bool,
}

impl<A, B, U: PartialEq + Clone, F: Fn(&(A, B)) -> U> MergedDerived<A, B, U, F> {
    /// Model of the child container.
    pub open spec fn child_model(&self) -> ReactiveModel<U> {
        self.child@
    }

    /// Everything a mutation leaves untouched: the mapping and the link flag.
    pub open spec fn same_link(&self, post: &Self) -> bool {
        post.f == self.f && post.linked == self.linked
    }

    /// A clone of the child's current value.
    pub fn value(&self) -> (r: U)
        ensures
            cloned::<U>(self.child_model().value, r),
    {
        self.child.value()
    }

    /// The left parent's equality-conditional update; on a commit, while the
    /// links hold, the combined pair updates its first slot and notifies
    /// unconditionally, and the child then commits the mapped pair under its
    /// own conditional policy.
    pub fn update_left<G: FnOnce(&A) -> A>(&mut self, g: G) where A: PartialEq + Clone, B: Clone
        requires
            call_requires(g, (&old(self).parent.left_model().value,)),
            forall|p: &(A, B)|
                p.1 == old(self).parent.out_model().value.1 ==> #[trigger] call_requires(
                    old(self).f,
                    (p,),
                ),
        ensures
            old(self).same_link(final(self)),
            old(self).parent.same_links(&final(self).parent),
            final(self).parent.right_model() == old(self).parent.right_model(),
            exists|nv: A|
                {
                    &&& #[trigger] call_ensures(g, (&old(self).parent.left_model().value,), nv)
                    &&& {
                        ||| {
                            &&& final(self).parent.left_model() == old(self).parent.left_model()
                            &&& final(self).parent.out_model() == old(self).parent.out_model()
                            &&& final(self).child_model() == old(self).child_model()
                            &&& A::obeys_eq_spec() ==> nv.eq_spec(
                                &old(self).parent.left_model().value,
                            )
                        }
                        ||| {
                            &&& committed(
                                old(self).parent.left_model(),
                                final(self).parent.left_model(),
                                nv,
                            )
                            &&& A::obeys_eq_spec() ==> !nv.eq_spec(
                                &old(self).parent.left_model().value,
                            )
                            &&& if old(self).parent.left_linked {
                                &&& exists|ac: A|
                                    #[trigger] cloned::<A>(nv, ac) && first_slot_set(
                                        old(self).parent.out_model(),
                                        final(self).parent.out_model(),
                                        ac,
                                    )
                                &&& if old(self).linked {
                                    child_synced(
                                        old(self).f,
                                        final(self).parent.out_model().value,
                                        old(self).child_model(),
                                        final(self).child_model(),
                                    )
                                } else {
                                    final(self).child_model() == old(self).child_model()
                                }
                            } else {
                                &&& final(self).parent.out_model() == old(self).parent.out_model()
                                &&& final(self).child_model() == old(self).child_model()
                            }
                        }
                    }
                },
    {
        let fref = &self.f;
        let notified = self.parent.update_left_reporting(g);
        if notified && self.linked {
            let u = (fref)(self.parent.out.value_ref());
            let _ = self.child.commit_if_changed(u);
        }
    }

    /// The right parent's equality-conditional update; mirror image of
    /// [`Self::update_left`].
    pub fn update_right<G: FnOnce(&B) -> B>(&mut self, g: G) where B: PartialEq + Clone, A: Clone
        requires
            call_requires(g, (&old(self).parent.right_model().value,)),
            forall|p: &(A, B)|
                p.0 == old(self).parent.out_model().value.0 ==> #[trigger] call_requires(
                    old(self).f,
                    (p,),
                ),
        ensures
            old(self).same_link(final(self)),
            old(self).parent.same_links(&final(self).parent),
            final(self).parent.left_model() == old(self).parent.left_model(),
            exists|nv: B|
                {
                    &&& #[trigger] call_ensures(g, (&old(self).parent.right_model().value,), nv)
                    &&& {
                        ||| {
                            &&& final(self).parent.right_model() == old(self).parent.right_model()
                            &&& final(self).parent.out_model() == old(self).parent.out_model()
                            &&& final(self).child_model() == old(self).child_model()
                            &&& B::obeys_eq_spec() ==> nv.eq_spec(
                                &old(self).parent.right_model().value,
                            )
                        }
                        ||| {
                            &&& committed(
                                old(self).parent.right_model(),
                                final(self).parent.right_model(),
                                nv,
                            )
                            &&& B::obeys_eq_spec() ==> !nv.eq_spec(
                                &old(self).parent.right_model().value,
                            )
                            &&& if old(self).parent.right_linked {
                                &&& exists|bc: B|
                                    #[trigger] cloned::<B>(nv, bc) && second_slot_set(
                                        old(self).parent.out_model(),
                                        final(self).parent.out_model(),
                                        bc,
                                    )
                                &&& if old(self).linked {
                                    child_synced(
                                        old(self).f,
                                        final(self).parent.out_model().value,
                                        old(self).child_model(),
                                        final(self).child_model(),
                                    )
                                } else {
                                    final(self).child_model() == old(self).child_model()
                                }
                            } else {
                                &&& final(self).parent.out_model() == old(self).parent.out_model()
                                &&& final(self).child_model() == old(self).child_model()
                            }
                        }
                    }
                },
    {
        let fref = &self.f;
        let notified = self.parent.update_right_reporting(g);
        if notified && self.linked {
            let u = (fref)(self.parent.out.value_ref());
            let _ = self.child.commit_if_changed(u);
        }
    }
}

/// A container and an already-merged pair joined into one nested-pair-valued
/// container.
///
/// The fields are public so that the contracts can speak about them; the
/// methods below are the protocol.
pub struct MergedNested<A, B, C> {
    pub left: Reactive<A>,
    pub right: Merged<B, C>,
    pub out: Reactive<(A, (B, C))>,
    pub left_linked: bool,
    pub right_linked: bool,
}

impl<A, B, C> MergedNested<A, B, C> {
    /// Model of the left parent.
    pub open spec fn left_model(&self) -> ReactiveModel<A> {
        self.left@
    }

    /// Model of the combined nested-pair-valued container.
    pub open spec fn out_model(&self) -> ReactiveModel<(A, (B, C))> {
        self.out@
    }

    /// Everything a mutation leaves untouched: the two link flags.
    pub open spec fn same_links(&self, post: &Self) -> bool {
        post.left_linked == self.left_linked && post.right_linked == self.right_linked
    }
}

impl<A: Clone, B: Clone, C: Clone> MergedNested<A, B, C> {
    /// Joins a container with an already-merged pair: the combined value
    /// starts from a clone of each side's current value, read left first —
    /// not one atomic snapshot — with no observers yet.
    pub fn new(left: Reactive<A>, right: Merged<B, C>) -> (r: Self)
        ensures
            r.left_model() == left@,
            r.right == right,
            r.left_linked && r.right_linked,
            cloned::<A>(left@.value, r.out_model().value.0),
            cloned_pair(right.out_model().value, r.out_model().value.1),
            r.out_model().observers == Seq::<Seq<(A, (B, C))>>::empty(),
    {
        let a = left.value();
        let bc = right.value();
        MergedNested {
            left,
            right,
            out: Reactive::new((a, bc)),
            left_linked: true,
            right_linked: true,
        }
    }

    /// A slot-wise clone of the combined value.
    pub fn value(&self) -> (r: (A, (B, C)))
        ensures
            cloned::<A>(self.out_model().value.0, r.0),
            cloned_pair(self.out_model().value.1, r.1),
    {
        let p = self.out.value_ref();
        (p.0.clone(), (p.1.0.clone(), p.1.1.clone()))
    }

    /// The left parent's equality-conditional update; on a commit, while the
    /// left link holds, the combined value replaces its first slot with a
    /// clone of the committed value and notifies unconditionally.
    pub fn update_left<G: FnOnce(&A) -> A>(&mut self, g: G) where A: PartialEq
        requires
            call_requires(g, (&old(self).left_model().value,)),
        ensures
            old(self).same_links(final(self)),
            final(self).right == old(self).right,
            exists|nv: A|
                {
                    &&& #[trigger] call_ensures(g, (&old(self).left_model().value,), nv)
                    &&& {
                        ||| {
                            &&& final(self).left_model() == old(self).left_model()
                            &&& final(self).out_model() == old(self).out_model()
                            &&& A::obeys_eq_spec() ==> nv.eq_spec(&old(self).left_model().value)
                        }
                        ||| {
                            &&& committed(old(self).left_model(), final(self).left_model(), nv)
                            &&& A::obeys_eq_spec() ==> !nv.eq_spec(&old(self).left_model().value)
                            &&& if old(self).left_linked {
                                exists|ac: A|
                                    #[trigger] cloned::<A>(nv, ac) && first_slot_set(
                                        old(self).out_model(),
                                        final(self).out_model(),
                                        ac,
                                    )
                            } else {
                                final(self).out_model() == old(self).out_model()
                            }
                        }
                    }
                },
    {
        let nv = g(self.left.value_ref());
        let ac_opt = if self.left_linked {
            Some(nv.clone())
        } else {
            None
        };
        let notified = self.left.commit_if_changed(nv);
        if notified {
            match ac_opt {
                Some(ac) => {
                    self.out.set_first_notify(ac);
                    proof {
                        assert(cloned::<A>(nv, ac));
                    }
                },
                None => {},
            }
        }
    }

    /// The equality-conditional update of the merged pair's left parent; on
    /// a commit, the inner pair propagates first, and while this container's
    /// right link holds, the combined value then replaces its second slot
    /// with a slot-wise clone of the inner pair and notifies unconditionally.
    pub fn update_right_left<G: FnOnce(&B) -> B>(&mut self, g: G) where B: PartialEq
        requires
            call_requires(g, (&old(self).right.left_model().value,)),
        ensures
            old(self).same_links(final(self)),
            old(self).right.same_links(&final(self).right),
            final(self).left == old(self).left,
            final(self).right.right_model() == old(self).right.right_model(),
            exists|nv: B|
                {
                    &&& #[trigger] call_ensures(g, (&old(self).right.left_model().value,), nv)
                    &&& {
                        ||| {
                            &&& final(self).right.left_model() == old(self).right.left_model()
                            &&& final(self).right.out_model() == old(self).right.out_model()
                            &&& final(self).out_model() == old(self).out_model()
                            &&& B::obeys_eq_spec() ==> nv.eq_spec(
                                &old(self).right.left_model().value,
                            )
                        }
                        ||| {
                            &&& committed(
                                old(self).right.left_model(),
                                final(self).right.left_model(),
                                nv,
                            )
                            &&& B::obeys_eq_spec() ==> !nv.eq_spec(
                                &old(self).right.left_model().value,
                            )
                            &&& if old(self).right.left_linked {
                                &&& exists|bc: B|
                                    #[trigger] cloned::<B>(nv, bc) && first_slot_set(
                                        old(self).right.out_model(),
                                        final(self).right.out_model(),
                                        bc,
                                    )
                                &&& if old(self).right_linked {
                                    exists|p: (B, C)|
                                        #[trigger] cloned_pair(
                                            final(self).right.out_model().value,
                                            p,
                                        ) && second_slot_set(
                                            old(self).out_model(),
                                            final(self).out_model(),
                                            p,
                                        )
                                } else {
                                    final(self).out_model() == old(self).out_model()
                                }
                            } else {
                                &&& final(self).right.out_model() == old(self).right.out_model()
                                &&& final(self).out_model() == old(self).out_model()
                            }
                        }
                    }
                },
    {
        let notified = self.right.update_left_reporting(g);
        if notified && self.right_linked {
            let p = self.right.value();
            self.out.set_second_notify(p);
        }
    }

    /// The equality-conditional update of the merged pair's right parent;
    /// mirror image of [`Self::update_right_left`].
    pub fn update_right_right<G: FnOnce(&C) -> C>(&mut self, g: G) where C: PartialEq
        requires
            call_requires(g, (&old(self).right.right_model().value,)),
        ensures
            old(self).same_links(final(self)),
            old(self).right.same_links(&final(self).right),
            final(self).left == old(self).left,
            final(self).right.left_model() == old(self).right.left_model(),
            exists|nv: C|
                {
                    &&& #[trigger] call_ensures(g, (&old(self).right.right_model().value,), nv)
                    &&& {
                        ||| {
                            &&& final(self).right.right_model() == old(self).right.right_model()
                            &&& final(self).right.out_model() == old(self).right.out_model()
                            &&& final(self).out_model() == old(self).out_model()
                            &&& C::obeys_eq_spec() ==> nv.eq_spec(
                                &old(self).right.right_model().value,
                            )
                        }
                        ||| {
                            &&& committed(
                                old(self).right.right_model(),
                                final(self).right.right_model(),
                                nv,
                            )
                            &&& C::obeys_eq_spec() ==> !nv.eq_spec(
                                &old(self).right.right_model().value,
                            )
                            &&& if old(self).right.right_linked {
                                &&& exists|cc: C|
                                    #[trigger] cloned::<C>(nv, cc) && second_slot_set(
                                        old(self).right.out_model(),
                                        final(self).right.out_model(),
                                        cc,
                                    )
                                &&& if old(self).right_linked {
                                    exists|p: (B, C)|
                                        #[trigger] cloned_pair(
                                            final(self).right.out_model().value,
                                            p,
                                        ) && second_slot_set(
                                            old(self).out_model(),
                                            final(self).out_model(),
                                            p,
                                        )
                                } else {
                                    final(self).out_model() == old(self).out_model()
                                }
                            } else {
                                &&& final(self).right.out_model() == old(self).right.out_model()
                                &&& final(self).out_model() == old(self).out_model()
                            }
                        }
                    }
                },
    {
        let notified = self.right.update_right_reporting(g);
        if notified && self.right_linked {
            let p = self.right.value();
            self.out.set_second_notify(p);
        }
    }
}

} // verus!
