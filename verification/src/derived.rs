//! The derivation combinator: a child container kept equal to a pure function
//! of its parent's value.
//!
//! The derivation owns its parent, which renders the retention rule — the
//! subscription keeps the child alive and updated for as long as the parent
//! lives — directly in the type structure: the parent's whole mutation
//! surface is reached through the derivation, and every commit that notifies
//! the parent's observers also drives the link. The link itself is the
//! ownership edge plus the `linked` flag; clearing the parent's observers
//! severs it, exactly as clearing a subscription callback would.
use vstd::prelude::*;

use crate::model::{committed, conditional_commit, received_all, ReactiveModel};
use crate::reactive::Reactive;
use core::hash::Hash;
use vstd::std_specs::cmp::PartialEqSpec;
use vstd::std_specs::hash::obeys_key_model;

verus! {

/// The child's reaction to one parent notification that carried the value
/// `pv`: the mapped candidate is committed under the child's own
/// equality-conditional policy, so the child's observers hear of it exactly
/// when the mapped value really changed.
pub open spec fn child_synced<T, U: PartialEq + Clone, F: Fn(&T) -> U>(
    f: F,
    pv: T,
    pre: ReactiveModel<U>,
    post: ReactiveModel<U>,
) -> bool {
    exists|u: U| #[trigger] call_ensures(f, (&pv,), u) && conditional_commit(pre, post, u)
}

/// A dependent container: a parent, a pure mapping, and the child container
/// the mapping keeps in sync.
///
/// The fields are public so that the contracts can speak about the stored
/// mapping; the methods below are the protocol, and touching the fields
/// directly is raw access in the same sense as [`Reactive::with`].
#[verifier::reject_recursive_types(T)]
#[verifier::reject_recursive_types(U)]
pub struct Derived<T, U, F: Fn(&T) -> U> {
    pub parent: Reactive<T>,
    pub f: F,
    pub child: Reactive<U>,
    pub linked: bool,
}

impl<T, U: PartialEq + Clone, F: Fn(&T) -> U> Derived<T, U, F> {
    /// Model of the parent container.
    pub open spec fn parent_model(&self) -> ReactiveModel<T> {
        self.parent@
    }

    /// Model of the child container.
    pub open spec fn child_model(&self) -> ReactiveModel<U> {
        self.child@
    }

    /// Everything a mutation leaves untouched: the mapping and the link flag.
    pub open spec fn same_link(&self, post: &Self) -> bool {
        post.f == self.f && post.linked == self.linked
    }

    /// A clone of the child's current value.
    pub fn value(&self) -> (r: U)
        ensures
            cloned::<U>(self.child_model().value, r),
    {
        self.child.value()
    }

    /// Read access to the parent container.
    pub fn parent(&self) -> (r: &Reactive<T>)
        ensures
            r@ == self.parent_model(),
    {
        &self.parent
    }

    /// Registers one more observer on the child container and returns its
    /// position, under which its log can be read back with
    /// [`Self::observed`].
    pub fn add_observer(&mut self) -> (i: usize)
        ensures
            final(self).f == old(self).f,
            final(self).linked == old(self).linked,
            final(self).parent_model() == old(self).parent_model(),
            final(self).child_model().value == old(self).child_model().value,
            final(self).child_model().observers == old(self).child_model().observers.push(
                Seq::<U>::empty(),
            ),
            i == old(self).child_model().observers.len(),
    {
        self.child.add_observer()
    }

    /// The log of the child's observer at position `i`: every value it has
    /// been handed so far, oldest first.
    pub fn observed(&self, i: usize) -> (log: &Vec<U>)
        requires
            i < self.child_model().observers.len(),
        ensures
            log@ == self.child_model().observers[i as int],
    {
        self.child.observed(i)
    }

    /// Stores `val` in the parent outright and notifies the parent's
    /// observers; while linked, the child then commits the mapped value under
    /// its own conditional policy.
    pub fn set(&mut self, val: T) where T: Clone
        requires
            call_requires(old(self).f, (&val,)),
        ensures
            old(self).same_link(final(self)),
            committed(old(self).parent_model(), final(self).parent_model(), val),
            if old(self).linked {
                child_synced(
                    old(self).f,
                    final(self).parent_model().value,
                    old(self).child_model(),
                    final(self).child_model(),
                )
            } else {
                final(self).child_model() == old(self).child_model()
            },
    {
        let u_opt = if self.linked {
            Some((self.f)(&val))
        } else {
            None
        };
        self.parent.set(val);
        match u_opt {
            Some(u) => {
                let _ = self.child.commit_if_changed(u);
            },
            None => {},
        }
    }

    /// The parent's equality-conditional update; on a commit, while linked,
    /// the child follows under its own conditional policy.
    pub fn update<G: FnOnce(&T) -> T>(&mut self, g: G) where T: PartialEq + Clone
        requires
            call_requires(g, (&old(self).parent_model().value,)),
            forall|nv: T|
                #[trigger] call_ensures(g, (&old(self).parent_model().value,), nv)
                    ==> call_requires(old(self).f, (&nv,)),
        ensures
            old(self).same_link(final(self)),
            exists|nv: T|
                {
                    &&& #[trigger] call_ensures(g, (&old(self).parent_model().value,), nv)
                    &&& {
                        ||| {
                            &&& final(self).parent_model() == old(self).parent_model()
                            &&& final(self).child_model() == old(self).child_model()
                            &&& T::obeys_eq_spec() ==> nv.eq_spec(&old(self).parent_model().value)
                        }
                        ||| {
                            &&& committed(old(self).parent_model(), final(self).parent_model(), nv)
                            &&& T::obeys_eq_spec() ==> !nv.eq_spec(&old(self).parent_model().value)
                            &&& if old(self).linked {
                                child_synced(
                                    old(self).f,
                                    nv,
                                    old(self).child_model(),
                                    final(self).child_model(),
                                )
                            } else {
                                final(self).child_model() == old(self).child_model()
                            }
                        }
                    }
                },
    {
        let nv = g(self.parent.value_ref());
        let u_opt = if self.linked {
            Some((self.f)(&nv))
        } else {
            None
        };
        let notified = self.parent.commit_if_changed(nv);
        if notified {
            match u_opt {
                Some(u) => {
                    let _ = self.child.commit_if_changed(u);
                },
                None => {},
            }
        }
    }

    /// The parent's fingerprint-conditional update; on a notifying commit,
    /// while linked, the child follows under its own conditional policy. A
    /// silent commit (matching fingerprints) propagates nothing.
    pub fn update_inplace<G: FnOnce(&T) -> T>(&mut self, g: G) where T: Hash + Clone
        requires
            call_requires(g, (&old(self).parent_model().value,)),
            forall|nv: T|
                #[trigger] call_ensures(g, (&old(self).parent_model().value,), nv)
                    ==> call_requires(old(self).f, (&nv,)),
        ensures
            old(self).same_link(final(self)),
            exists|nv: T|
                {
                    &&& #[trigger] call_ensures(g, (&old(self).parent_model().value,), nv)
                    &&& final(self).parent_model().value == nv
                    &&& {
                        ||| {
                            &&& final(self).parent_model().observers == old(
                                self,
                            ).parent_model().observers
                            &&& final(self).child_model() == old(self).child_model()
                        }
                        ||| {
                            &&& committed(old(self).parent_model(), final(self).parent_model(), nv)
                            &&& if old(self).linked {
                                child_synced(
                                    old(self).f,
                                    nv,
                                    old(self).child_model(),
                                    final(self).child_model(),
                                )
                            } else {
                                final(self).child_model() == old(self).child_model()
                            }
                        }
                    }
                    &&& obeys_key_model::<T>() && nv == old(self).parent_model().value ==> {
                        &&& final(self).parent_model().observers == old(
                            self,
                        ).parent_model().observers
                        &&& final(self).child_model() == old(self).child_model()
                    }
                },
    {
        let nv = g(self.parent.value_ref());
        let u_opt = if self.linked {
            Some((self.f)(&nv))
        } else {
            None
        };
        let notified = self.parent.commit_if_fingerprint_changed(nv);
        if notified {
            match u_opt {
                Some(u) => {
                    let _ = self.child.commit_if_changed(u);
                },
                None => {},
            }
        }
    }

    /// The parent's unconditional update: always notifies the parent's
    /// observers and, while linked, the child follows under its own
    /// conditional policy.
    pub fn update_unchecked<G: FnOnce(&T) -> T>(&mut self, g: G) where T: Clone
        requires
            call_requires(g, (&old(self).parent_model().value,)),
            forall|nv: T|
                #[trigger] call_ensures(g, (&old(self).parent_model().value,), nv)
                    ==> call_requires(old(self).f, (&nv,)),
        ensures
            old(self).same_link(final(self)),
            call_ensures(g, (&old(self).parent_model().value,), final(self).parent_model().value),
            committed(
                old(self).parent_model(),
                final(self).parent_model(),
                final(self).parent_model().value,
            ),
            if old(self).linked {
                child_synced(
                    old(self).f,
                    final(self).parent_model().value,
                    old(self).child_model(),
                    final(self).child_model(),
                )
            } else {
                final(self).child_model() == old(self).child_model()
            },
    {
        let nv = g(self.parent.value_ref());
        let u_opt = if self.linked {
            Some((self.f)(&nv))
        } else {
            None
        };
        self.parent.set(nv);
        match u_opt {
            Some(u) => {
                let _ = self.child.commit_if_changed(u);
            },
            None => {},
        }
    }

    /// The in-place flavour of the unconditional update; same always-notify
    /// policy and propagation as [`Self::update_unchecked`].
    pub fn update_inplace_unchecked<G: FnOnce(&T) -> T>(&mut self, g: G) where T: Clone
        requires
            call_requires(g, (&old(self).parent_model().value,)),
            forall|nv: T|
                #[trigger] call_ensures(g, (&old(self).parent_model().value,), nv)
                    ==> call_requires(old(self).f, (&nv,)),
        ensures
            old(self).same_link(final(self)),
            call_ensures(g, (&old(self).parent_model().value,), final(self).parent_model().value),
            committed(
                old(self).parent_model(),
                final(self).parent_model(),
                final(self).parent_model().value,
            ),
            if old(self).linked {
                child_synced(
                    old(self).f,
                    final(self).parent_model().value,
                    old(self).child_model(),
                    final(self).child_model(),
                )
            } else {
                final(self).child_model() == old(self).child_model()
            },
    {
        let nv = g(self.parent.value_ref());
        let u_opt = if self.linked {
            Some((self.f)(&nv))
        } else {
            None
        };
        self.parent.set(nv);
        match u_opt {
            Some(u) => {
                let _ = self.child.commit_if_changed(u);
            },
            None => {},
        }
    }

    /// Replays the parent's current value to the parent's observers and,
    /// while linked, to the child.
    pub fn notify(&mut self) where T: Clone
        requires
            call_requires(old(self).f, (&old(self).parent_model().value,)),
        ensures
            old(self).same_link(final(self)),
            final(self).parent_model().value == old(self).parent_model().value,
            received_all(
                old(self).parent_model().observers,
                final(self).parent_model().observers,
                old(self).parent_model().value,
            ),
            if old(self).linked {
                child_synced(
                    old(self).f,
                    old(self).parent_model().value,
                    old(self).child_model(),
                    final(self).child_model(),
                )
            } else {
                final(self).child_model() == old(self).child_model()
            },
    {
        let u_opt = if self.linked {
            Some((self.f)(self.parent.value_ref()))
        } else {
            None
        };
        self.parent.notify();
        match u_opt {
            Some(u) => {
                let _ = self.child.commit_if_changed(u);
            },
            None => {},
        }
    }

    /// Removes every observer of the parent. The derivation's own
    /// subscription is among them: the link is severed, and the child keeps
    /// its last value from then on.
    pub fn clear_observers(&mut self)
        ensures
            final(self).f == old(self).f,
            !final(self).linked,
            final(self).parent_model().value == old(self).parent_model().value,
            final(self).parent_model().observers == Seq::<Seq<T>>::empty(),
            final(self).child_model() == old(self).child_model(),
    {
        self.parent.clear_observers();
        self.linked = false;
    }
}

impl<T> Reactive<T> {
    /// Builds a dependent container: computes `f` of the current value
    /// eagerly — the child starts already caught up, and no observer of the
    /// child is invoked for this first value — then keeps the child in sync
    /// with every later commit of the parent.
    pub fn derive<U: PartialEq + Clone, F: Fn(&T) -> U>(self, f: F) -> (d: Derived<T, U, F>)
        requires
            call_requires(f, (&self@.value,)),
        ensures
            d.parent_model() == self@,
            d.f == f,
            d.linked,
            call_ensures(f, (&self@.value,), d.child_model().value),
            d.child_model().observers == Seq::<Seq<U>>::empty(),
    {
        let u = f(self.value_ref());
        let child = Reactive::new(u);
        Derived { parent: self, f, child, linked: true }
    }
}

} // verus!
