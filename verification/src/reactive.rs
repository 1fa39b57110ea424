//! The reactive container: the cell's full mutation surface plus the raw
//! access and observer-management operations, and the entry point of the
//! derivation combinator.
use vstd::prelude::*;

use crate::base::ReactiveBase;
use crate::model::{
    committed, conditional_commit, first_slot_set, received_all, second_slot_set, silent_commit,
    ReactiveModel,
};
use crate::observers::ObserverList;
use core::hash::Hash;
use vstd::std_specs::cmp::PartialEqSpec;
use vstd::std_specs::hash::obeys_key_model;

verus! {

/// An observable value: a cell holding `T` together with the observers
/// watching it.
///
/// This container owns its state exclusively, so every mutating operation
/// takes the container `&mut`; operations on one container are thereby
/// serialized by construction, which is the discipline a per-instance
/// mutual-exclusion lock enforces on a shared cell. A shared, lock-guarded
/// handle built around this type keeps each operation's semantics but not its
/// contracts, which speak about one exclusively-held cell.
pub struct Reactive<T> {
    pub(crate) base: ReactiveBase<T>,
}

impl<T> View for Reactive<T> {
    type V = ReactiveModel<T>;

    closed spec fn view(&self) -> ReactiveModel<T> {
        self.base@
    }
}

impl<T> Reactive<T> {
    /// The exact pair of value and observer list held, for contracts over the
    /// raw-access operation [`Self::with`].
    pub closed spec fn parts(&self) -> (T, ObserverList<T>) {
        self.base.parts()
    }

    /// The pair [`Self::parts`] names is exactly the modelled state: its
    /// first component is the viewed value, its second views to the observer
    /// logs. This is the bridge a caller of [`Self::with`] uses to discharge
    /// the callback's precondition and to read its postcondition back into
    /// the view.
    pub proof fn lemma_parts(&self)
        ensures
            self.parts().0 == self@.value,
            self.parts().1@ == self@.observers,
    {
        self.base.lemma_parts();
    }

    /// A container holding `value`, with no observers yet.
    pub fn new(value: T) -> (r: Self)
        ensures
            r@.value == value,
            r@.observers == Seq::<Seq<T>>::empty(),
    {
        Reactive { base: ReactiveBase::new(value) }
    }

    /// A clone of the current value.
    pub fn value(&self) -> (r: T) where T: Clone
        ensures
            cloned::<T>(self@.value, r),
    {
        self.base.clone_value()
    }

    /// Invokes `f` once with a reference to the current value; no clone is
    /// made.
    pub fn with_value<F: FnOnce(&T)>(&self, f: F)
        requires
            call_requires(f, (&self@.value,)),
        ensures
            call_ensures(f, (&self@.value,), ()),
    {
        self.base.with_value(f);
    }

    /// Raw access: hands the value and the observer list themselves to `f`
    /// and stores whatever pair `f` returns. No policy runs and nobody is
    /// notified unless `f` does so itself.
    pub fn with<F: FnOnce(T, ObserverList<T>) -> (T, ObserverList<T>)>(self, f: F) -> (r: Self)
        requires
            call_requires(f, self.parts()),
        ensures
            exists|p: (T, ObserverList<T>)|
                {
                    &&& #[trigger] call_ensures(f, self.parts(), p)
                    &&& r@.value == p.0
                    &&& r@.observers == p.1@
                },
    {
        let (value, observers) = self.base.into_parts();
        let (value, observers) = f(value, observers);
        Reactive { base: ReactiveBase::from_parts(value, observers) }
    }

    /// Registers one more observer at the end of the list and returns its
    /// position, under which its log can be read back with [`Self::observed`].
    pub fn add_observer(&mut self) -> (i: usize)
        ensures
            final(self)@.value == old(self)@.value,
            final(self)@.observers == old(self)@.observers.push(Seq::<T>::empty()),
            i == old(self)@.observers.len(),
    {
        self.base.add_observer()
    }

    /// The log of the observer at position `i`: every value it has been
    /// handed so far, oldest first.
    pub fn observed(&self, i: usize) -> (log: &Vec<T>)
        requires
            i < self@.observers.len(),
        ensures
            log@ == self@.observers[i as int],
    {
        self.base.observed(i)
    }

    /// Removes every observer. Later notifications reach none of them; a
    /// derivation or merge subscribed to this container stops receiving
    /// updates in the same way.
    pub fn clear_observers(&mut self)
        ensures
            final(self)@.value == old(self)@.value,
            final(self)@.observers == Seq::<Seq<T>>::empty(),
    {
        self.base.clear_obs();
    }

    /// Stores `val` outright — no comparison against the current value — and
    /// notifies every observer.
    pub fn set(&mut self, val: T) where T: Clone
        ensures
            committed(old(self)@, final(self)@, val),
    {
        self.base.set_notify(val);
    }

    /// Replaces the value with `f` applied to it and notifies every observer,
    /// whether or not the new value differs.
    pub fn update_unchecked<F: FnOnce(&T) -> T>(&mut self, f: F) where T: Clone
        requires
            call_requires(f, (&old(self)@.value,)),
        ensures
            call_ensures(f, (&old(self)@.value,), final(self)@.value),
            committed(old(self)@, final(self)@, final(self)@.value),
    {
        self.base.update_unchecked(f);
    }

    /// The in-place flavour of the unconditional update: same always-notify
    /// policy as [`Self::update_unchecked`], kept as its own entry point to
    /// mirror the mutate-in-place surface.
    pub fn update_inplace_unchecked<F: FnOnce(&T) -> T>(&mut self, f: F) where T: Clone
        requires
            call_requires(f, (&old(self)@.value,)),
        ensures
            call_ensures(f, (&old(self)@.value,), final(self)@.value),
            committed(old(self)@, final(self)@, final(self)@.value),
    {
        self.base.update_inplace_unchecked(f);
    }

    /// The equality-conditional update: commits `f` of the current value, and
    /// notifies the observers, only when the result compares unequal to the
    /// current value; otherwise the container is left exactly as it was.
    pub fn update<F: FnOnce(&T) -> T>(&mut self, f: F) where T: PartialEq + Clone
        requires
            call_requires(f, (&old(self)@.value,)),
        ensures
            exists|nv: T|
                {
                    &&& #[trigger] call_ensures(f, (&old(self)@.value,), nv)
                    &&& conditional_commit(old(self)@, final(self)@, nv)
                },
    {
        let _ = self.base.update(f);
    }

    /// The fingerprint-conditional update: the new value is always stored,
    /// and the observers are notified only when the fingerprints taken before
    /// and after differ. A collision between genuinely different values may
    /// skip the notification — the detector is best-effort — but a value left
    /// unchanged is never announced, provided `T` hashes deterministically
    /// (`obeys_key_model`).
    pub fn update_inplace<F: FnOnce(&T) -> T>(&mut self, f: F) where T: Hash + Clone
        requires
            call_requires(f, (&old(self)@.value,)),
        ensures
            exists|nv: T|
                {
                    &&& #[trigger] call_ensures(f, (&old(self)@.value,), nv)
                    &&& committed(old(self)@, final(self)@, nv) || silent_commit(
                        old(self)@,
                        final(self)@,
                        nv,
                    )
                    &&& obeys_key_model::<T>() && nv == old(self)@.value ==> silent_commit(
                        old(self)@,
                        final(self)@,
                        nv,
                    )
                },
    {
        let _ = self.base.update_inplace(f);
    }

    /// Hands the current value to every observer without mutating anything:
    /// a forced replay of the present state.
    pub fn notify(&mut self) where T: Clone
        ensures
            final(self)@.value == old(self)@.value,
            received_all(old(self)@.observers, final(self)@.observers, old(self)@.value),
    {
        self.base.notify();
    }

    /// A reference to the current value, for the combinators.
    pub(crate) fn value_ref(&self) -> (r: &T)
        ensures
            *r == self@.value,
    {
        self.base.value()
    }

    /// Commits the already-computed candidate `nv` under the
    /// fingerprint-conditional policy, for the combinators. Returns whether
    /// the observers were notified.
    pub(crate) fn commit_if_fingerprint_changed(&mut self, nv: T) -> (notified: bool) where
        T: Hash + Clone,

        ensures
            if notified {
                committed(old(self)@, final(self)@, nv)
            } else {
                silent_commit(old(self)@, final(self)@, nv)
            },
            obeys_key_model::<T>() && nv == old(self)@.value ==> !notified,
    {
        self.base.commit_if_fingerprint_changed(nv)
    }

    /// Commits the already-computed candidate `u` under the
    /// equality-conditional policy, for the derivation links. Returns whether
    /// the observers were notified.
    pub(crate) fn commit_if_changed(&mut self, u: T) -> (notified: bool) where
        T: PartialEq + Clone,

        ensures
            if notified {
                &&& committed(old(self)@, final(self)@, u)
                &&& T::obeys_eq_spec() ==> !u.eq_spec(&old(self)@.value)
            } else {
                &&& final(self)@ == old(self)@
                &&& T::obeys_eq_spec() ==> u.eq_spec(&old(self)@.value)
            },
    {
        self.base.commit_if_changed(u)
    }
}

impl<X: Clone, Y: Clone> Reactive<(X, Y)> {
    /// Replaces the first slot of the pair with `x` — the second keeps its
    /// exact value — and notifies every observer of the new pair, for the
    /// merge combinators.
    pub(crate) fn set_first_notify(&mut self, x: X)
        ensures
            first_slot_set(old(self)@, final(self)@, x),
    {
        self.base.set_first_notify(x);
    }

    /// Replaces the second slot of the pair with `y` — the first keeps its
    /// exact value — and notifies every observer of the new pair, for the
    /// merge combinators.
    pub(crate) fn set_second_notify(&mut self, y: Y)
        ensures
            second_slot_set(old(self)@, final(self)@, y),
    {
        self.base.set_second_notify(y);
    }
}

impl<T: Default> Default for Reactive<T> {
    /// A container holding `T`'s default value, with no observers yet.
    fn default() -> (r: Self)
        ensures
            call_ensures(T::default, (), r@.value),
            r@.observers == Seq::<Seq<T>>::empty(),
    {
        Reactive { base: ReactiveBase::default() }
    }
}

} // verus!
