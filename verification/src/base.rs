//! The exclusively-owned reactive cell: a value plus its observer list, with
//! the full update-and-notify protocol.
use vstd::prelude::*;

use crate::fingerprint::same_fingerprint;
use crate::model::{
    committed, first_slot_set, received_all, second_slot_set, silent_commit, ReactiveModel,
};
use crate::observers::ObserverList;
use core::hash::Hash;
use vstd::std_specs::cmp::PartialEqSpec;
use vstd::std_specs::hash::obeys_key_model;

verus! {

/// A value together with the observers watching it. Every mutating operation
/// applies its change-detection policy and, when the change commits with a
/// notification, hands the newly committed value to every observer in
/// registration order.
pub struct ReactiveBase<T> {
    pub(crate) value: T,
    pub(crate) observers: ObserverList<T>,
}

impl<T> View for ReactiveBase<T> {
    type V = ReactiveModel<T>;

    closed spec fn view(&self) -> ReactiveModel<T> {
        ReactiveModel { value: self.value, observers: self.observers@ }
    }
}

impl<T> ReactiveBase<T> {
    /// A cell holding `value`, with no observers yet.
    pub fn new(value: T) -> (r: Self)
        ensures
            r@.value == value,
            r@.observers == Seq::<Seq<T>>::empty(),
    {
        ReactiveBase { value, observers: ObserverList::new() }
    }

    /// A reference to the current value.
    pub fn value(&self) -> (r: &T)
        ensures
            *r == self@.value,
    {
        &self.value
    }

    /// Invokes `f` once with a reference to the current value.
    pub fn with_value<F: FnOnce(&T)>(&self, f: F)
        requires
            call_requires(f, (&self@.value,)),
        ensures
            call_ensures(f, (&self@.value,), ()),
    {
        f(&self.value);
    }

    /// Registers one more observer at the end of the list and returns its
    /// position, under which its log can be read back with [`Self::observed`].
    pub fn add_observer(&mut self) -> (i: usize)
        ensures
            final(self)@.value == old(self)@.value,
            final(self)@.observers == old(self)@.observers.push(Seq::<T>::empty()),
            i == old(self)@.observers.len(),
    {
        self.observers.add_observer()
    }

    /// The log of the observer at position `i`: every value it has been
    /// handed so far, oldest first.
    pub fn observed(&self, i: usize) -> (log: &Vec<T>)
        requires
            i < self@.observers.len(),
        ensures
            log@ == self@.observers[i as int],
    {
        self.observers.observed(i)
    }

    /// Replaces the value with `f` applied to it and notifies every observer,
    /// whether or not the new value differs.
    pub fn update_unchecked<F: FnOnce(&T) -> T>(&mut self, f: F) where T: Clone
        requires
            call_requires(f, (&old(self)@.value,)),
        ensures
            call_ensures(f, (&old(self)@.value,), final(self)@.value),
            committed(old(self)@, final(self)@, final(self)@.value),
    {
        let nv = f(&self.value);
        self.value = nv;
        self.observers.notify_all(&self.value);
    }

    /// The in-place flavour of the unconditional update: same always-notify
    /// policy as [`Self::update_unchecked`], kept as its own entry point to
    /// mirror the mutate-in-place surface.
    pub fn update_inplace_unchecked<F: FnOnce(&T) -> T>(&mut self, f: F) where T: Clone
        requires
            call_requires(f, (&old(self)@.value,)),
        ensures
            call_ensures(f, (&old(self)@.value,), final(self)@.value),
            committed(old(self)@, final(self)@, final(self)@.value),
    {
        let nv = f(&self.value);
        self.value = nv;
        self.observers.notify_all(&self.value);
    }

    /// The equality-conditional update: computes `f` of the current value and
    /// commits it, notifying every observer, only when it compares unequal to
    /// the current value; otherwise the cell is left exactly as it was.
    /// Returns whether the observers were notified.
    pub fn update<F: FnOnce(&T) -> T>(&mut self, f: F) -> (notified: bool) where
        T: PartialEq + Clone,

        requires
            call_requires(f, (&old(self)@.value,)),
        ensures
            exists|nv: T|
                {
                    &&& #[trigger] call_ensures(f, (&old(self)@.value,), nv)
                    &&& if notified {
                        &&& committed(old(self)@, final(self)@, nv)
                        &&& T::obeys_eq_spec() ==> !nv.eq_spec(&old(self)@.value)
                    } else {
                        &&& final(self)@ == old(self)@
                        &&& T::obeys_eq_spec() ==> nv.eq_spec(&old(self)@.value)
                    }
                },
    {
        let nv = f(&self.value);
        if nv != self.value {
            self.value = nv;
            self.observers.notify_all(&self.value);
            true
        } else {
            false
        }
    }

    /// The fingerprint-conditional update: the new value is always stored,
    /// and the observers are notified only when the fingerprints taken before
    /// and after differ. A fingerprint collision between genuinely different
    /// values may skip the notification — the detector is best-effort — but a
    /// value left unchanged is never announced, provided `T` hashes
    /// deterministically (`obeys_key_model`). Returns whether the observers
    /// were notified.
    pub fn update_inplace<F: FnOnce(&T) -> T>(&mut self, f: F) -> (notified: bool) where
        T: Hash + Clone,

        requires
            call_requires(f, (&old(self)@.value,)),
        ensures
            exists|nv: T|
                {
                    &&& #[trigger] call_ensures(f, (&old(self)@.value,), nv)
                    &&& if notified {
                        committed(old(self)@, final(self)@, nv)
                    } else {
                        silent_commit(old(self)@, final(self)@, nv)
                    }
                    &&& obeys_key_model::<T>() && nv == old(self)@.value ==> !notified
                },
    {
        let nv = f(&self.value);
        self.commit_if_fingerprint_changed(nv)
    }

    /// Hands the current value to every observer without mutating anything:
    /// a forced replay of the present state.
    pub fn notify(&mut self) where T: Clone
        ensures
            final(self)@.value == old(self)@.value,
            received_all(old(self)@.observers, final(self)@.observers, old(self)@.value),
    {
        self.observers.notify_all(&self.value);
    }

    /// The exact pair of value and observer list held, for contracts over the
    /// raw-access operation.
    pub(crate) closed spec fn parts(&self) -> (T, ObserverList<T>) {
        (self.value, self.observers)
    }

    /// The pair [`Self::parts`] names is exactly the modelled state: its
    /// first component is the viewed value, its second views to the observer
    /// logs.
    pub(crate) proof fn lemma_parts(&self)
        ensures
            self.parts().0 == self@.value,
            self.parts().1@ == self@.observers,
    {
    }

    /// Takes the cell apart into its value and its observer list.
    pub(crate) fn into_parts(self) -> (p: (T, ObserverList<T>))
        ensures
            p == self.parts(),
            self@.value == p.0,
            self@.observers == p.1@,
    {
        let ReactiveBase { value, observers } = self;
        (value, observers)
    }

    /// Reassembles a cell from a value and an observer list.
    pub(crate) fn from_parts(value: T, observers: ObserverList<T>) -> (r: Self)
        ensures
            r@.value == value,
            r@.observers == observers@,
    {
        ReactiveBase { value, observers }
    }

    /// A clone of the current value.
    pub(crate) fn clone_value(&self) -> (r: T) where T: Clone
        ensures
            cloned::<T>(self@.value, r),
    {
        self.value.clone()
    }

    /// Drops every observer; the value stays.
    pub(crate) fn clear_obs(&mut self)
        ensures
            final(self)@.value == old(self)@.value,
            final(self)@.observers == Seq::<Seq<T>>::empty(),
    {
        self.observers.clear();
    }

    /// Stores `v` outright and notifies every observer.
    pub(crate) fn set_notify(&mut self, v: T) where T: Clone
        ensures
            committed(old(self)@, final(self)@, v),
    {
        self.value = v;
        self.observers.notify_all(&self.value);
    }

    /// Commits the already-computed candidate `nv` under the
    /// fingerprint-conditional policy: `nv` is always stored, the observers
    /// are notified only when its fingerprint differs from the old value's.
    /// Returns whether the observers were notified.
    pub(crate) fn commit_if_fingerprint_changed(&mut self, nv: T) -> (notified: bool) where
        T: Hash + Clone,

        ensures
            if notified {
                committed(old(self)@, final(self)@, nv)
            } else {
                silent_commit(old(self)@, final(self)@, nv)
            },
            obeys_key_model::<T>() && nv == old(self)@.value ==> !notified,
    {
        let unchanged = same_fingerprint(&self.value, &nv);
        self.value = nv;
        if !unchanged {
            self.observers.notify_all(&self.value);
            true
        } else {
            false
        }
    }

    /// Commits the already-computed candidate `u` under the
    /// equality-conditional policy. Returns whether the observers were
    /// notified.
    pub(crate) fn commit_if_changed(&mut self, u: T) -> (notified: bool) where
        T: PartialEq + Clone,

        ensures
            if notified {
                &&& committed(old(self)@, final(self)@, u)
                &&& T::obeys_eq_spec() ==> !u.eq_spec(&old(self)@.value)
            } else {
                &&& final(self)@ == old(self)@
                &&& T::obeys_eq_spec() ==> u.eq_spec(&old(self)@.value)
            },
    {
        if u != self.value {
            self.value = u;
            self.observers.notify_all(&self.value);
            true
        } else {
            false
        }
    }
}

impl<X: Clone, Y: Clone> ReactiveBase<(X, Y)> {
    /// Replaces the first slot of the pair with `x` — the second keeps its
    /// exact value — and notifies every observer of the new pair.
    pub(crate) fn set_first_notify(&mut self, x: X)
        ensures
            first_slot_set(old(self)@, final(self)@, x),
    {
        self.value.0 = x;
        self.observers.notify_all(&self.value);
    }

    /// Replaces the second slot of the pair with `y` — the first keeps its
    /// exact value — and notifies every observer of the new pair.
    pub(crate) fn set_second_notify(&mut self, y: Y)
        ensures
            second_slot_set(old(self)@, final(self)@, y),
    {
        self.value.1 = y;
        self.observers.notify_all(&self.value);
    }
}

impl<T: Default> Default for ReactiveBase<T> {
    /// A cell holding `T`'s default value, with no observers yet.
    fn default() -> (r: Self)
        ensures
            call_ensures(T::default, (), r@.value),
            r@.observers == Seq::<Seq<T>>::empty(),
    {
        ReactiveBase::new(T::default())
    }
}

} // verus!
