//! The ordered observer list, rendered as one recording slot per observer.
//!
//! Verified code cannot hold heterogeneous boxed callbacks, so an observer is
//! modelled by the one capability the cell ever exercises on it: being handed
//! each committed value, in list order, once per notification event. Each
//! registered observer therefore owns a log, and a notification appends a
//! clone of the committed value to every log.
use vstd::prelude::*;

use crate::model::{observer_received, received_all};

verus! {

/// An ordered list of observers; the observer registered `i`-th owns the log
/// at position `i`. The view is the sequence of those logs.
pub struct ObserverList<T> {
    pub(crate) logs: Vec<Vec<T>>,
}

impl<T> View for ObserverList<T> {
    type V = Seq<Seq<T>>;

    closed spec fn view(&self) -> Seq<Seq<T>> {
        self.logs@.map_values(|l: Vec<T>| l@)
    }
}

impl<T> ObserverList<T> {
    /// An empty observer list.
    pub fn new() -> (r: Self)
        ensures
            r@ == Seq::<Seq<T>>::empty(),
    {
        let r = ObserverList { logs: Vec::new() };
        proof {
            assert(r@ =~= Seq::<Seq<T>>::empty());
        }
        r
    }

    /// How many observers are registered.
    pub fn len(&self) -> (n: usize)
        ensures
            n == self@.len(),
    {
        self.logs.len()
    }

    /// Registers one more observer at the end of the list and returns its
    /// position.
    pub fn add_observer(&mut self) -> (i: usize)
        ensures
            final(self)@ == old(self)@.push(Seq::<T>::empty()),
            i == old(self)@.len(),
    {
        let i = self.logs.len();
        self.logs.push(Vec::new());
        proof {
            assert(final(self)@ =~= old(self)@.push(Seq::<T>::empty()));
        }
        i
    }

    /// Drops every observer.
    pub fn clear(&mut self)
        ensures
            final(self)@ == Seq::<Seq<T>>::empty(),
    {
        self.logs.clear();
        proof {
            assert(final(self)@ =~= Seq::<Seq<T>>::empty());
        }
    }

    /// The log of the observer at position `i`: every value it has been handed,
    /// oldest first.
    pub fn observed(&self, i: usize) -> (log: &Vec<T>)
        requires
            i < self@.len(),
        ensures
            log@ == self@[i as int],
    {
        &self.logs[i]
    }

    /// Hands `value` to every observer, in list order, once each.
    pub fn notify_all(&mut self, value: &T) where T: Clone
        ensures
            received_all(old(self)@, final(self)@, *value),
    {
        let n = self.logs.len();
        let mut i: usize = 0;
        while i < n
            invariant
                i <= n,
                n == self.logs.len(),
                self.logs@.len() == old(self)@.len(),
                forall|j: int| i <= j < n ==> self.logs@[j]@ == old(self)@[j],
                forall|j: int|
                    0 <= j < i ==> observer_received(old(self)@[j], #[trigger] self.logs@[j]@, *value),
            decreases n - i,
        {
            let mut log = self.logs.remove(i);
            log.push(value.clone());
            self.logs.insert(i, log);
            i += 1;
        }
        proof {
            assert(received_all(old(self)@, final(self)@, *value));
        }
    }
}

} // verus!
