//! The memory behind a queue that the controller writes back into.
use vstd::prelude::*;
use std::collections::VecDeque;

verus! {

/// The entries of a queue in memory, with a record of the room that was last
/// reserved in it: the deque's capacity is at least `room()` (pushing never
/// lowers a capacity, so the record stays a lower bound until the next
/// reservation).
pub struct QueueMem<T> {
    pub items: VecDeque<T>,
    room: Ghost<nat>,
}

impl<T> View for QueueMem<T> {
    type V = Seq<T>;

    closed spec fn view(&self) -> Seq<T> {
        self.items@
    }
}

impl<T> QueueMem<T> {
    /// A lower bound of the capacity of `items`.
    pub closed spec fn room(&self) -> nat {
        self.room@
    }

    /// No entries, no room reserved.
    pub fn new() -> (q: QueueMem<T>)
        ensures
            q@ == Seq::<T>::empty(),
            q.room() == 0,
    {
        QueueMem { items: VecDeque::new(), room: Ghost(0) }
    }

    /// The number of entries.
    pub fn len(&self) -> (n: usize)
        ensures
            n == self@.len(),
    {
        broadcast use vstd::std_specs::vecdeque::group_vec_dequeue_axioms;
        self.items.len()
    }

    /// The entry at `i`.
    pub fn get(&self, i: usize) -> (x: &T)
        requires
            i < self@.len(),
        ensures
            *x == self@[i as int],
    {
        broadcast use vstd::std_specs::vecdeque::group_vec_dequeue_axioms;
        &self.items[i]
    }

    /// Calls `VecDeque::reserve(additional)`, which std documents to keep the
    /// entries and leave a capacity of at least `len + additional`; that bound
    /// is recorded as the room.  It panics when that capacity overflows
    /// `usize`, which `requires` leaves out.  Allocation failure aborts and
    /// is not covered.
    #[verifier::external_body]
    pub fn reserve(&mut self, additional: usize)
        requires
            old(self)@.len() + additional <= usize::MAX,
        ensures
            final(self)@ == old(self)@,
            final(self).room() == old(self)@.len() + additional,
    {
        self.items.reserve(additional)
    }
}

} // verus!
