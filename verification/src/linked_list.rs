//! The linked-list projector: a forward-only cursor over the nodes of a
//! native singly-linked list.
//!
//! The caller captures the node records once (head to tail) and walks them
//! through [`ListCursor`]: each step yields the current node and advances,
//! and an exhausted cursor yields nothing forever — re-iterating takes a
//! fresh cursor from the list's head.  Releasing the backing native list is
//! the owning wrapper's job, exactly once for the whole chain; the cursor
//! itself never touches native memory.

use vstd::prelude::*;

verus! {

/// A single-pass cursor over the remaining nodes of a projected list.
pub struct ListCursor<T> {
    remaining: Vec<T>,
}

impl<T> View for ListCursor<T> {
    type V = Seq<T>;

    closed spec fn view(&self) -> Seq<T> {
        self.remaining@
    }
}

impl<T> ListCursor<T> {
    /// A fresh cursor positioned at the head of the captured node sequence.
    pub fn new(nodes: Vec<T>) -> (c: ListCursor<T>)
        ensures
            c@ == nodes@,
    {
        ListCursor { remaining: nodes }
    }

    /// How many nodes remain ahead of the cursor.
    pub fn len(&self) -> (n: usize)
        ensures
            n == self@.len(),
    {
        self.remaining.len()
    }

    /// Advance by one node.
    ///
    /// Law: an exhausted cursor yields nothing and stays exhausted (the
    /// sequence is non-restartable); otherwise the head node is yielded and
    /// the cursor moves to its successor, so a full walk yields exactly the
    /// nodes in head-to-tail order.
    pub fn next(&mut self) -> (r: Option<T>)
        ensures
            old(self)@.len() == 0 ==> r is None && final(self)@ == old(self)@,
            old(self)@.len() > 0 ==> r == Some(old(self)@[0]) && final(self)@ == old(
                self,
            )@.drop_first(),
    {
        if self.remaining.len() == 0 {
            None
        } else {
            Some(self.remaining.remove(0))
        }
    }
}

} // verus!
