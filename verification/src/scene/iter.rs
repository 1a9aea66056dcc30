//! Cursors over the parts of a scene.

use vstd::prelude::*;

verus! {

/// A cursor over a sequence of items of a scene, front to back. It borrows
/// the items and copies none.
pub struct Iter<'a, T> {
    items: &'a [T],
    idx: usize,
}

impl<'a, T> Iter<'a, T> {
    /// The items that the cursor has yet to yield, in order.
    pub closed spec fn remaining(&self) -> Seq<T> {
        self.items@.skip(self.idx as int)
    }

    #[verifier::type_invariant]
    pub closed spec fn wf(&self) -> bool {
        self.idx <= self.items@.len()
    }

    /// A cursor at the front of `items`.
    pub fn new(items: &'a [T]) -> (r: Iter<'a, T>)
        ensures
            r.remaining() == items@,
    {
        Iter { items, idx: 0 }
    }

    /// Yields the front item and moves past it, or yields `None` at the end.
    pub fn next(&mut self) -> (r: Option<&'a T>)
        ensures
            old(self).remaining().len() == 0 ==> r is None && final(self).remaining()
                == old(self).remaining(),
            old(self).remaining().len() > 0 ==> r == Some(&old(self).remaining()[0])
                && final(self).remaining() == old(self).remaining().skip(1),
    {
        proof {
            use_type_invariant(&*self);
        }
        if self.idx < self.items.len() {
            let item = &self.items[self.idx];
            self.idx = self.idx + 1;
            Some(item)
        } else {
            None
        }
    }

    /// Number of items yet to be yielded.
    pub fn len(&self) -> (n: usize)
        ensures
            n == self.remaining().len(),
    {
        proof {
            use_type_invariant(self);
        }
        self.items.len() - self.idx
    }
}

} // verus!
