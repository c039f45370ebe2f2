use vstd::prelude::*;

use std::collections::VecDeque;

verus! {

/// Two first-in, first-out queues side by side: one of items to write and
/// one of items read.
pub struct ReadWriteQueue<W, R> {
    writes: VecDeque<W>,
    reads: VecDeque<R>,
}

impl<W, R> ReadWriteQueue<W, R> {
    pub closed spec fn spec_writes(&self) -> Seq<W> {
        self.writes@
    }

    pub closed spec fn spec_reads(&self) -> Seq<R> {
        self.reads@
    }

    /// Queues holding `r_items` and `w_items`, in their order.
    pub fn from_iters(r_items: Vec<R>, w_items: Vec<W>) -> (q: ReadWriteQueue<W, R>)
        ensures
            q.spec_reads() == r_items@,
            q.spec_writes() == w_items@,
    {
        ReadWriteQueue { writes: deque_of(w_items), reads: deque_of(r_items) }
    }

    pub fn writes_empty(&self) -> (r: bool)
        ensures
            r == (self.spec_writes().len() == 0),
    {
        self.writes.len() == 0
    }

    pub fn reads_empty(&self) -> (r: bool)
        ensures
            r == (self.spec_reads().len() == 0),
    {
        self.reads.len() == 0
    }

    pub fn push_to_writes(&mut self, w: W)
        ensures
            final(self).spec_writes() == old(self).spec_writes().push(w),
            final(self).spec_reads() == old(self).spec_reads(),
    {
        self.writes.push_back(w);
    }

    pub fn push_to_reads(&mut self, r: R)
        ensures
            final(self).spec_reads() == old(self).spec_reads().push(r),
            final(self).spec_writes() == old(self).spec_writes(),
    {
        self.reads.push_back(r);
    }

    /// Takes the oldest item to write, if any.
    pub fn pop_from_writes(&mut self) -> (r: Option<W>)
        ensures
            final(self).spec_reads() == old(self).spec_reads(),
            old(self).spec_writes().len() == 0 ==> r is None && final(self).spec_writes() == old(self).spec_writes(),
            old(self).spec_writes().len() > 0 ==> r == Some(old(self).spec_writes()[0]) && final(self).spec_writes() == old(self).spec_writes().drop_first(),
    {
        self.writes.pop_front()
    }

    /// Takes the oldest item read, if any.
    pub fn pop_from_reads(&mut self) -> (r: Option<R>)
        ensures
            final(self).spec_writes() == old(self).spec_writes(),
            old(self).spec_reads().len() == 0 ==> r is None && final(self).spec_reads() == old(self).spec_reads(),
            old(self).spec_reads().len() > 0 ==> r == Some(old(self).spec_reads()[0]) && final(self).spec_reads() == old(self).spec_reads().drop_first(),
    {
        self.reads.pop_front()
    }
}

/// A deque holding `items`, in their order.
pub(crate) fn deque_of<T>(items: Vec<T>) -> (d: VecDeque<T>)
    ensures
        d@ == items@,
{
    let mut d: VecDeque<T> = VecDeque::new();
    let mut items = items;
    let ghost all = items@;
    while items.len() > 0
        invariant
            d@ + items@ == all,
        decreases items@.len(),
    {
        let t = items.remove(0);
        d.push_back(t);
        assert(d@ + items@ =~= all);
    }
    assert(d@ =~= all);
    d
}

} // verus!
