use vstd::prelude::*;

verus! {

/// A forward iterator over a snapshot of a container's contents.
///
/// The iterator owns the snapshot it was created from: it walks a fixed
/// sequence of elements captured at creation time and never observes later
/// mutation of the container it came from. It yields each element once,
/// by value, in order, and is exhausted once its position reaches the
/// snapshotted length.
pub struct Iter<T> {
    elems: Vec<T>,
    length: usize,
    count: usize,
}

impl<T> Iter<T> {
    /// The position counter never exceeds the snapshotted length, which in
    /// turn never exceeds the snapshot actually held.
    pub closed spec fn wf(&self) -> bool {
        self.count <= self.length && self.length <= self.elems@.len()
    }

    /// The elements not yet yielded, in the order they will come out.
    pub closed spec fn remaining(&self) -> Seq<T> {
        self.elems@.subrange(self.count as int, self.length as int)
    }

    /// Creates an iterator over the first `length` elements of the
    /// snapshot `elems`, starting at position zero.
    pub fn new(elems: Vec<T>, length: usize) -> (r: Iter<T>)
        requires
            length <= elems@.len(),
        ensures
            r.wf(),
            r.remaining() == elems@.subrange(0, length as int),
            r.remaining().len() == length,
    {
        Iter { elems, length, count: 0 }
    }
}

impl<T: Copy> Iter<T> {
    /// Yields the next not-yet-seen element of the snapshot, or `None` once
    /// all `length` elements have come out. An exhausted iterator stays
    /// exhausted and is left unchanged.
    pub fn next(&mut self) -> (r: Option<T>)
        requires
            old(self).wf(),
        ensures
            final(self).wf(),
            old(self).remaining().len() > 0 ==> r == Some(old(self).remaining()[0])
                && final(self).remaining() == old(self).remaining().drop_first(),
            old(self).remaining().len() == 0 ==> r is None && *final(self) == *old(self),
    {
        if self.count < self.length {
            let v = self.elems[self.count];
            self.count = self.count + 1;
            proof {
                assert(self.remaining() =~= old(self).remaining().drop_first());
            }
            Some(v)
        } else {
            None
        }
    }

    /// Iteration exhaustiveness, as one law: calling `next` until it
    /// signals completion yields exactly the remaining snapshot elements,
    /// in order, and leaves the iterator exhausted.
    pub fn collect_remaining(&mut self) -> (r: Vec<T>)
        requires
            old(self).wf(),
        ensures
            final(self).wf(),
            r@ == old(self).remaining(),
            final(self).remaining().len() == 0,
    {
        let mut out: Vec<T> = Vec::new();
        let mut going = true;
        proof {
            assert(out@ + self.remaining() =~= self.remaining());
        }
        while going
            invariant
                self.wf(),
                going ==> out@ + self.remaining() == old(self).remaining(),
                !going ==> out@ == old(self).remaining() && self.remaining().len() == 0,
            decreases self.remaining().len() + (if going { 1int } else { 0int }),
        {
            match self.next() {
                Some(v) => {
                    out.push(v);
                    proof {
                        assert(out@ + self.remaining() =~= old(self).remaining());
                    }
                },
                None => {
                    going = false;
                    proof {
                        assert(out@ =~= old(self).remaining());
                    }
                },
            }
        }
        out
    }
}

} // verus!
