use vstd::prelude::*;
use crate::iter::Iter;

verus! {

/// Element capacity of a freshly created container. Capacity is counted in
/// elements, not bytes, and doubles whenever a push finds the container
/// full.
pub const INITIAL_CAPACITY: usize = 16;

/// Reported by indexed access and by `remove` when the given index is not
/// below the current length. Carries the attempted index and the length it
/// was checked against.
#[derive(Debug)]
pub struct IndexOutOfBounds {
    pub index: usize,
    pub length: usize,
}

/// A growable contiguous container: a sequence of elements of one type
/// together with explicit capacity bookkeeping.
///
/// The capacity counts how many elements the backing allocation is good
/// for; it starts at `INITIAL_CAPACITY`, grows on demand and never
/// shrinks, and the logical length never exceeds it.
#[derive(PartialEq)]
pub struct Vector<T> {
    buf: Vec<T>,
    capacity: usize,
}

impl<T> View for Vector<T> {
    type V = Seq<T>;

    closed spec fn view(&self) -> Seq<T> {
        self.buf@
    }
}

impl<T> Vector<T> {
    /// The tracked element capacity.
    pub closed spec fn spec_capacity(&self) -> int {
        self.capacity as int
    }

    /// Well-formedness: the tracked element capacity is positive and at
    /// least the logical length. Every constructor establishes this and
    /// every operation preserves it.
    pub open spec fn wf(&self) -> bool {
        0 < self.spec_capacity() && self@.len() <= self.spec_capacity()
    }

    /// Creates an empty container with capacity for `INITIAL_CAPACITY`
    /// elements.
    pub fn new() -> (r: Vector<T>)
        ensures
            r.wf(),
            r@ == Seq::<T>::empty(),
            r.spec_capacity() == INITIAL_CAPACITY,
    {
        Vector { buf: Vec::new(), capacity: INITIAL_CAPACITY }
    }

    /// The current logical element count.
    pub fn len(&self) -> (r: usize)
        ensures
            r == self@.len(),
    {
        self.buf.len()
    }

    /// How many elements the current backing allocation can hold.
    pub fn capacity(&self) -> (r: usize)
        ensures
            r == self.spec_capacity(),
    {
        self.capacity
    }

    /// Appends `value` at the end. A full container first doubles its
    /// capacity; the doubled capacity must still fit in `usize`. Any other
    /// push leaves the capacity as it was.
    pub fn push(&mut self, value: T)
        requires
            old(self).wf(),
            old(self)@.len() == old(self).spec_capacity() ==> 2 * old(self)@.len() <= usize::MAX,
        ensures
            final(self).wf(),
            final(self)@ == old(self)@.push(value),
            final(self).spec_capacity() == (if old(self)@.len() == old(self).spec_capacity() {
                2 * old(self).spec_capacity()
            } else {
                old(self).spec_capacity()
            }),
    {
        if self.capacity <= self.buf.len() {
            self.capacity = self.capacity * 2;
        }
        self.buf.push(value);
    }

    /// Removes and returns the last element, or returns `None` and leaves
    /// the container untouched when it is empty. Never changes capacity.
    pub fn pop(&mut self) -> (r: Option<T>)
        requires
            old(self).wf(),
        ensures
            final(self).wf(),
            final(self).spec_capacity() == old(self).spec_capacity(),
            old(self)@.len() == 0 ==> r is None && final(self)@ == old(self)@,
            old(self)@.len() > 0 ==> r == Some(old(self)@.last())
                && final(self)@ == old(self)@.drop_last(),
    {
        self.buf.pop()
    }

    /// Indexed read access: a reference to the element at `index`, or an
    /// `IndexOutOfBounds` report exactly when `index` is not below the
    /// current length.
    pub fn get_index(&self, index: usize) -> (r: Result<&T, IndexOutOfBounds>)
        ensures
            index < self@.len() ==> (r matches Ok(v) && *v == self@[index as int]),
            index >= self@.len() ==> (r matches Err(e) && e.index == index
                && e.length == self@.len()),
    {
        if index < self.buf.len() {
            Ok(&self.buf[index])
        } else {
            Err(IndexOutOfBounds { index, length: self.buf.len() })
        }
    }

    /// Removes the element at `index` and shifts every later element one
    /// slot toward the front. An index at or past the current length is
    /// rejected with `IndexOutOfBounds` before any state changes.
    pub fn remove(&mut self, index: usize) -> (r: Result<(), IndexOutOfBounds>)
        requires
            old(self).wf(),
        ensures
            final(self).wf(),
            final(self).spec_capacity() == old(self).spec_capacity(),
            index < old(self)@.len() ==> r is Ok
                && final(self)@ == old(self)@.remove(index as int),
            index >= old(self)@.len() ==> (r matches Err(e) && e.index == index
                && e.length == old(self)@.len() && final(self)@ == old(self)@),
    {
        if index >= self.buf.len() {
            return Err(IndexOutOfBounds { index, length: self.buf.len() });
        }
        let _ = self.buf.remove(index);
        Ok(())
    }

    /// Resets the logical length to zero. Capacity is kept: the backing
    /// allocation is never shrunk.
    pub fn clear(&mut self)
        requires
            old(self).wf(),
        ensures
            final(self).wf(),
            final(self)@ == Seq::<T>::empty(),
            final(self).spec_capacity() == old(self).spec_capacity(),
    {
        self.buf.clear();
    }

    /// Guarantees room for at least `additional` more elements: afterwards
    /// the capacity is at least `length + additional`, grown to exactly
    /// that bulk size rather than by doubling. Contents and length are
    /// untouched and capacity never decreases.
    pub fn reserve(&mut self, additional: usize)
        requires
            old(self).wf(),
            old(self)@.len() + additional <= usize::MAX,
        ensures
            final(self).wf(),
            final(self)@ == old(self)@,
            old(self).spec_capacity() <= final(self).spec_capacity(),
            final(self)@.len() + additional <= final(self).spec_capacity(),
    {
        let needed = self.buf.len() + additional;
        if self.capacity < needed {
            self.capacity = needed;
        }
        self.buf.reserve(additional);
    }

    /// Moves every element of `other` onto the end of `self`, in order,
    /// and empties `other`. Only `other`'s logical length changes: its
    /// capacity (backing allocation) is kept.
    pub fn append(&mut self, other: &mut Vector<T>)
        requires
            old(self).wf(),
            old(other).wf(),
            old(self)@.len() + old(other)@.len() <= usize::MAX,
        ensures
            final(self).wf(),
            final(other).wf(),
            final(self)@ == old(self)@ + old(other)@,
            final(other)@ == Seq::<T>::empty(),
            old(self).spec_capacity() <= final(self).spec_capacity(),
            final(other).spec_capacity() == old(other).spec_capacity(),
    {
        let total = self.buf.len() + other.buf.len();
        if self.capacity < total {
            self.capacity = total;
        }
        self.buf.append(&mut other.buf);
    }

    /// Builds a container holding exactly the elements of `values`, in
    /// order, moving them in.
    pub fn from_vec(values: Vec<T>) -> (r: Vector<T>)
        ensures
            r.wf(),
            r@ == values@,
            INITIAL_CAPACITY <= r.spec_capacity(),
    {
        let mut vector = Vector::new();
        let mut values = values;
        vector.reserve(values.len());
        vector.buf.append(&mut values);
        vector
    }

    /// Read-only view of the initialized elements, as a slice.
    pub fn as_slice(&self) -> (r: &[T])
        ensures
            r@ == self@,
    {
        self.buf.as_slice()
    }

    /// Mutable access to the initialized elements, as a slice. Writing
    /// through the slice rewrites elements in place; the logical length
    /// and the capacity cannot change through it.
    pub fn as_mut_slice(&mut self) -> (r: &mut [T])
        requires
            old(self).wf(),
        ensures
            r@ == old(self)@,
            final(r)@ == final(self)@,
            final(self).spec_capacity() == old(self).spec_capacity(),
            final(self)@.len() == old(self)@.len() ==> final(self).wf(),
    {
        self.buf.as_mut_slice()
    }

    /// Accepts a predicate over pairs of elements and leaves the container
    /// unchanged: no element is dropped on any input, whatever the
    /// predicate says.
    pub fn dedup_by<F: Fn(&T, &T) -> bool>(&mut self, same_bucket: F)
        requires
            old(self).wf(),
        ensures
            final(self).wf(),
            final(self)@ == old(self)@,
            final(self).spec_capacity() == old(self).spec_capacity(),
    {
        let _ = same_bucket;
    }
}

impl<T: Copy> Vector<T> {
    /// Hands out an iterator over a snapshot of the current contents: the
    /// elements and length are captured now, and later mutation of this
    /// container is never observed by the iterator.
    pub fn iter(&self) -> (r: Iter<T>)
        ensures
            r.wf(),
            r.remaining() == self@,
    {
        let mut snapshot: Vec<T> = Vec::new();
        let mut i: usize = 0;
        while i < self.buf.len()
            invariant
                i <= self.buf@.len(),
                snapshot@ == self.buf@.subrange(0, i as int),
            decreases self.buf@.len() - i,
        {
            snapshot.push(self.buf[i]);
            proof {
                assert(snapshot@ =~= self.buf@.subrange(0, i + 1));
            }
            i = i + 1;
        }
        proof {
            assert(snapshot@ =~= self@);
        }
        let length = snapshot.len();
        let r = Iter::new(snapshot, length);
        proof {
            assert(r.remaining() =~= self@);
        }
        r
    }

    /// Builds a container by copying every element of `values`, in order.
    /// The result holds exactly what pushing the elements one by one onto
    /// a fresh container would.
    pub fn from_slice(values: &[T]) -> (r: Vector<T>)
        ensures
            r.wf(),
            r@ == values@,
    {
        let mut vector = Vector::new();
        vector.reserve(values.len());
        let mut i: usize = 0;
        while i < values.len()
            invariant
                i <= values@.len(),
                vector.wf(),
                values@.len() <= vector.spec_capacity(),
                vector@ == values@.subrange(0, i as int),
            decreases values@.len() - i,
        {
            vector.buf.push(values[i]);
            proof {
                assert(vector@ =~= values@.subrange(0, i + 1));
            }
            i = i + 1;
        }
        proof {
            assert(vector@ =~= values@);
        }
        vector
    }
}

impl<'a, T: Copy> From<&'a [T]> for Vector<T> {
    /// Construct-from-slice through the std conversion trait: copies every
    /// element of `values`, in order.
    fn from(values: &'a [T]) -> (r: Vector<T>)
        ensures
            r.wf(),
            r@ == values@,
    {
        Vector::from_slice(values)
    }
}

impl<'a, T: Copy> vstd::std_specs::convert::FromSpecImpl<&'a [T]> for Vector<T> {
    open spec fn obeys_from_spec() -> bool {
        false
    }

    open spec fn from_spec(v: &'a [T]) -> Vector<T> {
        arbitrary()
    }
}

/// The contents of a container after pushing the values of `vs` in order,
/// one `push` at a time, onto an empty container.
pub open spec fn pushed_in_order<T>(vs: Seq<T>) -> Seq<T>
    decreases vs.len(),
{
    if vs.len() == 0 {
        Seq::<T>::empty()
    } else {
        pushed_in_order(vs.drop_last()).push(vs.last())
    }
}

/// Law: a container built by pushing the values of `vs` in order holds
/// exactly `vs`. In particular it equals, element for element, a container
/// built from a slice of the same values.
pub proof fn lemma_pushes_build_seq<T>(vs: Seq<T>)
    ensures
        pushed_in_order(vs) == vs,
    decreases vs.len(),
{
    if vs.len() == 0 {
        assert(pushed_in_order(vs) =~= vs);
    } else {
        lemma_pushes_build_seq::<T>(vs.drop_last());
        assert(pushed_in_order(vs) =~= vs);
    }
}

/// Law: push/index round-trip. After pushing `vs[0], ..., vs[n-1]` in
/// order onto an empty container, indexed access at any `i < n` yields
/// `vs[i]`.
pub proof fn lemma_push_index_round_trip<T>(vs: Seq<T>, i: int)
    requires
        0 <= i < vs.len(),
    ensures
        pushed_in_order(vs)[i] == vs[i],
{
    lemma_pushes_build_seq::<T>(vs);
}

/// Law: pop is push's inverse. Pushing `v` onto contents `s` and popping
/// right away returns `v` and restores `s`.
pub proof fn lemma_pop_inverts_push<T>(s: Seq<T>, v: T)
    ensures
        s.push(v).last() == v,
        s.push(v).drop_last() == s,
{
    assert(s.push(v).drop_last() =~= s);
}

} // verus!
