//! The memory-tracked dynamic sequence and its two iterator views.
//!
//! A [`TrackedVec`] maintains a running byte total for its elements. Turning
//! it into an iterator freezes that total: an iterator keeps the charge it
//! was built with even as elements are consumed, because the backing store
//! is only released when the iterator is dropped. The budget therefore
//! over-approximates, and never under-approximates, the live bytes.

use vstd::prelude::*;

use crate::mem::{
    lemma_seq_charge_concat, lemma_seq_charge_push, lemma_seq_charge_split, seq_charge, seq_wf,
    TotalMemory, VEC_HEADER_BYTES,
};

verus! {

/// An append-only-from-the-end dynamic array that carries the exact byte
/// total of its elements.
#[derive(Debug)]
pub struct TrackedVec<T> {
    pub vec: Vec<T>,
    pub size: usize,
}

impl<T: TotalMemory> TotalMemory for TrackedVec<T> {
    open spec fn wf(&self) -> bool {
        &&& seq_wf(self.vec@)
        &&& self.size == seq_charge(self.vec@)
        &&& VEC_HEADER_BYTES + self.size <= usize::MAX
    }

    open spec fn charge(&self) -> nat {
        (VEC_HEADER_BYTES + self.size) as nat
    }

    fn total_memory(&self) -> usize {
        VEC_HEADER_BYTES + self.size
    }
}

impl<T: TotalMemory> TrackedVec<T> {
    pub fn new() -> (r: TrackedVec<T>)
        ensures
            r.wf(),
            r.vec@ == Seq::<T>::empty(),
            r.size == 0,
    {
        TrackedVec { vec: Vec::new(), size: 0 }
    }

    /// Construct from a plain vector, setting the total to the sum of the
    /// contained elements' charges.
    pub fn new_from_vec(v: Vec<T>) -> (r: TrackedVec<T>)
        requires
            seq_wf(v@),
            VEC_HEADER_BYTES + seq_charge(v@) <= usize::MAX,
        ensures
            r.wf(),
            r.vec@ == v@,
            r.size == seq_charge(v@),
    {
        let mut sum: usize = 0;
        let mut i: usize = 0;
        proof {
            assert(v@.subrange(0, 0) =~= Seq::<T>::empty());
        }
        while i < v.len()
            invariant
                i <= v.len(),
                seq_wf(v@),
                VEC_HEADER_BYTES + seq_charge(v@) <= usize::MAX,
                sum == seq_charge(v@.subrange(0, i as int)),
            decreases v.len() - i,
        {
            proof {
                assert(v@.subrange(0, i + 1) =~= v@.subrange(0, i as int).push(v@[i as int]));
                lemma_seq_charge_push(v@.subrange(0, i as int), v@[i as int]);
                assert(v@.subrange(0, v@.len() as int) =~= v@);
                lemma_seq_charge_concat(v@.subrange(0, i + 1), v@.subrange(i + 1, v@.len() as int));
                assert(v@.subrange(0, i + 1) + v@.subrange(i + 1, v@.len() as int) =~= v@);
            }
            sum = sum + v[i].total_memory();
            i = i + 1;
        }
        proof {
            assert(v@.subrange(0, v@.len() as int) =~= v@);
        }
        TrackedVec { vec: v, size: sum }
    }

    /// Append an element, growing the byte total by the element's charge.
    pub fn push(&mut self, e: T)
        requires
            old(self).wf(),
            e.wf(),
            VEC_HEADER_BYTES + old(self).size + e.charge() <= usize::MAX,
        ensures
            final(self).wf(),
            final(self).vec@ == old(self).vec@.push(e),
            final(self).size == old(self).size + e.charge(),
    {
        proof {
            lemma_seq_charge_push(self.vec@, e);
        }
        self.size = self.size + e.total_memory();
        self.vec.push(e);
    }

    /// Remove and return the last element, shrinking the byte total by the
    /// removed element's charge; `None` on an empty sequence.
    pub fn pop(&mut self) -> (r: Option<T>)
        requires
            old(self).wf(),
        ensures
            final(self).wf(),
            old(self).vec@.len() == 0 ==> {
                &&& r is None
                &&& *final(self) == *old(self)
            },
            old(self).vec@.len() > 0 ==> {
                &&& r == Some(old(self).vec@.last())
                &&& final(self).vec@ == old(self).vec@.drop_last()
                &&& final(self).size + old(self).vec@.last().charge() == old(self).size
            },
    {
        if self.vec.len() == 0 {
            None
        } else {
            let e = self.vec.pop().unwrap();
            self.size = self.size - e.total_memory();
            Some(e)
        }
    }

    pub fn get(&self, ix: usize) -> (r: Option<&T>)
        ensures
            ix < self.vec@.len() ==> r == Some(&self.vec@[ix as int]),
            ix >= self.vec@.len() ==> r is None,
    {
        if ix < self.vec.len() {
            Some(&self.vec[ix])
        } else {
            None
        }
    }

    pub fn last(&self) -> (r: Option<&T>)
        ensures
            self.vec@.len() > 0 ==> r == Some(&self.vec@.last()),
            self.vec@.len() == 0 ==> r is None,
    {
        if self.vec.len() > 0 {
            Some(&self.vec[self.vec.len() - 1])
        } else {
            None
        }
    }

    /// Borrow the element at `ix` mutably. The byte total is not touched:
    /// a caller that changes the element's charge through the borrow must
    /// re-establish the accounting itself (the state's write operations
    /// do exactly that).
    pub fn get_mut(&mut self, ix: usize) -> (r: &mut T)
        requires
            old(self).wf(),
            ix < old(self).vec@.len(),
        ensures
            *r == old(self).vec@[ix as int],
            final(self).vec@ == old(self).vec@.update(ix as int, *final(r)),
            final(self).size == old(self).size,
    {
        &mut self.vec[ix]
    }

    /// Replace the element at `ix`, returning the element it displaced.
    /// The byte total moves by the difference of the two charges.
    pub fn set(&mut self, ix: usize, e: T) -> (r: T)
        requires
            old(self).wf(),
            ix < old(self).vec@.len(),
            e.wf(),
            VEC_HEADER_BYTES + old(self).size - old(self).vec@[ix as int].charge() + e.charge()
                <= usize::MAX,
        ensures
            final(self).wf(),
            r == old(self).vec@[ix as int],
            final(self).vec@ == old(self).vec@.update(ix as int, e),
            final(self).size + r.charge() == old(self).size + e.charge(),
    {
        proof {
            lemma_seq_charge_split(self.vec@, ix as int);
        }
        let old_mem = self.vec[ix].total_memory();
        let r = self.vec.remove(ix);
        self.vec.insert(ix, e);
        self.size = self.size - old_mem + self.vec[ix].total_memory();
        proof {
            let s0 = old(self).vec@;
            let s1 = self.vec@;
            assert(s1 =~= s0.update(ix as int, e));
            lemma_seq_charge_split(s1, ix as int);
            assert(s1.subrange(0, ix as int) =~= s0.subrange(0, ix as int));
            assert(s1.subrange(ix + 1, s1.len() as int) =~= s0.subrange(ix + 1, s0.len() as int));
        }
        r
    }

    /// Consume the sequence, producing a single-pass iterator that carries
    /// the same byte total.
    pub fn into_iter(self) -> (r: TrackedIter<T>)
        requires
            self.wf(),
        ensures
            r.wf(),
            r.elems == self.vec,
            r.elems@ == self.vec@,
            r.size == self.size,
    {
        TrackedIter { elems: self.vec, size: self.size }
    }

    /// Consume the sequence, producing a cycling iterator over an infinite
    /// repetition of it, carrying the same byte total.
    pub fn into_cycle_iter(self) -> (r: TrackedCycleIter<T>)
        requires
            self.wf(),
        ensures
            r.wf(),
            r.elems == self.vec,
            r.elems@ == self.vec@,
            r.pos == 0,
            r.size == self.size,
    {
        TrackedCycleIter { elems: self.vec, pos: 0, size: self.size }
    }
}

impl<T: TotalMemory + Copy> TrackedVec<T> {
    /// An exact duplicate of a tracked vector of plain copyable values.
    pub fn dup(&self) -> (r: TrackedVec<T>)
        requires
            self.wf(),
        ensures
            r.wf(),
            r.vec@ == self.vec@,
            r.size == self.size,
    {
        let mut inner: Vec<T> = Vec::new();
        let mut i: usize = 0;
        while i < self.vec.len()
            invariant
                i <= self.vec@.len(),
                inner@ == self.vec@.subrange(0, i as int),
            decreases self.vec@.len() - i,
        {
            inner.push(self.vec[i]);
            proof {
                assert(inner@ =~= self.vec@.subrange(0, i + 1));
            }
            i = i + 1;
        }
        proof {
            assert(inner@ =~= self.vec@);
        }
        TrackedVec { vec: inner, size: self.size }
    }
}

/// A single-pass iterator over the elements of a consumed [`TrackedVec`].
/// It reports the byte total it was constructed with, even after partial
/// consumption: the backing store is released only when it is dropped.
#[derive(Debug)]
pub struct TrackedIter<T> {
    /// The elements not yet yielded, in yield order.
    pub elems: Vec<T>,
    /// The charge fixed at construction.
    pub size: usize,
}

impl<T: TotalMemory> TrackedIter<T> {
    pub open spec fn wf(&self) -> bool {
        seq_wf(self.elems@)
    }

    /// Yield the next element; the byte total does not change.
    pub fn next(&mut self) -> (r: Option<T>)
        requires
            old(self).wf(),
        ensures
            final(self).wf(),
            final(self).size == old(self).size,
            old(self).elems@.len() == 0 ==> {
                &&& r is None
                &&& *final(self) == *old(self)
            },
            old(self).elems@.len() > 0 ==> {
                &&& r == Some(old(self).elems@[0])
                &&& final(self).elems@ == old(self).elems@.subrange(1, old(self).elems@.len() as int)
            },
    {
        if self.elems.len() > 0 {
            Some(self.elems.remove(0))
        } else {
            None
        }
    }
}

/// A cycling iterator over the elements of a consumed [`TrackedVec`]: it
/// yields them in order, forever, unless the backing sequence was empty at
/// construction. It reports the byte total it was constructed with.
#[derive(Debug)]
pub struct TrackedCycleIter<T> {
    /// The backing elements, never consumed.
    pub elems: Vec<T>,
    /// The position of the next element to yield.
    pub pos: usize,
    /// The charge fixed at construction.
    pub size: usize,
}

impl<T: TotalMemory> TrackedCycleIter<T> {
    pub open spec fn wf(&self) -> bool {
        &&& seq_wf(self.elems@)
        &&& if self.elems@.len() == 0 {
            self.pos == 0
        } else {
            self.pos < self.elems@.len()
        }
    }
}

} // verus!
