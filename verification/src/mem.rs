//! The accounting model: every value kind the machine can hold reports the
//! exact number of bytes it occupies in the live-memory budget.

use vstd::prelude::*;

verus! {

/// Bytes charged for one 64-bit integer held on a stack.
pub const INT_BYTES: usize = 8;

/// Bytes charged for one 64-bit float value held on a stack.
pub const FLOAT_BYTES: usize = 8;

/// Bytes charged for one boolean held on a stack.
pub const BOOL_BYTES: usize = 1;

/// Fixed overhead charged for one instruction, whatever its payload carries.
pub const INS_BYTES: usize = 64;

/// Fixed header charged for a tracked vector, beyond its elements.
pub const VEC_HEADER_BYTES: usize = 32;

/// Uniform "total bytes occupied" measurement for every value kind the
/// machine can push onto one of its stacks.
///
/// The measurement is stable across moves (it depends only on the value),
/// compositional for containers (a sequence is charged a fixed header plus
/// the sum of its elements' charges), and constant per primitive kind.
pub trait TotalMemory: Sized {
    /// The value's internal accounting is consistent: every stored byte
    /// total equals the charge of the elements it stands for, with enough
    /// headroom that measuring the value cannot overflow.
    spec fn wf(&self) -> bool;

    /// The exact number of bytes this value accounts for in a budget.
    spec fn charge(&self) -> nat;

    /// Executable measurement; agrees exactly with `charge`.
    fn total_memory(&self) -> (r: usize)
        requires
            self.wf(),
        ensures
            r as nat == self.charge(),
    ;
}

/// Total charge of a sequence of measured values.
pub open spec fn seq_charge<T: TotalMemory>(s: Seq<T>) -> nat
    decreases s.len(),
{
    if s.len() == 0 {
        0
    } else {
        seq_charge(s.drop_last()) + s.last().charge()
    }
}

/// Every element of the sequence is well-formed.
pub open spec fn seq_wf<T: TotalMemory>(s: Seq<T>) -> bool {
    forall|i: int| 0 <= i < s.len() ==> (#[trigger] s[i]).wf()
}

pub proof fn lemma_seq_charge_push<T: TotalMemory>(s: Seq<T>, e: T)
    ensures
        seq_charge(s.push(e)) == seq_charge(s) + e.charge(),
{
    assert(s.push(e).drop_last() =~= s);
    assert(s.push(e).last() == e);
}

pub proof fn lemma_seq_charge_concat<T: TotalMemory>(a: Seq<T>, b: Seq<T>)
    ensures
        seq_charge(a + b) == seq_charge(a) + seq_charge(b),
    decreases b.len(),
{
    if b.len() == 0 {
        assert(a + b =~= a);
    } else {
        lemma_seq_charge_concat(a, b.drop_last());
        assert((a + b).drop_last() =~= a + b.drop_last());
        assert((a + b).last() == b.last());
    }
}

/// The charge of a sequence splits around any one position.
pub proof fn lemma_seq_charge_split<T: TotalMemory>(s: Seq<T>, i: int)
    requires
        0 <= i < s.len(),
    ensures
        seq_charge(s) == seq_charge(s.subrange(0, i)) + s[i].charge() + seq_charge(
            s.subrange(i + 1, s.len() as int),
        ),
{
    let left = s.subrange(0, i);
    let mid = seq![s[i]];
    let right = s.subrange(i + 1, s.len() as int);
    assert(s =~= left + mid + right);
    lemma_seq_charge_concat(left + mid, right);
    lemma_seq_charge_concat(left, mid);
    assert(mid.drop_last() =~= Seq::<T>::empty());
    assert(seq_charge(Seq::<T>::empty()) == 0);
    assert(seq_charge(mid) == s[i].charge());
}

/// No single element is charged more than its whole sequence.
pub proof fn lemma_seq_charge_index_le<T: TotalMemory>(s: Seq<T>, i: int)
    requires
        0 <= i < s.len(),
    ensures
        s[i].charge() <= seq_charge(s),
{
    lemma_seq_charge_split(s, i);
}

/// Appending and then dropping the last element is the identity, and the
/// appended element is the last.
pub broadcast proof fn lemma_push_then_drop_last<T>(s: Seq<T>, e: T)
    ensures
        (#[trigger] s.push(e)).drop_last() == s,
        s.push(e).last() == e,
{
    assert(s.push(e).drop_last() =~= s);
}

pub proof fn lemma_seq_wf_push<T: TotalMemory>(s: Seq<T>, e: T)
    requires
        seq_wf(s),
        e.wf(),
    ensures
        seq_wf(s.push(e)),
{
    assert forall|i: int| 0 <= i < s.push(e).len() implies (#[trigger] s.push(e)[i]).wf() by {
        if i < s.len() {
            assert(s.push(e)[i] == s[i]);
        } else {
            assert(s.push(e)[i] == e);
        }
    }
}

/// A sequence whose elements are each charged at least one byte cannot hold
/// more elements than its total charge.
pub proof fn lemma_seq_len_le_charge<T: TotalMemory>(s: Seq<T>)
    requires
        forall|i: int| 0 <= i < s.len() ==> (#[trigger] s[i]).charge() >= 1,
    ensures
        s.len() <= seq_charge(s),
    decreases s.len(),
{
    if s.len() > 0 {
        lemma_seq_len_le_charge(s.drop_last());
    }
}

impl TotalMemory for i64 {
    open spec fn wf(&self) -> bool {
        true
    }

    open spec fn charge(&self) -> nat {
        INT_BYTES as nat
    }

    fn total_memory(&self) -> usize {
        INT_BYTES
    }
}

impl TotalMemory for bool {
    open spec fn wf(&self) -> bool {
        true
    }

    open spec fn charge(&self) -> nat {
        BOOL_BYTES as nat
    }

    fn total_memory(&self) -> usize {
        BOOL_BYTES
    }
}

} // verus!
