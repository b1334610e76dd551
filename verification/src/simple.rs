//! The simple dialect of the machine: its opcode set, its instruction sum,
//! and the chromosome layer that projects gene vectors into instructions.

pub mod simple_instruction;

pub use simple_instruction::{
    ins_view, ins_wf, opcode_from_ordinal, ordinal_of, seq_ins_wf, views_of, InsModel, PlainOp,
    SimpleInstruction, TOTAL_PLAIN_INSTRUCTIONS,
};

use vstd::prelude::*;

use crate::mem::{seq_charge, seq_wf, TotalMemory, INS_BYTES, VEC_HEADER_BYTES};
use crate::vec::TrackedVec;

verus! {

broadcast use vstd::seq::group_seq_axioms;

/// Relies on `rand::thread_rng` and `rand::Rng::gen_range` over `0..n`: a
/// draw from the thread-local generator, somewhere in the nonempty range.
/// Nothing more can be promised of a random draw.
#[verifier::external_body]
fn rand_below(n: u32) -> (r: u32)
    requires
        n >= 1,
    ensures
        r < n,
{
    rand::Rng::gen_range(&mut rand::thread_rng(), 0..n)
}

/// A sequence of positions that is strictly increasing, as the ordered
/// set of crossover points of a chromosome is.
pub open spec fn strictly_sorted(s: Seq<usize>) -> bool {
    forall|i: int, j: int| 0 <= i < j < s.len() ==> s[i] < s[j]
}

/// The first position at or after the cursor `c` that lies strictly past
/// `prev`; the sequence length when there is none.
pub open spec fn find_gt(s: Seq<usize>, c: int, prev: int) -> int
    decreases s.len() - c,
{
    if c < 0 {
        s.len() as int
    } else if c >= s.len() {
        c
    } else if s[c] > prev {
        c
    } else {
        find_gt(s, c + 1, prev)
    }
}

/// The first fitting position is never before the cursor, it is within
/// the sequence unless the cursor already left it, and where it is within
/// the sequence it holds a position strictly past `prev`.
pub proof fn lemma_find_gt_range(s: Seq<usize>, c: int, prev: int)
    requires
        0 <= c,
    ensures
        c <= find_gt(s, c, prev),
        find_gt(s, c, prev) <= s.len() || find_gt(s, c, prev) == c,
        find_gt(s, c, prev) < s.len() ==> s[find_gt(s, c, prev)] > prev,
    decreases s.len() - c,
{
    if 0 <= c < s.len() && !(s[c] > prev) {
        lemma_find_gt_range(s, c + 1, prev);
    }
}

/// The crossover positions that a mating visits, in order: walk the two
/// parents' crossover sequences (each closed by its gene count as a
/// sentinel), alternately taking from each side the first position
/// strictly past the point reached so far. The walk ends when the side
/// whose turn it is has no position left.
pub open spec fn mate_walk(
    s0: Seq<usize>,
    s1: Seq<usize>,
    c0: int,
    c1: int,
    prev: int,
    turn0: bool,
) -> Seq<usize>
    decreases s0.len() - c0 + s1.len() - c1,
    via mate_walk_decreases
{
    if c0 < 0 || c1 < 0 || c0 > s0.len() || c1 > s1.len() {
        Seq::empty()
    } else if turn0 {
        let i0 = find_gt(s0, c0, prev);
        if i0 >= s0.len() {
            Seq::empty()
        } else {
            seq![s0[i0]] + mate_walk(s0, s1, i0 + 1, c1, s0[i0] as int, false)
        }
    } else {
        let i1 = find_gt(s1, c1, prev);
        if i1 >= s1.len() {
            Seq::empty()
        } else {
            seq![s1[i1]] + mate_walk(s0, s1, c0, i1 + 1, s1[i1] as int, true)
        }
    }
}

#[via_fn]
proof fn mate_walk_decreases(
    s0: Seq<usize>,
    s1: Seq<usize>,
    c0: int,
    c1: int,
    prev: int,
    turn0: bool,
) {
    if c0 >= 0 && c1 >= 0 {
        if turn0 {
            lemma_find_gt_range(s0, c0, prev);
        } else {
            lemma_find_gt_range(s1, c1, prev);
        }
    }
}

/// Appending a position strictly past the last keeps the sequence
/// strictly increasing.
pub proof fn lemma_sorted_push(s: Seq<usize>, x: usize)
    requires
        strictly_sorted(s),
        s.len() > 0 ==> s.last() < x,
    ensures
        strictly_sorted(s.push(x)),
{
    assert forall|i: int, j: int| 0 <= i < j < s.push(x).len() implies s.push(x)[i] < s.push(x)[j]
    by {
        if j < s.len() {
        } else {
            assert(s.push(x)[j] == x);
            if i < s.len() - 1 {
                assert(s[i] < s[s.len() - 1]);
            }
        }
    }
}

/// An ordered sequence of opcodes plus a sorted set of crossover points:
/// the breedable representation that the evolutionary layer mutates and
/// mates, and that projects into a basic block of the core dialect.
#[derive(Debug)]
pub struct Chromosome {
    /// The ordered gene sequence. Mutate only through the operations,
    /// which keep the crossover points an ordered set.
    pub genes: Vec<PlainOp>,
    /// The crossover points, held as a strictly increasing sequence.
    pub crossovers: Vec<usize>,
}

impl Chromosome {
    /// The crossover points form a strictly increasing sequence: the
    /// ordered-set discipline of the representation.
    pub open spec fn inv(&self) -> bool {
        strictly_sorted(self.crossovers@)
    }

    pub fn gene_len(&self) -> (r: usize)
        ensures
            r == self.genes@.len(),
    {
        self.genes.len()
    }

    pub fn crossover_len(&self) -> (r: usize)
        ensures
            r == self.crossovers@.len(),
    {
        self.crossovers.len()
    }
}

/// Removing one position keeps the sequence strictly increasing.
proof fn lemma_sorted_remove(s: Seq<usize>, i: int)
    requires
        strictly_sorted(s),
        0 <= i < s.len(),
    ensures
        strictly_sorted(s.remove(i)),
{
    let t = s.remove(i);
    assert forall|a: int, b: int| 0 <= a < b < t.len() implies t[a] < t[b] by {
        let a2 = if a < i {
            a
        } else {
            a + 1
        };
        let b2 = if b < i {
            b
        } else {
            b + 1
        };
        assert(t[a] == s[a2]);
        assert(t[b] == s[b2]);
    }
}

/// Insert a position into a strictly increasing sequence, keeping it
/// strictly increasing; a position already present is left alone. Every
/// element afterwards was there before or is the inserted one.
fn insert_sorted(v: &mut Vec<usize>, x: usize) -> (added: bool)
    requires
        strictly_sorted(old(v)@),
    ensures
        strictly_sorted(final(v)@),
        final(v)@.len() <= old(v)@.len() + 1,
        forall|k: int|
            0 <= k < final(v)@.len() ==> old(v)@.contains(#[trigger] final(v)@[k]) || final(v)@[k]
                == x,
{
    let mut p: usize = 0;
    while p < v.len() && v[p] < x
        invariant
            p <= v@.len(),
            strictly_sorted(v@),
            forall|k: int| 0 <= k < p ==> v@[k] < x,
            v@ == old(v)@,
        decreases v@.len() - p,
    {
        p = p + 1;
    }
    if p < v.len() && v[p] == x {
        return false;
    }
    v.insert(p, x);
    proof {
        let t = v@;
        let t0 = old(v)@;
        assert forall|a: int, b: int| 0 <= a < b < t.len() implies t[a] < t[b] by {
            if a < p && b == p {
                assert(t[a] == t0[a]);
            } else if a == p && b > p {
                assert(t[b] == t0[b - 1]);
                assert(t0[b - 1] >= x);
                if t0[b - 1] == x {
                    assert(false);
                }
            } else if a < p && b > p {
                assert(t[a] == t0[a] && t[b] == t0[b - 1]);
                if b - 1 == p {
                    assert(t0[p as int] >= x);
                } else {
                    assert(t0[a] < t0[b - 1]);
                }
            } else if a > p && b > p {
                assert(t[a] == t0[a - 1] && t[b] == t0[b - 1]);
            } else {
                assert(t[a] == t0[a] && t[b] == t0[b]);
            }
        }
        assert forall|k: int|
            0 <= k < v@.len() implies old(v)@.contains(#[trigger] v@[k]) || v@[k] == x by {
            if k < p {
                assert(v@[k] == old(v)@[k]);
            } else if k > p {
                assert(v@[k] == old(v)@[k - 1]);
            }
        }
    }
    true
}

/// The first position at or after the cursor that lies strictly past
/// `prev`, executable form.
fn find_gt_idx(v: &Vec<usize>, c: usize, prev: usize) -> (r: usize)
    requires
        c <= v@.len(),
    ensures
        r == find_gt(v@, c as int, prev as int),
        c <= r,
        r <= v@.len(),
{
    let mut i: usize = c;
    while i < v.len()
        invariant
            c <= i <= v@.len(),
            find_gt(v@, c as int, prev as int) == find_gt(v@, i as int, prev as int),
            forall|k: int| c <= k < i ==> !((#[trigger] v@[k]) > prev),
        decreases v@.len() - i,
    {
        if v[i] > prev {
            return i;
        }
        i = i + 1;
    }
    i
}

impl Chromosome {
    /// Breed two chromosomes: walk the parents' crossover points
    /// alternately, each time taking the gene segment up to the visited
    /// point, and record every visited point as a crossover of the child.
    /// The segments are all read from `self`, the first parent; a visited
    /// point past the end of the genes contributes what is there.
    pub fn mate(&self, other: &Chromosome) -> (r: Chromosome)
        requires
            self.inv(),
            other.inv(),
        ensures
            r.inv(),
            ({
                let s0 = self.crossovers@.push(self.genes@.len() as usize);
                let s1 = other.crossovers@.push(other.genes@.len() as usize);
                let visited = mate_walk(s0, s1, 0, 0, 0, true);
                let end: int = if visited.len() == 0 {
                    0
                } else {
                    visited.last() as int
                };
                let cut: int = if end <= self.genes@.len() {
                    end
                } else {
                    self.genes@.len() as int
                };
                &&& r.crossovers@ == visited
                &&& r.genes@ == self.genes@.subrange(0, cut)
            }),
    {
        let mut s0: Vec<usize> = Vec::new();
        let mut i: usize = 0;
        while i < self.crossovers.len()
            invariant
                i <= self.crossovers@.len(),
                s0@ == self.crossovers@.subrange(0, i as int),
            decreases self.crossovers@.len() - i,
        {
            s0.push(self.crossovers[i]);
            proof {
                assert(s0@ =~= self.crossovers@.subrange(0, i + 1));
            }
            i = i + 1;
        }
        s0.push(self.genes.len());
        proof {
            assert(self.crossovers@.subrange(0, self.crossovers@.len() as int)
                =~= self.crossovers@);
            assert(s0@ =~= self.crossovers@.push(self.genes@.len() as usize));
        }
        let mut s1: Vec<usize> = Vec::new();
        let mut j: usize = 0;
        while j < other.crossovers.len()
            invariant
                j <= other.crossovers@.len(),
                s1@ == other.crossovers@.subrange(0, j as int),
            decreases other.crossovers@.len() - j,
        {
            s1.push(other.crossovers[j]);
            proof {
                assert(s1@ =~= other.crossovers@.subrange(0, j + 1));
            }
            j = j + 1;
        }
        s1.push(other.genes.len());
        proof {
            assert(other.crossovers@.subrange(0, other.crossovers@.len() as int)
                =~= other.crossovers@);
            assert(s1@ =~= other.crossovers@.push(other.genes@.len() as usize));
        }
        let ghost full = mate_walk(s0@, s1@, 0, 0, 0, true);
        let mut genes: Vec<PlainOp> = Vec::new();
        let mut crossovers: Vec<usize> = Vec::new();
        let mut c0: usize = 0;
        let mut c1: usize = 0;
        let mut prev: usize = 0;
        let mut turn0: bool = true;
        let mut done: bool = false;
        proof {
            assert(self.genes@.subrange(0, 0) =~= Seq::<PlainOp>::empty());
        }
        while !done
            invariant
                c0 <= s0@.len(),
                c1 <= s1@.len(),
                strictly_sorted(crossovers@),
                crossovers@.len() > 0 ==> crossovers@.last() == prev,
                crossovers@.len() == 0 ==> prev == 0,
                genes@ == self.genes@.subrange(
                    0,
                    if prev <= self.genes@.len() {
                        prev as int
                    } else {
                        self.genes@.len() as int
                    },
                ),
                full == crossovers@ + (if done {
                    Seq::<usize>::empty()
                } else {
                    mate_walk(s0@, s1@, c0 as int, c1 as int, prev as int, turn0)
                }),
            decreases s0@.len() - c0 + s1@.len() - c1 + (if done {
                0int
            } else {
                1int
            }),
        {
            let (sv, cv) = if turn0 {
                (&s0, c0)
            } else {
                (&s1, c1)
            };
            let ix = find_gt_idx(sv, cv, prev);
            proof {
                lemma_find_gt_range(if turn0 {
                    s0@
                } else {
                    s1@
                }, cv as int, prev as int);
            }
            if ix >= sv.len() {
                done = true;
                proof {
                    assert(full =~= crossovers@ + Seq::<usize>::empty());
                    assert(full =~= crossovers@);
                }
            } else {
                let n = sv[ix];
                let lo = if prev < self.genes.len() {
                    prev
                } else {
                    self.genes.len()
                };
                let hi = if n < self.genes.len() {
                    n
                } else {
                    self.genes.len()
                };
                let mut k = lo;
                while k < hi
                    invariant
                        lo <= k <= hi,
                        hi <= self.genes@.len(),
                        genes@ == self.genes@.subrange(0, k as int),
                    decreases hi - k,
                {
                    genes.push(self.genes[k]);
                    proof {
                        assert(genes@ =~= self.genes@.subrange(0, k + 1));
                    }
                    k = k + 1;
                }
                proof {
                    lemma_sorted_push(crossovers@, n);
                }
                let ghost old_cross = crossovers@;
                crossovers.push(n);
                if turn0 {
                    c0 = ix + 1;
                } else {
                    c1 = ix + 1;
                }
                prev = n;
                turn0 = !turn0;
                proof {
                    let rest = mate_walk(s0@, s1@, c0 as int, c1 as int, prev as int, turn0);
                    assert(old_cross + (seq![n] + rest) =~= crossovers@ + rest);
                }
            }
        }
        Chromosome { genes, crossovers }
    }
}

impl Chromosome {
    /// A random chromosome: `len` genes drawn uniformly from the opcode
    /// enumeration and up to `crossovers` crossover points drawn uniformly
    /// below `len` (fewer if draws repeat).
    pub fn new_rand(len: usize, crossovers: usize) -> (r: Chromosome)
        requires
            crossovers == 0 || len >= 1,
            len <= 0xFFFFFFFF,
        ensures
            r.inv(),
            r.genes@.len() == len,
            r.crossovers@.len() <= crossovers,
            forall|k: int| 0 <= k < r.crossovers@.len() ==> (#[trigger] r.crossovers@[k]) < len,
    {
        let mut genes: Vec<PlainOp> = Vec::new();
        let mut i: usize = 0;
        while i < len
            invariant
                i <= len,
                genes@.len() == i,
            decreases len - i,
        {
            let n = rand_below(TOTAL_PLAIN_INSTRUCTIONS as u32);
            genes.push(opcode_from_ordinal(n as usize));
            i = i + 1;
        }
        let mut cx: Vec<usize> = Vec::new();
        let mut j: usize = 0;
        while j < crossovers
            invariant
                j <= crossovers,
                crossovers >= 1 ==> len >= 1,
                len <= 0xFFFFFFFF,
                strictly_sorted(cx@),
                cx@.len() <= j,
                forall|k: int| 0 <= k < cx@.len() ==> (#[trigger] cx@[k]) < len,
            decreases crossovers - j,
        {
            let p = rand_below(len as u32) as usize;
            let ghost before = cx@;
            insert_sorted(&mut cx, p);
            proof {
                assert forall|k: int| 0 <= k < cx@.len() implies (#[trigger] cx@[k]) < len by {
                    if cx@[k] != p {
                        assert(before.contains(cx@[k]));
                    }
                }
            }
            j = j + 1;
        }
        Chromosome { genes, crossovers: cx }
    }

    /// Apply up to `maximum` random edits, walking a random cursor through
    /// the genes with gaps drawn below `gap_bound`: each edit inserts,
    /// removes or replaces a gene, or adds or removes a crossover point.
    /// Removing a gene also drops every crossover point that no longer
    /// lies within the genes. The walk stops at the end of the genes.
    pub fn mutate(&mut self, maximum: usize, gap_bound: u32)
        requires
            old(self).inv(),
            gap_bound >= 1,
        ensures
            final(self).inv(),
            final(self).genes@.len() <= old(self).genes@.len() + maximum,
            final(self).genes@.len() + maximum >= old(self).genes@.len(),
    {
        let mut index: usize = 0;
        let mut step: usize = 0;
        while step < maximum
            invariant
                step <= maximum,
                gap_bound >= 1,
                self.inv(),
                self.genes@.len() <= old(self).genes@.len() + step,
                self.genes@.len() + step >= old(self).genes@.len(),
            decreases maximum - step,
        {
            let g = rand_below(gap_bound) as usize;
            if g > usize::MAX - index {
                return;
            }
            index = index + g;
            if index >= self.genes.len() {
                return;
            }
            match rand_below(5) {
                0 => {
                    let n = rand_below(TOTAL_PLAIN_INSTRUCTIONS as u32);
                    self.genes.insert(index, opcode_from_ordinal(n as usize));
                },
                1 => {
                    self.genes.remove(index);
                    let ghost g0 = self.genes;
                    while self.crossovers.len() > 0 && self.crossovers[self.crossovers.len() - 1]
                        >= self.genes.len()
                        invariant
                            strictly_sorted(self.crossovers@),
                            self.genes == g0,
                        decreases self.crossovers@.len(),
                    {
                        let ghost before = self.crossovers@;
                        self.crossovers.pop();
                        proof {
                            assert(self.crossovers@ =~= before.drop_last());
                        }
                    }
                },
                2 => {
                    let n = rand_below(TOTAL_PLAIN_INSTRUCTIONS as u32);
                    self.genes.remove(index);
                    self.genes.insert(index, opcode_from_ordinal(n as usize));
                },
                3 => {
                    insert_sorted(&mut self.crossovers, index);
                },
                _ => {
                    if self.crossovers.len() >= 1 && self.crossovers.len() <= 0xFFFFFFFF {
                        let ci = rand_below(self.crossovers.len() as u32) as usize;
                        proof {
                            lemma_sorted_remove(self.crossovers@, ci as int);
                        }
                        self.crossovers.remove(ci);
                    }
                },
            }
            step = step + 1;
        }
    }

    /// Project the chromosome into an instruction of the core dialect: a
    /// basic block whose iterator walks the genes as plain opcodes. The
    /// crossover points are breeding metadata and have no effect here.
    pub fn to_instruction(&self) -> (r: SimpleInstruction)
        requires
            INS_BYTES + INS_BYTES * self.genes@.len() <= usize::MAX,
        ensures
            r.wf(),
            (r@ matches InsModel::BasicBlock(ms, c) && ms.len() == self.genes@.len() && (forall|
                k: int,
            |
                0 <= k < ms.len() ==> ms[k] == InsModel::PlainOp(self.genes@[k])) && c == INS_BYTES
                * self.genes@.len()),
    {
        let mut body: Vec<SimpleInstruction> = Vec::new();
        let mut i: usize = 0;
        while i < self.genes.len()
            invariant
                i <= self.genes@.len(),
                INS_BYTES + INS_BYTES * self.genes@.len() <= usize::MAX,
                body@.len() == i,
                forall|k: int|
                    0 <= k < i ==> (#[trigger] body@[k]) == SimpleInstruction::PlainOp(
                        self.genes@[k],
                    ),
                seq_wf(body@),
                seq_charge(body@) == INS_BYTES * i,
            decreases self.genes@.len() - i,
        {
            let x = SimpleInstruction::PlainOp(self.genes[i]);
            proof {
                crate::mem::lemma_seq_charge_push(body@, x);
                crate::mem::lemma_seq_wf_push(body@, x);
            }
            body.push(x);
            i = i + 1;
        }
        let tv = TrackedVec::new_from_vec(body);
        let ghost bodyseq = tv.vec@;
        let r = SimpleInstruction::BasicBlock(tv.into_iter());
        proof {
            simple_instruction::lemma_seq_ins_wf(bodyseq);
            simple_instruction::lemma_views_of_len(bodyseq);
            assert forall|k: int|
                0 <= k < bodyseq.len() implies views_of(bodyseq)[k] == InsModel::PlainOp(
                self.genes@[k],
            ) by {
                simple_instruction::lemma_views_of_index(bodyseq, k);
            }
        }
        r
    }
}

} // verus!
