//! The multi-stack machine state: seven typed stacks plus the execution
//! stack, with exact accounting of live bytes against a fixed budget.
//!
//! Every mutating operation either pre-checks the budget and commits
//! atomically, or adjusts `size` to mirror the mutation exactly. The only
//! failure a state operation can surface is [`SizeError::Full`]; an empty
//! pop returns `None` and the caller substitutes a fallback value.

use vstd::prelude::*;

use crate::float::FloatBits;
use crate::mem::{
    lemma_seq_charge_index_le, lemma_seq_charge_push, lemma_seq_len_le_charge, lemma_seq_wf_push,
    seq_charge, seq_wf, TotalMemory,
};
use crate::simple::simple_instruction::{views_of, SimpleInstruction};
use crate::vec::TrackedVec;

verus! {

broadcast use vstd::seq::group_seq_axioms;

/// The one failure a state operation can surface: committing the operation
/// would push the live size past the budget.
#[derive(Debug, Clone, Copy, PartialEq, Eq, Structural)]
pub enum SizeError {
    Full,
}

/// What a budgeted push does to one stack: if the element fits, it is
/// appended and the live size grows by its charge; otherwise nothing
/// changes. Returns the new stack, the new size, and whether the push
/// succeeded.
pub open spec fn spec_push<T: TotalMemory>(stack: Seq<T>, size: nat, max: nat, e: T) -> (
    Seq<T>,
    nat,
    bool,
) {
    if size + e.charge() <= max {
        (stack.push(e), size + e.charge(), true)
    } else {
        (stack, size, false)
    }
}

/// What a pop does to one stack: the top element leaves and the live size
/// shrinks by its charge; an empty stack is untouched. Returns the new
/// stack, the new size, and the removed element.
pub open spec fn spec_pop<T: TotalMemory>(stack: Seq<T>, size: nat) -> (Seq<T>, nat, Option<T>) {
    if stack.len() == 0 {
        (stack, size, None::<T>)
    } else {
        (stack.drop_last(), (size - stack.last().charge()) as nat, Some(stack.last()))
    }
}

/// What a rotation does to one stack: the element at depth `pos` below the
/// top (zero-indexed) is moved to the top; a position at or past the bottom
/// leaves the stack untouched and fails. Budget-neutral.
pub open spec fn spec_rot<T>(stack: Seq<T>, pos: nat) -> (Seq<T>, bool) {
    if pos < stack.len() {
        let i = stack.len() - 1 - pos;
        (stack.remove(i as int).push(stack[i as int]), true)
    } else {
        (stack, false)
    }
}

/// Budgeted push of one element onto one stack, adjusting the shared live
/// size; the stack and size are untouched when the element does not fit.
fn push_stack<T: TotalMemory>(stack: &mut Vec<T>, size: &mut usize, max_size: usize, e: T) -> (r:
    Result<(), SizeError>)
    requires
        seq_wf(old(stack)@),
        e.wf(),
        *old(size) <= max_size,
    ensures
        seq_wf(final(stack)@),
        ({
            let (s2, sz2, ok) = spec_push(old(stack)@, *old(size) as nat, max_size as nat, e);
            &&& final(stack)@ == s2
            &&& *final(size) == sz2
            &&& (r is Ok <==> ok)
            &&& (!ok ==> r == Err::<(), SizeError>(SizeError::Full) && *final(stack) == *old(
                stack,
            ) && *final(size) == *old(size))
            &&& (ok ==> seq_charge(final(stack)@) == seq_charge(old(stack)@) + e.charge())
        }),
{
    let sz = e.total_memory();
    if sz > max_size - *size {
        Err(SizeError::Full)
    } else {
        proof {
            lemma_seq_charge_push(stack@, e);
            lemma_seq_wf_push(stack@, e);
        }
        *size = *size + sz;
        stack.push(e);
        Ok(())
    }
}

/// Pop of the top element of one stack, adjusting the shared live size; an
/// empty stack is untouched.
fn pop_stack<T: TotalMemory>(stack: &mut Vec<T>, size: &mut usize) -> (r: Option<T>)
    requires
        seq_wf(old(stack)@),
        seq_charge(old(stack)@) <= *old(size),
    ensures
        seq_wf(final(stack)@),
        ({
            let (s2, sz2, e) = spec_pop(old(stack)@, *old(size) as nat);
            &&& final(stack)@ == s2
            &&& *final(size) == sz2
            &&& r == e
            &&& (r is None ==> *final(stack) == *old(stack) && *final(size) == *old(size))
            &&& match r {
                Some(e) => e.wf() && seq_charge(final(stack)@) + e.charge() == seq_charge(
                    old(stack)@,
                ),
                None => true,
            }
        }),
{
    if stack.len() == 0 {
        None
    } else {
        let e = stack.pop().unwrap();
        proof {
            assert(old(stack)@[old(stack)@.len() - 1].wf());
        }
        *size = *size - e.total_memory();
        Some(e)
    }
}

/// Rotation of one stack: remove the element at depth `pos` from the top
/// and re-push it on top. Budget-neutral; fails on a position at or past
/// the bottom.
fn rot_stack<T: TotalMemory>(stack: &mut Vec<T>, pos: usize) -> (r: bool)
    requires
        seq_wf(old(stack)@),
    ensures
        seq_wf(final(stack)@),
        seq_charge(final(stack)@) == seq_charge(old(stack)@),
        ({
            let (s2, ok) = spec_rot(old(stack)@, pos as nat);
            &&& final(stack)@ == s2
            &&& r == ok
        }),
        !r ==> *final(stack) == *old(stack),
{
    let len = stack.len();
    if pos < len {
        let i = len - pos - 1;
        let e = stack.remove(i);
        proof {
            crate::mem::lemma_seq_charge_split(old(stack)@, i as int);
            assert(stack@ =~= old(stack)@.subrange(0, i as int) + old(stack)@.subrange(
                i + 1,
                old(stack)@.len() as int,
            ));
            crate::mem::lemma_seq_charge_concat(
                old(stack)@.subrange(0, i as int),
                old(stack)@.subrange(i + 1, old(stack)@.len() as int),
            );
            assert(forall|j: int|
                0 <= j < stack@.len() ==> (#[trigger] stack@[j]) == if j < i {
                    old(stack)@[j]
                } else {
                    old(stack)@[j + 1]
                });
            assert(seq_wf(stack@));
            assert(e.wf());
            lemma_seq_charge_push(stack@, e);
            lemma_seq_wf_push(stack@, e);
        }
        stack.push(e);
        true
    } else {
        false
    }
}

/// The multi-stack state: the execution stack, one stack per value kind,
/// the live byte count and the budget. The fields are public for read-only
/// introspection and for specification transparency; mutate the state only
/// through its operations, which keep `size` equal to the exact sum of the
/// charges of every held element and never let it pass `max_size`.
#[derive(Debug)]
pub struct State {
    /// The limit of how much memory is allowed to be used.
    pub max_size: usize,
    /// The current memory used.
    pub size: usize,
    /// Instructions are popped from this stack to be executed.
    pub exe_stack: Vec<SimpleInstruction>,
    /// A stack for handling instructions as data.
    pub ins_stack: Vec<SimpleInstruction>,
    /// A stack for integers.
    pub int_stack: Vec<i64>,
    /// A stack for float values.
    pub float_stack: Vec<FloatBits>,
    /// A stack for booleans.
    pub bool_stack: Vec<bool>,
    /// A stack for instruction vectors.
    pub ins_vec_stack: Vec<TrackedVec<SimpleInstruction>>,
    /// A stack for integer vectors.
    pub int_vec_stack: Vec<TrackedVec<i64>>,
    /// A stack for float vectors.
    pub float_vec_stack: Vec<TrackedVec<FloatBits>>,
}

impl State {
    /// The exact sum of the charges of every element held in any stack.
    pub open spec fn total_charge(self) -> nat {
        seq_charge(self.exe_stack@) + seq_charge(self.ins_stack@) + seq_charge(self.int_stack@)
            + seq_charge(self.float_stack@) + seq_charge(self.bool_stack@) + seq_charge(
            self.ins_vec_stack@,
        ) + seq_charge(self.int_vec_stack@) + seq_charge(self.float_vec_stack@)
    }

    /// The state invariant: the live size is the exact sum of the charges
    /// of every held element, it never exceeds the budget, and every held
    /// element is internally consistent.
    pub open spec fn inv(self) -> bool {
        &&& self.size == self.total_charge()
        &&& self.size <= self.max_size
        &&& seq_wf(self.exe_stack@)
        &&& seq_wf(self.ins_stack@)
        &&& seq_wf(self.int_stack@)
        &&& seq_wf(self.float_stack@)
        &&& seq_wf(self.bool_stack@)
        &&& seq_wf(self.ins_vec_stack@)
        &&& seq_wf(self.int_vec_stack@)
        &&& seq_wf(self.float_vec_stack@)
    }

    /// The number of elements held across all eight stacks.
    pub open spec fn total_len(self) -> nat {
        self.exe_stack@.len() + self.ins_stack@.len() + self.int_stack@.len()
            + self.float_stack@.len() + self.bool_stack@.len() + self.ins_vec_stack@.len()
            + self.int_vec_stack@.len() + self.float_vec_stack@.len()
    }

    pub fn new(max_size: usize) -> (r: State)
        ensures
            r.inv(),
            r.max_size == max_size,
            r.size == 0,
            r.exe_stack@ == Seq::<SimpleInstruction>::empty(),
            r.ins_stack@ == Seq::<SimpleInstruction>::empty(),
            r.int_stack@ == Seq::<i64>::empty(),
            r.float_stack@ == Seq::<FloatBits>::empty(),
            r.bool_stack@ == Seq::<bool>::empty(),
            r.ins_vec_stack@ == Seq::<TrackedVec<SimpleInstruction>>::empty(),
            r.int_vec_stack@ == Seq::<TrackedVec<i64>>::empty(),
            r.float_vec_stack@ == Seq::<TrackedVec<FloatBits>>::empty(),
    {
        State {
            max_size,
            size: 0,
            exe_stack: Vec::new(),
            ins_stack: Vec::new(),
            int_stack: Vec::new(),
            float_stack: Vec::new(),
            bool_stack: Vec::new(),
            ins_vec_stack: Vec::new(),
            int_vec_stack: Vec::new(),
            float_vec_stack: Vec::new(),
        }
    }

    /// Push onto the exe stack if the budget allows it; `Full` leaves the
    /// whole state bitwise unchanged.
    pub fn push_exe(&mut self, v: SimpleInstruction) -> (r: Result<(), SizeError>)
        requires
            old(self).inv(),
            v.wf(),
        ensures
            final(self).inv(),
            final(self).max_size == old(self).max_size,
            ({
                let (s2, sz2, ok) = spec_push(
                    old(self).exe_stack@,
                    old(self).size as nat,
                    old(self).max_size as nat,
                    v,
                );
                &&& final(self).exe_stack@ == s2
                &&& final(self).size == sz2
                &&& (r is Ok <==> ok)
            }),
            r is Err ==> r == Err::<(), SizeError>(SizeError::Full) && *final(self) == *old(self),
            final(self).ins_stack == old(self).ins_stack,
            final(self).int_stack == old(self).int_stack,
            final(self).float_stack == old(self).float_stack,
            final(self).bool_stack == old(self).bool_stack,
            final(self).ins_vec_stack == old(self).ins_vec_stack,
            final(self).int_vec_stack == old(self).int_vec_stack,
            final(self).float_vec_stack == old(self).float_vec_stack,
    {
        let r = push_stack(&mut self.exe_stack, &mut self.size, self.max_size, v);
        r
    }

    /// Pop the top of the exe stack, releasing its charge; `None` on an
    /// empty stack, which is left unchanged.
    pub fn pop_exe(&mut self) -> (r: Option<SimpleInstruction>)
        requires
            old(self).inv(),
        ensures
            final(self).inv(),
            final(self).max_size == old(self).max_size,
            ({
                let (s2, sz2, e) = spec_pop(old(self).exe_stack@, old(self).size as nat);
                &&& final(self).exe_stack@ == s2
                &&& final(self).size == sz2
                &&& r == e
            }),
            r is None ==> *final(self) == *old(self),
            match r {
                Some(e) => e.wf(),
                None => true,
            },
            final(self).ins_stack == old(self).ins_stack,
            final(self).int_stack == old(self).int_stack,
            final(self).float_stack == old(self).float_stack,
            final(self).bool_stack == old(self).bool_stack,
            final(self).ins_vec_stack == old(self).ins_vec_stack,
            final(self).int_vec_stack == old(self).int_vec_stack,
            final(self).float_vec_stack == old(self).float_vec_stack,
    {
        let r = pop_stack(&mut self.exe_stack, &mut self.size);
        r
    }

    /// Move the element at depth `pos` of the exe stack to its top;
    /// budget-neutral, and inert on a position at or past the bottom.
    pub fn rot_exe(&mut self, pos: usize) -> (r: bool)
        requires
            old(self).inv(),
        ensures
            final(self).inv(),
            final(self).max_size == old(self).max_size,
            ({
                let (s2, ok) = spec_rot(old(self).exe_stack@, pos as nat);
                &&& final(self).exe_stack@ == s2
                &&& r == ok
            }),
            !r ==> *final(self) == *old(self),
            final(self).ins_stack == old(self).ins_stack,
            final(self).int_stack == old(self).int_stack,
            final(self).float_stack == old(self).float_stack,
            final(self).bool_stack == old(self).bool_stack,
            final(self).ins_vec_stack == old(self).ins_vec_stack,
            final(self).int_vec_stack == old(self).int_vec_stack,
            final(self).float_vec_stack == old(self).float_vec_stack,
            final(self).size == old(self).size,
    {
        let r = rot_stack(&mut self.exe_stack, pos);
        r
    }

    /// Clone the element at depth `pos` of the exe stack and return it; the
    /// state, its stacks and its live size are untouched. The caller pays
    /// for the clone only when it pushes it back through a budgeted push.
    pub fn copy_exe(&self, pos: usize) -> (r: Option<SimpleInstruction>)
        requires
            self.inv(),
        ensures
            ({
                let len = self.exe_stack@.len();
                if pos < len {
                    match r {
                        Some(x) => {
                            &&& x@ == self.exe_stack@[len - 1 - pos]@
                            &&& x.wf()
                            &&& x.charge() == self.exe_stack@[len - 1 - pos].charge()
                        },
                        None => false,
                    }
                } else {
                    r is None
                }
            }),
    {
        let len = self.exe_stack.len();
        if pos < len {
            Some(self.exe_stack[len - pos - 1].dup())
        } else {
            None
        }
    }

    /// Push onto the ins stack if the budget allows it; `Full` leaves the
    /// whole state bitwise unchanged.
    pub fn push_ins(&mut self, v: SimpleInstruction) -> (r: Result<(), SizeError>)
        requires
            old(self).inv(),
            v.wf(),
        ensures
            final(self).inv(),
            final(self).max_size == old(self).max_size,
            ({
                let (s2, sz2, ok) = spec_push(
                    old(self).ins_stack@,
                    old(self).size as nat,
                    old(self).max_size as nat,
                    v,
                );
                &&& final(self).ins_stack@ == s2
                &&& final(self).size == sz2
                &&& (r is Ok <==> ok)
            }),
            r is Err ==> r == Err::<(), SizeError>(SizeError::Full) && *final(self) == *old(self),
            final(self).exe_stack == old(self).exe_stack,
            final(self).int_stack == old(self).int_stack,
            final(self).float_stack == old(self).float_stack,
            final(self).bool_stack == old(self).bool_stack,
            final(self).ins_vec_stack == old(self).ins_vec_stack,
            final(self).int_vec_stack == old(self).int_vec_stack,
            final(self).float_vec_stack == old(self).float_vec_stack,
    {
        let r = push_stack(&mut self.ins_stack, &mut self.size, self.max_size, v);
        r
    }

    /// Pop the top of the ins stack, releasing its charge; `None` on an
    /// empty stack, which is left unchanged.
    pub fn pop_ins(&mut self) -> (r: Option<SimpleInstruction>)
        requires
            old(self).inv(),
        ensures
            final(self).inv(),
            final(self).max_size == old(self).max_size,
            ({
                let (s2, sz2, e) = spec_pop(old(self).ins_stack@, old(self).size as nat);
                &&& final(self).ins_stack@ == s2
                &&& final(self).size == sz2
                &&& r == e
            }),
            r is None ==> *final(self) == *old(self),
            match r {
                Some(e) => e.wf(),
                None => true,
            },
            final(self).exe_stack == old(self).exe_stack,
            final(self).int_stack == old(self).int_stack,
            final(self).float_stack == old(self).float_stack,
            final(self).bool_stack == old(self).bool_stack,
            final(self).ins_vec_stack == old(self).ins_vec_stack,
            final(self).int_vec_stack == old(self).int_vec_stack,
            final(self).float_vec_stack == old(self).float_vec_stack,
    {
        let r = pop_stack(&mut self.ins_stack, &mut self.size);
        r
    }

    /// Move the element at depth `pos` of the ins stack to its top;
    /// budget-neutral, and inert on a position at or past the bottom.
    pub fn rot_ins(&mut self, pos: usize) -> (r: bool)
        requires
            old(self).inv(),
        ensures
            final(self).inv(),
            final(self).max_size == old(self).max_size,
            ({
                let (s2, ok) = spec_rot(old(self).ins_stack@, pos as nat);
                &&& final(self).ins_stack@ == s2
                &&& r == ok
            }),
            !r ==> *final(self) == *old(self),
            final(self).exe_stack == old(self).exe_stack,
            final(self).int_stack == old(self).int_stack,
            final(self).float_stack == old(self).float_stack,
            final(self).bool_stack == old(self).bool_stack,
            final(self).ins_vec_stack == old(self).ins_vec_stack,
            final(self).int_vec_stack == old(self).int_vec_stack,
            final(self).float_vec_stack == old(self).float_vec_stack,
            final(self).size == old(self).size,
    {
        let r = rot_stack(&mut self.ins_stack, pos);
        r
    }

    /// Clone the element at depth `pos` of the ins stack and return it; the
    /// state, its stacks and its live size are untouched. The caller pays
    /// for the clone only when it pushes it back through a budgeted push.
    pub fn copy_ins(&self, pos: usize) -> (r: Option<SimpleInstruction>)
        requires
            self.inv(),
        ensures
            ({
                let len = self.ins_stack@.len();
                if pos < len {
                    match r {
                        Some(x) => {
                            &&& x@ == self.ins_stack@[len - 1 - pos]@
                            &&& x.wf()
                            &&& x.charge() == self.ins_stack@[len - 1 - pos].charge()
                        },
                        None => false,
                    }
                } else {
                    r is None
                }
            }),
    {
        let len = self.ins_stack.len();
        if pos < len {
            Some(self.ins_stack[len - pos - 1].dup())
        } else {
            None
        }
    }

    /// Push onto the int stack if the budget allows it; `Full` leaves the
    /// whole state bitwise unchanged.
    pub fn push_int(&mut self, v: i64) -> (r: Result<(), SizeError>)
        requires
            old(self).inv(),
            v.wf(),
        ensures
            final(self).inv(),
            final(self).max_size == old(self).max_size,
            ({
                let (s2, sz2, ok) = spec_push(
                    old(self).int_stack@,
                    old(self).size as nat,
                    old(self).max_size as nat,
                    v,
                );
                &&& final(self).int_stack@ == s2
                &&& final(self).size == sz2
                &&& (r is Ok <==> ok)
            }),
            r is Err ==> r == Err::<(), SizeError>(SizeError::Full) && *final(self) == *old(self),
            final(self).exe_stack == old(self).exe_stack,
            final(self).ins_stack == old(self).ins_stack,
            final(self).float_stack == old(self).float_stack,
            final(self).bool_stack == old(self).bool_stack,
            final(self).ins_vec_stack == old(self).ins_vec_stack,
            final(self).int_vec_stack == old(self).int_vec_stack,
            final(self).float_vec_stack == old(self).float_vec_stack,
    {
        let r = push_stack(&mut self.int_stack, &mut self.size, self.max_size, v);
        r
    }

    /// Pop the top of the int stack, releasing its charge; `None` on an
    /// empty stack, which is left unchanged.
    pub fn pop_int(&mut self) -> (r: Option<i64>)
        requires
            old(self).inv(),
        ensures
            final(self).inv(),
            final(self).max_size == old(self).max_size,
            ({
                let (s2, sz2, e) = spec_pop(old(self).int_stack@, old(self).size as nat);
                &&& final(self).int_stack@ == s2
                &&& final(self).size == sz2
                &&& r == e
            }),
            r is None ==> *final(self) == *old(self),
            match r {
                Some(e) => e.wf(),
                None => true,
            },
            final(self).exe_stack == old(self).exe_stack,
            final(self).ins_stack == old(self).ins_stack,
            final(self).float_stack == old(self).float_stack,
            final(self).bool_stack == old(self).bool_stack,
            final(self).ins_vec_stack == old(self).ins_vec_stack,
            final(self).int_vec_stack == old(self).int_vec_stack,
            final(self).float_vec_stack == old(self).float_vec_stack,
    {
        let r = pop_stack(&mut self.int_stack, &mut self.size);
        r
    }

    /// Move the element at depth `pos` of the int stack to its top;
    /// budget-neutral, and inert on a position at or past the bottom.
    pub fn rot_int(&mut self, pos: usize) -> (r: bool)
        requires
            old(self).inv(),
        ensures
            final(self).inv(),
            final(self).max_size == old(self).max_size,
            ({
                let (s2, ok) = spec_rot(old(self).int_stack@, pos as nat);
                &&& final(self).int_stack@ == s2
                &&& r == ok
            }),
            !r ==> *final(self) == *old(self),
            final(self).exe_stack == old(self).exe_stack,
            final(self).ins_stack == old(self).ins_stack,
            final(self).float_stack == old(self).float_stack,
            final(self).bool_stack == old(self).bool_stack,
            final(self).ins_vec_stack == old(self).ins_vec_stack,
            final(self).int_vec_stack == old(self).int_vec_stack,
            final(self).float_vec_stack == old(self).float_vec_stack,
            final(self).size == old(self).size,
    {
        let r = rot_stack(&mut self.int_stack, pos);
        r
    }

    /// Clone the element at depth `pos` of the int stack and return it; the
    /// state, its stacks and its live size are untouched. The caller pays
    /// for the clone only when it pushes it back through a budgeted push.
    pub fn copy_int(&self, pos: usize) -> (r: Option<i64>)
        requires
            self.inv(),
        ensures
            ({
                let len = self.int_stack@.len();
                if pos < len {
                    r == Some(self.int_stack@[len - 1 - pos])
                } else {
                    r is None
                }
            }),
    {
        let len = self.int_stack.len();
        if pos < len {
            Some(self.int_stack[len - pos - 1])
        } else {
            None
        }
    }

    /// Push onto the float stack if the budget allows it; `Full` leaves the
    /// whole state bitwise unchanged.
    pub fn push_float(&mut self, v: FloatBits) -> (r: Result<(), SizeError>)
        requires
            old(self).inv(),
            v.wf(),
        ensures
            final(self).inv(),
            final(self).max_size == old(self).max_size,
            ({
                let (s2, sz2, ok) = spec_push(
                    old(self).float_stack@,
                    old(self).size as nat,
                    old(self).max_size as nat,
                    v,
                );
                &&& final(self).float_stack@ == s2
                &&& final(self).size == sz2
                &&& (r is Ok <==> ok)
            }),
            r is Err ==> r == Err::<(), SizeError>(SizeError::Full) && *final(self) == *old(self),
            final(self).exe_stack == old(self).exe_stack,
            final(self).ins_stack == old(self).ins_stack,
            final(self).int_stack == old(self).int_stack,
            final(self).bool_stack == old(self).bool_stack,
            final(self).ins_vec_stack == old(self).ins_vec_stack,
            final(self).int_vec_stack == old(self).int_vec_stack,
            final(self).float_vec_stack == old(self).float_vec_stack,
    {
        let r = push_stack(&mut self.float_stack, &mut self.size, self.max_size, v);
        r
    }

    /// Pop the top of the float stack, releasing its charge; `None` on an
    /// empty stack, which is left unchanged.
    pub fn pop_float(&mut self) -> (r: Option<FloatBits>)
        requires
            old(self).inv(),
        ensures
            final(self).inv(),
            final(self).max_size == old(self).max_size,
            ({
                let (s2, sz2, e) = spec_pop(old(self).float_stack@, old(self).size as nat);
                &&& final(self).float_stack@ == s2
                &&& final(self).size == sz2
                &&& r == e
            }),
            r is None ==> *final(self) == *old(self),
            match r {
                Some(e) => e.wf(),
                None => true,
            },
            final(self).exe_stack == old(self).exe_stack,
            final(self).ins_stack == old(self).ins_stack,
            final(self).int_stack == old(self).int_stack,
            final(self).bool_stack == old(self).bool_stack,
            final(self).ins_vec_stack == old(self).ins_vec_stack,
            final(self).int_vec_stack == old(self).int_vec_stack,
            final(self).float_vec_stack == old(self).float_vec_stack,
    {
        let r = pop_stack(&mut self.float_stack, &mut self.size);
        r
    }

    /// Move the element at depth `pos` of the float stack to its top;
    /// budget-neutral, and inert on a position at or past the bottom.
    pub fn rot_float(&mut self, pos: usize) -> (r: bool)
        requires
            old(self).inv(),
        ensures
            final(self).inv(),
            final(self).max_size == old(self).max_size,
            ({
                let (s2, ok) = spec_rot(old(self).float_stack@, pos as nat);
                &&& final(self).float_stack@ == s2
                &&& r == ok
            }),
            !r ==> *final(self) == *old(self),
            final(self).exe_stack == old(self).exe_stack,
            final(self).ins_stack == old(self).ins_stack,
            final(self).int_stack == old(self).int_stack,
            final(self).bool_stack == old(self).bool_stack,
            final(self).ins_vec_stack == old(self).ins_vec_stack,
            final(self).int_vec_stack == old(self).int_vec_stack,
            final(self).float_vec_stack == old(self).float_vec_stack,
            final(self).size == old(self).size,
    {
        let r = rot_stack(&mut self.float_stack, pos);
        r
    }

    /// Clone the element at depth `pos` of the float stack and return it; the
    /// state, its stacks and its live size are untouched. The caller pays
    /// for the clone only when it pushes it back through a budgeted push.
    pub fn copy_float(&self, pos: usize) -> (r: Option<FloatBits>)
        requires
            self.inv(),
        ensures
            ({
                let len = self.float_stack@.len();
                if pos < len {
                    r == Some(self.float_stack@[len - 1 - pos])
                } else {
                    r is None
                }
            }),
    {
        let len = self.float_stack.len();
        if pos < len {
            Some(self.float_stack[len - pos - 1])
        } else {
            None
        }
    }

    /// Push onto the bool stack if the budget allows it; `Full` leaves the
    /// whole state bitwise unchanged.
    pub fn push_bool(&mut self, v: bool) -> (r: Result<(), SizeError>)
        requires
            old(self).inv(),
            v.wf(),
        ensures
            final(self).inv(),
            final(self).max_size == old(self).max_size,
            ({
                let (s2, sz2, ok) = spec_push(
                    old(self).bool_stack@,
                    old(self).size as nat,
                    old(self).max_size as nat,
                    v,
                );
                &&& final(self).bool_stack@ == s2
                &&& final(self).size == sz2
                &&& (r is Ok <==> ok)
            }),
            r is Err ==> r == Err::<(), SizeError>(SizeError::Full) && *final(self) == *old(self),
            final(self).exe_stack == old(self).exe_stack,
            final(self).ins_stack == old(self).ins_stack,
            final(self).int_stack == old(self).int_stack,
            final(self).float_stack == old(self).float_stack,
            final(self).ins_vec_stack == old(self).ins_vec_stack,
            final(self).int_vec_stack == old(self).int_vec_stack,
            final(self).float_vec_stack == old(self).float_vec_stack,
    {
        let r = push_stack(&mut self.bool_stack, &mut self.size, self.max_size, v);
        r
    }

    /// Pop the top of the bool stack, releasing its charge; `None` on an
    /// empty stack, which is left unchanged.
    pub fn pop_bool(&mut self) -> (r: Option<bool>)
        requires
            old(self).inv(),
        ensures
            final(self).inv(),
            final(self).max_size == old(self).max_size,
            ({
                let (s2, sz2, e) = spec_pop(old(self).bool_stack@, old(self).size as nat);
                &&& final(self).bool_stack@ == s2
                &&& final(self).size == sz2
                &&& r == e
            }),
            r is None ==> *final(self) == *old(self),
            match r {
                Some(e) => e.wf(),
                None => true,
            },
            final(self).exe_stack == old(self).exe_stack,
            final(self).ins_stack == old(self).ins_stack,
            final(self).int_stack == old(self).int_stack,
            final(self).float_stack == old(self).float_stack,
            final(self).ins_vec_stack == old(self).ins_vec_stack,
            final(self).int_vec_stack == old(self).int_vec_stack,
            final(self).float_vec_stack == old(self).float_vec_stack,
    {
        let r = pop_stack(&mut self.bool_stack, &mut self.size);
        r
    }

    /// Move the element at depth `pos` of the bool stack to its top;
    /// budget-neutral, and inert on a position at or past the bottom.
    pub fn rot_bool(&mut self, pos: usize) -> (r: bool)
        requires
            old(self).inv(),
        ensures
            final(self).inv(),
            final(self).max_size == old(self).max_size,
            ({
                let (s2, ok) = spec_rot(old(self).bool_stack@, pos as nat);
                &&& final(self).bool_stack@ == s2
                &&& r == ok
            }),
            !r ==> *final(self) == *old(self),
            final(self).exe_stack == old(self).exe_stack,
            final(self).ins_stack == old(self).ins_stack,
            final(self).int_stack == old(self).int_stack,
            final(self).float_stack == old(self).float_stack,
            final(self).ins_vec_stack == old(self).ins_vec_stack,
            final(self).int_vec_stack == old(self).int_vec_stack,
            final(self).float_vec_stack == old(self).float_vec_stack,
            final(self).size == old(self).size,
    {
        let r = rot_stack(&mut self.bool_stack, pos);
        r
    }

    /// Clone the element at depth `pos` of the bool stack and return it; the
    /// state, its stacks and its live size are untouched. The caller pays
    /// for the clone only when it pushes it back through a budgeted push.
    pub fn copy_bool(&self, pos: usize) -> (r: Option<bool>)
        requires
            self.inv(),
        ensures
            ({
                let len = self.bool_stack@.len();
                if pos < len {
                    r == Some(self.bool_stack@[len - 1 - pos])
                } else {
                    r is None
                }
            }),
    {
        let len = self.bool_stack.len();
        if pos < len {
            Some(self.bool_stack[len - pos - 1])
        } else {
            None
        }
    }

    /// Push onto the ins_vec stack if the budget allows it; `Full` leaves the
    /// whole state bitwise unchanged.
    pub fn push_ins_vec(&mut self, v: TrackedVec<SimpleInstruction>) -> (r: Result<(), SizeError>)
        requires
            old(self).inv(),
            v.wf(),
        ensures
            final(self).inv(),
            final(self).max_size == old(self).max_size,
            ({
                let (s2, sz2, ok) = spec_push(
                    old(self).ins_vec_stack@,
                    old(self).size as nat,
                    old(self).max_size as nat,
                    v,
                );
                &&& final(self).ins_vec_stack@ == s2
                &&& final(self).size == sz2
                &&& (r is Ok <==> ok)
            }),
            r is Err ==> r == Err::<(), SizeError>(SizeError::Full) && *final(self) == *old(self),
            final(self).exe_stack == old(self).exe_stack,
            final(self).ins_stack == old(self).ins_stack,
            final(self).int_stack == old(self).int_stack,
            final(self).float_stack == old(self).float_stack,
            final(self).bool_stack == old(self).bool_stack,
            final(self).int_vec_stack == old(self).int_vec_stack,
            final(self).float_vec_stack == old(self).float_vec_stack,
    {
        let r = push_stack(&mut self.ins_vec_stack, &mut self.size, self.max_size, v);
        r
    }

    /// Pop the top of the ins_vec stack, releasing its charge; `None` on an
    /// empty stack, which is left unchanged.
    pub fn pop_ins_vec(&mut self) -> (r: Option<TrackedVec<SimpleInstruction>>)
        requires
            old(self).inv(),
        ensures
            final(self).inv(),
            final(self).max_size == old(self).max_size,
            ({
                let (s2, sz2, e) = spec_pop(old(self).ins_vec_stack@, old(self).size as nat);
                &&& final(self).ins_vec_stack@ == s2
                &&& final(self).size == sz2
                &&& r == e
            }),
            r is None ==> *final(self) == *old(self),
            match r {
                Some(e) => e.wf(),
                None => true,
            },
            final(self).exe_stack == old(self).exe_stack,
            final(self).ins_stack == old(self).ins_stack,
            final(self).int_stack == old(self).int_stack,
            final(self).float_stack == old(self).float_stack,
            final(self).bool_stack == old(self).bool_stack,
            final(self).int_vec_stack == old(self).int_vec_stack,
            final(self).float_vec_stack == old(self).float_vec_stack,
    {
        let r = pop_stack(&mut self.ins_vec_stack, &mut self.size);
        r
    }

    /// Move the element at depth `pos` of the ins_vec stack to its top;
    /// budget-neutral, and inert on a position at or past the bottom.
    pub fn rot_ins_vec(&mut self, pos: usize) -> (r: bool)
        requires
            old(self).inv(),
        ensures
            final(self).inv(),
            final(self).max_size == old(self).max_size,
            ({
                let (s2, ok) = spec_rot(old(self).ins_vec_stack@, pos as nat);
                &&& final(self).ins_vec_stack@ == s2
                &&& r == ok
            }),
            !r ==> *final(self) == *old(self),
            final(self).exe_stack == old(self).exe_stack,
            final(self).ins_stack == old(self).ins_stack,
            final(self).int_stack == old(self).int_stack,
            final(self).float_stack == old(self).float_stack,
            final(self).bool_stack == old(self).bool_stack,
            final(self).int_vec_stack == old(self).int_vec_stack,
            final(self).float_vec_stack == old(self).float_vec_stack,
            final(self).size == old(self).size,
    {
        let r = rot_stack(&mut self.ins_vec_stack, pos);
        r
    }

    /// Clone the element at depth `pos` of the ins_vec stack and return it; the
    /// state, its stacks and its live size are untouched. The caller pays
    /// for the clone only when it pushes it back through a budgeted push.
    pub fn copy_ins_vec(&self, pos: usize) -> (r: Option<TrackedVec<SimpleInstruction>>)
        requires
            self.inv(),
        ensures
            ({
                let len = self.ins_vec_stack@.len();
                if pos < len {
                    match r {
                        Some(x) => {
                            &&& views_of(x.vec@) == views_of(self.ins_vec_stack@[len - 1 - pos].vec@)
                            &&& x.vec@.len() == self.ins_vec_stack@[len - 1 - pos].vec@.len()
                            &&& x.size == self.ins_vec_stack@[len - 1 - pos].size
                            &&& x.wf()
                        },
                        None => false,
                    }
                } else {
                    r is None
                }
            }),
    {
        let len = self.ins_vec_stack.len();
        if pos < len {
            Some(self.ins_vec_stack[len - pos - 1].dup())
        } else {
            None
        }
    }

    /// Push onto the int_vec stack if the budget allows it; `Full` leaves the
    /// whole state bitwise unchanged.
    pub fn push_int_vec(&mut self, v: TrackedVec<i64>) -> (r: Result<(), SizeError>)
        requires
            old(self).inv(),
            v.wf(),
        ensures
            final(self).inv(),
            final(self).max_size == old(self).max_size,
            ({
                let (s2, sz2, ok) = spec_push(
                    old(self).int_vec_stack@,
                    old(self).size as nat,
                    old(self).max_size as nat,
                    v,
                );
                &&& final(self).int_vec_stack@ == s2
                &&& final(self).size == sz2
                &&& (r is Ok <==> ok)
            }),
            r is Err ==> r == Err::<(), SizeError>(SizeError::Full) && *final(self) == *old(self),
            final(self).exe_stack == old(self).exe_stack,
            final(self).ins_stack == old(self).ins_stack,
            final(self).int_stack == old(self).int_stack,
            final(self).float_stack == old(self).float_stack,
            final(self).bool_stack == old(self).bool_stack,
            final(self).ins_vec_stack == old(self).ins_vec_stack,
            final(self).float_vec_stack == old(self).float_vec_stack,
    {
        let r = push_stack(&mut self.int_vec_stack, &mut self.size, self.max_size, v);
        r
    }

    /// Pop the top of the int_vec stack, releasing its charge; `None` on an
    /// empty stack, which is left unchanged.
    pub fn pop_int_vec(&mut self) -> (r: Option<TrackedVec<i64>>)
        requires
            old(self).inv(),
        ensures
            final(self).inv(),
            final(self).max_size == old(self).max_size,
            ({
                let (s2, sz2, e) = spec_pop(old(self).int_vec_stack@, old(self).size as nat);
                &&& final(self).int_vec_stack@ == s2
                &&& final(self).size == sz2
                &&& r == e
            }),
            r is None ==> *final(self) == *old(self),
            match r {
                Some(e) => e.wf(),
                None => true,
            },
            final(self).exe_stack == old(self).exe_stack,
            final(self).ins_stack == old(self).ins_stack,
            final(self).int_stack == old(self).int_stack,
            final(self).float_stack == old(self).float_stack,
            final(self).bool_stack == old(self).bool_stack,
            final(self).ins_vec_stack == old(self).ins_vec_stack,
            final(self).float_vec_stack == old(self).float_vec_stack,
    {
        let r = pop_stack(&mut self.int_vec_stack, &mut self.size);
        r
    }

    /// Move the element at depth `pos` of the int_vec stack to its top;
    /// budget-neutral, and inert on a position at or past the bottom.
    pub fn rot_int_vec(&mut self, pos: usize) -> (r: bool)
        requires
            old(self).inv(),
        ensures
            final(self).inv(),
            final(self).max_size == old(self).max_size,
            ({
                let (s2, ok) = spec_rot(old(self).int_vec_stack@, pos as nat);
                &&& final(self).int_vec_stack@ == s2
                &&& r == ok
            }),
            !r ==> *final(self) == *old(self),
            final(self).exe_stack == old(self).exe_stack,
            final(self).ins_stack == old(self).ins_stack,
            final(self).int_stack == old(self).int_stack,
            final(self).float_stack == old(self).float_stack,
            final(self).bool_stack == old(self).bool_stack,
            final(self).ins_vec_stack == old(self).ins_vec_stack,
            final(self).float_vec_stack == old(self).float_vec_stack,
            final(self).size == old(self).size,
    {
        let r = rot_stack(&mut self.int_vec_stack, pos);
        r
    }

    /// Clone the element at depth `pos` of the int_vec stack and return it; the
    /// state, its stacks and its live size are untouched. The caller pays
    /// for the clone only when it pushes it back through a budgeted push.
    pub fn copy_int_vec(&self, pos: usize) -> (r: Option<TrackedVec<i64>>)
        requires
            self.inv(),
        ensures
            ({
                let len = self.int_vec_stack@.len();
                if pos < len {
                    match r {
                        Some(x) => {
                            &&& x.vec@ == self.int_vec_stack@[len - 1 - pos].vec@
                            &&& x.size == self.int_vec_stack@[len - 1 - pos].size
                            &&& x.wf()
                        },
                        None => false,
                    }
                } else {
                    r is None
                }
            }),
    {
        let len = self.int_vec_stack.len();
        if pos < len {
            Some(self.int_vec_stack[len - pos - 1].dup())
        } else {
            None
        }
    }

    /// Push onto the float_vec stack if the budget allows it; `Full` leaves the
    /// whole state bitwise unchanged.
    pub fn push_float_vec(&mut self, v: TrackedVec<FloatBits>) -> (r: Result<(), SizeError>)
        requires
            old(self).inv(),
            v.wf(),
        ensures
            final(self).inv(),
            final(self).max_size == old(self).max_size,
            ({
                let (s2, sz2, ok) = spec_push(
                    old(self).float_vec_stack@,
                    old(self).size as nat,
                    old(self).max_size as nat,
                    v,
                );
                &&& final(self).float_vec_stack@ == s2
                &&& final(self).size == sz2
                &&& (r is Ok <==> ok)
            }),
            r is Err ==> r == Err::<(), SizeError>(SizeError::Full) && *final(self) == *old(self),
            final(self).exe_stack == old(self).exe_stack,
            final(self).ins_stack == old(self).ins_stack,
            final(self).int_stack == old(self).int_stack,
            final(self).float_stack == old(self).float_stack,
            final(self).bool_stack == old(self).bool_stack,
            final(self).ins_vec_stack == old(self).ins_vec_stack,
            final(self).int_vec_stack == old(self).int_vec_stack,
    {
        let r = push_stack(&mut self.float_vec_stack, &mut self.size, self.max_size, v);
        r
    }

    /// Pop the top of the float_vec stack, releasing its charge; `None` on an
    /// empty stack, which is left unchanged.
    pub fn pop_float_vec(&mut self) -> (r: Option<TrackedVec<FloatBits>>)
        requires
            old(self).inv(),
        ensures
            final(self).inv(),
            final(self).max_size == old(self).max_size,
            ({
                let (s2, sz2, e) = spec_pop(old(self).float_vec_stack@, old(self).size as nat);
                &&& final(self).float_vec_stack@ == s2
                &&& final(self).size == sz2
                &&& r == e
            }),
            r is None ==> *final(self) == *old(self),
            match r {
                Some(e) => e.wf(),
                None => true,
            },
            final(self).exe_stack == old(self).exe_stack,
            final(self).ins_stack == old(self).ins_stack,
            final(self).int_stack == old(self).int_stack,
            final(self).float_stack == old(self).float_stack,
            final(self).bool_stack == old(self).bool_stack,
            final(self).ins_vec_stack == old(self).ins_vec_stack,
            final(self).int_vec_stack == old(self).int_vec_stack,
    {
        let r = pop_stack(&mut self.float_vec_stack, &mut self.size);
        r
    }

    /// Move the element at depth `pos` of the float_vec stack to its top;
    /// budget-neutral, and inert on a position at or past the bottom.
    pub fn rot_float_vec(&mut self, pos: usize) -> (r: bool)
        requires
            old(self).inv(),
        ensures
            final(self).inv(),
            final(self).max_size == old(self).max_size,
            ({
                let (s2, ok) = spec_rot(old(self).float_vec_stack@, pos as nat);
                &&& final(self).float_vec_stack@ == s2
                &&& r == ok
            }),
            !r ==> *final(self) == *old(self),
            final(self).exe_stack == old(self).exe_stack,
            final(self).ins_stack == old(self).ins_stack,
            final(self).int_stack == old(self).int_stack,
            final(self).float_stack == old(self).float_stack,
            final(self).bool_stack == old(self).bool_stack,
            final(self).ins_vec_stack == old(self).ins_vec_stack,
            final(self).int_vec_stack == old(self).int_vec_stack,
            final(self).size == old(self).size,
    {
        let r = rot_stack(&mut self.float_vec_stack, pos);
        r
    }

    /// Clone the element at depth `pos` of the float_vec stack and return it; the
    /// state, its stacks and its live size are untouched. The caller pays
    /// for the clone only when it pushes it back through a budgeted push.
    pub fn copy_float_vec(&self, pos: usize) -> (r: Option<TrackedVec<FloatBits>>)
        requires
            self.inv(),
        ensures
            ({
                let len = self.float_vec_stack@.len();
                if pos < len {
                    match r {
                        Some(x) => {
                            &&& x.vec@ == self.float_vec_stack@[len - 1 - pos].vec@
                            &&& x.size == self.float_vec_stack@[len - 1 - pos].size
                            &&& x.wf()
                        },
                        None => false,
                    }
                } else {
                    r is None
                }
            }),
    {
        let len = self.float_vec_stack.len();
        if pos < len {
            Some(self.float_vec_stack[len - pos - 1].dup())
        } else {
            None
        }
    }

    /// Append a value to the vector on top of the ins-vector stack, gated
    /// by the budget. With no vector on that stack the operation is a
    /// silent success, mirroring the machine's tolerant failure model.
    pub fn push_ins_to_vec(&mut self, v: SimpleInstruction) -> (r: Result<(), SizeError>)
        requires
            old(self).inv(),
            v.wf(),
        ensures
            final(self).inv(),
            final(self).max_size == old(self).max_size,
            final(self).exe_stack == old(self).exe_stack,
            final(self).ins_stack == old(self).ins_stack,
            final(self).int_stack == old(self).int_stack,
            final(self).float_stack == old(self).float_stack,
            final(self).bool_stack == old(self).bool_stack,
            final(self).int_vec_stack == old(self).int_vec_stack,
            final(self).float_vec_stack == old(self).float_vec_stack,
            ({
                let fits = old(self).size + v.charge() <= old(self).max_size;
                let stk = old(self).ins_vec_stack@;
                &&& (!fits ==> r == Err::<(), SizeError>(SizeError::Full) && *final(self) == *old(
                    self,
                ))
                &&& (fits ==> r is Ok)
                &&& (fits && stk.len() == 0 ==> *final(self) == *old(self))
                &&& (fits && stk.len() > 0 ==> {
                    &&& final(self).ins_vec_stack@.len() == stk.len()
                    &&& final(self).ins_vec_stack@.drop_last() == stk.drop_last()
                    &&& final(self).ins_vec_stack@.last().vec@ == stk.last().vec@.push(v)
                    &&& final(self).ins_vec_stack@.last().size == stk.last().size + v.charge()
                    &&& final(self).size == old(self).size + v.charge()
                })
            }),
    {
        let sz = v.total_memory();
        if sz > self.max_size - self.size {
            return Err(SizeError::Full);
        }
        let n = self.ins_vec_stack.len();
        if n == 0 {
            return Ok(());
        }
        proof {
            lemma_seq_charge_index_le(self.ins_vec_stack@, n - 1);
            assert(self.ins_vec_stack@[n - 1].wf());
        }
        let mut tv = self.ins_vec_stack.pop().unwrap();
        tv.push(v);
        self.ins_vec_stack.push(tv);
        self.size = self.size + sz;
        proof {
            lemma_seq_charge_push(old(self).ins_vec_stack@.drop_last(), tv);
            lemma_seq_wf_push(old(self).ins_vec_stack@.drop_last(), tv);
            assert(seq_charge(old(self).ins_vec_stack@) == seq_charge(old(self).ins_vec_stack@.drop_last())
                + old(self).ins_vec_stack@.last().charge());
        }
        Ok(())
    }

    /// Pop the last element of the vector on top of the ins-vector stack
    /// and return it, releasing its charge; `None` when there is no vector
    /// or it is empty.
    pub fn pop_ins_from_vec(&mut self) -> (r: Option<SimpleInstruction>)
        requires
            old(self).inv(),
        ensures
            final(self).inv(),
            final(self).max_size == old(self).max_size,
            final(self).exe_stack == old(self).exe_stack,
            final(self).ins_stack == old(self).ins_stack,
            final(self).int_stack == old(self).int_stack,
            final(self).float_stack == old(self).float_stack,
            final(self).bool_stack == old(self).bool_stack,
            final(self).int_vec_stack == old(self).int_vec_stack,
            final(self).float_vec_stack == old(self).float_vec_stack,
            ({
                let stk = old(self).ins_vec_stack@;
                if stk.len() == 0 {
                    r is None && *final(self) == *old(self)
                } else if stk.last().vec@.len() == 0 {
                    &&& r is None
                    &&& final(self).ins_vec_stack@ == stk
                    &&& final(self).size == old(self).size
                } else {
                    &&& r == Some(stk.last().vec@.last())
                    &&& final(self).ins_vec_stack@.len() == stk.len()
                    &&& final(self).ins_vec_stack@.drop_last() == stk.drop_last()
                    &&& final(self).ins_vec_stack@.last().vec@ == stk.last().vec@.drop_last()
                    &&& final(self).ins_vec_stack@.last().size + stk.last().vec@.last().charge()
                        == stk.last().size
                    &&& final(self).size + stk.last().vec@.last().charge() == old(self).size
                }
            }),
            match r {
                Some(e) => e.wf(),
                None => true,
            },
    {
        let n = self.ins_vec_stack.len();
        if n == 0 {
            return None;
        }
        proof {
            lemma_seq_charge_index_le(self.ins_vec_stack@, n - 1);
            assert(self.ins_vec_stack@[n - 1].wf());
        }
        let mut tv = self.ins_vec_stack.pop().unwrap();
        let r = tv.pop();
        match r {
            None => {
                self.ins_vec_stack.push(tv);
                proof {
                    assert(final(self).ins_vec_stack@ =~= old(self).ins_vec_stack@);
                }
                None
            },
            Some(e) => {
                self.size = self.size - e.total_memory();
                self.ins_vec_stack.push(tv);
                proof {
                    lemma_seq_charge_push(old(self).ins_vec_stack@.drop_last(), tv);
                    lemma_seq_wf_push(old(self).ins_vec_stack@.drop_last(), tv);
                    assert(seq_charge(old(self).ins_vec_stack@) == seq_charge(old(self).ins_vec_stack@.drop_last())
                        + old(self).ins_vec_stack@.last().charge());
                }
                Some(e)
            },
        }
    }

    /// Read element `ix` of the vector on top of the ins-vector stack and
    /// return a copy of it; the state is untouched.
    pub fn get_ins_from_vec(&self, ix: usize) -> (r: Option<SimpleInstruction>)
        requires
            self.inv(),
        ensures
            ({
                let stk = self.ins_vec_stack@;
                if stk.len() > 0 && ix < stk.last().vec@.len() {
                    match r {
                        Some(e) => e@ == self.ins_vec_stack@.last().vec@[ix as int]@ && e.wf() && e.charge() == self.ins_vec_stack@.last().vec@[ix as int].charge(),
                        None => false,
                    }
                } else {
                    r is None
                }
            }),
    {
        let n = self.ins_vec_stack.len();
        if n == 0 {
            return None;
        }
        proof {
            assert(self.ins_vec_stack@[n - 1].wf());
        }
        let tv = &self.ins_vec_stack[n - 1];
        match tv.get(ix) {
            None => None,
            Some(e) => Some(e.dup()),
        }
    }

    /// Overwrite element `ix` of the vector on top of the ins-vector stack
    /// in place, charging the difference between the new and the displaced
    /// element and checking the budget before committing. With no such
    /// element the operation is a silent success.
    pub fn write_ins_to_vec(&mut self, ix: usize, v: SimpleInstruction) -> (r: Result<(), SizeError>)
        requires
            old(self).inv(),
            v.wf(),
        ensures
            final(self).inv(),
            final(self).max_size == old(self).max_size,
            final(self).exe_stack == old(self).exe_stack,
            final(self).ins_stack == old(self).ins_stack,
            final(self).int_stack == old(self).int_stack,
            final(self).float_stack == old(self).float_stack,
            final(self).bool_stack == old(self).bool_stack,
            final(self).int_vec_stack == old(self).int_vec_stack,
            final(self).float_vec_stack == old(self).float_vec_stack,
            ({
                let stk = old(self).ins_vec_stack@;
                if stk.len() == 0 {
                    r is Ok && *final(self) == *old(self)
                } else if ix >= stk.last().vec@.len() {
                    &&& r is Ok
                    &&& final(self).ins_vec_stack@ == stk
                    &&& final(self).size == old(self).size
                } else {
                    let oldc = stk.last().vec@[ix as int].charge();
                    let newc = v.charge();
                    if old(self).size + newc > old(self).max_size + oldc {
                        &&& r == Err::<(), SizeError>(SizeError::Full)
                        &&& final(self).ins_vec_stack@ == stk
                        &&& final(self).size == old(self).size
                    } else {
                        &&& r is Ok
                        &&& final(self).ins_vec_stack@.len() == stk.len()
                        &&& final(self).ins_vec_stack@.drop_last() == stk.drop_last()
                        &&& final(self).ins_vec_stack@.last().vec@ == stk.last().vec@.update(ix as int, v)
                        &&& final(self).ins_vec_stack@.last().size + oldc == stk.last().size + newc
                        &&& final(self).size + oldc == old(self).size + newc
                    }
                }
            }),
    {
        let n = self.ins_vec_stack.len();
        if n == 0 {
            return Ok(());
        }
        proof {
            lemma_seq_charge_index_le(self.ins_vec_stack@, n - 1);
            assert(self.ins_vec_stack@[n - 1].wf());
        }
        let mut tv = self.ins_vec_stack.pop().unwrap();
        if ix >= tv.vec.len() {
            self.ins_vec_stack.push(tv);
            proof {
                assert(final(self).ins_vec_stack@ =~= old(self).ins_vec_stack@);
            }
            return Ok(());
        }
        proof {
            lemma_seq_charge_index_le(tv.vec@, ix as int);
            assert(tv.vec@[ix as int].wf());
        }
        let oldm = tv.vec[ix].total_memory();
        let newm = v.total_memory();
        if newm > oldm && newm - oldm > self.max_size - self.size {
            self.ins_vec_stack.push(tv);
            proof {
                assert(final(self).ins_vec_stack@ =~= old(self).ins_vec_stack@);
            }
            return Err(SizeError::Full);
        }
        let _displaced = tv.set(ix, v);
        self.size = self.size - oldm + newm;
        self.ins_vec_stack.push(tv);
        proof {
            lemma_seq_charge_push(old(self).ins_vec_stack@.drop_last(), tv);
            lemma_seq_wf_push(old(self).ins_vec_stack@.drop_last(), tv);
            assert(seq_charge(old(self).ins_vec_stack@) == seq_charge(old(self).ins_vec_stack@.drop_last())
                + old(self).ins_vec_stack@.last().charge());
        }
        Ok(())
    }

    /// Append a value to the vector on top of the int-vector stack, gated
    /// by the budget. With no vector on that stack the operation is a
    /// silent success, mirroring the machine's tolerant failure model.
    pub fn push_int_to_vec(&mut self, v: i64) -> (r: Result<(), SizeError>)
        requires
            old(self).inv(),
            v.wf(),
        ensures
            final(self).inv(),
            final(self).max_size == old(self).max_size,
            final(self).exe_stack == old(self).exe_stack,
            final(self).ins_stack == old(self).ins_stack,
            final(self).int_stack == old(self).int_stack,
            final(self).float_stack == old(self).float_stack,
            final(self).bool_stack == old(self).bool_stack,
            final(self).ins_vec_stack == old(self).ins_vec_stack,
            final(self).float_vec_stack == old(self).float_vec_stack,
            ({
                let fits = old(self).size + v.charge() <= old(self).max_size;
                let stk = old(self).int_vec_stack@;
                &&& (!fits ==> r == Err::<(), SizeError>(SizeError::Full) && *final(self) == *old(
                    self,
                ))
                &&& (fits ==> r is Ok)
                &&& (fits && stk.len() == 0 ==> *final(self) == *old(self))
                &&& (fits && stk.len() > 0 ==> {
                    &&& final(self).int_vec_stack@.len() == stk.len()
                    &&& final(self).int_vec_stack@.drop_last() == stk.drop_last()
                    &&& final(self).int_vec_stack@.last().vec@ == stk.last().vec@.push(v)
                    &&& final(self).int_vec_stack@.last().size == stk.last().size + v.charge()
                    &&& final(self).size == old(self).size + v.charge()
                })
            }),
    {
        let sz = v.total_memory();
        if sz > self.max_size - self.size {
            return Err(SizeError::Full);
        }
        let n = self.int_vec_stack.len();
        if n == 0 {
            return Ok(());
        }
        proof {
            lemma_seq_charge_index_le(self.int_vec_stack@, n - 1);
            assert(self.int_vec_stack@[n - 1].wf());
        }
        let mut tv = self.int_vec_stack.pop().unwrap();
        tv.push(v);
        self.int_vec_stack.push(tv);
        self.size = self.size + sz;
        proof {
            lemma_seq_charge_push(old(self).int_vec_stack@.drop_last(), tv);
            lemma_seq_wf_push(old(self).int_vec_stack@.drop_last(), tv);
            assert(seq_charge(old(self).int_vec_stack@) == seq_charge(old(self).int_vec_stack@.drop_last())
                + old(self).int_vec_stack@.last().charge());
        }
        Ok(())
    }

    /// Pop the last element of the vector on top of the int-vector stack
    /// and return it, releasing its charge; `None` when there is no vector
    /// or it is empty.
    pub fn pop_int_from_vec(&mut self) -> (r: Option<i64>)
        requires
            old(self).inv(),
        ensures
            final(self).inv(),
            final(self).max_size == old(self).max_size,
            final(self).exe_stack == old(self).exe_stack,
            final(self).ins_stack == old(self).ins_stack,
            final(self).int_stack == old(self).int_stack,
            final(self).float_stack == old(self).float_stack,
            final(self).bool_stack == old(self).bool_stack,
            final(self).ins_vec_stack == old(self).ins_vec_stack,
            final(self).float_vec_stack == old(self).float_vec_stack,
            ({
                let stk = old(self).int_vec_stack@;
                if stk.len() == 0 {
                    r is None && *final(self) == *old(self)
                } else if stk.last().vec@.len() == 0 {
                    &&& r is None
                    &&& final(self).int_vec_stack@ == stk
                    &&& final(self).size == old(self).size
                } else {
                    &&& r == Some(stk.last().vec@.last())
                    &&& final(self).int_vec_stack@.len() == stk.len()
                    &&& final(self).int_vec_stack@.drop_last() == stk.drop_last()
                    &&& final(self).int_vec_stack@.last().vec@ == stk.last().vec@.drop_last()
                    &&& final(self).int_vec_stack@.last().size + stk.last().vec@.last().charge()
                        == stk.last().size
                    &&& final(self).size + stk.last().vec@.last().charge() == old(self).size
                }
            }),
            match r {
                Some(e) => e.wf(),
                None => true,
            },
    {
        let n = self.int_vec_stack.len();
        if n == 0 {
            return None;
        }
        proof {
            lemma_seq_charge_index_le(self.int_vec_stack@, n - 1);
            assert(self.int_vec_stack@[n - 1].wf());
        }
        let mut tv = self.int_vec_stack.pop().unwrap();
        let r = tv.pop();
        match r {
            None => {
                self.int_vec_stack.push(tv);
                proof {
                    assert(final(self).int_vec_stack@ =~= old(self).int_vec_stack@);
                }
                None
            },
            Some(e) => {
                self.size = self.size - e.total_memory();
                self.int_vec_stack.push(tv);
                proof {
                    lemma_seq_charge_push(old(self).int_vec_stack@.drop_last(), tv);
                    lemma_seq_wf_push(old(self).int_vec_stack@.drop_last(), tv);
                    assert(seq_charge(old(self).int_vec_stack@) == seq_charge(old(self).int_vec_stack@.drop_last())
                        + old(self).int_vec_stack@.last().charge());
                }
                Some(e)
            },
        }
    }

    /// Read element `ix` of the vector on top of the int-vector stack and
    /// return a copy of it; the state is untouched.
    pub fn get_int_from_vec(&self, ix: usize) -> (r: Option<i64>)
        requires
            self.inv(),
        ensures
            ({
                let stk = self.int_vec_stack@;
                if stk.len() > 0 && ix < stk.last().vec@.len() {
                    match r {
                        Some(e) => e == self.int_vec_stack@.last().vec@[ix as int],
                        None => false,
                    }
                } else {
                    r is None
                }
            }),
    {
        let n = self.int_vec_stack.len();
        if n == 0 {
            return None;
        }
        proof {
            assert(self.int_vec_stack@[n - 1].wf());
        }
        let tv = &self.int_vec_stack[n - 1];
        match tv.get(ix) {
            None => None,
            Some(e) => Some(*e),
        }
    }

    /// Overwrite element `ix` of the vector on top of the int-vector stack
    /// in place, charging the difference between the new and the displaced
    /// element and checking the budget before committing. With no such
    /// element the operation is a silent success.
    pub fn write_int_to_vec(&mut self, ix: usize, v: i64) -> (r: Result<(), SizeError>)
        requires
            old(self).inv(),
            v.wf(),
        ensures
            final(self).inv(),
            final(self).max_size == old(self).max_size,
            final(self).exe_stack == old(self).exe_stack,
            final(self).ins_stack == old(self).ins_stack,
            final(self).int_stack == old(self).int_stack,
            final(self).float_stack == old(self).float_stack,
            final(self).bool_stack == old(self).bool_stack,
            final(self).ins_vec_stack == old(self).ins_vec_stack,
            final(self).float_vec_stack == old(self).float_vec_stack,
            ({
                let stk = old(self).int_vec_stack@;
                if stk.len() == 0 {
                    r is Ok && *final(self) == *old(self)
                } else if ix >= stk.last().vec@.len() {
                    &&& r is Ok
                    &&& final(self).int_vec_stack@ == stk
                    &&& final(self).size == old(self).size
                } else {
                    let oldc = stk.last().vec@[ix as int].charge();
                    let newc = v.charge();
                    if old(self).size + newc > old(self).max_size + oldc {
                        &&& r == Err::<(), SizeError>(SizeError::Full)
                        &&& final(self).int_vec_stack@ == stk
                        &&& final(self).size == old(self).size
                    } else {
                        &&& r is Ok
                        &&& final(self).int_vec_stack@.len() == stk.len()
                        &&& final(self).int_vec_stack@.drop_last() == stk.drop_last()
                        &&& final(self).int_vec_stack@.last().vec@ == stk.last().vec@.update(ix as int, v)
                        &&& final(self).int_vec_stack@.last().size + oldc == stk.last().size + newc
                        &&& final(self).size + oldc == old(self).size + newc
                    }
                }
            }),
    {
        let n = self.int_vec_stack.len();
        if n == 0 {
            return Ok(());
        }
        proof {
            lemma_seq_charge_index_le(self.int_vec_stack@, n - 1);
            assert(self.int_vec_stack@[n - 1].wf());
        }
        let mut tv = self.int_vec_stack.pop().unwrap();
        if ix >= tv.vec.len() {
            self.int_vec_stack.push(tv);
            proof {
                assert(final(self).int_vec_stack@ =~= old(self).int_vec_stack@);
            }
            return Ok(());
        }
        proof {
            lemma_seq_charge_index_le(tv.vec@, ix as int);
            assert(tv.vec@[ix as int].wf());
        }
        let oldm = tv.vec[ix].total_memory();
        let newm = v.total_memory();
        if newm > oldm && newm - oldm > self.max_size - self.size {
            self.int_vec_stack.push(tv);
            proof {
                assert(final(self).int_vec_stack@ =~= old(self).int_vec_stack@);
            }
            return Err(SizeError::Full);
        }
        let _displaced = tv.set(ix, v);
        self.size = self.size - oldm + newm;
        self.int_vec_stack.push(tv);
        proof {
            lemma_seq_charge_push(old(self).int_vec_stack@.drop_last(), tv);
            lemma_seq_wf_push(old(self).int_vec_stack@.drop_last(), tv);
            assert(seq_charge(old(self).int_vec_stack@) == seq_charge(old(self).int_vec_stack@.drop_last())
                + old(self).int_vec_stack@.last().charge());
        }
        Ok(())
    }

    /// Append a value to the vector on top of the float-vector stack, gated
    /// by the budget. With no vector on that stack the operation is a
    /// silent success, mirroring the machine's tolerant failure model.
    pub fn push_float_to_vec(&mut self, v: FloatBits) -> (r: Result<(), SizeError>)
        requires
            old(self).inv(),
            v.wf(),
        ensures
            final(self).inv(),
            final(self).max_size == old(self).max_size,
            final(self).exe_stack == old(self).exe_stack,
            final(self).ins_stack == old(self).ins_stack,
            final(self).int_stack == old(self).int_stack,
            final(self).float_stack == old(self).float_stack,
            final(self).bool_stack == old(self).bool_stack,
            final(self).ins_vec_stack == old(self).ins_vec_stack,
            final(self).int_vec_stack == old(self).int_vec_stack,
            ({
                let fits = old(self).size + v.charge() <= old(self).max_size;
                let stk = old(self).float_vec_stack@;
                &&& (!fits ==> r == Err::<(), SizeError>(SizeError::Full) && *final(self) == *old(
                    self,
                ))
                &&& (fits ==> r is Ok)
                &&& (fits && stk.len() == 0 ==> *final(self) == *old(self))
                &&& (fits && stk.len() > 0 ==> {
                    &&& final(self).float_vec_stack@.len() == stk.len()
                    &&& final(self).float_vec_stack@.drop_last() == stk.drop_last()
                    &&& final(self).float_vec_stack@.last().vec@ == stk.last().vec@.push(v)
                    &&& final(self).float_vec_stack@.last().size == stk.last().size + v.charge()
                    &&& final(self).size == old(self).size + v.charge()
                })
            }),
    {
        let sz = v.total_memory();
        if sz > self.max_size - self.size {
            return Err(SizeError::Full);
        }
        let n = self.float_vec_stack.len();
        if n == 0 {
            return Ok(());
        }
        proof {
            lemma_seq_charge_index_le(self.float_vec_stack@, n - 1);
            assert(self.float_vec_stack@[n - 1].wf());
        }
        let mut tv = self.float_vec_stack.pop().unwrap();
        tv.push(v);
        self.float_vec_stack.push(tv);
        self.size = self.size + sz;
        proof {
            lemma_seq_charge_push(old(self).float_vec_stack@.drop_last(), tv);
            lemma_seq_wf_push(old(self).float_vec_stack@.drop_last(), tv);
            assert(seq_charge(old(self).float_vec_stack@) == seq_charge(old(self).float_vec_stack@.drop_last())
                + old(self).float_vec_stack@.last().charge());
        }
        Ok(())
    }

    /// Pop the last element of the vector on top of the float-vector stack
    /// and return it, releasing its charge; `None` when there is no vector
    /// or it is empty.
    pub fn pop_float_from_vec(&mut self) -> (r: Option<FloatBits>)
        requires
            old(self).inv(),
        ensures
            final(self).inv(),
            final(self).max_size == old(self).max_size,
            final(self).exe_stack == old(self).exe_stack,
            final(self).ins_stack == old(self).ins_stack,
            final(self).int_stack == old(self).int_stack,
            final(self).float_stack == old(self).float_stack,
            final(self).bool_stack == old(self).bool_stack,
            final(self).ins_vec_stack == old(self).ins_vec_stack,
            final(self).int_vec_stack == old(self).int_vec_stack,
            ({
                let stk = old(self).float_vec_stack@;
                if stk.len() == 0 {
                    r is None && *final(self) == *old(self)
                } else if stk.last().vec@.len() == 0 {
                    &&& r is None
                    &&& final(self).float_vec_stack@ == stk
                    &&& final(self).size == old(self).size
                } else {
                    &&& r == Some(stk.last().vec@.last())
                    &&& final(self).float_vec_stack@.len() == stk.len()
                    &&& final(self).float_vec_stack@.drop_last() == stk.drop_last()
                    &&& final(self).float_vec_stack@.last().vec@ == stk.last().vec@.drop_last()
                    &&& final(self).float_vec_stack@.last().size + stk.last().vec@.last().charge()
                        == stk.last().size
                    &&& final(self).size + stk.last().vec@.last().charge() == old(self).size
                }
            }),
            match r {
                Some(e) => e.wf(),
                None => true,
            },
    {
        let n = self.float_vec_stack.len();
        if n == 0 {
            return None;
        }
        proof {
            lemma_seq_charge_index_le(self.float_vec_stack@, n - 1);
            assert(self.float_vec_stack@[n - 1].wf());
        }
        let mut tv = self.float_vec_stack.pop().unwrap();
        let r = tv.pop();
        match r {
            None => {
                self.float_vec_stack.push(tv);
                proof {
                    assert(final(self).float_vec_stack@ =~= old(self).float_vec_stack@);
                }
                None
            },
            Some(e) => {
                self.size = self.size - e.total_memory();
                self.float_vec_stack.push(tv);
                proof {
                    lemma_seq_charge_push(old(self).float_vec_stack@.drop_last(), tv);
                    lemma_seq_wf_push(old(self).float_vec_stack@.drop_last(), tv);
                    assert(seq_charge(old(self).float_vec_stack@) == seq_charge(old(self).float_vec_stack@.drop_last())
                        + old(self).float_vec_stack@.last().charge());
                }
                Some(e)
            },
        }
    }

    /// Read element `ix` of the vector on top of the float-vector stack and
    /// return a copy of it; the state is untouched.
    pub fn get_float_from_vec(&self, ix: usize) -> (r: Option<FloatBits>)
        requires
            self.inv(),
        ensures
            ({
                let stk = self.float_vec_stack@;
                if stk.len() > 0 && ix < stk.last().vec@.len() {
                    match r {
                        Some(e) => e == self.float_vec_stack@.last().vec@[ix as int],
                        None => false,
                    }
                } else {
                    r is None
                }
            }),
    {
        let n = self.float_vec_stack.len();
        if n == 0 {
            return None;
        }
        proof {
            assert(self.float_vec_stack@[n - 1].wf());
        }
        let tv = &self.float_vec_stack[n - 1];
        match tv.get(ix) {
            None => None,
            Some(e) => Some(*e),
        }
    }

    /// Overwrite element `ix` of the vector on top of the float-vector stack
    /// in place, charging the difference between the new and the displaced
    /// element and checking the budget before committing. With no such
    /// element the operation is a silent success.
    pub fn write_float_to_vec(&mut self, ix: usize, v: FloatBits) -> (r: Result<(), SizeError>)
        requires
            old(self).inv(),
            v.wf(),
        ensures
            final(self).inv(),
            final(self).max_size == old(self).max_size,
            final(self).exe_stack == old(self).exe_stack,
            final(self).ins_stack == old(self).ins_stack,
            final(self).int_stack == old(self).int_stack,
            final(self).float_stack == old(self).float_stack,
            final(self).bool_stack == old(self).bool_stack,
            final(self).ins_vec_stack == old(self).ins_vec_stack,
            final(self).int_vec_stack == old(self).int_vec_stack,
            ({
                let stk = old(self).float_vec_stack@;
                if stk.len() == 0 {
                    r is Ok && *final(self) == *old(self)
                } else if ix >= stk.last().vec@.len() {
                    &&& r is Ok
                    &&& final(self).float_vec_stack@ == stk
                    &&& final(self).size == old(self).size
                } else {
                    let oldc = stk.last().vec@[ix as int].charge();
                    let newc = v.charge();
                    if old(self).size + newc > old(self).max_size + oldc {
                        &&& r == Err::<(), SizeError>(SizeError::Full)
                        &&& final(self).float_vec_stack@ == stk
                        &&& final(self).size == old(self).size
                    } else {
                        &&& r is Ok
                        &&& final(self).float_vec_stack@.len() == stk.len()
                        &&& final(self).float_vec_stack@.drop_last() == stk.drop_last()
                        &&& final(self).float_vec_stack@.last().vec@ == stk.last().vec@.update(ix as int, v)
                        &&& final(self).float_vec_stack@.last().size + oldc == stk.last().size + newc
                        &&& final(self).size + oldc == old(self).size + newc
                    }
                }
            }),
    {
        let n = self.float_vec_stack.len();
        if n == 0 {
            return Ok(());
        }
        proof {
            lemma_seq_charge_index_le(self.float_vec_stack@, n - 1);
            assert(self.float_vec_stack@[n - 1].wf());
        }
        let mut tv = self.float_vec_stack.pop().unwrap();
        if ix >= tv.vec.len() {
            self.float_vec_stack.push(tv);
            proof {
                assert(final(self).float_vec_stack@ =~= old(self).float_vec_stack@);
            }
            return Ok(());
        }
        proof {
            lemma_seq_charge_index_le(tv.vec@, ix as int);
            assert(tv.vec@[ix as int].wf());
        }
        let oldm = tv.vec[ix].total_memory();
        let newm = v.total_memory();
        if newm > oldm && newm - oldm > self.max_size - self.size {
            self.float_vec_stack.push(tv);
            proof {
                assert(final(self).float_vec_stack@ =~= old(self).float_vec_stack@);
            }
            return Err(SizeError::Full);
        }
        let _displaced = tv.set(ix, v);
        self.size = self.size - oldm + newm;
        self.float_vec_stack.push(tv);
        proof {
            lemma_seq_charge_push(old(self).float_vec_stack@.drop_last(), tv);
            lemma_seq_wf_push(old(self).float_vec_stack@.drop_last(), tv);
            assert(seq_charge(old(self).float_vec_stack@) == seq_charge(old(self).float_vec_stack@.drop_last())
                + old(self).float_vec_stack@.last().charge());
        }
        Ok(())
    }
}

/// Pushing a value that fits and then popping restores the stack and the
/// live size exactly, and hands back the pushed value.
pub proof fn lemma_push_then_pop<T: TotalMemory>(stack: Seq<T>, size: nat, max: nat, e: T)
    requires
        size + e.charge() <= max,
    ensures
        ({
            let (s2, sz2, ok) = spec_push(stack, size, max, e);
            &&& ok
            &&& spec_pop(s2, sz2) == (stack, size, Some(e))
        }),
{
    let (s2, sz2, ok) = spec_push(stack, size, max, e);
    assert(s2.drop_last() =~= stack);
    assert(s2.last() == e);
}

/// Rotating at depth zero succeeds and leaves a nonempty stack unchanged.
pub proof fn lemma_rot_zero<T>(stack: Seq<T>)
    requires
        stack.len() > 0,
    ensures
        spec_rot(stack, 0) == (stack, true),
{
    let i = stack.len() - 1;
    assert(stack.remove(i as int).push(stack[i as int]) =~= stack);
}

/// Rotating at the deepest valid position moves the bottom element to the
/// top and shifts everything else down by one.
pub proof fn lemma_rot_bottom_to_top<T>(stack: Seq<T>)
    requires
        stack.len() > 0,
    ensures
        spec_rot(stack, (stack.len() - 1) as nat) == (
            stack.subrange(1, stack.len() as int).push(stack[0]),
            true,
        ),
{
    assert(stack.remove(0) =~= stack.subrange(1, stack.len() as int));
}

/// Rotating at a depth at or past the bottom fails and is inert.
pub proof fn lemma_rot_past_bottom<T>(stack: Seq<T>, pos: nat)
    requires
        pos >= stack.len(),
    ensures
        spec_rot(stack, pos) == (stack, false),
{
}

/// Every held value is charged at least one byte, so a state within its
/// invariant holds no more elements than its live size, which in turn
/// never exceeds the budget. A run of any instruction stream can therefore
/// keep at most `max_size` values alive at once, however many pushes it
/// attempts.
pub proof fn lemma_depth_bounded_by_budget(s: State)
    requires
        s.inv(),
    ensures
        s.total_len() <= s.size,
        s.size <= s.max_size,
{
    assert forall|i: int| 0 <= i < s.exe_stack@.len() implies (
    #[trigger] s.exe_stack@[i]).charge() >= 1 by {}
    assert forall|i: int| 0 <= i < s.ins_stack@.len() implies (
    #[trigger] s.ins_stack@[i]).charge() >= 1 by {}
    assert forall|i: int| 0 <= i < s.ins_vec_stack@.len() implies (
    #[trigger] s.ins_vec_stack@[i]).charge() >= 1 by {}
    assert forall|i: int| 0 <= i < s.int_vec_stack@.len() implies (
    #[trigger] s.int_vec_stack@[i]).charge() >= 1 by {}
    assert forall|i: int| 0 <= i < s.float_vec_stack@.len() implies (
    #[trigger] s.float_vec_stack@[i]).charge() >= 1 by {}
    lemma_seq_len_le_charge(s.exe_stack@);
    lemma_seq_len_le_charge(s.ins_stack@);
    lemma_seq_len_le_charge(s.int_stack@);
    lemma_seq_len_le_charge(s.float_stack@);
    lemma_seq_len_le_charge(s.bool_stack@);
    lemma_seq_len_le_charge(s.ins_vec_stack@);
    lemma_seq_len_le_charge(s.int_vec_stack@);
    lemma_seq_len_le_charge(s.float_vec_stack@);
}

/// Cloning the element at depth `pos` and pushing the clone through the
/// budgeted push, then popping it again, is observationally the reading
/// of the element in place: the pop hands back exactly the element at
/// that depth, and the stack and the live size return to their pre-copy
/// values. Budget is spent only between the push and the pop.
pub proof fn lemma_copy_then_pop<T: TotalMemory>(stack: Seq<T>, size: nat, max: nat, pos: int)
    requires
        0 <= pos < stack.len(),
        size + stack[stack.len() - 1 - pos].charge() <= max,
    ensures
        ({
            let elem = stack[stack.len() - 1 - pos];
            let (s2, sz2, ok) = spec_push(stack, size, max, elem);
            &&& ok
            &&& spec_pop(s2, sz2) == (stack, size, Some(elem))
        }),
{
    lemma_push_then_pop(stack, size, max, stack[stack.len() - 1 - pos]);
}

/// No held element is charged more than the whole budget: a value whose
/// charge alone exceeded `max_size` could never have been pushed.
pub proof fn lemma_no_oversized_element(s: State)
    requires
        s.inv(),
    ensures
        forall|i: int|
            0 <= i < s.exe_stack@.len() ==> (#[trigger] s.exe_stack@[i]).charge() <= s.max_size,
        forall|i: int|
            0 <= i < s.ins_stack@.len() ==> (#[trigger] s.ins_stack@[i]).charge() <= s.max_size,
        forall|i: int|
            0 <= i < s.ins_vec_stack@.len() ==> (#[trigger] s.ins_vec_stack@[i]).charge()
                <= s.max_size,
        forall|i: int|
            0 <= i < s.int_vec_stack@.len() ==> (#[trigger] s.int_vec_stack@[i]).charge()
                <= s.max_size,
        forall|i: int|
            0 <= i < s.float_vec_stack@.len() ==> (#[trigger] s.float_vec_stack@[i]).charge()
                <= s.max_size,
{
    assert forall|i: int|
        0 <= i < s.exe_stack@.len() implies (#[trigger] s.exe_stack@[i]).charge()
        <= s.max_size by {
        lemma_seq_charge_index_le(s.exe_stack@, i);
    }
    assert forall|i: int|
        0 <= i < s.ins_stack@.len() implies (#[trigger] s.ins_stack@[i]).charge()
        <= s.max_size by {
        lemma_seq_charge_index_le(s.ins_stack@, i);
    }
    assert forall|i: int|
        0 <= i < s.ins_vec_stack@.len() implies (#[trigger] s.ins_vec_stack@[i]).charge()
        <= s.max_size by {
        lemma_seq_charge_index_le(s.ins_vec_stack@, i);
    }
    assert forall|i: int|
        0 <= i < s.int_vec_stack@.len() implies (#[trigger] s.int_vec_stack@[i]).charge()
        <= s.max_size by {
        lemma_seq_charge_index_le(s.int_vec_stack@, i);
    }
    assert forall|i: int|
        0 <= i < s.float_vec_stack@.len() implies (#[trigger] s.float_vec_stack@[i]).charge()
        <= s.max_size by {
        lemma_seq_charge_index_le(s.float_vec_stack@, i);
    }
}

} // verus!
