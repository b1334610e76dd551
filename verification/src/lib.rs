//! Gapush: a memory-bounded stack virtual machine for evolutionary search.
//!
//! The machine executes arbitrary — including adversarial — programs without
//! ever exceeding a caller-specified byte budget: every push is gated by an
//! exact live-byte accountant, any operation that would go over the budget
//! fails in place, and the machine stays consistent and ready for the next
//! cycle.

pub mod arith;
pub mod float;
pub mod handlers;
pub mod mem;
pub mod ops;
pub mod simple;
pub mod state;
pub mod vec;

use vstd::prelude::*;

use crate::float::FloatSupport;
use crate::mem::TotalMemory;
use crate::simple::simple_instruction::SimpleInstruction;
use crate::state::{spec_push, State};

verus! {

/// Produces an instruction on demand when the machine's execution stack is
/// empty at the start of a cycle. The value must be well-formed so the
/// accountant can measure it.
pub trait InsHandler {
    fn next_ins(&mut self) -> (r: SimpleInstruction)
        ensures
            r.wf(),
    ;
}

/// Produces an integer on demand when an instruction pops an empty integer
/// stack or a checked arithmetic operation fails.
pub trait IntHandler {
    fn next_int(&mut self) -> i64;
}

/// A Gapush `Machine` is a state machine which tracks the memory
/// consumption of an arbitrary program and executes it without going over
/// a specified limit amount of memory.
pub struct Machine<IH, NH, FH> {
    /// The internal state which instructions operate on.
    pub state: State,
    /// Called to produce an instruction when one wasn't available.
    pub ins_handler: IH,
    /// Called to produce an integer when one wasn't available.
    pub int_handler: NH,
    /// Called to produce a float when one wasn't available, and to perform
    /// float arithmetic on the opaque float payloads.
    pub float_handler: FH,
}


/// What one cycle does: if the execution stack held an instruction, that
/// instruction was popped and executed — the intermediate state `mid` is
/// the pre-state with the top of the execution stack released; if it was
/// empty, some well-formed instruction from the provider was executed on
/// the pre-state directly. The per-instruction semantics is
/// [`crate::ops::op_rel`].
pub open spec fn cycle_rel(
    pre: State,
    post: State,
    provided: Option<SimpleInstruction>,
    ok: bool,
) -> bool {
    &&& post.max_size == pre.max_size
    &&& (pre.exe_stack@.len() > 0 ==> exists|mid: State|
        {
            &&& mid.exe_stack@ == pre.exe_stack@.drop_last()
            &&& mid.size + pre.exe_stack@.last().charge() == pre.size
            &&& mid.max_size == pre.max_size
            &&& mid.ins_stack@ == pre.ins_stack@
            &&& mid.int_stack@ == pre.int_stack@
            &&& mid.float_stack@ == pre.float_stack@
            &&& mid.bool_stack@ == pre.bool_stack@
            &&& mid.ins_vec_stack@ == pre.ins_vec_stack@
            &&& mid.int_vec_stack@ == pre.int_vec_stack@
            &&& mid.float_vec_stack@ == pre.float_vec_stack@
            &&& #[trigger] crate::ops::op_rel(mid, pre.exe_stack@.last(), post, provided, ok)
        })
    &&& (pre.exe_stack@.len() == 0 ==> exists|i: SimpleInstruction|
        {
            &&& i.wf()
            &&& #[trigger] crate::ops::op_rel(pre, i, post, provided, ok)
        })
}

/// One cycle ran between the two states and emitted `provided`, whatever
/// its success flag was.
pub open spec fn cycle_step(pre: State, post: State, provided: Option<SimpleInstruction>) -> bool {
    exists|ok: bool| #[trigger] cycle_rel(pre, post, provided, ok)
}

impl<IH: InsHandler, NH: IntHandler, FH: FloatSupport> Machine<IH, NH, FH> {
    /// The machine is consistent exactly when its state is: the live size
    /// is the exact sum of the held elements' charges and stays within the
    /// budget.
    pub open spec fn inv(self) -> bool {
        self.state.inv()
    }

    pub fn new(max_size: usize, ins_handler: IH, int_handler: NH, float_handler: FH) -> (r:
        Machine<IH, NH, FH>)
        ensures
            r.inv(),
            r.state.max_size == max_size,
            r.state.size == 0,
            r.state.exe_stack@.len() == 0,
            r.state.ins_stack@.len() == 0,
            r.state.int_stack@.len() == 0,
            r.state.float_stack@.len() == 0,
            r.state.bool_stack@.len() == 0,
            r.state.ins_vec_stack@.len() == 0,
            r.state.int_vec_stack@.len() == 0,
            r.state.float_vec_stack@.len() == 0,
            r.ins_handler == ins_handler,
            r.int_handler == int_handler,
            r.float_handler == float_handler,
    {
        Machine { state: State::new(max_size), ins_handler, int_handler, float_handler }
    }

    /// Provide an instruction directly onto the execution stack, subject
    /// to the budget; returns whether it was accepted.
    pub fn provide(&mut self, ins: SimpleInstruction) -> (r: bool)
        requires
            old(self).inv(),
            ins.wf(),
        ensures
            final(self).inv(),
            final(self).state.max_size == old(self).state.max_size,
            ({
                let (s2, sz2, ok) = spec_push(
                    old(self).state.exe_stack@,
                    old(self).state.size as nat,
                    old(self).state.max_size as nat,
                    ins,
                );
                &&& r == ok
                &&& final(self).state.exe_stack@ == s2
                &&& final(self).state.size == sz2
            }),
            !r ==> final(self).state == old(self).state,
            final(self).state.ins_stack == old(self).state.ins_stack,
            final(self).state.int_stack == old(self).state.int_stack,
            final(self).state.float_stack == old(self).state.float_stack,
            final(self).state.bool_stack == old(self).state.bool_stack,
            final(self).state.ins_vec_stack == old(self).state.ins_vec_stack,
            final(self).state.int_vec_stack == old(self).state.int_vec_stack,
            final(self).state.float_vec_stack == old(self).state.float_vec_stack,
    {
        self.state.push_exe(ins).is_ok()
    }

    /// Run one cycle of the machine: pop one instruction from the
    /// execution stack — or draw one from the instruction provider when it
    /// is empty — and execute it. One cycle is one instruction's bounded
    /// work; whatever the instruction and the providers did, the machine
    /// leaves the cycle within its accounting invariant and its budget,
    /// ready for the next cycle.
    pub fn cycle(&mut self) -> (r: (Option<SimpleInstruction>, bool))
        requires
            old(self).inv(),
        ensures
            final(self).inv(),
            final(self).state.max_size == old(self).state.max_size,
            cycle_rel(old(self).state, final(self).state, r.0, r.1),
            (match r.0 {
                Some(i) => i.wf(),
                None => true,
            }),
    {
        let i = match self.state.pop_exe() {
            Some(i) => i,
            None => self.ins_handler.next_ins(),
        };
        let ghost mid = self.state;
        let r = i.operate(self);
        r
    }

    /// Cycle up to `count` times, stopping early at the first cycle that
    /// emits a provided instruction; returns that instruction, if any, and
    /// the number of cycles actually performed. The performed cycles form
    /// a chain of [`cycle_step`]s from the starting state to the final
    /// one, none of them emitting an instruction except possibly the last.
    pub fn cycle_until(&mut self, count: usize) -> (r: (Option<SimpleInstruction>, usize))
        requires
            old(self).inv(),
        ensures
            final(self).inv(),
            final(self).state.max_size == old(self).state.max_size,
            r.0 is Some ==> 1 <= r.1 && r.1 <= count,
            r.0 is None ==> r.1 == count,
            exists|trace: Seq<State>|
                #![auto]
                {
                    &&& trace.len() == r.1 + 1
                    &&& trace.first() == old(self).state
                    &&& trace.last() == final(self).state
                    &&& (forall|k: int|
                        0 <= k < r.1 - 1 ==> #[trigger] cycle_step(
                            trace[k],
                            trace[k + 1],
                            None::<SimpleInstruction>,
                        ))
                    &&& (r.1 > 0 ==> cycle_step(trace[r.1 - 1], trace[r.1 as int], r.0))
                },
            (match r.0 {
                Some(i) => i.wf(),
                None => true,
            }),
    {
        let mut i: usize = 0;
        let ghost mut trace: Seq<State> = seq![old(self).state];
        while i < count
            invariant
                self.inv(),
                self.state.max_size == old(self).state.max_size,
                i <= count,
                trace.len() == i + 1,
                trace.first() == old(self).state,
                trace.last() == self.state,
                forall|k: int|
                    0 <= k < i ==> #[trigger] cycle_step(
                        trace[k],
                        trace[k + 1],
                        None::<SimpleInstruction>,
                    ),
            decreases count - i,
        {
            let ghost pre = self.state;
            let (p, ok) = self.cycle();
            proof {
                trace = trace.push(self.state);
                assert(cycle_rel(pre, self.state, p, ok));
                assert(cycle_step(pre, self.state, p));
            }
            i = i + 1;
            if p.is_some() {
                return (p, i);
            }
            proof {
                assert(trace[i as int] == self.state);
            }
        }
        proof {
            if count > 0 {
                let k: int = count as int - 1;
                assert(cycle_step(trace[k], trace[k + 1], None::<SimpleInstruction>));
            }
            assert(trace.first() == old(self).state);
            assert(trace.last() == self.state);
        }
        (None, count)
    }

    /// Provide an instruction and, if it was accepted, cycle up to `count`
    /// times as [`Machine::cycle_until`]; a rejected instruction performs
    /// no cycle at all and leaves the machine bitwise unchanged.
    pub fn provide_and_cycle_until(&mut self, count: usize, ins: SimpleInstruction) -> (r: (
        Option<SimpleInstruction>,
        usize,
    ))
        requires
            old(self).inv(),
            ins.wf(),
        ensures
            final(self).inv(),
            final(self).state.max_size == old(self).state.max_size,
            old(self).state.size + ins.charge() > old(self).state.max_size ==> r == (
                None::<SimpleInstruction>,
                0usize,
            ) && final(self).state == old(self).state,
            r.0 is Some ==> 1 <= r.1 && r.1 <= count,
            old(self).state.size + ins.charge() <= old(self).state.max_size ==> exists|
                start: State,
                trace: Seq<State>,
            |
                #![trigger trace.len(), start.size]
                {
                    &&& start.exe_stack@ == old(self).state.exe_stack@.push(ins)
                    &&& start.size == old(self).state.size + ins.charge()
                    &&& start.max_size == old(self).state.max_size
                    &&& start.ins_stack@ == old(self).state.ins_stack@
                    &&& start.int_stack@ == old(self).state.int_stack@
                    &&& start.float_stack@ == old(self).state.float_stack@
                    &&& start.bool_stack@ == old(self).state.bool_stack@
                    &&& start.ins_vec_stack@ == old(self).state.ins_vec_stack@
                    &&& start.int_vec_stack@ == old(self).state.int_vec_stack@
                    &&& start.float_vec_stack@ == old(self).state.float_vec_stack@
                    &&& trace.len() == r.1 + 1
                    &&& trace.first() == start
                    &&& trace.last() == final(self).state
                    &&& (forall|k: int|
                        0 <= k < r.1 - 1 ==> #[trigger] cycle_step(
                            trace[k],
                            trace[k + 1],
                            None::<SimpleInstruction>,
                        ))
                    &&& (r.1 > 0 ==> cycle_step(trace[r.1 - 1], trace[r.1 as int], r.0))
                    &&& (r.0 is None ==> r.1 == count)
                },
            (match r.0 {
                Some(i) => i.wf(),
                None => true,
            }),
    {
        if !self.provide(ins) {
            (None, 0)
        } else {
            let ghost start = self.state;
            let r = self.cycle_until(count);
            proof {
                let tr = choose|t: Seq<State>|
                    #![trigger t.len()]
                    {
                        &&& t.len() == r.1 + 1
                        &&& t.first() == start
                        &&& t.last() == self.state
                        &&& (forall|k: int|
                            0 <= k < r.1 - 1 ==> #[trigger] cycle_step(
                                t[k],
                                t[k + 1],
                                None::<SimpleInstruction>,
                            ))
                        &&& (r.1 > 0 ==> cycle_step(t[r.1 - 1], t[r.1 as int], r.0))
                    };
                assert(tr.first() == start);
            }
            r
        }
    }
}

} // verus!
