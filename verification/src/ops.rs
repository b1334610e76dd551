//! The operational semantics of the simple dialect: what one instruction
//! does to the machine state, stated relationally per opcode family and
//! proved of the dispatching `operate`.

use vstd::prelude::*;

use crate::arith::{
    checked_abs_i64, checked_neg_i64, checked_shl_i64, checked_shr_i64, exp_of, mask31, rotl_i64,
    rotr_i64, spec_checked_abs, spec_checked_neg, spec_checked_shl, spec_checked_shr, spec_exp_of,
    spec_mask31, spec_rotl, spec_rotr, spec_wrap_pow,
};
use crate::float::{FloatBits, FloatClass, FloatSupport};
use crate::mem::{lemma_seq_charge_index_le, lemma_seq_charge_split, seq_charge, TotalMemory, BOOL_BYTES, FLOAT_BYTES, INS_BYTES, INT_BYTES, VEC_HEADER_BYTES};
use crate::vec::{TrackedCycleIter, TrackedIter, TrackedVec};
use crate::simple::simple_instruction::{opcode_from_ordinal, ordinal_of, views_of, InsModel, PlainOp, SimpleInstruction, TOTAL_PLAIN_INSTRUCTIONS};
use crate::state::{spec_pop, spec_push, spec_rot, State};
use crate::{InsHandler, IntHandler, Machine};

verus! {

broadcast use vstd::seq::group_seq_axioms, crate::mem::lemma_push_then_drop_last;

/// Stacks not named may not change between `pre` and `post`; the budget
/// never changes.
pub open spec fn frame_except(
    pre: State,
    post: State,
    m_exe: bool,
    m_ins: bool,
    m_int: bool,
    m_float: bool,
    m_bool: bool,
    m_insv: bool,
    m_intv: bool,
    m_floatv: bool,
) -> bool {
    &&& post.max_size == pre.max_size
    &&& (!m_exe ==> post.exe_stack@ == pre.exe_stack@)
    &&& (!m_ins ==> post.ins_stack@ == pre.ins_stack@)
    &&& (!m_int ==> post.int_stack@ == pre.int_stack@)
    &&& (!m_float ==> post.float_stack@ == pre.float_stack@)
    &&& (!m_bool ==> post.bool_stack@ == pre.bool_stack@)
    &&& (!m_insv ==> post.ins_vec_stack@ == pre.ins_vec_stack@)
    &&& (!m_intv ==> post.int_vec_stack@ == pre.int_vec_stack@)
    &&& (!m_floatv ==> post.float_vec_stack@ == pre.float_vec_stack@)
}

/// A boolean pop with the empty-stack default: booleans substitute `false`
/// rather than calling a provider.
pub open spec fn popped_bool(stack: Seq<bool>) -> (Seq<bool>, bool) {
    if stack.len() == 0 {
        (stack, false)
    } else {
        (stack.drop_last(), stack.last())
    }
}

/// A wrapping integer binary opcode: the two operands leave the integer
/// stack (the fallback provider standing in for whatever is missing) and
/// the combined value is pushed. With both operands on the stack the
/// result is exactly `f(a, b)` where `b` was on top; with fewer, only the
/// shape and the accounting are determined, since the provider's values
/// are the embedder's.
pub open spec fn int_binop_rel(
    pre: State,
    post: State,
    ok: bool,
    f: spec_fn(i64, i64) -> i64,
) -> bool {
    let s = pre.int_stack@;
    &&& frame_except(pre, post, false, false, true, false, false, false, false, false)
    &&& if s.len() >= 2 {
        &&& ok
        &&& post.int_stack@ == s.drop_last().drop_last().push(f(s[s.len() - 2], s.last()))
        &&& post.size + INT_BYTES == pre.size
    } else if s.len() == 1 {
        &&& ok
        &&& post.int_stack@.len() == 1
        &&& post.size == pre.size
    } else {
        &&& ok == (pre.size + INT_BYTES <= pre.max_size)
        &&& (ok ==> post.int_stack@.len() == 1 && post.size == pre.size + INT_BYTES)
        &&& (!ok ==> post.int_stack@ == s && post.size == pre.size)
    }
}

/// A checked integer binary opcode: as [`int_binop_rel`], except that when
/// the check fails the integer fallback provider's value is pushed in
/// place of the result.
pub open spec fn int_checked_binop_rel(
    pre: State,
    post: State,
    ok: bool,
    f: spec_fn(i64, i64) -> Option<i64>,
) -> bool {
    let s = pre.int_stack@;
    &&& frame_except(pre, post, false, false, true, false, false, false, false, false)
    &&& if s.len() >= 2 {
        &&& ok
        &&& post.int_stack@.len() == s.len() - 1
        &&& post.int_stack@.drop_last() == s.drop_last().drop_last()
        &&& (f(s[s.len() - 2], s.last()) matches Some(v) ==> post.int_stack@.last() == v)
        &&& post.size + INT_BYTES == pre.size
    } else if s.len() == 1 {
        &&& ok
        &&& post.int_stack@.len() == 1
        &&& post.size == pre.size
    } else {
        &&& ok == (pre.size + INT_BYTES <= pre.max_size)
        &&& (ok ==> post.int_stack@.len() == 1 && post.size == pre.size + INT_BYTES)
        &&& (!ok ==> post.int_stack@ == s && post.size == pre.size)
    }
}

/// A wrapping integer unary opcode.
pub open spec fn int_unop_rel(pre: State, post: State, ok: bool, f: spec_fn(i64) -> i64) -> bool {
    let s = pre.int_stack@;
    &&& frame_except(pre, post, false, false, true, false, false, false, false, false)
    &&& if s.len() >= 1 {
        &&& ok
        &&& post.int_stack@ == s.drop_last().push(f(s.last()))
        &&& post.size == pre.size
    } else {
        &&& ok == (pre.size + INT_BYTES <= pre.max_size)
        &&& (ok ==> post.int_stack@.len() == 1 && post.size == pre.size + INT_BYTES)
        &&& (!ok ==> post.int_stack@ == s && post.size == pre.size)
    }
}

/// A checked integer unary opcode: the provider substitutes on failure.
pub open spec fn int_checked_unop_rel(
    pre: State,
    post: State,
    ok: bool,
    f: spec_fn(i64) -> Option<i64>,
) -> bool {
    let s = pre.int_stack@;
    &&& frame_except(pre, post, false, false, true, false, false, false, false, false)
    &&& if s.len() >= 1 {
        &&& ok
        &&& post.int_stack@.len() == s.len()
        &&& post.int_stack@.drop_last() == s.drop_last()
        &&& (f(s.last()) matches Some(v) ==> post.int_stack@.last() == v)
        &&& post.size == pre.size
    } else {
        &&& ok == (pre.size + INT_BYTES <= pre.max_size)
        &&& (ok ==> post.int_stack@.len() == 1 && post.size == pre.size + INT_BYTES)
        &&& (!ok ==> post.int_stack@ == s && post.size == pre.size)
    }
}

/// An integer comparison opcode: both operands leave the integer stack and
/// a boolean lands on the boolean stack.
pub open spec fn int_cmp_rel(
    pre: State,
    post: State,
    ok: bool,
    f: spec_fn(i64, i64) -> bool,
) -> bool {
    let s = pre.int_stack@;
    &&& frame_except(pre, post, false, false, true, false, true, false, false, false)
    &&& if s.len() >= 2 {
        &&& ok
        &&& post.int_stack@ == s.drop_last().drop_last()
        &&& post.bool_stack@ == pre.bool_stack@.push(f(s[s.len() - 2], s.last()))
        &&& post.size + 2 * INT_BYTES == pre.size + BOOL_BYTES
    } else if s.len() == 1 {
        &&& ok
        &&& post.int_stack@.len() == 0
        &&& post.bool_stack@.len() == pre.bool_stack@.len() + 1
        &&& post.bool_stack@.drop_last() == pre.bool_stack@
        &&& post.size + INT_BYTES == pre.size + BOOL_BYTES
    } else {
        &&& ok == (pre.size + BOOL_BYTES <= pre.max_size)
        &&& (ok ==> post.bool_stack@.len() == pre.bool_stack@.len() + 1
            && post.bool_stack@.drop_last() == pre.bool_stack@ && post.size == pre.size
            + BOOL_BYTES)
        &&& (!ok ==> post.bool_stack@ == pre.bool_stack@ && post.size == pre.size)
        &&& post.int_stack@ == s
    }
}

/// A boolean binary opcode: fully deterministic, since an empty pop
/// substitutes `false` without consulting any provider.
pub open spec fn bool_binop_rel(
    pre: State,
    post: State,
    ok: bool,
    f: spec_fn(bool, bool) -> bool,
) -> bool {
    let p1 = popped_bool(pre.bool_stack@);
    let p2 = popped_bool(p1.0);
    let removed = pre.bool_stack@.len() - p2.0.len();
    let out = spec_push(
        p2.0,
        (pre.size - removed * BOOL_BYTES) as nat,
        pre.max_size as nat,
        f(p2.1, p1.1),
    );
    &&& frame_except(pre, post, false, false, false, false, true, false, false, false)
    &&& post.bool_stack@ == out.0
    &&& post.size == out.1
    &&& ok == out.2
}

/// The boolean negation opcode.
pub open spec fn bool_unop_rel(pre: State, post: State, ok: bool, f: spec_fn(bool) -> bool) -> bool {
    let p1 = popped_bool(pre.bool_stack@);
    let removed = pre.bool_stack@.len() - p1.0.len();
    let out = spec_push(
        p1.0,
        (pre.size - removed * BOOL_BYTES) as nat,
        pre.max_size as nat,
        f(p1.1),
    );
    &&& frame_except(pre, post, false, false, false, false, true, false, false, false)
    &&& post.bool_stack@ == out.0
    &&& post.size == out.1
    &&& ok == out.2
}

impl<IH: InsHandler, NH: IntHandler, FH: FloatSupport> Machine<IH, NH, FH> {
    /// Pop the integer stack, or draw from the integer fallback provider.
    fn take_int(&mut self) -> (r: i64)
        requires
            old(self).inv(),
        ensures
            final(self).inv(),
            frame_except(
                old(self).state,
                final(self).state,
                false,
                false,
                true,
                false,
                false,
                false,
                false,
                false,
            ),
            ({
                let s = old(self).state.int_stack@;
                if s.len() > 0 {
                    &&& r == s.last()
                    &&& final(self).state.int_stack@ == s.drop_last()
                    &&& final(self).state.size + INT_BYTES == old(self).state.size
                } else {
                    &&& final(self).state.int_stack@ == s
                    &&& final(self).state.size == old(self).state.size
                }
            }),
    {
        match self.state.pop_int() {
            Some(v) => v,
            None => self.int_handler.next_int(),
        }
    }

    /// Pop the float stack, or draw from the float fallback provider.
    fn take_float(&mut self) -> (r: FloatBits)
        requires
            old(self).inv(),
        ensures
            final(self).inv(),
            frame_except(
                old(self).state,
                final(self).state,
                false,
                false,
                false,
                true,
                false,
                false,
                false,
                false,
            ),
            ({
                let s = old(self).state.float_stack@;
                if s.len() > 0 {
                    &&& r == s.last()
                    &&& final(self).state.float_stack@ == s.drop_last()
                    &&& final(self).state.size + FLOAT_BYTES == old(self).state.size
                } else {
                    &&& final(self).state.float_stack@ == s
                    &&& final(self).state.size == old(self).state.size
                }
            }),
    {
        match self.state.pop_float() {
            Some(v) => v,
            None => self.float_handler.next_float(),
        }
    }

    /// Pop the boolean stack, substituting `false` when it is empty.
    fn take_bool(&mut self) -> (r: bool)
        requires
            old(self).inv(),
        ensures
            final(self).inv(),
            frame_except(
                old(self).state,
                final(self).state,
                false,
                false,
                false,
                false,
                true,
                false,
                false,
                false,
            ),
            ({
                let p = popped_bool(old(self).state.bool_stack@);
                &&& r == p.1
                &&& final(self).state.bool_stack@ == p.0
                &&& final(self).state.size + (old(self).state.bool_stack@.len() - p.0.len())
                    * BOOL_BYTES == old(self).state.size
            }),
    {
        match self.state.pop_bool() {
            Some(v) => v,
            None => false,
        }
    }
}

/// A float binary opcode: the operands leave the float stack (the float
/// fallback provider standing in for whatever is missing) and the float
/// unit's result — about which the machine promises nothing — is pushed.
pub open spec fn float_binop_rel(pre: State, post: State, ok: bool) -> bool {
    let s = pre.float_stack@;
    let k: int = if s.len() >= 2 {
        2
    } else {
        s.len() as int
    };
    let rest = if s.len() >= 2 {
        s.drop_last().drop_last()
    } else if s.len() == 1 {
        s.drop_last()
    } else {
        s
    };
    let szp = pre.size - k * FLOAT_BYTES;
    &&& frame_except(pre, post, false, false, false, true, false, false, false, false)
    &&& ok == (szp + FLOAT_BYTES <= pre.max_size)
    &&& (ok ==> post.float_stack@.len() == rest.len() + 1 && post.float_stack@.drop_last() == rest
        && post.size == szp + FLOAT_BYTES)
    &&& (!ok ==> post.float_stack@ == rest && post.size == szp)
}

/// A float unary opcode.
pub open spec fn float_unop_rel(pre: State, post: State, ok: bool) -> bool {
    let s = pre.float_stack@;
    let k: int = if s.len() >= 1 {
        1
    } else {
        0
    };
    let rest = if s.len() >= 1 {
        s.drop_last()
    } else {
        s
    };
    let szp = pre.size - k * FLOAT_BYTES;
    &&& frame_except(pre, post, false, false, false, true, false, false, false, false)
    &&& ok == (szp + FLOAT_BYTES <= pre.max_size)
    &&& (ok ==> post.float_stack@.len() == rest.len() + 1 && post.float_stack@.drop_last() == rest
        && post.size == szp + FLOAT_BYTES)
    &&& (!ok ==> post.float_stack@ == rest && post.size == szp)
}

/// A float comparison opcode: the operands leave the float stack and the
/// float unit's verdict lands on the boolean stack.
pub open spec fn float_cmp_rel(pre: State, post: State, ok: bool) -> bool {
    let s = pre.float_stack@;
    let k: int = if s.len() >= 2 {
        2
    } else {
        s.len() as int
    };
    let rest = if s.len() >= 2 {
        s.drop_last().drop_last()
    } else if s.len() == 1 {
        s.drop_last()
    } else {
        s
    };
    let szp = pre.size - k * FLOAT_BYTES;
    &&& frame_except(pre, post, false, false, false, true, true, false, false, false)
    &&& post.float_stack@ == rest
    &&& ok == (szp + BOOL_BYTES <= pre.max_size)
    &&& (ok ==> post.bool_stack@.len() == pre.bool_stack@.len() + 1 && post.bool_stack@.drop_last()
        == pre.bool_stack@ && post.size == szp + BOOL_BYTES)
    &&& (!ok ==> post.bool_stack@ == pre.bool_stack@ && post.size == szp)
}

/// The float-to-integer-power opcode: an integer exponent and a float base
/// leave their stacks and the float unit's power lands on the float stack.
pub open spec fn powif_rel(pre: State, post: State, ok: bool) -> bool {
    let s = pre.int_stack@;
    let fs = pre.float_stack@;
    let k1: int = if s.len() >= 1 {
        1
    } else {
        0
    };
    let k2: int = if fs.len() >= 1 {
        1
    } else {
        0
    };
    let rest = if fs.len() >= 1 {
        fs.drop_last()
    } else {
        fs
    };
    let szp = pre.size - k1 * INT_BYTES - k2 * FLOAT_BYTES;
    &&& frame_except(pre, post, false, false, true, true, false, false, false, false)
    &&& post.int_stack@ == (if s.len() >= 1 {
        s.drop_last()
    } else {
        s
    })
    &&& ok == (szp + FLOAT_BYTES <= pre.max_size)
    &&& (ok ==> post.float_stack@.len() == rest.len() + 1 && post.float_stack@.drop_last() == rest
        && post.size == szp + FLOAT_BYTES)
    &&& (!ok ==> post.float_stack@ == rest && post.size == szp)
}

/// The integer-to-float conversion opcode.
pub open spec fn itof_rel(pre: State, post: State, ok: bool) -> bool {
    let s = pre.int_stack@;
    let k: int = if s.len() >= 1 {
        1
    } else {
        0
    };
    let szp = pre.size - k * INT_BYTES;
    &&& frame_except(pre, post, false, false, true, true, false, false, false, false)
    &&& post.int_stack@ == (if s.len() >= 1 {
        s.drop_last()
    } else {
        s
    })
    &&& ok == (szp + FLOAT_BYTES <= pre.max_size)
    &&& (ok ==> post.float_stack@.len() == pre.float_stack@.len() + 1
        && post.float_stack@.drop_last() == pre.float_stack@ && post.size == szp + FLOAT_BYTES)
    &&& (!ok ==> post.float_stack@ == pre.float_stack@ && post.size == szp)
}

/// The float-to-integer conversion opcode: the pushed integer is the cast
/// of a normal value, zero for a zero, and the integer fallback provider's
/// value for every other classification.
pub open spec fn ftoi_rel(pre: State, post: State, ok: bool) -> bool {
    let fs = pre.float_stack@;
    let k: int = if fs.len() >= 1 {
        1
    } else {
        0
    };
    let szp = pre.size - k * FLOAT_BYTES;
    &&& frame_except(pre, post, false, false, true, true, false, false, false, false)
    &&& post.float_stack@ == (if fs.len() >= 1 {
        fs.drop_last()
    } else {
        fs
    })
    &&& ok == (szp + INT_BYTES <= pre.max_size)
    &&& (ok ==> post.int_stack@.len() == pre.int_stack@.len() + 1 && post.int_stack@.drop_last()
        == pre.int_stack@ && post.size == szp + INT_BYTES)
    &&& (!ok ==> post.int_stack@ == pre.int_stack@ && post.size == szp)
}

/// A rotation opcode: the position leaves the integer stack (the provider
/// standing in when it is empty, in which case only the accounting is
/// determined) and the target stack is rotated at the masked position.
pub open spec fn rot_op_rel(pre: State, op: PlainOp, post: State, ok: bool) -> bool {
    let s = pre.int_stack@;
    &&& match op {
        PlainOp::Rotins => frame_except(pre, post, false, true, true, false, false, false, false, false),
        PlainOp::Roti64 => frame_except(pre, post, false, false, true, false, false, false, false, false),
        PlainOp::Rotf64 => frame_except(pre, post, false, false, true, true, false, false, false, false),
        PlainOp::Rotb => frame_except(pre, post, false, false, true, false, true, false, false, false),
        PlainOp::Rotinsv => frame_except(pre, post, false, false, true, false, false, true, false, false),
        PlainOp::Roti64v => frame_except(pre, post, false, false, true, false, false, false, true, false),
        _ => frame_except(pre, post, false, false, true, false, false, false, false, true),
    }
    &&& if s.len() > 0 {
        let p = spec_mask31(s.last()) as nat;
        &&& (op != PlainOp::Roti64 ==> post.int_stack@ == s.drop_last())
        &&& post.size + INT_BYTES == pre.size
        &&& match op {
            PlainOp::Rotins => post.ins_stack@ == spec_rot(pre.ins_stack@, p).0 && ok == spec_rot(
                pre.ins_stack@,
                p,
            ).1,
            PlainOp::Roti64 => post.int_stack@ == spec_rot(s.drop_last(), p).0 && ok == spec_rot(
                s.drop_last(),
                p,
            ).1,
            PlainOp::Rotf64 => post.float_stack@ == spec_rot(pre.float_stack@, p).0 && ok
                == spec_rot(pre.float_stack@, p).1,
            PlainOp::Rotb => post.bool_stack@ == spec_rot(pre.bool_stack@, p).0 && ok == spec_rot(
                pre.bool_stack@,
                p,
            ).1,
            PlainOp::Rotinsv => post.ins_vec_stack@ == spec_rot(pre.ins_vec_stack@, p).0 && ok
                == spec_rot(pre.ins_vec_stack@, p).1,
            PlainOp::Roti64v => post.int_vec_stack@ == spec_rot(pre.int_vec_stack@, p).0 && ok
                == spec_rot(pre.int_vec_stack@, p).1,
            _ => post.float_vec_stack@ == spec_rot(pre.float_vec_stack@, p).0 && ok == spec_rot(
                pre.float_vec_stack@,
                p,
            ).1,
        }
    } else {
        &&& post.int_stack@ == s
        &&& post.size == pre.size
        &&& post.ins_stack@.len() == pre.ins_stack@.len()
        &&& post.float_stack@.len() == pre.float_stack@.len()
        &&& post.bool_stack@.len() == pre.bool_stack@.len()
        &&& post.ins_vec_stack@.len() == pre.ins_vec_stack@.len()
        &&& post.int_vec_stack@.len() == pre.int_vec_stack@.len()
        &&& post.float_vec_stack@.len() == pre.float_vec_stack@.len()
    }
}

/// A discard opcode: the top of the named stack is popped and dropped,
/// releasing its charge; it fails exactly on an empty stack.
pub open spec fn discard_op_rel(pre: State, op: PlainOp, post: State, ok: bool) -> bool {
    match op {
        PlainOp::Popins => {
            let out = spec_pop(pre.ins_stack@, pre.size as nat);
            &&& frame_except(pre, post, false, true, false, false, false, false, false, false)
            &&& post.ins_stack@ == out.0
            &&& post.size == out.1
            &&& ok == (out.2 is Some)
        },
        PlainOp::Popi64 => {
            let out = spec_pop(pre.int_stack@, pre.size as nat);
            &&& frame_except(pre, post, false, false, true, false, false, false, false, false)
            &&& post.int_stack@ == out.0
            &&& post.size == out.1
            &&& ok == (out.2 is Some)
        },
        PlainOp::Popf64 => {
            let out = spec_pop(pre.float_stack@, pre.size as nat);
            &&& frame_except(pre, post, false, false, false, true, false, false, false, false)
            &&& post.float_stack@ == out.0
            &&& post.size == out.1
            &&& ok == (out.2 is Some)
        },
        PlainOp::Popb => {
            let out = spec_pop(pre.bool_stack@, pre.size as nat);
            &&& frame_except(pre, post, false, false, false, false, true, false, false, false)
            &&& post.bool_stack@ == out.0
            &&& post.size == out.1
            &&& ok == (out.2 is Some)
        },
        PlainOp::Popinsv => {
            let out = spec_pop(pre.ins_vec_stack@, pre.size as nat);
            &&& frame_except(pre, post, false, false, false, false, false, true, false, false)
            &&& post.ins_vec_stack@ == out.0
            &&& post.size == out.1
            &&& ok == (out.2 is Some)
        },
        PlainOp::Popi64v => {
            let out = spec_pop(pre.int_vec_stack@, pre.size as nat);
            &&& frame_except(pre, post, false, false, false, false, false, false, true, false)
            &&& post.int_vec_stack@ == out.0
            &&& post.size == out.1
            &&& ok == (out.2 is Some)
        },
        _ => {
            let out = spec_pop(pre.float_vec_stack@, pre.size as nat);
            &&& frame_except(pre, post, false, false, false, false, false, false, false, true)
            &&& post.float_vec_stack@ == out.0
            &&& post.size == out.1
            &&& ok == (out.2 is Some)
        },
    }
}

/// A copy opcode: the depth leaves the integer stack (the provider
/// standing in when it is empty), the element at that masked depth of the
/// target stack is cloned and pushed back through the budgeted push; it
/// fails on an out-of-range depth or an over-budget clone.
pub open spec fn copy_op_rel(pre: State, op: PlainOp, post: State, ok: bool) -> bool {
    let s = pre.int_stack@;
    match op {
        PlainOp::Copyins => {
            &&& frame_except(pre, post, false, true, true, false, false, false, false, false)
            &&& if s.len() > 0 {
                let p = spec_mask31(s.last());
                let target = pre.ins_stack@;
                let szp = pre.size - INT_BYTES;
            &&& post.int_stack@ == s.drop_last()
                &&& post.size >= 0
                &&& if p < target.len() {
                    let elem = target[target.len() - 1 - p];
                    &&& ok == (szp + elem.charge() <= pre.max_size)
                    &&& (ok ==> post.ins_stack@.len() == target.len() + 1 && post.ins_stack@.drop_last()
                        == target && (post.ins_stack@.last()@ == elem@ && post.ins_stack@.last().charge() == elem.charge()) && post.size == szp + elem.charge())
                    &&& (!ok ==> post.ins_stack@ == target && post.size == szp)
                } else {
                    &&& !ok
                    &&& post.ins_stack@ == target
                    &&& post.size == szp
                }
            } else {
                &&& post.int_stack@ == s
                &&& (ok ==> post.ins_stack@.len() == pre.ins_stack@.len() + 1 && post.ins_stack@.drop_last()
                    == pre.ins_stack@ && post.size == pre.size + post.ins_stack@.last().charge())
                &&& (!ok ==> post.ins_stack@ == pre.ins_stack@ && post.size == pre.size)
            }
        },
        PlainOp::Copyi64 => {
            &&& frame_except(pre, post, false, false, true, false, false, false, false, false)
            &&& if s.len() > 0 {
                let p = spec_mask31(s.last());
                let target = s.drop_last();
                let szp = pre.size - INT_BYTES;
                &&& post.size >= 0
                &&& if p < target.len() {
                    let elem = target[target.len() - 1 - p];
                    &&& ok == (szp + elem.charge() <= pre.max_size)
                    &&& (ok ==> post.int_stack@.len() == target.len() + 1 && post.int_stack@.drop_last()
                        == target && (post.int_stack@.last() == elem) && post.size == szp + elem.charge())
                    &&& (!ok ==> post.int_stack@ == target && post.size == szp)
                } else {
                    &&& !ok
                    &&& post.int_stack@ == target
                    &&& post.size == szp
                }
            } else {
                &&& post.int_stack@ == s
                &&& !ok
                &&& post.size == pre.size
            }
        },
        PlainOp::Copyf64 => {
            &&& frame_except(pre, post, false, false, true, true, false, false, false, false)
            &&& if s.len() > 0 {
                let p = spec_mask31(s.last());
                let target = pre.float_stack@;
                let szp = pre.size - INT_BYTES;
            &&& post.int_stack@ == s.drop_last()
                &&& post.size >= 0
                &&& if p < target.len() {
                    let elem = target[target.len() - 1 - p];
                    &&& ok == (szp + elem.charge() <= pre.max_size)
                    &&& (ok ==> post.float_stack@.len() == target.len() + 1 && post.float_stack@.drop_last()
                        == target && (post.float_stack@.last() == elem) && post.size == szp + elem.charge())
                    &&& (!ok ==> post.float_stack@ == target && post.size == szp)
                } else {
                    &&& !ok
                    &&& post.float_stack@ == target
                    &&& post.size == szp
                }
            } else {
                &&& post.int_stack@ == s
                &&& (ok ==> post.float_stack@.len() == pre.float_stack@.len() + 1 && post.float_stack@.drop_last()
                    == pre.float_stack@ && post.size == pre.size + post.float_stack@.last().charge())
                &&& (!ok ==> post.float_stack@ == pre.float_stack@ && post.size == pre.size)
            }
        },
        PlainOp::Copyb => {
            &&& frame_except(pre, post, false, false, true, false, true, false, false, false)
            &&& if s.len() > 0 {
                let p = spec_mask31(s.last());
                let target = pre.bool_stack@;
                let szp = pre.size - INT_BYTES;
            &&& post.int_stack@ == s.drop_last()
                &&& post.size >= 0
                &&& if p < target.len() {
                    let elem = target[target.len() - 1 - p];
                    &&& ok == (szp + elem.charge() <= pre.max_size)
                    &&& (ok ==> post.bool_stack@.len() == target.len() + 1 && post.bool_stack@.drop_last()
                        == target && (post.bool_stack@.last() == elem) && post.size == szp + elem.charge())
                    &&& (!ok ==> post.bool_stack@ == target && post.size == szp)
                } else {
                    &&& !ok
                    &&& post.bool_stack@ == target
                    &&& post.size == szp
                }
            } else {
                &&& post.int_stack@ == s
                &&& (ok ==> post.bool_stack@.len() == pre.bool_stack@.len() + 1 && post.bool_stack@.drop_last()
                    == pre.bool_stack@ && post.size == pre.size + post.bool_stack@.last().charge())
                &&& (!ok ==> post.bool_stack@ == pre.bool_stack@ && post.size == pre.size)
            }
        },
        PlainOp::Copyinsv => {
            &&& frame_except(pre, post, false, false, true, false, false, true, false, false)
            &&& if s.len() > 0 {
                let p = spec_mask31(s.last());
                let target = pre.ins_vec_stack@;
                let szp = pre.size - INT_BYTES;
            &&& post.int_stack@ == s.drop_last()
                &&& post.size >= 0
                &&& if p < target.len() {
                    let elem = target[target.len() - 1 - p];
                    &&& ok == (szp + elem.charge() <= pre.max_size)
                    &&& (ok ==> post.ins_vec_stack@.len() == target.len() + 1 && post.ins_vec_stack@.drop_last()
                        == target && (views_of(post.ins_vec_stack@.last().vec@) == views_of(elem.vec@) && post.ins_vec_stack@.last().vec@.len() == elem.vec@.len() && post.ins_vec_stack@.last().size == elem.size) && post.size == szp + elem.charge())
                    &&& (!ok ==> post.ins_vec_stack@ == target && post.size == szp)
                } else {
                    &&& !ok
                    &&& post.ins_vec_stack@ == target
                    &&& post.size == szp
                }
            } else {
                &&& post.int_stack@ == s
                &&& (ok ==> post.ins_vec_stack@.len() == pre.ins_vec_stack@.len() + 1 && post.ins_vec_stack@.drop_last()
                    == pre.ins_vec_stack@ && post.size == pre.size + post.ins_vec_stack@.last().charge())
                &&& (!ok ==> post.ins_vec_stack@ == pre.ins_vec_stack@ && post.size == pre.size)
            }
        },
        PlainOp::Copyi64v => {
            &&& frame_except(pre, post, false, false, true, false, false, false, true, false)
            &&& if s.len() > 0 {
                let p = spec_mask31(s.last());
                let target = pre.int_vec_stack@;
                let szp = pre.size - INT_BYTES;
            &&& post.int_stack@ == s.drop_last()
                &&& post.size >= 0
                &&& if p < target.len() {
                    let elem = target[target.len() - 1 - p];
                    &&& ok == (szp + elem.charge() <= pre.max_size)
                    &&& (ok ==> post.int_vec_stack@.len() == target.len() + 1 && post.int_vec_stack@.drop_last()
                        == target && (post.int_vec_stack@.last().vec@ == elem.vec@ && post.int_vec_stack@.last().size == elem.size) && post.size == szp + elem.charge())
                    &&& (!ok ==> post.int_vec_stack@ == target && post.size == szp)
                } else {
                    &&& !ok
                    &&& post.int_vec_stack@ == target
                    &&& post.size == szp
                }
            } else {
                &&& post.int_stack@ == s
                &&& (ok ==> post.int_vec_stack@.len() == pre.int_vec_stack@.len() + 1 && post.int_vec_stack@.drop_last()
                    == pre.int_vec_stack@ && post.size == pre.size + post.int_vec_stack@.last().charge())
                &&& (!ok ==> post.int_vec_stack@ == pre.int_vec_stack@ && post.size == pre.size)
            }
        },
        _ => {
            &&& frame_except(pre, post, false, false, true, false, false, false, false, true)
            &&& if s.len() > 0 {
                let p = spec_mask31(s.last());
                let target = pre.float_vec_stack@;
                let szp = pre.size - INT_BYTES;
            &&& post.int_stack@ == s.drop_last()
                &&& post.size >= 0
                &&& if p < target.len() {
                    let elem = target[target.len() - 1 - p];
                    &&& ok == (szp + elem.charge() <= pre.max_size)
                    &&& (ok ==> post.float_vec_stack@.len() == target.len() + 1 && post.float_vec_stack@.drop_last()
                        == target && (post.float_vec_stack@.last().vec@ == elem.vec@ && post.float_vec_stack@.last().size == elem.size) && post.size == szp + elem.charge())
                    &&& (!ok ==> post.float_vec_stack@ == target && post.size == szp)
                } else {
                    &&& !ok
                    &&& post.float_vec_stack@ == target
                    &&& post.size == szp
                }
            } else {
                &&& post.int_stack@ == s
                &&& (ok ==> post.float_vec_stack@.len() == pre.float_vec_stack@.len() + 1 && post.float_vec_stack@.drop_last()
                    == pre.float_vec_stack@ && post.size == pre.size + post.float_vec_stack@.last().charge())
                &&& (!ok ==> post.float_vec_stack@ == pre.float_vec_stack@ && post.size == pre.size)
            }
        },
    }
}

/// The append-to-vector opcode for the ins kind: the scalar leaves its
/// stack and is appended to the vector on top of the ins-vector stack;
/// with no vector there the scalar is dropped and the opcode still
/// succeeds. It fails exactly on an empty scalar stack.
pub open spec fn pushv_ins_rel(pre: State, post: State, ok: bool) -> bool {
    let s = pre.ins_stack@;
    let vs = pre.ins_vec_stack@;
    &&& frame_except(pre, post, false, true, false, false, false, true, false, false)
    &&& if s.len() == 0 {
        &&& !ok
        &&& post.ins_stack@ == s
        &&& post.ins_vec_stack@ == vs
        &&& post.size == pre.size
    } else {
        let e = s.last();
        &&& ok
        &&& post.ins_stack@ == s.drop_last()
        &&& if vs.len() == 0 {
            &&& post.ins_vec_stack@ == vs
            &&& post.size + e.charge() == pre.size
        } else {
            &&& post.ins_vec_stack@.len() == vs.len()
            &&& post.ins_vec_stack@.drop_last() == vs.drop_last()
            &&& post.ins_vec_stack@.last().vec@ == vs.last().vec@.push(e)
            &&& post.ins_vec_stack@.last().size == vs.last().size + e.charge()
            &&& post.size == pre.size
        }
    }
}

/// The pop-from-vector opcode for the ins kind: the last element of the
/// vector on top of the ins-vector stack moves onto the scalar stack; it
/// fails exactly when there is no vector or it is empty.
pub open spec fn popv_ins_rel(pre: State, post: State, ok: bool) -> bool {
    let s = pre.ins_stack@;
    let vs = pre.ins_vec_stack@;
    &&& frame_except(pre, post, false, true, false, false, false, true, false, false)
    &&& if vs.len() == 0 || vs.last().vec@.len() == 0 {
        &&& !ok
        &&& post.ins_stack@ == s
        &&& post.ins_vec_stack@ == vs
        &&& post.size == pre.size
    } else {
        let e = vs.last().vec@.last();
        &&& ok
        &&& post.ins_vec_stack@.len() == vs.len()
        &&& post.ins_vec_stack@.drop_last() == vs.drop_last()
        &&& post.ins_vec_stack@.last().vec@ == vs.last().vec@.drop_last()
        &&& post.ins_vec_stack@.last().size + e.charge() == vs.last().size
        &&& post.ins_stack@ == s.push(e)
        &&& post.size == pre.size
    }
}

/// The append-to-vector opcode for the int kind: the scalar leaves its
/// stack and is appended to the vector on top of the int-vector stack;
/// with no vector there the scalar is dropped and the opcode still
/// succeeds. It fails exactly on an empty scalar stack.
pub open spec fn pushv_int_rel(pre: State, post: State, ok: bool) -> bool {
    let s = pre.int_stack@;
    let vs = pre.int_vec_stack@;
    &&& frame_except(pre, post, false, false, true, false, false, false, true, false)
    &&& if s.len() == 0 {
        &&& !ok
        &&& post.int_stack@ == s
        &&& post.int_vec_stack@ == vs
        &&& post.size == pre.size
    } else {
        let e = s.last();
        &&& ok
        &&& post.int_stack@ == s.drop_last()
        &&& if vs.len() == 0 {
            &&& post.int_vec_stack@ == vs
            &&& post.size + e.charge() == pre.size
        } else {
            &&& post.int_vec_stack@.len() == vs.len()
            &&& post.int_vec_stack@.drop_last() == vs.drop_last()
            &&& post.int_vec_stack@.last().vec@ == vs.last().vec@.push(e)
            &&& post.int_vec_stack@.last().size == vs.last().size + e.charge()
            &&& post.size == pre.size
        }
    }
}

/// The pop-from-vector opcode for the int kind: the last element of the
/// vector on top of the int-vector stack moves onto the scalar stack; it
/// fails exactly when there is no vector or it is empty.
pub open spec fn popv_int_rel(pre: State, post: State, ok: bool) -> bool {
    let s = pre.int_stack@;
    let vs = pre.int_vec_stack@;
    &&& frame_except(pre, post, false, false, true, false, false, false, true, false)
    &&& if vs.len() == 0 || vs.last().vec@.len() == 0 {
        &&& !ok
        &&& post.int_stack@ == s
        &&& post.int_vec_stack@ == vs
        &&& post.size == pre.size
    } else {
        let e = vs.last().vec@.last();
        &&& ok
        &&& post.int_vec_stack@.len() == vs.len()
        &&& post.int_vec_stack@.drop_last() == vs.drop_last()
        &&& post.int_vec_stack@.last().vec@ == vs.last().vec@.drop_last()
        &&& post.int_vec_stack@.last().size + e.charge() == vs.last().size
        &&& post.int_stack@ == s.push(e)
        &&& post.size == pre.size
    }
}

/// The append-to-vector opcode for the float kind: the scalar leaves its
/// stack and is appended to the vector on top of the float-vector stack;
/// with no vector there the scalar is dropped and the opcode still
/// succeeds. It fails exactly on an empty scalar stack.
pub open spec fn pushv_float_rel(pre: State, post: State, ok: bool) -> bool {
    let s = pre.float_stack@;
    let vs = pre.float_vec_stack@;
    &&& frame_except(pre, post, false, false, false, true, false, false, false, true)
    &&& if s.len() == 0 {
        &&& !ok
        &&& post.float_stack@ == s
        &&& post.float_vec_stack@ == vs
        &&& post.size == pre.size
    } else {
        let e = s.last();
        &&& ok
        &&& post.float_stack@ == s.drop_last()
        &&& if vs.len() == 0 {
            &&& post.float_vec_stack@ == vs
            &&& post.size + e.charge() == pre.size
        } else {
            &&& post.float_vec_stack@.len() == vs.len()
            &&& post.float_vec_stack@.drop_last() == vs.drop_last()
            &&& post.float_vec_stack@.last().vec@ == vs.last().vec@.push(e)
            &&& post.float_vec_stack@.last().size == vs.last().size + e.charge()
            &&& post.size == pre.size
        }
    }
}

/// The pop-from-vector opcode for the float kind: the last element of the
/// vector on top of the float-vector stack moves onto the scalar stack; it
/// fails exactly when there is no vector or it is empty.
pub open spec fn popv_float_rel(pre: State, post: State, ok: bool) -> bool {
    let s = pre.float_stack@;
    let vs = pre.float_vec_stack@;
    &&& frame_except(pre, post, false, false, false, true, false, false, false, true)
    &&& if vs.len() == 0 || vs.last().vec@.len() == 0 {
        &&& !ok
        &&& post.float_stack@ == s
        &&& post.float_vec_stack@ == vs
        &&& post.size == pre.size
    } else {
        let e = vs.last().vec@.last();
        &&& ok
        &&& post.float_vec_stack@.len() == vs.len()
        &&& post.float_vec_stack@.drop_last() == vs.drop_last()
        &&& post.float_vec_stack@.last().vec@ == vs.last().vec@.drop_last()
        &&& post.float_vec_stack@.last().size + e.charge() == vs.last().size
        &&& post.float_stack@ == s.push(e)
        &&& post.size == pre.size
    }
}

/// The read-from-vector opcode for the ins kind: the index leaves the
/// integer stack, the element at the masked index of the vector on top of
/// the ins-vector stack is copied and pushed onto the scalar stack through
/// the budgeted push; it fails on an empty integer stack, a missing
/// vector, an out-of-range index or an over-budget copy.
pub open spec fn readv_ins_rel(pre: State, post: State, ok: bool) -> bool {
    let s = pre.int_stack@;
    let vs = pre.ins_vec_stack@;
    &&& frame_except(pre, post, false, true, true, false, false, false, false, false)
    &&& if s.len() == 0 {
        &&& !ok
        &&& post.int_stack@ == s
        &&& post.ins_stack@ == pre.ins_stack@
        &&& post.size == pre.size
    } else {
        let p = spec_mask31(s.last());
        let rest_s = pre.ins_stack@;
        let szp = pre.size - INT_BYTES;
        &&& post.int_stack@ == s.drop_last()
        &&& if vs.len() > 0 && p < vs.last().vec@.len() {
            let elem = vs.last().vec@[p];
            &&& ok == (szp + elem.charge() <= pre.max_size)
            &&& (ok ==> (post.ins_stack@.len() == rest_s.len() + 1 && post.ins_stack@.drop_last() == rest_s && post.ins_stack@.last()@ == elem@ && post.ins_stack@.last().charge() == elem.charge()) && post.size == szp + elem.charge())
            &&& (!ok ==> post.ins_stack@ == rest_s && post.size == szp)
        } else {
            &&& !ok
            &&& post.ins_stack@ == rest_s
            &&& post.size == szp
        }
    }
}

/// The read-from-vector opcode for the int kind: the index leaves the
/// integer stack, the element at the masked index of the vector on top of
/// the int-vector stack is copied and pushed onto the scalar stack through
/// the budgeted push; it fails on an empty integer stack, a missing
/// vector, an out-of-range index or an over-budget copy.
pub open spec fn readv_int_rel(pre: State, post: State, ok: bool) -> bool {
    let s = pre.int_stack@;
    let vs = pre.int_vec_stack@;
    &&& frame_except(pre, post, false, false, true, false, false, false, false, false)
    &&& if s.len() == 0 {
        &&& !ok
        &&& post.int_stack@ == s
        &&& post.int_stack@ == pre.int_stack@
        &&& post.size == pre.size
    } else {
        let p = spec_mask31(s.last());
        let rest_s = s.drop_last();
        let szp = pre.size - INT_BYTES;
        &&& if vs.len() > 0 && p < vs.last().vec@.len() {
            let elem = vs.last().vec@[p];
            &&& ok == (szp + elem.charge() <= pre.max_size)
            &&& (ok ==> (post.int_stack@ == rest_s.push(elem)) && post.size == szp + elem.charge())
            &&& (!ok ==> post.int_stack@ == rest_s && post.size == szp)
        } else {
            &&& !ok
            &&& post.int_stack@ == rest_s
            &&& post.size == szp
        }
    }
}

/// The read-from-vector opcode for the float kind: the index leaves the
/// integer stack, the element at the masked index of the vector on top of
/// the float-vector stack is copied and pushed onto the scalar stack through
/// the budgeted push; it fails on an empty integer stack, a missing
/// vector, an out-of-range index or an over-budget copy.
pub open spec fn readv_float_rel(pre: State, post: State, ok: bool) -> bool {
    let s = pre.int_stack@;
    let vs = pre.float_vec_stack@;
    &&& frame_except(pre, post, false, false, true, true, false, false, false, false)
    &&& if s.len() == 0 {
        &&& !ok
        &&& post.int_stack@ == s
        &&& post.float_stack@ == pre.float_stack@
        &&& post.size == pre.size
    } else {
        let p = spec_mask31(s.last());
        let rest_s = pre.float_stack@;
        let szp = pre.size - INT_BYTES;
        &&& post.int_stack@ == s.drop_last()
        &&& if vs.len() > 0 && p < vs.last().vec@.len() {
            let elem = vs.last().vec@[p];
            &&& ok == (szp + elem.charge() <= pre.max_size)
            &&& (ok ==> (post.float_stack@ == rest_s.push(elem)) && post.size == szp + elem.charge())
            &&& (!ok ==> post.float_stack@ == rest_s && post.size == szp)
        } else {
            &&& !ok
            &&& post.float_stack@ == rest_s
            &&& post.size == szp
        }
    }
}

/// The write-to-vector opcode for the ins kind: an index and a scalar
/// leave their stacks and the element at the masked index of the vector on
/// top of the ins-vector stack is overwritten in place, charging the
/// difference and checking the budget; a missing vector or index is a
/// silent success, and it fails on an empty source stack or an
/// over-budget write.
pub open spec fn writev_ins_rel(pre: State, post: State, ok: bool) -> bool {
    let s = pre.int_stack@;
    let vs = pre.ins_vec_stack@;
    &&& frame_except(pre, post, false, true, true, false, false, true, false, false)
    &&& if s.len() == 0 {
        &&& !ok
        &&& post.int_stack@ == s
        &&& post.ins_stack@ == pre.ins_stack@
        &&& post.ins_vec_stack@ == vs
        &&& post.size == pre.size
    } else {
        let p = spec_mask31(s.last());
        let s1 = s.drop_last();
        let size1 = pre.size - INT_BYTES;
        if pre.ins_stack@.len() == 0 {
            &&& !ok
            &&& post.int_stack@ == s1 && post.ins_stack@ == pre.ins_stack@
            &&& post.ins_vec_stack@ == vs
            &&& post.size == size1
        } else {
            let e = pre.ins_stack@.last();
            let s2 = pre.ins_stack@.drop_last();
            let size2 = size1 - e.charge();
            &&& post.int_stack@ == s1 && post.ins_stack@ == s2
            &&& if vs.len() == 0 || p >= vs.last().vec@.len() {
                &&& ok
                &&& post.ins_vec_stack@ == vs
                &&& post.size == size2
            } else {
                let oldc = vs.last().vec@[p].charge();
                let newc = e.charge();
                if size2 + newc > pre.max_size + oldc {
                    &&& !ok
                    &&& post.ins_vec_stack@ == vs
                    &&& post.size == size2
                } else {
                    &&& ok
                    &&& post.ins_vec_stack@.len() == vs.len()
                    &&& post.ins_vec_stack@.drop_last() == vs.drop_last()
                    &&& post.ins_vec_stack@.last().vec@ == vs.last().vec@.update(p, e)
                    &&& post.ins_vec_stack@.last().size + oldc == vs.last().size + newc
                    &&& post.size + oldc == size2 + newc
                }
            }
        }
    }
}

/// The write-to-vector opcode for the int kind: an index and a scalar
/// leave their stacks and the element at the masked index of the vector on
/// top of the int-vector stack is overwritten in place, charging the
/// difference and checking the budget; a missing vector or index is a
/// silent success, and it fails on an empty source stack or an
/// over-budget write.
pub open spec fn writev_int_rel(pre: State, post: State, ok: bool) -> bool {
    let s = pre.int_stack@;
    let vs = pre.int_vec_stack@;
    &&& frame_except(pre, post, false, false, true, false, false, false, true, false)
    &&& if s.len() == 0 {
        &&& !ok
        &&& post.int_stack@ == s
        &&& post.int_stack@ == pre.int_stack@
        &&& post.int_vec_stack@ == vs
        &&& post.size == pre.size
    } else {
        let p = spec_mask31(s.last());
        let s1 = s.drop_last();
        let size1 = pre.size - INT_BYTES;
        if s1.len() == 0 {
            &&& !ok
            &&& post.int_stack@ == s1
            &&& post.int_vec_stack@ == vs
            &&& post.size == size1
        } else {
            let e = s1.last();
            let s2 = s1.drop_last();
            let size2 = size1 - e.charge();
            &&& post.int_stack@ == s2
            &&& if vs.len() == 0 || p >= vs.last().vec@.len() {
                &&& ok
                &&& post.int_vec_stack@ == vs
                &&& post.size == size2
            } else {
                let oldc = vs.last().vec@[p].charge();
                let newc = e.charge();
                if size2 + newc > pre.max_size + oldc {
                    &&& !ok
                    &&& post.int_vec_stack@ == vs
                    &&& post.size == size2
                } else {
                    &&& ok
                    &&& post.int_vec_stack@.len() == vs.len()
                    &&& post.int_vec_stack@.drop_last() == vs.drop_last()
                    &&& post.int_vec_stack@.last().vec@ == vs.last().vec@.update(p, e)
                    &&& post.int_vec_stack@.last().size + oldc == vs.last().size + newc
                    &&& post.size + oldc == size2 + newc
                }
            }
        }
    }
}

/// The write-to-vector opcode for the float kind: an index and a scalar
/// leave their stacks and the element at the masked index of the vector on
/// top of the float-vector stack is overwritten in place, charging the
/// difference and checking the budget; a missing vector or index is a
/// silent success, and it fails on an empty source stack or an
/// over-budget write.
pub open spec fn writev_float_rel(pre: State, post: State, ok: bool) -> bool {
    let s = pre.int_stack@;
    let vs = pre.float_vec_stack@;
    &&& frame_except(pre, post, false, false, true, true, false, false, false, true)
    &&& if s.len() == 0 {
        &&& !ok
        &&& post.int_stack@ == s
        &&& post.float_stack@ == pre.float_stack@
        &&& post.float_vec_stack@ == vs
        &&& post.size == pre.size
    } else {
        let p = spec_mask31(s.last());
        let s1 = s.drop_last();
        let size1 = pre.size - INT_BYTES;
        if pre.float_stack@.len() == 0 {
            &&& !ok
            &&& post.int_stack@ == s1 && post.float_stack@ == pre.float_stack@
            &&& post.float_vec_stack@ == vs
            &&& post.size == size1
        } else {
            let e = pre.float_stack@.last();
            let s2 = pre.float_stack@.drop_last();
            let size2 = size1 - e.charge();
            &&& post.int_stack@ == s1 && post.float_stack@ == s2
            &&& if vs.len() == 0 || p >= vs.last().vec@.len() {
                &&& ok
                &&& post.float_vec_stack@ == vs
                &&& post.size == size2
            } else {
                let oldc = vs.last().vec@[p].charge();
                let newc = e.charge();
                if size2 + newc > pre.max_size + oldc {
                    &&& !ok
                    &&& post.float_vec_stack@ == vs
                    &&& post.size == size2
                } else {
                    &&& ok
                    &&& post.float_vec_stack@.len() == vs.len()
                    &&& post.float_vec_stack@.drop_last() == vs.drop_last()
                    &&& post.float_vec_stack@.last().vec@ == vs.last().vec@.update(p, e)
                    &&& post.float_vec_stack@.last().size + oldc == vs.last().size + newc
                    &&& post.size + oldc == size2 + newc
                }
            }
        }
    }
}

/// The opcode-construction instruction: the masked popped integer, when it
/// is a valid ordinal, becomes the corresponding opcode pushed onto the
/// instruction stack through the budgeted push.
pub open spec fn create_plain_rel(pre: State, post: State, ok: bool) -> bool {
    let s = pre.int_stack@;
    &&& frame_except(pre, post, false, true, true, false, false, false, false, false)
    &&& if s.len() == 0 {
        &&& !ok
        &&& post.int_stack@ == s
        &&& post.ins_stack@ == pre.ins_stack@
        &&& post.size == pre.size
    } else {
        let n = spec_mask31(s.last());
        let szp = pre.size - INT_BYTES;
        &&& post.int_stack@ == s.drop_last()
        &&& if n < TOTAL_PLAIN_INSTRUCTIONS {
            &&& ok == (szp + INS_BYTES <= pre.max_size)
            &&& (ok ==> post.ins_stack@.len() == pre.ins_stack@.len() + 1
                && post.ins_stack@.drop_last() == pre.ins_stack@ && (post.ins_stack@.last()
                matches SimpleInstruction::PlainOp(op) && ordinal_of(op) == n) && post.size == szp
                + INS_BYTES)
            &&& (!ok ==> post.ins_stack@ == pre.ins_stack@ && post.size == szp)
        } else {
            &&& !ok
            &&& post.ins_stack@ == pre.ins_stack@
            &&& post.size == szp
        }
    }
}

/// The block-construction instruction: the vector on top of the
/// instruction-vector stack becomes a single-pass block pushed onto the
/// instruction stack.
pub open spec fn create_block_rel(pre: State, post: State, ok: bool) -> bool {
    let vs = pre.ins_vec_stack@;
    &&& frame_except(pre, post, false, true, false, false, false, true, false, false)
    &&& if vs.len() == 0 {
        &&& !ok
        &&& post.ins_stack@ == pre.ins_stack@
        &&& post.ins_vec_stack@ == vs
        &&& post.size == pre.size
    } else {
        let v = vs.last();
        let szp = pre.size - (VEC_HEADER_BYTES + v.size);
        let x = SimpleInstruction::BasicBlock(TrackedIter { elems: v.vec, size: v.size });
        &&& post.ins_vec_stack@ == vs.drop_last()
        &&& ok == (szp + INS_BYTES + v.size <= pre.max_size)
        &&& (ok ==> post.ins_stack@ == pre.ins_stack@.push(x) && post.size == szp + INS_BYTES
            + v.size)
        &&& (!ok ==> post.ins_stack@ == pre.ins_stack@ && post.size == szp)
    }
}

/// The loop-construction instruction: the vector on top of the
/// instruction-vector stack becomes a cycling loop pushed onto the
/// instruction stack.
pub open spec fn create_loop_rel(pre: State, post: State, ok: bool) -> bool {
    let vs = pre.ins_vec_stack@;
    &&& frame_except(pre, post, false, true, false, false, false, true, false, false)
    &&& if vs.len() == 0 {
        &&& !ok
        &&& post.ins_stack@ == pre.ins_stack@
        &&& post.ins_vec_stack@ == vs
        &&& post.size == pre.size
    } else {
        let v = vs.last();
        let szp = pre.size - (VEC_HEADER_BYTES + v.size);
        let x = SimpleInstruction::Loop(TrackedCycleIter { elems: v.vec, pos: 0, size: v.size });
        &&& post.ins_vec_stack@ == vs.drop_last()
        &&& ok == (szp + INS_BYTES + v.size <= pre.max_size)
        &&& (ok ==> post.ins_stack@ == pre.ins_stack@.push(x) && post.size == szp + INS_BYTES
            + v.size)
        &&& (!ok ==> post.ins_stack@ == pre.ins_stack@ && post.size == szp)
    }
}

/// The conditional-construction instruction: two vectors leave the
/// instruction-vector stack — the false branch first, then the true
/// branch — and the conditional carrying the true branch first is pushed
/// onto the instruction stack. With only one vector available it is lost
/// and the opcode fails.
pub open spec fn create_if_rel(pre: State, post: State, ok: bool) -> bool {
    let vs = pre.ins_vec_stack@;
    &&& frame_except(pre, post, false, true, false, false, false, true, false, false)
    &&& if vs.len() == 0 {
        &&& !ok
        &&& post.ins_stack@ == pre.ins_stack@
        &&& post.ins_vec_stack@ == vs
        &&& post.size == pre.size
    } else if vs.len() == 1 {
        &&& !ok
        &&& post.ins_stack@ == pre.ins_stack@
        &&& post.ins_vec_stack@ == vs.drop_last()
        &&& post.size + VEC_HEADER_BYTES + vs.last().size == pre.size
    } else {
        let vf = vs.last();
        let vt = vs[vs.len() - 2];
        let szp = pre.size - (VEC_HEADER_BYTES + vf.size) - (VEC_HEADER_BYTES + vt.size);
        let x = SimpleInstruction::If(
            TrackedIter { elems: vt.vec, size: vt.size },
            TrackedIter { elems: vf.vec, size: vf.size },
        );
        &&& post.ins_vec_stack@ == vs.drop_last().drop_last()
        &&& ok == (szp + INS_BYTES + vt.size + vf.size <= pre.max_size)
        &&& (ok ==> post.ins_stack@ == pre.ins_stack@.push(x) && post.size == szp + INS_BYTES
            + vt.size + vf.size)
        &&& (!ok ==> post.ins_stack@ == pre.ins_stack@ && post.size == szp)
    }
}

/// A literal-capture construction instruction: the popped value is wrapped
/// in the instruction that would re-introduce it, pushed onto the
/// instruction stack through the budgeted push.
pub open spec fn create_push_int_rel(pre: State, post: State, ok: bool) -> bool {
    let s = pre.int_stack@;
    &&& frame_except(pre, post, false, true, true, false, false, false, false, false)
    &&& if s.len() == 0 {
        &&& !ok
        &&& post.int_stack@ == s
        &&& post.ins_stack@ == pre.ins_stack@
        &&& post.size == pre.size
    } else {
        let szp = pre.size - INT_BYTES;
        let x = SimpleInstruction::Pushi64(s.last());
        &&& post.int_stack@ == s.drop_last()
        &&& ok == (szp + INS_BYTES <= pre.max_size)
        &&& (ok ==> post.ins_stack@ == pre.ins_stack@.push(x) && post.size == szp + INS_BYTES)
        &&& (!ok ==> post.ins_stack@ == pre.ins_stack@ && post.size == szp)
    }
}

/// As [`create_push_int_rel`], for a float literal.
pub open spec fn create_push_float_rel(pre: State, post: State, ok: bool) -> bool {
    let s = pre.float_stack@;
    &&& frame_except(pre, post, false, true, false, true, false, false, false, false)
    &&& if s.len() == 0 {
        &&& !ok
        &&& post.float_stack@ == s
        &&& post.ins_stack@ == pre.ins_stack@
        &&& post.size == pre.size
    } else {
        let szp = pre.size - FLOAT_BYTES;
        let x = SimpleInstruction::Pushf64(s.last());
        &&& post.float_stack@ == s.drop_last()
        &&& ok == (szp + INS_BYTES <= pre.max_size)
        &&& (ok ==> post.ins_stack@ == pre.ins_stack@.push(x) && post.size == szp + INS_BYTES)
        &&& (!ok ==> post.ins_stack@ == pre.ins_stack@ && post.size == szp)
    }
}

/// As [`create_push_int_rel`], for a boolean literal; the boolean stack is
/// popped directly, with no default.
pub open spec fn create_push_bool_rel(pre: State, post: State, ok: bool) -> bool {
    let s = pre.bool_stack@;
    &&& frame_except(pre, post, false, true, false, false, true, false, false, false)
    &&& if s.len() == 0 {
        &&& !ok
        &&& post.bool_stack@ == s
        &&& post.ins_stack@ == pre.ins_stack@
        &&& post.size == pre.size
    } else {
        let szp = pre.size - BOOL_BYTES;
        let x = SimpleInstruction::Pushb(s.last());
        &&& post.bool_stack@ == s.drop_last()
        &&& ok == (szp + INS_BYTES <= pre.max_size)
        &&& (ok ==> post.ins_stack@ == pre.ins_stack@.push(x) && post.size == szp + INS_BYTES)
        &&& (!ok ==> post.ins_stack@ == pre.ins_stack@ && post.size == szp)
    }
}

/// As [`create_push_int_rel`], for an integer-vector literal.
pub open spec fn create_push_intv_rel(pre: State, post: State, ok: bool) -> bool {
    let vs = pre.int_vec_stack@;
    &&& frame_except(pre, post, false, true, false, false, false, false, true, false)
    &&& if vs.len() == 0 {
        &&& !ok
        &&& post.int_vec_stack@ == vs
        &&& post.ins_stack@ == pre.ins_stack@
        &&& post.size == pre.size
    } else {
        let v = vs.last();
        let szp = pre.size - (VEC_HEADER_BYTES + v.size);
        let x = SimpleInstruction::Pushi64v(v);
        &&& post.int_vec_stack@ == vs.drop_last()
        &&& ok == (szp + INS_BYTES + v.size <= pre.max_size)
        &&& (ok ==> post.ins_stack@ == pre.ins_stack@.push(x) && post.size == szp + INS_BYTES
            + v.size)
        &&& (!ok ==> post.ins_stack@ == pre.ins_stack@ && post.size == szp)
    }
}

/// As [`create_push_int_rel`], for a float-vector literal.
pub open spec fn create_push_floatv_rel(pre: State, post: State, ok: bool) -> bool {
    let vs = pre.float_vec_stack@;
    &&& frame_except(pre, post, false, true, false, false, false, false, false, true)
    &&& if vs.len() == 0 {
        &&& !ok
        &&& post.float_vec_stack@ == vs
        &&& post.ins_stack@ == pre.ins_stack@
        &&& post.size == pre.size
    } else {
        let v = vs.last();
        let szp = pre.size - (VEC_HEADER_BYTES + v.size);
        let x = SimpleInstruction::Pushf64v(v);
        &&& post.float_vec_stack@ == vs.drop_last()
        &&& ok == (szp + INS_BYTES + v.size <= pre.max_size)
        &&& (ok ==> post.ins_stack@ == pre.ins_stack@.push(x) && post.size == szp + INS_BYTES
            + v.size)
        &&& (!ok ==> post.ins_stack@ == pre.ins_stack@ && post.size == szp)
    }
}

/// The `Return` opcode: the top of the execution stack is discarded; it
/// fails exactly on an empty execution stack.
pub open spec fn return_rel(pre: State, post: State, ok: bool) -> bool {
    let out = spec_pop(pre.exe_stack@, pre.size as nat);
    &&& frame_except(pre, post, true, false, false, false, false, false, false, false)
    &&& post.exe_stack@ == out.0
    &&& post.size == out.1
    &&& ok == (out.2 is Some)
}

/// The `Yield` opcode: the top of the execution stack moves onto the
/// instruction stack; releasing the charge first, the move always fits.
pub open spec fn yield_rel(pre: State, post: State, ok: bool) -> bool {
    let s = pre.exe_stack@;
    &&& frame_except(pre, post, true, true, false, false, false, false, false, false)
    &&& if s.len() == 0 {
        &&& !ok
        &&& post.exe_stack@ == s
        &&& post.ins_stack@ == pre.ins_stack@
        &&& post.size == pre.size
    } else {
        &&& ok
        &&& post.exe_stack@ == s.drop_last()
        &&& post.ins_stack@ == pre.ins_stack@.push(s.last())
        &&& post.size == pre.size
    }
}

/// The `Call` opcode: the top of the instruction stack moves onto the
/// execution stack.
pub open spec fn call_rel(pre: State, post: State, ok: bool) -> bool {
    let s = pre.ins_stack@;
    &&& frame_except(pre, post, true, true, false, false, false, false, false, false)
    &&& if s.len() == 0 {
        &&& !ok
        &&& post.ins_stack@ == s
        &&& post.exe_stack@ == pre.exe_stack@
        &&& post.size == pre.size
    } else {
        &&& ok
        &&& post.ins_stack@ == s.drop_last()
        &&& post.exe_stack@ == pre.exe_stack@.push(s.last())
        &&& post.size == pre.size
    }
}

/// The `Provide` opcode: the top of the instruction stack leaves the
/// machine as the cycle's provided output.
pub open spec fn provide_rel(
    pre: State,
    post: State,
    provided: Option<SimpleInstruction>,
    ok: bool,
) -> bool {
    let out = spec_pop(pre.ins_stack@, pre.size as nat);
    &&& frame_except(pre, post, false, true, false, false, false, false, false, false)
    &&& post.ins_stack@ == out.0
    &&& post.size == out.1
    &&& provided == out.2
    &&& ok == (out.2 is Some)
}

/// Nothing changes and the opcode succeeds.
pub open spec fn idle_rel(pre: State, post: State) -> bool {
    &&& frame_except(pre, post, false, false, false, false, false, false, false, false)
    &&& post.size == pre.size
}

/// One step of a single-pass block: the block yields its next instruction,
/// the advanced block is pushed back onto the execution stack and the
/// yielded instruction is pushed above it, each push gated by the budget;
/// an exhausted block fails and vanishes.
pub open spec fn block_step_rel(
    pre: State,
    post: State,
    ok: bool,
    b: TrackedIter<SimpleInstruction>,
) -> bool {
    let s = pre.exe_stack@;
    &&& frame_except(pre, post, true, false, false, false, false, false, false, false)
    &&& if b.elems@.len() == 0 {
        &&& !ok
        &&& post.exe_stack@ == s
        &&& post.size == pre.size
    } else {
        let i0 = b.elems@[0];
        let c_block = INS_BYTES + b.size;
        if pre.size + c_block <= pre.max_size {
            if pre.size + c_block + i0.charge() <= pre.max_size {
                &&& ok
                &&& post.exe_stack@.len() == s.len() + 2
                &&& post.exe_stack@.subrange(0, s.len() as int) == s
                &&& post.exe_stack@[s.len() as int]@ == InsModel::BasicBlock(
                    views_of(b.elems@.subrange(1, b.elems@.len() as int)),
                    b.size as nat,
                )
                &&& post.exe_stack@.last() == i0
                &&& post.size == pre.size + c_block + i0.charge()
            } else {
                &&& !ok
                &&& post.exe_stack@.len() == s.len() + 1
                &&& post.exe_stack@.subrange(0, s.len() as int) == s
                &&& post.exe_stack@.last()@ == InsModel::BasicBlock(
                    views_of(b.elems@.subrange(1, b.elems@.len() as int)),
                    b.size as nat,
                )
                &&& post.size == pre.size + c_block
            }
        } else {
            &&& !ok
            &&& post.exe_stack@ == s
            &&& post.size == pre.size
        }
    }
}

/// One step of a cycling loop: as a block step, except that the yielded
/// instruction is a duplicate and the loop advances its position, wrapping
/// around; only a loop over an empty vector is exhausted.
pub open spec fn loop_step_rel(
    pre: State,
    post: State,
    ok: bool,
    l: TrackedCycleIter<SimpleInstruction>,
) -> bool {
    let s = pre.exe_stack@;
    &&& frame_except(pre, post, true, false, false, false, false, false, false, false)
    &&& if l.elems@.len() == 0 {
        &&& !ok
        &&& post.exe_stack@ == s
        &&& post.size == pre.size
    } else {
        let elem = l.elems@[l.pos as int];
        let c_loop = INS_BYTES + l.size;
        let advanced = TrackedCycleIter {
            elems: l.elems,
            pos: (if l.pos + 1 == l.elems@.len() {
                0usize
            } else {
                (l.pos + 1) as usize
            }),
            size: l.size,
        };
        if pre.size + c_loop <= pre.max_size {
            if pre.size + c_loop + elem.charge() <= pre.max_size {
                &&& ok
                &&& post.exe_stack@.len() == s.len() + 2
                &&& post.exe_stack@.subrange(0, s.len() as int) == s
                &&& post.exe_stack@[s.len() as int] == SimpleInstruction::Loop(advanced)
                &&& post.exe_stack@.last()@ == elem@
                &&& post.exe_stack@.last().charge() == elem.charge()
                &&& post.size == pre.size + c_loop + elem.charge()
            } else {
                &&& !ok
                &&& post.exe_stack@.len() == s.len() + 1
                &&& post.exe_stack@.subrange(0, s.len() as int) == s
                &&& post.exe_stack@.last() == SimpleInstruction::Loop(advanced)
                &&& post.size == pre.size + c_loop
            }
        } else {
            &&& !ok
            &&& post.exe_stack@ == s
            &&& post.size == pre.size
        }
    }
}

/// One step of a conditional: a boolean is popped (defaulting to false on
/// an empty stack) and the corresponding branch is pushed onto the
/// execution stack as a single-pass block, gated by the budget.
pub open spec fn if_step_rel(
    pre: State,
    post: State,
    ok: bool,
    t: TrackedIter<SimpleInstruction>,
    e: TrackedIter<SimpleInstruction>,
) -> bool {
    let p1 = popped_bool(pre.bool_stack@);
    let removed = pre.bool_stack@.len() - p1.0.len();
    let chosen = if p1.1 {
        t
    } else {
        e
    };
    let szp = pre.size - removed * BOOL_BYTES;
    let x = SimpleInstruction::BasicBlock(chosen);
    &&& frame_except(pre, post, true, false, false, false, true, false, false, false)
    &&& post.bool_stack@ == p1.0
    &&& ok == (szp + INS_BYTES + chosen.size <= pre.max_size)
    &&& (ok ==> post.exe_stack@ == pre.exe_stack@.push(x) && post.size == szp + INS_BYTES
        + chosen.size)
    &&& (!ok ==> post.exe_stack@ == pre.exe_stack@ && post.size == szp)
}

/// The combining function of a wrapping integer binary opcode; `b` is the
/// value that was on top.
pub open spec fn int_binop_fn(op: PlainOp) -> spec_fn(i64, i64) -> i64 {
    match op {
        PlainOp::Subi64 => |a: i64, b: i64| a.wrapping_sub(b),
        PlainOp::Muli64 => |a: i64, b: i64| a.wrapping_mul(b),
        PlainOp::Andi64 => |a: i64, b: i64| a & b,
        PlainOp::Ori64 => |a: i64, b: i64| a | b,
        PlainOp::Xori64 => |a: i64, b: i64| a ^ b,
        PlainOp::Powi64 => |a: i64, b: i64| spec_wrap_pow(a, spec_exp_of(b) as u32),
        PlainOp::Rotli64 => |a: i64, b: i64| spec_rotl(a, spec_mask31(b) as u32),
        PlainOp::Rotri64 => |a: i64, b: i64| spec_rotr(a, spec_mask31(b) as u32),
        _ => |a: i64, b: i64| a.wrapping_add(b),
    }
}

/// The combining function of a checked integer binary opcode.
pub open spec fn int_checked_binop_fn(op: PlainOp) -> spec_fn(i64, i64) -> Option<i64> {
    match op {
        PlainOp::Remi64 => |a: i64, b: i64| a.checked_rem(b),
        PlainOp::Shftli64 => |a: i64, b: i64| spec_checked_shl(a, spec_mask31(b) as u32),
        PlainOp::Shftri64 => |a: i64, b: i64| spec_checked_shr(a, spec_mask31(b) as u32),
        _ => |a: i64, b: i64| a.checked_div(b),
    }
}

/// The function of a wrapping integer unary opcode.
pub open spec fn int_unop_fn(op: PlainOp) -> spec_fn(i64) -> i64 {
    match op {
        PlainOp::Deci64 => |a: i64| a.wrapping_sub(1),
        PlainOp::Invi64 => |a: i64| a ^ (-1i64),
        _ => |a: i64| a.wrapping_add(1),
    }
}

/// The function of a checked integer unary opcode.
pub open spec fn int_checked_unop_fn(op: PlainOp) -> spec_fn(i64) -> Option<i64> {
    match op {
        PlainOp::Absi64 => |a: i64| spec_checked_abs(a),
        _ => |a: i64| spec_checked_neg(a),
    }
}

/// The predicate of an integer comparison opcode.
pub open spec fn int_cmp_fn(op: PlainOp) -> spec_fn(i64, i64) -> bool {
    match op {
        PlainOp::Grti64 => |a: i64, b: i64| a > b,
        PlainOp::Eqi64 => |a: i64, b: i64| a == b,
        PlainOp::Neqi64 => |a: i64, b: i64| a != b,
        _ => |a: i64, b: i64| a < b,
    }
}

/// The combining function of a boolean binary opcode.
pub open spec fn bool_binop_fn(op: PlainOp) -> spec_fn(bool, bool) -> bool {
    match op {
        PlainOp::Orb => |a: bool, b: bool| a || b,
        PlainOp::Eqb => |a: bool, b: bool| a == b,
        PlainOp::Neqb => |a: bool, b: bool| a != b,
        _ => |a: bool, b: bool| a && b,
    }
}

/// What one opcode does to the machine state: for every opcode, the exact
/// change of every stack and of the live size, with the values pinned
/// wherever no fallback provider and no float unit intervened, and the
/// shape and accounting pinned everywhere.
pub open spec fn plain_op_rel(
    pre: State,
    op: PlainOp,
    post: State,
    provided: Option<SimpleInstruction>,
    ok: bool,
) -> bool {
    match op {
        PlainOp::Inci64 | PlainOp::Deci64 | PlainOp::Invi64 => provided is None && int_unop_rel(
            pre,
            post,
            ok,
            int_unop_fn(op),
        ),
        PlainOp::Addi64 | PlainOp::Subi64 | PlainOp::Muli64 | PlainOp::Andi64 | PlainOp::Ori64
            | PlainOp::Xori64 | PlainOp::Powi64 | PlainOp::Rotli64 | PlainOp::Rotri64 => provided
            is None && int_binop_rel(pre, post, ok, int_binop_fn(op)),
        PlainOp::Divi64 | PlainOp::Remi64 | PlainOp::Shftli64 | PlainOp::Shftri64 => provided
            is None && int_checked_binop_rel(pre, post, ok, int_checked_binop_fn(op)),
        PlainOp::Negi64 | PlainOp::Absi64 => provided is None && int_checked_unop_rel(
            pre,
            post,
            ok,
            int_checked_unop_fn(op),
        ),
        PlainOp::Lesi64 | PlainOp::Grti64 | PlainOp::Eqi64 | PlainOp::Neqi64 => provided is None
            && int_cmp_rel(pre, post, ok, int_cmp_fn(op)),
        PlainOp::Incf64 | PlainOp::Decf64 | PlainOp::Negf64 | PlainOp::Absf64 => provided is None
            && float_unop_rel(pre, post, ok),
        PlainOp::Addf64 | PlainOp::Subf64 | PlainOp::Mulf64 | PlainOp::Divf64 | PlainOp::Remf64
            | PlainOp::Powff64 => provided is None && float_binop_rel(pre, post, ok),
        PlainOp::Powif64 => provided is None && powif_rel(pre, post, ok),
        PlainOp::Lesf64 | PlainOp::Grtf64 | PlainOp::Eqf64 | PlainOp::Neqf64 => provided is None
            && float_cmp_rel(pre, post, ok),
        PlainOp::Andb | PlainOp::Orb | PlainOp::Eqb | PlainOp::Neqb => provided is None
            && bool_binop_rel(pre, post, ok, bool_binop_fn(op)),
        PlainOp::Notb => provided is None && bool_unop_rel(pre, post, ok, |a: bool| !a),
        PlainOp::Itof => provided is None && itof_rel(pre, post, ok),
        PlainOp::Ftoi => provided is None && ftoi_rel(pre, post, ok),
        PlainOp::Rotins | PlainOp::Roti64 | PlainOp::Rotf64 | PlainOp::Rotb | PlainOp::Rotinsv
            | PlainOp::Roti64v | PlainOp::Rotf64v => provided is None && rot_op_rel(
            pre,
            op,
            post,
            ok,
        ),
        PlainOp::Copyins | PlainOp::Copyi64 | PlainOp::Copyf64 | PlainOp::Copyb
            | PlainOp::Copyinsv | PlainOp::Copyi64v | PlainOp::Copyf64v => provided is None
            && copy_op_rel(pre, op, post, ok),
        PlainOp::Popins | PlainOp::Popi64 | PlainOp::Popf64 | PlainOp::Popb | PlainOp::Popinsv
            | PlainOp::Popi64v | PlainOp::Popf64v => provided is None && discard_op_rel(
            pre,
            op,
            post,
            ok,
        ),
        PlainOp::Pushvins => provided is None && pushv_ins_rel(pre, post, ok),
        PlainOp::Pushvi64 => provided is None && pushv_int_rel(pre, post, ok),
        PlainOp::Pushvf64 => provided is None && pushv_float_rel(pre, post, ok),
        PlainOp::Popvins => provided is None && popv_ins_rel(pre, post, ok),
        PlainOp::Popvi64 => provided is None && popv_int_rel(pre, post, ok),
        PlainOp::Popvf64 => provided is None && popv_float_rel(pre, post, ok),
        PlainOp::Readvins => provided is None && readv_ins_rel(pre, post, ok),
        PlainOp::Readvi64 => provided is None && readv_int_rel(pre, post, ok),
        PlainOp::Readvf64 => provided is None && readv_float_rel(pre, post, ok),
        PlainOp::Writevins => provided is None && writev_ins_rel(pre, post, ok),
        PlainOp::Writevi64 => provided is None && writev_int_rel(pre, post, ok),
        PlainOp::Writevf64 => provided is None && writev_float_rel(pre, post, ok),
        PlainOp::Zeroi64 => provided is None && ({
            let out = spec_push(pre.int_stack@, pre.size as nat, pre.max_size as nat, 0i64);
            &&& frame_except(pre, post, false, false, true, false, false, false, false, false)
            &&& post.int_stack@ == out.0
            &&& post.size == out.1
            &&& ok == out.2
        }),
        PlainOp::CreatePlain => provided is None && create_plain_rel(pre, post, ok),
        PlainOp::CreateBasicBlock => provided is None && create_block_rel(pre, post, ok),
        PlainOp::CreateLoop => provided is None && create_loop_rel(pre, post, ok),
        PlainOp::CreateIf => provided is None && create_if_rel(pre, post, ok),
        PlainOp::CreatePushi64 => provided is None && create_push_int_rel(pre, post, ok),
        PlainOp::CreatePushf64 => provided is None && create_push_float_rel(pre, post, ok),
        PlainOp::CreatePushb => provided is None && create_push_bool_rel(pre, post, ok),
        PlainOp::CreatePushi64v => provided is None && create_push_intv_rel(pre, post, ok),
        PlainOp::CreatePushf64v => provided is None && create_push_floatv_rel(pre, post, ok),
        PlainOp::Return => provided is None && return_rel(pre, post, ok),
        PlainOp::Yield => provided is None && yield_rel(pre, post, ok),
        PlainOp::Call => provided is None && call_rel(pre, post, ok),
        PlainOp::Nop => provided is None && ok && idle_rel(pre, post),
        PlainOp::Provide => provide_rel(pre, post, provided, ok),
    }
}

/// What one instruction does to the machine state in one cycle: the
/// operational semantics of the simple dialect, instruction by
/// instruction.
pub open spec fn op_rel(
    pre: State,
    i: SimpleInstruction,
    post: State,
    provided: Option<SimpleInstruction>,
    ok: bool,
) -> bool {
    match i {
        SimpleInstruction::PlainOp(op) => plain_op_rel(pre, op, post, provided, ok),
        SimpleInstruction::BasicBlock(b) => provided is None && block_step_rel(pre, post, ok, b),
        SimpleInstruction::Loop(l) => provided is None && loop_step_rel(pre, post, ok, l),
        SimpleInstruction::If(t, e) => provided is None && if_step_rel(pre, post, ok, t, e),
        SimpleInstruction::Pushi64(n) => provided is None && ({
            let out = spec_push(pre.int_stack@, pre.size as nat, pre.max_size as nat, n);
            &&& frame_except(pre, post, false, false, true, false, false, false, false, false)
            &&& post.int_stack@ == out.0
            &&& post.size == out.1
            &&& ok == out.2
        }),
        SimpleInstruction::Pushf64(f) => provided is None && ({
            let out = spec_push(pre.float_stack@, pre.size as nat, pre.max_size as nat, f);
            &&& frame_except(pre, post, false, false, false, true, false, false, false, false)
            &&& post.float_stack@ == out.0
            &&& post.size == out.1
            &&& ok == out.2
        }),
        SimpleInstruction::Pushb(b) => provided is None && ({
            let out = spec_push(pre.bool_stack@, pre.size as nat, pre.max_size as nat, b);
            &&& frame_except(pre, post, false, false, false, false, true, false, false, false)
            &&& post.bool_stack@ == out.0
            &&& post.size == out.1
            &&& ok == out.2
        }),
        SimpleInstruction::Pushi64v(v) => provided is None && ({
            let out = spec_push(pre.int_vec_stack@, pre.size as nat, pre.max_size as nat, v);
            &&& frame_except(pre, post, false, false, false, false, false, false, true, false)
            &&& post.int_vec_stack@ == out.0
            &&& post.size == out.1
            &&& ok == out.2
        }),
        SimpleInstruction::Pushf64v(v) => provided is None && ({
            let out = spec_push(pre.float_vec_stack@, pre.size as nat, pre.max_size as nat, v);
            &&& frame_except(pre, post, false, false, false, false, false, false, false, true)
            &&& post.float_vec_stack@ == out.0
            &&& post.size == out.1
            &&& ok == out.2
        }),
    }
}

impl<IH: InsHandler, NH: IntHandler, FH: FloatSupport> Machine<IH, NH, FH> {
    /// Execute a wrapping integer unary opcode.
    fn do_int_unop(&mut self, op: PlainOp) -> (r: bool)
        requires
            old(self).inv(),
            op == PlainOp::Inci64 || op == PlainOp::Deci64 || op == PlainOp::Invi64,
        ensures
            final(self).inv(),
            int_unop_rel(old(self).state, final(self).state, r, int_unop_fn(op)),
    {
        let a = self.take_int();
        let v = match op {
            PlainOp::Deci64 => a.wrapping_sub(1),
            PlainOp::Invi64 => a ^ (-1i64),
            _ => a.wrapping_add(1),
        };
        self.state.push_int(v).is_ok()
    }

    /// Execute a wrapping integer binary opcode.
    fn do_int_binop(&mut self, op: PlainOp) -> (r: bool)
        requires
            old(self).inv(),
            op == PlainOp::Addi64 || op == PlainOp::Subi64 || op == PlainOp::Muli64 || op
                == PlainOp::Andi64 || op == PlainOp::Ori64 || op == PlainOp::Xori64 || op
                == PlainOp::Powi64 || op == PlainOp::Rotli64 || op == PlainOp::Rotri64,
        ensures
            final(self).inv(),
            int_binop_rel(old(self).state, final(self).state, r, int_binop_fn(op)),
    {
        let b = self.take_int();
        let a = self.take_int();
        let v = match op {
            PlainOp::Subi64 => a.wrapping_sub(b),
            PlainOp::Muli64 => a.wrapping_mul(b),
            PlainOp::Andi64 => a & b,
            PlainOp::Ori64 => a | b,
            PlainOp::Xori64 => a ^ b,
            PlainOp::Powi64 => a.wrapping_pow(exp_of(b)),
            PlainOp::Rotli64 => rotl_i64(a, mask31(b) as u32),
            PlainOp::Rotri64 => rotr_i64(a, mask31(b) as u32),
            _ => a.wrapping_add(b),
        };
        self.state.push_int(v).is_ok()
    }

    /// Execute a checked integer binary opcode; the integer fallback
    /// provider substitutes on a failed check.
    fn do_int_checked_binop(&mut self, op: PlainOp) -> (r: bool)
        requires
            old(self).inv(),
            op == PlainOp::Divi64 || op == PlainOp::Remi64 || op == PlainOp::Shftli64 || op
                == PlainOp::Shftri64,
        ensures
            final(self).inv(),
            int_checked_binop_rel(old(self).state, final(self).state, r, int_checked_binop_fn(op)),
    {
        let b = self.take_int();
        let a = self.take_int();
        let v = match op {
            PlainOp::Remi64 => a.checked_rem(b),
            PlainOp::Shftli64 => checked_shl_i64(a, mask31(b) as u32),
            PlainOp::Shftri64 => checked_shr_i64(a, mask31(b) as u32),
            _ => a.checked_div(b),
        };
        let w = match v {
            Some(x) => x,
            None => self.int_handler.next_int(),
        };
        self.state.push_int(w).is_ok()
    }

    /// Execute a checked integer unary opcode; the integer fallback
    /// provider substitutes on a failed check.
    fn do_int_checked_unop(&mut self, op: PlainOp) -> (r: bool)
        requires
            old(self).inv(),
            op == PlainOp::Negi64 || op == PlainOp::Absi64,
        ensures
            final(self).inv(),
            int_checked_unop_rel(old(self).state, final(self).state, r, int_checked_unop_fn(op)),
    {
        let a = self.take_int();
        let v = match op {
            PlainOp::Absi64 => checked_abs_i64(a),
            _ => checked_neg_i64(a),
        };
        let w = match v {
            Some(x) => x,
            None => self.int_handler.next_int(),
        };
        self.state.push_int(w).is_ok()
    }

    /// Execute an integer comparison opcode.
    fn do_int_cmp(&mut self, op: PlainOp) -> (r: bool)
        requires
            old(self).inv(),
            op == PlainOp::Lesi64 || op == PlainOp::Grti64 || op == PlainOp::Eqi64 || op
                == PlainOp::Neqi64,
        ensures
            final(self).inv(),
            int_cmp_rel(old(self).state, final(self).state, r, int_cmp_fn(op)),
    {
        let b = self.take_int();
        let a = self.take_int();
        let v = match op {
            PlainOp::Grti64 => a > b,
            PlainOp::Eqi64 => a == b,
            PlainOp::Neqi64 => a != b,
            _ => a < b,
        };
        self.state.push_bool(v).is_ok()
    }

    /// Execute a boolean binary opcode.
    fn do_bool_binop(&mut self, op: PlainOp) -> (r: bool)
        requires
            old(self).inv(),
            op == PlainOp::Andb || op == PlainOp::Orb || op == PlainOp::Eqb || op
                == PlainOp::Neqb,
        ensures
            final(self).inv(),
            bool_binop_rel(old(self).state, final(self).state, r, bool_binop_fn(op)),
    {
        let b = self.take_bool();
        let a = self.take_bool();
        let v = match op {
            PlainOp::Orb => a || b,
            PlainOp::Eqb => a == b,
            PlainOp::Neqb => a != b,
            _ => a && b,
        };
        self.state.push_bool(v).is_ok()
    }

    /// Execute the boolean negation opcode.
    fn do_bool_unop(&mut self) -> (r: bool)
        requires
            old(self).inv(),
        ensures
            final(self).inv(),
            bool_unop_rel(old(self).state, final(self).state, r, |a: bool| !a),
    {
        let a = self.take_bool();
        self.state.push_bool(!a).is_ok()
    }

    /// Execute a float binary opcode through the float unit.
    fn do_float_binop(&mut self, op: PlainOp) -> (r: bool)
        requires
            old(self).inv(),
            op == PlainOp::Addf64 || op == PlainOp::Subf64 || op == PlainOp::Mulf64 || op
                == PlainOp::Divf64 || op == PlainOp::Remf64 || op == PlainOp::Powff64,
        ensures
            final(self).inv(),
            float_binop_rel(old(self).state, final(self).state, r),
    {
        let b = self.take_float();
        let a = self.take_float();
        let v = match op {
            PlainOp::Subf64 => self.float_handler.sub(a, b),
            PlainOp::Mulf64 => self.float_handler.mul(a, b),
            PlainOp::Divf64 => self.float_handler.div(a, b),
            PlainOp::Remf64 => self.float_handler.rem(a, b),
            PlainOp::Powff64 => self.float_handler.powf(a, b),
            _ => self.float_handler.add(a, b),
        };
        self.state.push_float(v).is_ok()
    }

    /// Execute a float unary opcode through the float unit.
    fn do_float_unop(&mut self, op: PlainOp) -> (r: bool)
        requires
            old(self).inv(),
            op == PlainOp::Incf64 || op == PlainOp::Decf64 || op == PlainOp::Negf64 || op
                == PlainOp::Absf64,
        ensures
            final(self).inv(),
            float_unop_rel(old(self).state, final(self).state, r),
    {
        let a = self.take_float();
        let v = match op {
            PlainOp::Decf64 => self.float_handler.dec(a),
            PlainOp::Negf64 => self.float_handler.neg(a),
            PlainOp::Absf64 => self.float_handler.abs(a),
            _ => self.float_handler.inc(a),
        };
        self.state.push_float(v).is_ok()
    }

    /// Execute a float comparison opcode through the float unit.
    fn do_float_cmp(&mut self, op: PlainOp) -> (r: bool)
        requires
            old(self).inv(),
            op == PlainOp::Lesf64 || op == PlainOp::Grtf64 || op == PlainOp::Eqf64 || op
                == PlainOp::Neqf64,
        ensures
            final(self).inv(),
            float_cmp_rel(old(self).state, final(self).state, r),
    {
        let b = self.take_float();
        let a = self.take_float();
        let v = match op {
            PlainOp::Grtf64 => self.float_handler.gt(a, b),
            PlainOp::Eqf64 => self.float_handler.eq_val(a, b),
            PlainOp::Neqf64 => !self.float_handler.eq_val(a, b),
            _ => self.float_handler.lt(a, b),
        };
        self.state.push_bool(v).is_ok()
    }

    /// Execute the float-to-integer-power opcode: the exponent is clamped
    /// into the 32-bit range, substituting one when it does not fit.
    fn do_powif(&mut self) -> (r: bool)
        requires
            old(self).inv(),
        ensures
            final(self).inv(),
            powif_rel(old(self).state, final(self).state, r),
    {
        let b = self.take_int();
        let a = self.take_float();
        let e: i32 = if b <= i32::MAX as i64 && b >= i32::MIN as i64 {
            b as i32
        } else {
            1
        };
        let v = self.float_handler.powi(a, e);
        self.state.push_float(v).is_ok()
    }

    /// Execute the integer-to-float conversion opcode.
    fn do_itof(&mut self) -> (r: bool)
        requires
            old(self).inv(),
        ensures
            final(self).inv(),
            itof_rel(old(self).state, final(self).state, r),
    {
        let a = self.take_int();
        let v = self.float_handler.of_int(a);
        self.state.push_float(v).is_ok()
    }

    /// Execute the float-to-integer conversion opcode: a normal value
    /// casts, zero converts to zero, and every other classification draws
    /// from the integer fallback provider.
    fn do_ftoi(&mut self) -> (r: bool)
        requires
            old(self).inv(),
        ensures
            final(self).inv(),
            ftoi_rel(old(self).state, final(self).state, r),
    {
        let a = self.take_float();
        let c = self.float_handler.classify(a);
        let v = match c {
            FloatClass::Normal => self.float_handler.to_int(a),
            FloatClass::Zero => 0,
            FloatClass::Other => self.int_handler.next_int(),
        };
        self.state.push_int(v).is_ok()
    }
}

impl<IH: InsHandler, NH: IntHandler, FH: FloatSupport> Machine<IH, NH, FH> {
    /// Execute a rotation opcode: the position leaves the integer stack
    /// and the target stack is rotated at the masked position.
    fn do_rot(&mut self, op: PlainOp) -> (r: bool)
        requires
            old(self).inv(),
            op == PlainOp::Rotins || op == PlainOp::Roti64 || op == PlainOp::Rotf64 || op
                == PlainOp::Rotb || op == PlainOp::Rotinsv || op == PlainOp::Roti64v || op
                == PlainOp::Rotf64v,
        ensures
            final(self).inv(),
            rot_op_rel(old(self).state, op, final(self).state, r),
    {
        let p = self.take_int();
        let pos = mask31(p);
        match op {
            PlainOp::Rotins => self.state.rot_ins(pos),
            PlainOp::Roti64 => self.state.rot_int(pos),
            PlainOp::Rotf64 => self.state.rot_float(pos),
            PlainOp::Rotb => self.state.rot_bool(pos),
            PlainOp::Rotinsv => self.state.rot_ins_vec(pos),
            PlainOp::Roti64v => self.state.rot_int_vec(pos),
            _ => self.state.rot_float_vec(pos),
        }
    }

    /// Execute a copy opcode: the depth leaves the integer stack, the
    /// element at the masked depth of the target stack is cloned and
    /// pushed back through the budgeted push.
    fn do_copy(&mut self, op: PlainOp) -> (r: bool)
        requires
            old(self).inv(),
            op == PlainOp::Copyins || op == PlainOp::Copyi64 || op == PlainOp::Copyf64 || op
                == PlainOp::Copyb || op == PlainOp::Copyinsv || op == PlainOp::Copyi64v || op
                == PlainOp::Copyf64v,
        ensures
            final(self).inv(),
            copy_op_rel(old(self).state, op, final(self).state, r),
    {
        let p = self.take_int();
        let pos = mask31(p);
        match op {
            PlainOp::Copyins => match self.state.copy_ins(pos) {
                Some(x) => self.state.push_ins(x).is_ok(),
                None => false,
            },
            PlainOp::Copyi64 => match self.state.copy_int(pos) {
                Some(x) => self.state.push_int(x).is_ok(),
                None => false,
            },
            PlainOp::Copyf64 => match self.state.copy_float(pos) {
                Some(x) => self.state.push_float(x).is_ok(),
                None => false,
            },
            PlainOp::Copyb => match self.state.copy_bool(pos) {
                Some(x) => self.state.push_bool(x).is_ok(),
                None => false,
            },
            PlainOp::Copyinsv => match self.state.copy_ins_vec(pos) {
                Some(x) => self.state.push_ins_vec(x).is_ok(),
                None => false,
            },
            PlainOp::Copyi64v => match self.state.copy_int_vec(pos) {
                Some(x) => self.state.push_int_vec(x).is_ok(),
                None => false,
            },
            _ => match self.state.copy_float_vec(pos) {
                Some(x) => self.state.push_float_vec(x).is_ok(),
                None => false,
            },
        }
    }

    /// Execute a discard opcode: the top of the named stack is dropped.
    fn do_discard(&mut self, op: PlainOp) -> (r: bool)
        requires
            old(self).inv(),
            op == PlainOp::Popins || op == PlainOp::Popi64 || op == PlainOp::Popf64 || op
                == PlainOp::Popb || op == PlainOp::Popinsv || op == PlainOp::Popi64v || op
                == PlainOp::Popf64v,
        ensures
            final(self).inv(),
            discard_op_rel(old(self).state, op, final(self).state, r),
    {
        match op {
            PlainOp::Popins => self.state.pop_ins().is_some(),
            PlainOp::Popi64 => self.state.pop_int().is_some(),
            PlainOp::Popf64 => self.state.pop_float().is_some(),
            PlainOp::Popb => self.state.pop_bool().is_some(),
            PlainOp::Popinsv => self.state.pop_ins_vec().is_some(),
            PlainOp::Popi64v => self.state.pop_int_vec().is_some(),
            _ => self.state.pop_float_vec().is_some(),
        }
    }

    /// Execute the append-to-vector opcode for the instruction kind.
    fn do_pushv_ins(&mut self) -> (r: bool)
        requires
            old(self).inv(),
        ensures
            final(self).inv(),
            pushv_ins_rel(old(self).state, final(self).state, r),
    {
        match self.state.pop_ins() {
            Some(e) => self.state.push_ins_to_vec(e).is_ok(),
            None => false,
        }
    }

    /// Execute the append-to-vector opcode for the integer kind.
    fn do_pushv_int(&mut self) -> (r: bool)
        requires
            old(self).inv(),
        ensures
            final(self).inv(),
            pushv_int_rel(old(self).state, final(self).state, r),
    {
        match self.state.pop_int() {
            Some(e) => self.state.push_int_to_vec(e).is_ok(),
            None => false,
        }
    }

    /// Execute the append-to-vector opcode for the float kind.
    fn do_pushv_float(&mut self) -> (r: bool)
        requires
            old(self).inv(),
        ensures
            final(self).inv(),
            pushv_float_rel(old(self).state, final(self).state, r),
    {
        match self.state.pop_float() {
            Some(e) => self.state.push_float_to_vec(e).is_ok(),
            None => false,
        }
    }

    /// Execute the pop-from-vector opcode for the instruction kind.
    fn do_popv_ins(&mut self) -> (r: bool)
        requires
            old(self).inv(),
        ensures
            final(self).inv(),
            popv_ins_rel(old(self).state, final(self).state, r),
    {
        match self.state.pop_ins_from_vec() {
            Some(e) => self.state.push_ins(e).is_ok(),
            None => false,
        }
    }

    /// Execute the pop-from-vector opcode for the integer kind.
    fn do_popv_int(&mut self) -> (r: bool)
        requires
            old(self).inv(),
        ensures
            final(self).inv(),
            popv_int_rel(old(self).state, final(self).state, r),
    {
        match self.state.pop_int_from_vec() {
            Some(e) => self.state.push_int(e).is_ok(),
            None => false,
        }
    }

    /// Execute the pop-from-vector opcode for the float kind.
    fn do_popv_float(&mut self) -> (r: bool)
        requires
            old(self).inv(),
        ensures
            final(self).inv(),
            popv_float_rel(old(self).state, final(self).state, r),
    {
        match self.state.pop_float_from_vec() {
            Some(e) => self.state.push_float(e).is_ok(),
            None => false,
        }
    }

    /// Execute the read-from-vector opcode for the instruction kind.
    fn do_readv_ins(&mut self) -> (r: bool)
        requires
            old(self).inv(),
        ensures
            final(self).inv(),
            readv_ins_rel(old(self).state, final(self).state, r),
    {
        match self.state.pop_int() {
            None => false,
            Some(ix) => match self.state.get_ins_from_vec(mask31(ix)) {
                Some(e) => self.state.push_ins(e).is_ok(),
                None => false,
            },
        }
    }

    /// Execute the read-from-vector opcode for the integer kind.
    fn do_readv_int(&mut self) -> (r: bool)
        requires
            old(self).inv(),
        ensures
            final(self).inv(),
            readv_int_rel(old(self).state, final(self).state, r),
    {
        match self.state.pop_int() {
            None => false,
            Some(ix) => match self.state.get_int_from_vec(mask31(ix)) {
                Some(e) => self.state.push_int(e).is_ok(),
                None => false,
            },
        }
    }

    /// Execute the read-from-vector opcode for the float kind.
    fn do_readv_float(&mut self) -> (r: bool)
        requires
            old(self).inv(),
        ensures
            final(self).inv(),
            readv_float_rel(old(self).state, final(self).state, r),
    {
        match self.state.pop_int() {
            None => false,
            Some(ix) => match self.state.get_float_from_vec(mask31(ix)) {
                Some(e) => self.state.push_float(e).is_ok(),
                None => false,
            },
        }
    }

    /// Execute the write-to-vector opcode for the instruction kind.
    fn do_writev_ins(&mut self) -> (r: bool)
        requires
            old(self).inv(),
        ensures
            final(self).inv(),
            writev_ins_rel(old(self).state, final(self).state, r),
    {
        match self.state.pop_int() {
            None => false,
            Some(ix) => match self.state.pop_ins() {
                None => false,
                Some(e) => self.state.write_ins_to_vec(mask31(ix), e).is_ok(),
            },
        }
    }

    /// Execute the write-to-vector opcode for the integer kind.
    fn do_writev_int(&mut self) -> (r: bool)
        requires
            old(self).inv(),
        ensures
            final(self).inv(),
            writev_int_rel(old(self).state, final(self).state, r),
    {
        match self.state.pop_int() {
            None => false,
            Some(ix) => match self.state.pop_int() {
                None => false,
                Some(e) => self.state.write_int_to_vec(mask31(ix), e).is_ok(),
            },
        }
    }

    /// Execute the write-to-vector opcode for the float kind.
    fn do_writev_float(&mut self) -> (r: bool)
        requires
            old(self).inv(),
        ensures
            final(self).inv(),
            writev_float_rel(old(self).state, final(self).state, r),
    {
        match self.state.pop_int() {
            None => false,
            Some(ix) => match self.state.pop_float() {
                None => false,
                Some(e) => self.state.write_float_to_vec(mask31(ix), e).is_ok(),
            },
        }
    }
}

impl<IH: InsHandler, NH: IntHandler, FH: FloatSupport> Machine<IH, NH, FH> {
    /// Execute the opcode-construction instruction.
    fn do_create_plain(&mut self) -> (r: bool)
        requires
            old(self).inv(),
        ensures
            final(self).inv(),
            create_plain_rel(old(self).state, final(self).state, r),
    {
        match self.state.pop_int() {
            None => false,
            Some(n) => {
                let pos = mask31(n);
                if pos < TOTAL_PLAIN_INSTRUCTIONS {
                    let opc = opcode_from_ordinal(pos);
                    self.state.push_ins(SimpleInstruction::PlainOp(opc)).is_ok()
                } else {
                    false
                }
            },
        }
    }

    /// Execute the block-construction instruction.
    fn do_create_block(&mut self) -> (r: bool)
        requires
            old(self).inv(),
        ensures
            final(self).inv(),
            create_block_rel(old(self).state, final(self).state, r),
    {
        proof {
            if old(self).state.ins_vec_stack@.len() > 0 {
                lemma_seq_charge_index_le(
                    old(self).state.ins_vec_stack@,
                    old(self).state.ins_vec_stack@.len() - 1,
                );
            }
        }
        match self.state.pop_ins_vec() {
            None => false,
            Some(v) => {
                let headroom = self.state.max_size - self.state.size;
                if INS_BYTES <= headroom && v.size <= headroom - INS_BYTES {
                    let ghost vv = v;
                    let x = SimpleInstruction::BasicBlock(v.into_iter());
                    proof {
                        crate::simple::simple_instruction::lemma_seq_ins_wf(vv.vec@);
                    }
                    self.state.push_ins(x).is_ok()
                } else {
                    false
                }
            },
        }
    }

    /// Execute the loop-construction instruction.
    fn do_create_loop(&mut self) -> (r: bool)
        requires
            old(self).inv(),
        ensures
            final(self).inv(),
            create_loop_rel(old(self).state, final(self).state, r),
    {
        proof {
            if old(self).state.ins_vec_stack@.len() > 0 {
                lemma_seq_charge_index_le(
                    old(self).state.ins_vec_stack@,
                    old(self).state.ins_vec_stack@.len() - 1,
                );
            }
        }
        match self.state.pop_ins_vec() {
            None => false,
            Some(v) => {
                let headroom = self.state.max_size - self.state.size;
                if INS_BYTES <= headroom && v.size <= headroom - INS_BYTES {
                    let ghost vv = v;
                    let x = SimpleInstruction::Loop(v.into_cycle_iter());
                    proof {
                        crate::simple::simple_instruction::lemma_seq_ins_wf(vv.vec@);
                    }
                    self.state.push_ins(x).is_ok()
                } else {
                    false
                }
            },
        }
    }

    /// Execute the conditional-construction instruction: the false branch
    /// is popped first, then the true branch; the conditional carries the
    /// true branch first.
    fn do_create_if(&mut self) -> (r: bool)
        requires
            old(self).inv(),
        ensures
            final(self).inv(),
            create_if_rel(old(self).state, final(self).state, r),
    {
        proof {
            let vs = old(self).state.ins_vec_stack@;
            if vs.len() > 0 {
                lemma_seq_charge_index_le(vs, vs.len() - 1);
            }
            if vs.len() > 1 {
                lemma_seq_charge_split(vs, vs.len() - 2);
                let tail = vs.subrange(vs.len() - 1, vs.len() as int);
                assert(tail.drop_last() =~= Seq::<TrackedVec<SimpleInstruction>>::empty());
                assert(seq_charge(Seq::<TrackedVec<SimpleInstruction>>::empty()) == 0);
                assert(seq_charge(tail) == vs.last().charge());
            }
        }
        match self.state.pop_ins_vec() {
            None => false,
            Some(vf) => match self.state.pop_ins_vec() {
                None => false,
                Some(vt) => {
                    let ghost gvf = vf;
                    let ghost gvt = vt;
                    let x = SimpleInstruction::If(vt.into_iter(), vf.into_iter());
                    proof {
                        crate::simple::simple_instruction::lemma_seq_ins_wf(gvf.vec@);
                        crate::simple::simple_instruction::lemma_seq_ins_wf(gvt.vec@);
                    }
                    self.state.push_ins(x).is_ok()
                },
            },
        }
    }

    /// Execute the integer-literal construction instruction.
    fn do_create_push_int(&mut self) -> (r: bool)
        requires
            old(self).inv(),
        ensures
            final(self).inv(),
            create_push_int_rel(old(self).state, final(self).state, r),
    {
        match self.state.pop_int() {
            None => false,
            Some(n) => self.state.push_ins(SimpleInstruction::Pushi64(n)).is_ok(),
        }
    }

    /// Execute the float-literal construction instruction.
    fn do_create_push_float(&mut self) -> (r: bool)
        requires
            old(self).inv(),
        ensures
            final(self).inv(),
            create_push_float_rel(old(self).state, final(self).state, r),
    {
        match self.state.pop_float() {
            None => false,
            Some(f) => self.state.push_ins(SimpleInstruction::Pushf64(f)).is_ok(),
        }
    }

    /// Execute the boolean-literal construction instruction.
    fn do_create_push_bool(&mut self) -> (r: bool)
        requires
            old(self).inv(),
        ensures
            final(self).inv(),
            create_push_bool_rel(old(self).state, final(self).state, r),
    {
        match self.state.pop_bool() {
            None => false,
            Some(b) => self.state.push_ins(SimpleInstruction::Pushb(b)).is_ok(),
        }
    }

    /// Execute the integer-vector-literal construction instruction.
    fn do_create_push_intv(&mut self) -> (r: bool)
        requires
            old(self).inv(),
        ensures
            final(self).inv(),
            create_push_intv_rel(old(self).state, final(self).state, r),
    {
        proof {
            if old(self).state.int_vec_stack@.len() > 0 {
                lemma_seq_charge_index_le(
                    old(self).state.int_vec_stack@,
                    old(self).state.int_vec_stack@.len() - 1,
                );
            }
        }
        match self.state.pop_int_vec() {
            None => false,
            Some(v) => {
                let headroom = self.state.max_size - self.state.size;
                if INS_BYTES <= headroom && v.size <= headroom - INS_BYTES {
                    self.state.push_ins(SimpleInstruction::Pushi64v(v)).is_ok()
                } else {
                    false
                }
            },
        }
    }

    /// Execute the float-vector-literal construction instruction.
    fn do_create_push_floatv(&mut self) -> (r: bool)
        requires
            old(self).inv(),
        ensures
            final(self).inv(),
            create_push_floatv_rel(old(self).state, final(self).state, r),
    {
        proof {
            if old(self).state.float_vec_stack@.len() > 0 {
                lemma_seq_charge_index_le(
                    old(self).state.float_vec_stack@,
                    old(self).state.float_vec_stack@.len() - 1,
                );
            }
        }
        match self.state.pop_float_vec() {
            None => false,
            Some(v) => {
                let headroom = self.state.max_size - self.state.size;
                if INS_BYTES <= headroom && v.size <= headroom - INS_BYTES {
                    self.state.push_ins(SimpleInstruction::Pushf64v(v)).is_ok()
                } else {
                    false
                }
            },
        }
    }

    /// Execute the `Yield` opcode.
    fn do_yield(&mut self) -> (r: bool)
        requires
            old(self).inv(),
        ensures
            final(self).inv(),
            yield_rel(old(self).state, final(self).state, r),
    {
        match self.state.pop_exe() {
            None => false,
            Some(e) => self.state.push_ins(e).is_ok(),
        }
    }

    /// Execute the `Call` opcode.
    fn do_call(&mut self) -> (r: bool)
        requires
            old(self).inv(),
        ensures
            final(self).inv(),
            call_rel(old(self).state, final(self).state, r),
    {
        match self.state.pop_ins() {
            None => false,
            Some(e) => self.state.push_exe(e).is_ok(),
        }
    }
}

impl SimpleInstruction {
    /// Execute this instruction against the machine: exactly one cycle's
    /// worth of work, always terminating, always leaving the accounting
    /// invariant and the budget intact whatever the instruction, the
    /// providers and the float unit did. Returns the instruction emitted
    /// by the `Provide` opcode, if any, and whether the operation made its
    /// intended effect; failure is an ordinary, non-fatal event.
    pub fn operate<IH: InsHandler, NH: IntHandler, FH: FloatSupport>(
        self,
        machine: &mut Machine<IH, NH, FH>,
    ) -> (r: (Option<SimpleInstruction>, bool))
        requires
            old(machine).inv(),
            self.wf(),
        ensures
            final(machine).inv(),
            op_rel(old(machine).state, self, final(machine).state, r.0, r.1),
            (match r.0 {
                Some(i) => i.wf(),
                None => true,
            }),
    {
        match self {
            SimpleInstruction::PlainOp(op) => {
                match op {
                    PlainOp::Provide => {
                        let p = machine.state.pop_ins();
                        let ok = p.is_some();
                        (p, ok)
                    },
                    _ => {
                        let ok = match op {
                            PlainOp::Inci64 | PlainOp::Deci64 | PlainOp::Invi64 => machine
                                .do_int_unop(op),
                            PlainOp::Addi64 | PlainOp::Subi64 | PlainOp::Muli64 | PlainOp::Andi64
                                | PlainOp::Ori64 | PlainOp::Xori64 | PlainOp::Powi64
                                | PlainOp::Rotli64 | PlainOp::Rotri64 => machine.do_int_binop(op),
                            PlainOp::Divi64 | PlainOp::Remi64 | PlainOp::Shftli64
                                | PlainOp::Shftri64 => machine.do_int_checked_binop(op),
                            PlainOp::Negi64 | PlainOp::Absi64 => machine.do_int_checked_unop(op),
                            PlainOp::Lesi64 | PlainOp::Grti64 | PlainOp::Eqi64 | PlainOp::Neqi64
                                => machine.do_int_cmp(op),
                            PlainOp::Incf64 | PlainOp::Decf64 | PlainOp::Negf64 | PlainOp::Absf64
                                => machine.do_float_unop(op),
                            PlainOp::Addf64 | PlainOp::Subf64 | PlainOp::Mulf64 | PlainOp::Divf64
                                | PlainOp::Remf64 | PlainOp::Powff64 => machine.do_float_binop(op),
                            PlainOp::Powif64 => machine.do_powif(),
                            PlainOp::Lesf64 | PlainOp::Grtf64 | PlainOp::Eqf64 | PlainOp::Neqf64
                                => machine.do_float_cmp(op),
                            PlainOp::Andb | PlainOp::Orb | PlainOp::Eqb | PlainOp::Neqb => machine
                                .do_bool_binop(op),
                            PlainOp::Notb => machine.do_bool_unop(),
                            PlainOp::Itof => machine.do_itof(),
                            PlainOp::Ftoi => machine.do_ftoi(),
                            PlainOp::Rotins | PlainOp::Roti64 | PlainOp::Rotf64 | PlainOp::Rotb
                                | PlainOp::Rotinsv | PlainOp::Roti64v | PlainOp::Rotf64v => machine
                                .do_rot(op),
                            PlainOp::Copyins | PlainOp::Copyi64 | PlainOp::Copyf64 | PlainOp::Copyb
                                | PlainOp::Copyinsv | PlainOp::Copyi64v | PlainOp::Copyf64v
                                => machine.do_copy(op),
                            PlainOp::Popins | PlainOp::Popi64 | PlainOp::Popf64 | PlainOp::Popb
                                | PlainOp::Popinsv | PlainOp::Popi64v | PlainOp::Popf64v => machine
                                .do_discard(op),
                            PlainOp::Pushvins => machine.do_pushv_ins(),
                            PlainOp::Pushvi64 => machine.do_pushv_int(),
                            PlainOp::Pushvf64 => machine.do_pushv_float(),
                            PlainOp::Popvins => machine.do_popv_ins(),
                            PlainOp::Popvi64 => machine.do_popv_int(),
                            PlainOp::Popvf64 => machine.do_popv_float(),
                            PlainOp::Readvins => machine.do_readv_ins(),
                            PlainOp::Readvi64 => machine.do_readv_int(),
                            PlainOp::Readvf64 => machine.do_readv_float(),
                            PlainOp::Writevins => machine.do_writev_ins(),
                            PlainOp::Writevi64 => machine.do_writev_int(),
                            PlainOp::Writevf64 => machine.do_writev_float(),
                            PlainOp::Zeroi64 => machine.state.push_int(0).is_ok(),
                            PlainOp::CreatePlain => machine.do_create_plain(),
                            PlainOp::CreateBasicBlock => machine.do_create_block(),
                            PlainOp::CreateLoop => machine.do_create_loop(),
                            PlainOp::CreateIf => machine.do_create_if(),
                            PlainOp::CreatePushi64 => machine.do_create_push_int(),
                            PlainOp::CreatePushf64 => machine.do_create_push_float(),
                            PlainOp::CreatePushb => machine.do_create_push_bool(),
                            PlainOp::CreatePushi64v => machine.do_create_push_intv(),
                            PlainOp::CreatePushf64v => machine.do_create_push_floatv(),
                            PlainOp::Return => machine.state.pop_exe().is_some(),
                            PlainOp::Yield => machine.do_yield(),
                            PlainOp::Call => machine.do_call(),
                            _ => true,
                        };
                        (None, ok)
                    },
                }
            },
            SimpleInstruction::BasicBlock(mut b) => {
                proof {
                    crate::simple::simple_instruction::lemma_seq_ins_wf(b.elems@);
                }
                let ok = match b.next() {
                    None => false,
                    Some(i) => {
                        proof {
                            crate::simple::simple_instruction::lemma_seq_ins_wf(b.elems@);
                        }
                        let ghost s0 = machine.state.exe_stack@;
                        let ok1 = machine.state.push_exe(
                            SimpleInstruction::BasicBlock(b),
                        ).is_ok();
                        if ok1 {
                            let ok2 = machine.state.push_exe(i).is_ok();
                            proof {
                                if ok2 {
                                    assert(machine.state.exe_stack@.subrange(0, s0.len() as int)
                                        =~= s0);
                                } else {
                                    assert(machine.state.exe_stack@.subrange(0, s0.len() as int)
                                        =~= s0);
                                }
                            }
                            ok2
                        } else {
                            false
                        }
                    },
                };
                (None, ok)
            },
            SimpleInstruction::Loop(mut l) => {
                proof {
                    crate::simple::simple_instruction::lemma_seq_ins_wf(l.elems@);
                }
                let ok = match l.next() {
                    None => false,
                    Some(x) => {
                        let ghost s0 = machine.state.exe_stack@;
                        let ok1 = machine.state.push_exe(SimpleInstruction::Loop(l)).is_ok();
                        if ok1 {
                            let ok2 = machine.state.push_exe(x).is_ok();
                            proof {
                                assert(machine.state.exe_stack@.subrange(0, s0.len() as int)
                                    =~= s0);
                            }
                            ok2
                        } else {
                            false
                        }
                    },
                };
                (None, ok)
            },
            SimpleInstruction::If(t, e) => {
                let decider = machine.take_bool();
                let chosen = if decider {
                    t
                } else {
                    e
                };
                let ok = machine.state.push_exe(SimpleInstruction::BasicBlock(chosen)).is_ok();
                (None, ok)
            },
            SimpleInstruction::Pushi64(n) => {
                let ok = machine.state.push_int(n).is_ok();
                (None, ok)
            },
            SimpleInstruction::Pushf64(f) => {
                let ok = machine.state.push_float(f).is_ok();
                (None, ok)
            },
            SimpleInstruction::Pushb(b) => {
                let ok = machine.state.push_bool(b).is_ok();
                (None, ok)
            },
            SimpleInstruction::Pushi64v(v) => {
                let ok = machine.state.push_int_vec(v).is_ok();
                (None, ok)
            },
            SimpleInstruction::Pushf64v(v) => {
                let ok = machine.state.push_float_vec(v).is_ok();
                (None, ok)
            },
        }
    }
}

} // verus!
