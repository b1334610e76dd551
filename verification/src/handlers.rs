//! Library-provided fallback handlers: scripted providers that yield a
//! fixed sequence of values and then a default, and an inert float unit
//! for embedders that do not use the float opcodes.

use vstd::prelude::*;

use crate::float::{FloatBits, FloatClass, FloatSupport};
use crate::simple::simple_instruction::{PlainOp, SimpleInstruction};
use crate::mem::{seq_wf, TotalMemory};
use crate::{InsHandler, IntHandler};

verus! {

/// An instruction provider that yields duplicates of a scripted sequence
/// of instructions, one per call, and `Nop` once the script is exhausted.
pub struct ScriptedIns {
    items: Vec<SimpleInstruction>,
    next: usize,
}

impl ScriptedIns {
    #[verifier::type_invariant]
    spec fn script_wf(self) -> bool {
        seq_wf(self.items@)
    }

    pub fn new(items: Vec<SimpleInstruction>) -> (r: ScriptedIns)
        requires
            seq_wf(items@),
    {
        ScriptedIns { items, next: 0 }
    }
}

impl InsHandler for ScriptedIns {
    fn next_ins(&mut self) -> (r: SimpleInstruction) {
        proof {
            use_type_invariant(&*self);
        }
        if self.next < self.items.len() {
            let r = self.items[self.next].dup();
            self.next = self.next + 1;
            r
        } else {
            SimpleInstruction::PlainOp(PlainOp::Nop)
        }
    }
}

/// An integer provider that yields a scripted sequence of integers, one
/// per call, and a default once the script is exhausted.
pub struct ScriptedInts {
    pub items: Vec<i64>,
    pub next: usize,
    pub default: i64,
}

impl ScriptedInts {
    pub fn new(items: Vec<i64>, default: i64) -> (r: ScriptedInts)
        ensures
            r.items@ == items@,
            r.next == 0,
            r.default == default,
    {
        ScriptedInts { items, next: 0, default }
    }
}

impl IntHandler for ScriptedInts {
    fn next_int(&mut self) -> i64 {
        if self.next < self.items.len() {
            let v = self.items[self.next];
            self.next = self.next + 1;
            v
        } else {
            self.default
        }
    }
}

/// A float unit for embedders that do not use the float opcodes: every
/// operation returns the zero bit pattern, every comparison is false and
/// every value classifies as zero.
pub struct InertFloats {
}

impl FloatSupport for InertFloats {
    fn next_float(&mut self) -> FloatBits {
        FloatBits { bits: 0 }
    }

    fn add(&mut self, _a: FloatBits, _b: FloatBits) -> FloatBits {
        FloatBits { bits: 0 }
    }

    fn sub(&mut self, _a: FloatBits, _b: FloatBits) -> FloatBits {
        FloatBits { bits: 0 }
    }

    fn mul(&mut self, _a: FloatBits, _b: FloatBits) -> FloatBits {
        FloatBits { bits: 0 }
    }

    fn div(&mut self, _a: FloatBits, _b: FloatBits) -> FloatBits {
        FloatBits { bits: 0 }
    }

    fn rem(&mut self, _a: FloatBits, _b: FloatBits) -> FloatBits {
        FloatBits { bits: 0 }
    }

    fn neg(&mut self, _a: FloatBits) -> FloatBits {
        FloatBits { bits: 0 }
    }

    fn abs(&mut self, _a: FloatBits) -> FloatBits {
        FloatBits { bits: 0 }
    }

    fn inc(&mut self, _a: FloatBits) -> FloatBits {
        FloatBits { bits: 0 }
    }

    fn dec(&mut self, _a: FloatBits) -> FloatBits {
        FloatBits { bits: 0 }
    }

    fn powi(&mut self, _a: FloatBits, _e: i32) -> FloatBits {
        FloatBits { bits: 0 }
    }

    fn powf(&mut self, _a: FloatBits, _b: FloatBits) -> FloatBits {
        FloatBits { bits: 0 }
    }

    fn lt(&mut self, _a: FloatBits, _b: FloatBits) -> bool {
        false
    }

    fn gt(&mut self, _a: FloatBits, _b: FloatBits) -> bool {
        false
    }

    fn eq_val(&mut self, _a: FloatBits, _b: FloatBits) -> bool {
        false
    }

    fn classify(&mut self, _a: FloatBits) -> FloatClass {
        FloatClass::Zero
    }

    fn to_int(&mut self, _a: FloatBits) -> i64 {
        0
    }

    fn of_int(&mut self, _a: i64) -> FloatBits {
        FloatBits { bits: 0 }
    }
}

} // verus!
