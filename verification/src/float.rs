//! Float values as opaque 64-bit payloads, plus the trait through which an
//! embedder supplies IEEE-754 arithmetic on them.
//!
//! The machine itself only stores, moves, copies and budgets float values;
//! it never interprets the bits. Everything numeric about floats is
//! delegated to a [`FloatSupport`] implementation supplied by the embedder,
//! alongside the float fallback provider.

use vstd::prelude::*;

use crate::mem::{TotalMemory, FLOAT_BYTES};

verus! {

/// A 64-bit float value, carried as its raw bit pattern.
#[derive(Clone, Copy, PartialEq, Eq, Structural, Debug)]
pub struct FloatBits {
    pub bits: u64,
}

impl FloatBits {
    pub fn new(bits: u64) -> (r: FloatBits)
        ensures
            r.bits == bits,
    {
        FloatBits { bits }
    }
}

impl TotalMemory for FloatBits {
    open spec fn wf(&self) -> bool {
        true
    }

    open spec fn charge(&self) -> nat {
        FLOAT_BYTES as nat
    }

    fn total_memory(&self) -> usize {
        FLOAT_BYTES
    }
}

/// The coarse classification the conversion opcode dispatches on: a normal
/// value casts to an integer, zero converts to zero, and everything else
/// (subnormal, infinite, not-a-number) falls through to the integer
/// fallback provider.
#[derive(Clone, Copy, PartialEq, Eq, Structural, Debug)]
pub enum FloatClass {
    Normal,
    Zero,
    Other,
}

/// Float arithmetic and the float fallback provider, supplied by the
/// embedder. The machine can state nothing about the returned bit
/// patterns, so none of these methods carries a contract; the machine's
/// own guarantees (budget, accounting, stack shapes) hold for every
/// possible result.
pub trait FloatSupport {
    /// Produce a float when an instruction needed one and the float stack
    /// was empty (the fallback provider).
    fn next_float(&mut self) -> FloatBits;

    /// `a + b`.
    fn add(&mut self, a: FloatBits, b: FloatBits) -> FloatBits;

    /// `a - b`.
    fn sub(&mut self, a: FloatBits, b: FloatBits) -> FloatBits;

    /// `a * b`.
    fn mul(&mut self, a: FloatBits, b: FloatBits) -> FloatBits;

    /// `a / b`.
    fn div(&mut self, a: FloatBits, b: FloatBits) -> FloatBits;

    /// `a % b`.
    fn rem(&mut self, a: FloatBits, b: FloatBits) -> FloatBits;

    /// `-a`.
    fn neg(&mut self, a: FloatBits) -> FloatBits;

    /// `|a|`.
    fn abs(&mut self, a: FloatBits) -> FloatBits;

    /// `a + 1.0`.
    fn inc(&mut self, a: FloatBits) -> FloatBits;

    /// `a - 1.0`.
    fn dec(&mut self, a: FloatBits) -> FloatBits;

    /// `a` raised to the integer power `e`.
    fn powi(&mut self, a: FloatBits, e: i32) -> FloatBits;

    /// `a` raised to the float power `b`.
    fn powf(&mut self, a: FloatBits, b: FloatBits) -> FloatBits;

    /// `a < b`.
    fn lt(&mut self, a: FloatBits, b: FloatBits) -> bool;

    /// `a > b`.
    fn gt(&mut self, a: FloatBits, b: FloatBits) -> bool;

    /// `a == b` as float comparison (not bit equality).
    fn eq_val(&mut self, a: FloatBits, b: FloatBits) -> bool;

    /// Classify `a` for the float-to-integer conversion.
    fn classify(&mut self, a: FloatBits) -> FloatClass;

    /// Cast a normal float value to an integer.
    fn to_int(&mut self, a: FloatBits) -> i64;

    /// Cast an integer to a float value.
    fn of_int(&mut self, a: i64) -> FloatBits;
}

} // verus!
