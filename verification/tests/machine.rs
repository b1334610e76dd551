use gapush::float::FloatBits;
use gapush::handlers::{InertFloats, ScriptedIns, ScriptedInts};
use gapush::simple::{PlainOp, SimpleInstruction};
use gapush::vec::TrackedVec;
use gapush::Machine;

fn machine_with_ints(
    budget: usize,
    ints: Vec<i64>,
    default: i64,
) -> Machine<ScriptedIns, ScriptedInts, InertFloats> {
    Machine::new(
        budget,
        ScriptedIns::new(Vec::new()),
        ScriptedInts::new(ints, default),
        InertFloats {},
    )
}

fn block_of(ops: Vec<SimpleInstruction>) -> SimpleInstruction {
    SimpleInstruction::BasicBlock(TrackedVec::new_from_vec(ops).into_iter())
}

#[test]
fn addition_of_two_provided_integers() {
    let mut m = machine_with_ints(10_000, vec![3, 4], 0);
    assert!(m.provide(SimpleInstruction::PlainOp(PlainOp::Addi64)));
    let (provided, success) = m.cycle();
    assert!(provided.is_none());
    assert!(success);
    assert_eq!(m.state.int_stack, vec![7]);
}

#[test]
fn checked_division_substitutes_the_handler_value() {
    let mut m = machine_with_ints(10_000, vec![0, 5], 0);
    let block = block_of(vec![
        SimpleInstruction::Pushi64(10),
        SimpleInstruction::Pushi64(0),
        SimpleInstruction::PlainOp(PlainOp::Divi64),
    ]);
    assert!(m.provide(block));
    for _ in 0..6 {
        m.cycle();
    }
    assert_eq!(m.state.int_stack.last(), Some(&0));
}

#[test]
fn loop_alternates_push_and_add() {
    let mut m = machine_with_ints(10_000, vec![], 0);
    let body = TrackedVec::new_from_vec(vec![
        SimpleInstruction::Pushi64(1),
        SimpleInstruction::PlainOp(PlainOp::Addi64),
    ]);
    let looped = SimpleInstruction::Loop(body.into_cycle_iter());
    assert!(m.provide(looped));
    let (provided, count) = m.cycle_until(20);
    assert!(provided.is_none());
    assert_eq!(count, 20);
    assert_eq!(m.state.int_stack, vec![5]);
}

#[test]
fn if_true_runs_the_then_branch() {
    let mut m = machine_with_ints(10_000, vec![], 0);
    assert!(m.state.push_bool(true).is_ok());
    let then_branch = TrackedVec::new_from_vec(vec![SimpleInstruction::Pushi64(1)]);
    let else_branch = TrackedVec::new_from_vec(vec![SimpleInstruction::Pushi64(2)]);
    let cond = SimpleInstruction::If(then_branch.into_iter(), else_branch.into_iter());
    assert!(m.provide(cond));
    for _ in 0..3 {
        m.cycle();
    }
    assert_eq!(m.state.int_stack.last(), Some(&1));
}

#[test]
fn if_false_runs_the_else_branch() {
    let mut m = machine_with_ints(10_000, vec![], 0);
    assert!(m.state.push_bool(false).is_ok());
    let then_branch = TrackedVec::new_from_vec(vec![SimpleInstruction::Pushi64(1)]);
    let else_branch = TrackedVec::new_from_vec(vec![SimpleInstruction::Pushi64(2)]);
    let cond = SimpleInstruction::If(then_branch.into_iter(), else_branch.into_iter());
    assert!(m.provide(cond));
    for _ in 0..3 {
        m.cycle();
    }
    assert_eq!(m.state.int_stack.last(), Some(&2));
}

#[test]
fn empty_boolean_stack_defaults_to_false() {
    let mut m = machine_with_ints(10_000, vec![], 0);
    let then_branch = TrackedVec::new_from_vec(vec![SimpleInstruction::Pushi64(1)]);
    let else_branch = TrackedVec::new_from_vec(vec![SimpleInstruction::Pushi64(2)]);
    let cond = SimpleInstruction::If(then_branch.into_iter(), else_branch.into_iter());
    assert!(m.provide(cond));
    for _ in 0..3 {
        m.cycle();
    }
    assert_eq!(m.state.int_stack.last(), Some(&2));
}

#[test]
fn provide_opcode_emits_the_top_instruction() {
    let mut m = machine_with_ints(10_000, vec![], 0);
    assert!(m
        .state
        .push_ins(SimpleInstruction::PlainOp(PlainOp::Addi64))
        .is_ok());
    assert!(m.provide(SimpleInstruction::PlainOp(PlainOp::Provide)));
    let (provided, success) = m.cycle();
    assert!(success);
    assert!(matches!(
        provided,
        Some(SimpleInstruction::PlainOp(PlainOp::Addi64))
    ));
}

#[test]
fn cycle_until_stops_at_the_providing_cycle() {
    let mut m = machine_with_ints(10_000, vec![], 0);
    assert!(m
        .state
        .push_ins(SimpleInstruction::PlainOp(PlainOp::Addi64))
        .is_ok());
    assert!(m.provide(SimpleInstruction::PlainOp(PlainOp::Provide)));
    let (provided, count) = m.cycle_until(10);
    assert!(matches!(
        provided,
        Some(SimpleInstruction::PlainOp(PlainOp::Addi64))
    ));
    assert_eq!(count, 1);
}

#[test]
fn provide_and_cycle_until_rejects_an_oversized_instruction() {
    let mut m = machine_with_ints(4, vec![], 0);
    let (provided, count) =
        m.provide_and_cycle_until(10, SimpleInstruction::PlainOp(PlainOp::Nop));
    assert!(provided.is_none());
    assert_eq!(count, 0);
    assert_eq!(m.state.size, 0);
}

#[test]
fn wrapping_and_checked_families_disagree_only_on_overflow() {
    let mut m = machine_with_ints(10_000, vec![], 7);
    assert!(m.state.push_int(i64::MAX).is_ok());
    assert!(m.state.push_int(1).is_ok());
    assert!(m.provide(SimpleInstruction::PlainOp(PlainOp::Addi64)));
    m.cycle();
    assert_eq!(m.state.int_stack, vec![i64::MIN]);

    let mut m2 = machine_with_ints(10_000, vec![], 7);
    assert!(m2.state.push_int(i64::MIN).is_ok());
    assert!(m2.state.push_int(-1).is_ok());
    assert!(m2.provide(SimpleInstruction::PlainOp(PlainOp::Divi64)));
    m2.cycle();
    assert_eq!(m2.state.int_stack, vec![7]);

    let mut m3 = machine_with_ints(10_000, vec![], 7);
    assert!(m3.state.push_int(11).is_ok());
    assert!(m3.state.push_int(4).is_ok());
    assert!(m3.provide(SimpleInstruction::PlainOp(PlainOp::Divi64)));
    m3.cycle();
    assert_eq!(m3.state.int_stack, vec![2]);
}

#[test]
fn create_plain_builds_the_opcode_with_that_ordinal() {
    let mut m = machine_with_ints(10_000, vec![], 0);
    assert!(m.state.push_int(2).is_ok());
    assert!(m.provide(SimpleInstruction::PlainOp(PlainOp::CreatePlain)));
    let (_, success) = m.cycle();
    assert!(success);
    assert!(matches!(
        m.state.ins_stack.last(),
        Some(SimpleInstruction::PlainOp(PlainOp::Addi64))
    ));
}

#[test]
fn budget_is_never_exceeded_by_a_random_opcode_stream() {
    let budget = 512;
    let mut m = machine_with_ints(budget, vec![], 3);
    for i in 0..400u64 {
        let op = gapush::simple::opcode_from_ordinal((i * 37 % 92) as usize);
        m.provide(SimpleInstruction::PlainOp(op));
        m.cycle();
        assert!(m.state.size <= budget);
        let held = m.state.exe_stack.len()
            + m.state.ins_stack.len()
            + m.state.int_stack.len()
            + m.state.float_stack.len()
            + m.state.bool_stack.len()
            + m.state.ins_vec_stack.len()
            + m.state.int_vec_stack.len()
            + m.state.float_vec_stack.len();
        assert!(held <= m.state.size);
    }
}

#[test]
fn cycle_draws_from_the_instruction_provider_when_idle() {
    let mut m = Machine::new(
        10_000,
        ScriptedIns::new(vec![SimpleInstruction::Pushi64(42)]),
        ScriptedInts::new(vec![], 0),
        InertFloats {},
    );
    let (provided, success) = m.cycle();
    assert!(provided.is_none());
    assert!(success);
    assert_eq!(m.state.int_stack, vec![42]);
}

struct IeeeFloats;

impl gapush::float::FloatSupport for IeeeFloats {
    fn next_float(&mut self) -> FloatBits {
        FloatBits { bits: 0 }
    }
    fn add(&mut self, a: FloatBits, b: FloatBits) -> FloatBits {
        FloatBits { bits: (f64::from_bits(a.bits) + f64::from_bits(b.bits)).to_bits() }
    }
    fn sub(&mut self, a: FloatBits, b: FloatBits) -> FloatBits {
        FloatBits { bits: (f64::from_bits(a.bits) - f64::from_bits(b.bits)).to_bits() }
    }
    fn mul(&mut self, a: FloatBits, b: FloatBits) -> FloatBits {
        FloatBits { bits: (f64::from_bits(a.bits) * f64::from_bits(b.bits)).to_bits() }
    }
    fn div(&mut self, a: FloatBits, b: FloatBits) -> FloatBits {
        FloatBits { bits: (f64::from_bits(a.bits) / f64::from_bits(b.bits)).to_bits() }
    }
    fn rem(&mut self, a: FloatBits, b: FloatBits) -> FloatBits {
        FloatBits { bits: (f64::from_bits(a.bits) % f64::from_bits(b.bits)).to_bits() }
    }
    fn neg(&mut self, a: FloatBits) -> FloatBits {
        FloatBits { bits: (-f64::from_bits(a.bits)).to_bits() }
    }
    fn abs(&mut self, a: FloatBits) -> FloatBits {
        FloatBits { bits: f64::from_bits(a.bits).abs().to_bits() }
    }
    fn inc(&mut self, a: FloatBits) -> FloatBits {
        FloatBits { bits: (f64::from_bits(a.bits) + 1.0).to_bits() }
    }
    fn dec(&mut self, a: FloatBits) -> FloatBits {
        FloatBits { bits: (f64::from_bits(a.bits) - 1.0).to_bits() }
    }
    fn powi(&mut self, a: FloatBits, e: i32) -> FloatBits {
        FloatBits { bits: f64::from_bits(a.bits).powi(e).to_bits() }
    }
    fn powf(&mut self, a: FloatBits, b: FloatBits) -> FloatBits {
        FloatBits { bits: f64::from_bits(a.bits).powf(f64::from_bits(b.bits)).to_bits() }
    }
    fn lt(&mut self, a: FloatBits, b: FloatBits) -> bool {
        f64::from_bits(a.bits) < f64::from_bits(b.bits)
    }
    fn gt(&mut self, a: FloatBits, b: FloatBits) -> bool {
        f64::from_bits(a.bits) > f64::from_bits(b.bits)
    }
    fn eq_val(&mut self, a: FloatBits, b: FloatBits) -> bool {
        f64::from_bits(a.bits) == f64::from_bits(b.bits)
    }
    fn classify(&mut self, a: FloatBits) -> gapush::float::FloatClass {
        match f64::from_bits(a.bits).classify() {
            std::num::FpCategory::Normal => gapush::float::FloatClass::Normal,
            std::num::FpCategory::Zero => gapush::float::FloatClass::Zero,
            _ => gapush::float::FloatClass::Other,
        }
    }
    fn to_int(&mut self, a: FloatBits) -> i64 {
        f64::from_bits(a.bits) as i64
    }
    fn of_int(&mut self, a: i64) -> FloatBits {
        FloatBits { bits: (a as f64).to_bits() }
    }
}

#[test]
fn float_addition_through_the_float_unit() {
    let mut m = Machine::new(
        10_000,
        ScriptedIns::new(Vec::new()),
        ScriptedInts::new(vec![], 0),
        IeeeFloats,
    );
    assert!(m.state.push_float(FloatBits { bits: 1.5f64.to_bits() }).is_ok());
    assert!(m.state.push_float(FloatBits { bits: 2.25f64.to_bits() }).is_ok());
    assert!(m.provide(SimpleInstruction::PlainOp(PlainOp::Addf64)));
    let (_, success) = m.cycle();
    assert!(success);
    assert_eq!(m.state.float_stack.last().unwrap().bits, 3.75f64.to_bits());
}

#[test]
fn float_to_int_conversion_dispatches_on_the_classification() {
    let mut m = Machine::new(
        10_000,
        ScriptedIns::new(Vec::new()),
        ScriptedInts::new(vec![99], 0),
        IeeeFloats,
    );
    assert!(m.state.push_float(FloatBits { bits: 7.9f64.to_bits() }).is_ok());
    assert!(m.provide(SimpleInstruction::PlainOp(PlainOp::Ftoi)));
    m.cycle();
    assert_eq!(m.state.int_stack, vec![7]);

    assert!(m.state.push_float(FloatBits { bits: f64::NAN.to_bits() }).is_ok());
    assert!(m.provide(SimpleInstruction::PlainOp(PlainOp::Ftoi)));
    m.cycle();
    assert_eq!(m.state.int_stack.last(), Some(&99));
}
