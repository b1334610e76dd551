use gapush::handlers::{InertFloats, ScriptedIns, ScriptedInts};
use gapush::simple::{PlainOp, SimpleInstruction};
use gapush::vec::TrackedVec;
use gapush::Machine;

fn quiet_machine(budget: usize) -> Machine<ScriptedIns, ScriptedInts, InertFloats> {
    Machine::new(
        budget,
        ScriptedIns::new(Vec::new()),
        ScriptedInts::new(vec![], 0),
        InertFloats {},
    )
}

fn run_op(m: &mut Machine<ScriptedIns, ScriptedInts, InertFloats>, op: PlainOp) -> bool {
    assert!(m.provide(SimpleInstruction::PlainOp(op)));
    let (_, ok) = m.cycle();
    ok
}

#[test]
fn rotation_opcode_pops_the_position_and_rotates() {
    let mut m = quiet_machine(10_000);
    for v in [10i64, 20, 30] {
        assert!(m.state.push_int(v).is_ok());
    }
    // Position 2 (counted from the top) names the bottom element.
    assert!(m.state.push_int(2).is_ok());
    assert!(run_op(&mut m, PlainOp::Roti64));
    assert_eq!(m.state.int_stack, vec![20, 30, 10]);
}

#[test]
fn copy_opcode_clones_at_depth_and_pays_for_the_push() {
    let mut m = quiet_machine(10_000);
    for v in [10i64, 20, 30] {
        assert!(m.state.push_int(v).is_ok());
    }
    let before = m.state.size;
    assert!(m.state.push_int(1).is_ok());
    assert!(run_op(&mut m, PlainOp::Copyi64));
    assert_eq!(m.state.int_stack, vec![10, 20, 30, 20]);
    assert_eq!(m.state.size, before + 8);
}

#[test]
fn vector_opcodes_move_elements_between_stacks() {
    let mut m = quiet_machine(10_000);
    assert!(m.state.push_int_vec(TrackedVec::new_from_vec(vec![7i64])).is_ok());
    assert!(m.state.push_int(5).is_ok());
    assert!(run_op(&mut m, PlainOp::Pushvi64));
    assert_eq!(m.state.int_stack, Vec::<i64>::new());
    assert_eq!(m.state.int_vec_stack.last().unwrap().vec, vec![7, 5]);

    assert!(run_op(&mut m, PlainOp::Popvi64));
    assert_eq!(m.state.int_stack, vec![5]);
    assert_eq!(m.state.int_vec_stack.last().unwrap().vec, vec![7]);

    assert!(m.state.push_int(0).is_ok());
    assert!(run_op(&mut m, PlainOp::Readvi64));
    assert_eq!(m.state.int_stack, vec![5, 7]);

    // Write 9 over index 0: the opcode pops the index, then the value.
    assert!(m.state.push_int(9).is_ok());
    assert!(m.state.push_int(0).is_ok());
    assert!(run_op(&mut m, PlainOp::Writevi64));
    assert_eq!(m.state.int_vec_stack.last().unwrap().vec, vec![9]);
    assert_eq!(m.state.int_stack, vec![5, 7]);
}

#[test]
fn discard_opcodes_fail_only_on_empty_stacks() {
    let mut m = quiet_machine(10_000);
    assert!(!run_op(&mut m, PlainOp::Popi64));
    assert!(m.state.push_int(4).is_ok());
    assert!(run_op(&mut m, PlainOp::Popi64));
    assert!(m.state.int_stack.is_empty());
}

#[test]
fn integer_rotations_and_shifts_mask_their_amounts() {
    let mut m = quiet_machine(10_000);
    assert!(m.state.push_int(1).is_ok());
    assert!(m.state.push_int(65).is_ok());
    assert!(run_op(&mut m, PlainOp::Rotli64));
    assert_eq!(m.state.int_stack, vec![2]);

    assert!(m.state.push_int(64).is_ok());
    assert!(run_op(&mut m, PlainOp::Shftli64));
    // A shift of 64 or more fails the check; the handler substitutes 0.
    assert_eq!(m.state.int_stack, vec![0]);
}

#[test]
fn wrapping_exponentiation_reduces_modulo_the_word() {
    let mut m = quiet_machine(10_000);
    assert!(m.state.push_int(3).is_ok());
    assert!(m.state.push_int(5).is_ok());
    assert!(run_op(&mut m, PlainOp::Powi64));
    assert_eq!(m.state.int_stack, vec![243]);

    assert!(m.state.push_int(2).is_ok());
    assert!(m.state.push_int(64).is_ok());
    assert!(run_op(&mut m, PlainOp::Powi64));
    assert_eq!(m.state.int_stack, vec![243, 0]);
}

#[test]
fn boolean_opcodes_default_missing_operands_to_false() {
    let mut m = quiet_machine(10_000);
    assert!(m.state.push_bool(true).is_ok());
    assert!(run_op(&mut m, PlainOp::Andb));
    assert_eq!(m.state.bool_stack, vec![false]);
    assert!(run_op(&mut m, PlainOp::Notb));
    assert_eq!(m.state.bool_stack, vec![true]);
}

#[test]
fn comparisons_consume_integers_and_push_booleans() {
    let mut m = quiet_machine(10_000);
    assert!(m.state.push_int(3).is_ok());
    assert!(m.state.push_int(4).is_ok());
    assert!(run_op(&mut m, PlainOp::Lesi64));
    assert!(m.state.int_stack.is_empty());
    assert_eq!(m.state.bool_stack, vec![true]);
}

#[test]
fn create_push_wraps_and_reintroduces_a_literal() {
    let mut m = quiet_machine(10_000);
    assert!(m.state.push_int(123).is_ok());
    assert!(run_op(&mut m, PlainOp::CreatePushi64));
    assert!(m.state.int_stack.is_empty());
    assert!(run_op(&mut m, PlainOp::Call));
    let (_, ok) = m.cycle();
    assert!(ok);
    assert_eq!(m.state.int_stack, vec![123]);
}

#[test]
fn a_loop_over_an_empty_vector_terminates_at_once() {
    let mut m = quiet_machine(10_000);
    let looped = SimpleInstruction::Loop(
        TrackedVec::new_from_vec(Vec::new()).into_cycle_iter(),
    );
    assert!(m.provide(looped));
    let (provided, ok) = m.cycle();
    assert!(provided.is_none());
    assert!(!ok);
    assert!(m.state.exe_stack.is_empty());
    assert_eq!(m.state.size, 0);
}

#[test]
fn an_exhausted_block_fails_and_vanishes() {
    let mut m = quiet_machine(10_000);
    let block = SimpleInstruction::BasicBlock(
        TrackedVec::new_from_vec(Vec::new()).into_iter(),
    );
    assert!(m.provide(block));
    let (_, ok) = m.cycle();
    assert!(!ok);
    assert!(m.state.exe_stack.is_empty());
    assert_eq!(m.state.size, 0);
}

#[test]
fn iterators_keep_their_original_charge_while_consumed() {
    let mut m = quiet_machine(10_000);
    let block = block_charge_test_block();
    assert!(m.provide(block));
    let whole = m.state.size;
    // One step: the advanced block is re-pushed with its full charge, and
    // the yielded instruction is charged again on top of it.
    let (_, ok) = m.cycle();
    assert!(ok);
    assert_eq!(m.state.size, whole + 64);
}

fn block_charge_test_block() -> SimpleInstruction {
    SimpleInstruction::BasicBlock(
        TrackedVec::new_from_vec(vec![
            SimpleInstruction::PlainOp(PlainOp::Nop),
            SimpleInstruction::PlainOp(PlainOp::Nop),
        ])
        .into_iter(),
    )
}
