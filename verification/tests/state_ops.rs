use gapush::mem::{TotalMemory, BOOL_BYTES, INS_BYTES, INT_BYTES, VEC_HEADER_BYTES};
use gapush::simple::{PlainOp, SimpleInstruction};
use gapush::state::{SizeError, State};
use gapush::vec::TrackedVec;

#[test]
fn budget_rejection_leaves_the_state_unchanged() {
    let mut s = State::new(INT_BYTES);
    assert!(s.push_int(1).is_ok());
    let before_size = s.size;
    let before_stack = s.int_stack.clone();
    assert_eq!(s.push_int(2), Err(SizeError::Full));
    assert_eq!(s.size, before_size);
    assert_eq!(s.int_stack, before_stack);
}

#[test]
fn size_is_the_exact_sum_of_held_charges() {
    let mut s = State::new(10_000);
    assert!(s.push_int(5).is_ok());
    assert!(s.push_bool(true).is_ok());
    assert!(s.push_ins(SimpleInstruction::PlainOp(PlainOp::Nop)).is_ok());
    let tv = TrackedVec::new_from_vec(vec![1i64, 2, 3]);
    assert!(s.push_int_vec(tv).is_ok());
    assert_eq!(
        s.size,
        INT_BYTES + BOOL_BYTES + INS_BYTES + VEC_HEADER_BYTES + 3 * INT_BYTES
    );
    assert!(s.size <= s.max_size);
}

#[test]
fn push_then_pop_restores_the_size_and_returns_the_value() {
    let mut s = State::new(100);
    assert!(s.push_int(3).is_ok());
    let before = s.size;
    assert!(s.push_int(17).is_ok());
    assert_eq!(s.pop_int(), Some(17));
    assert_eq!(s.size, before);
    assert_eq!(s.pop_int(), Some(3));
    assert_eq!(s.pop_int(), None);
    assert_eq!(s.size, 0);
}

#[test]
fn rotate_at_depth_zero_is_inert_and_succeeds() {
    let mut s = State::new(100);
    for v in [1i64, 2, 3] {
        assert!(s.push_int(v).is_ok());
    }
    assert!(s.rot_int(0));
    assert_eq!(s.int_stack, vec![1, 2, 3]);
}

#[test]
fn rotate_at_the_bottom_moves_it_to_the_top() {
    let mut s = State::new(100);
    for v in [1i64, 2, 3] {
        assert!(s.push_int(v).is_ok());
    }
    let before = s.size;
    assert!(s.rot_int(2));
    assert_eq!(s.int_stack, vec![2, 3, 1]);
    assert_eq!(s.size, before);
}

#[test]
fn rotate_past_the_bottom_fails_and_is_inert() {
    let mut s = State::new(100);
    for v in [1i64, 2, 3] {
        assert!(s.push_int(v).is_ok());
    }
    assert!(!s.rot_int(3));
    assert_eq!(s.int_stack, vec![1, 2, 3]);
}

#[test]
fn rotation_of_vector_stacks_uses_their_own_length() {
    let mut s = State::new(1_000);
    assert!(s.push_ins_vec(TrackedVec::new_from_vec(vec![SimpleInstruction::Pushi64(1)])).is_ok());
    assert!(s.push_ins_vec(TrackedVec::new_from_vec(Vec::new())).is_ok());
    assert!(s.float_stack.is_empty());
    assert!(s.rot_ins_vec(1));
    assert!(matches!(
        s.ins_vec_stack.last().map(|v| v.vec.len()),
        Some(1)
    ));
}

#[test]
fn copy_does_not_touch_the_source_and_pop_undoes_the_push() {
    let mut s = State::new(100);
    for v in [10i64, 20, 30] {
        assert!(s.push_int(v).is_ok());
    }
    let before_stack = s.int_stack.clone();
    let before_size = s.size;
    let copied = s.copy_int(1);
    assert_eq!(copied, Some(20));
    assert_eq!(s.int_stack, before_stack);
    assert_eq!(s.size, before_size);
    assert!(s.push_int(copied.unwrap()).is_ok());
    assert_eq!(s.pop_int(), Some(20));
    assert_eq!(s.int_stack, before_stack);
    assert_eq!(s.size, before_size);
}

#[test]
fn copy_past_the_bottom_returns_nothing() {
    let mut s = State::new(100);
    assert!(s.push_int(1).is_ok());
    assert_eq!(s.copy_int(1), None);
}

#[test]
fn append_to_a_missing_vector_is_a_silent_success() {
    let mut s = State::new(100);
    let before = s.size;
    assert!(s.push_int_to_vec(9).is_ok());
    assert_eq!(s.size, before);
    assert!(s.int_vec_stack.is_empty());
}

#[test]
fn vector_element_operations_track_the_size_exactly() {
    let mut s = State::new(1_000);
    assert!(s.push_int_vec(TrackedVec::new_from_vec(vec![1i64])).is_ok());
    let base = s.size;
    assert!(s.push_int_to_vec(2).is_ok());
    assert_eq!(s.size, base + INT_BYTES);
    assert_eq!(s.get_int_from_vec(1), Some(2));
    assert_eq!(s.pop_int_from_vec(), Some(2));
    assert_eq!(s.size, base);
    assert!(s.write_int_to_vec(0, 42).is_ok());
    assert_eq!(s.size, base);
    assert_eq!(s.get_int_from_vec(0), Some(42));
    assert_eq!(s.get_int_from_vec(1), None);
}

#[test]
fn writing_a_larger_instruction_charges_the_difference_and_checks_the_budget() {
    let mut s = State::new(2 * VEC_HEADER_BYTES + INS_BYTES);
    let v = TrackedVec::new_from_vec(vec![SimpleInstruction::PlainOp(PlainOp::Nop)]);
    assert!(s.push_ins_vec(v).is_ok());
    let small = s.size;
    let fat = SimpleInstruction::Pushi64v(TrackedVec::new_from_vec(vec![1i64, 2, 3, 4, 5, 6, 7, 8]));
    assert_eq!(s.write_ins_to_vec(0, fat), Err(SizeError::Full));
    assert_eq!(s.size, small);
    let modest = SimpleInstruction::Pushi64v(TrackedVec::new_from_vec(vec![1i64]));
    assert!(s.write_ins_to_vec(0, modest).is_ok());
    assert_eq!(s.size, small + INT_BYTES);
}

#[test]
fn every_stack_element_costs_at_least_one_byte() {
    let mut s = State::new(64);
    let mut accepted = 0;
    for _ in 0..200 {
        if s.push_bool(true).is_ok() {
            accepted += 1;
        }
    }
    assert_eq!(accepted, 64);
    assert_eq!(s.bool_stack.len(), 64);
    assert!(s.size <= s.max_size);
}
