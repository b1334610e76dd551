use gapush::simple::{
    opcode_from_ordinal, Chromosome, PlainOp, SimpleInstruction, TOTAL_PLAIN_INSTRUCTIONS,
};
use gapush::handlers::{InertFloats, ScriptedIns, ScriptedInts};
use gapush::Machine;

#[test]
fn opcode_ordinals_round_trip() {
    assert_eq!(TOTAL_PLAIN_INSTRUCTIONS, 92);
    for i in 0..TOTAL_PLAIN_INSTRUCTIONS {
        assert_eq!(opcode_from_ordinal(i).ordinal(), i);
    }
    assert!(matches!(opcode_from_ordinal(0), PlainOp::Inci64));
    assert!(matches!(opcode_from_ordinal(91), PlainOp::Provide));
}

#[test]
fn mating_interleaves_the_crossover_walks() {
    let a = Chromosome {
        genes: vec![PlainOp::Inci64, PlainOp::Deci64, PlainOp::Addi64, PlainOp::Subi64],
        crossovers: vec![1, 3],
    };
    let b = Chromosome {
        genes: vec![PlainOp::Muli64, PlainOp::Divi64],
        crossovers: vec![1],
    };
    let child = a.mate(&b);
    assert_eq!(child.crossovers, vec![1, 2, 3]);
    assert_eq!(
        child.genes,
        vec![PlainOp::Inci64, PlainOp::Deci64, PlainOp::Addi64]
    );
}

#[test]
fn mating_with_no_usable_point_yields_an_empty_child() {
    let a = Chromosome { genes: Vec::new(), crossovers: Vec::new() };
    let b = Chromosome { genes: vec![PlainOp::Nop], crossovers: Vec::new() };
    let child = a.mate(&b);
    assert_eq!(child.gene_len(), 0);
    assert_eq!(child.crossover_len(), 0);
}

#[test]
fn random_chromosomes_have_the_requested_shape() {
    let c = Chromosome::new_rand(50, 5);
    assert_eq!(c.gene_len(), 50);
    assert!(c.crossover_len() <= 5);
    for &x in &c.crossovers {
        assert!(x < 50);
    }
    for w in c.crossovers.windows(2) {
        assert!(w[0] < w[1]);
    }
}

#[test]
fn random_draws_stay_below_their_bound() {
    for _ in 0..20 {
        let c = Chromosome::new_rand(1, 3);
        assert_eq!(c.gene_len(), 1);
        for &x in &c.crossovers {
            assert_eq!(x, 0);
        }
    }
}

#[test]
fn mutation_changes_at_most_the_allowed_number_of_genes() {
    let mut c = Chromosome::new_rand(40, 4);
    let before = c.gene_len();
    c.mutate(6, 3);
    let after = c.gene_len();
    assert!(after <= before + 6);
    assert!(after + 6 >= before);
    for w in c.crossovers.windows(2) {
        assert!(w[0] < w[1]);
    }
}

#[test]
fn a_chromosome_projects_into_a_runnable_basic_block() {
    let c = Chromosome {
        genes: vec![PlainOp::Zeroi64, PlainOp::Inci64, PlainOp::Inci64],
        crossovers: vec![1],
    };
    let ins = c.to_instruction();
    let mut m = Machine::new(
        10_000,
        ScriptedIns::new(Vec::new()),
        ScriptedInts::new(vec![], 0),
        InertFloats {},
    );
    assert!(m.provide(ins));
    for _ in 0..7 {
        m.cycle();
    }
    assert_eq!(m.state.int_stack, vec![2]);
}

#[test]
fn instruction_construction_opcodes_build_composites() {
    let mut m = Machine::new(
        10_000,
        ScriptedIns::new(Vec::new()),
        ScriptedInts::new(vec![], 0),
        InertFloats {},
    );
    // Build a vector [Pushi64(5)] on the instruction-vector stack, wrap it
    // into a basic block, move it to the execution stack and run it.
    assert!(m
        .state
        .push_ins_vec(gapush::vec::TrackedVec::new_from_vec(vec![
            SimpleInstruction::Pushi64(5)
        ]))
        .is_ok());
    assert!(m.provide(SimpleInstruction::PlainOp(PlainOp::CreateBasicBlock)));
    let (_, ok) = m.cycle();
    assert!(ok);
    assert!(m.provide(SimpleInstruction::PlainOp(PlainOp::Call)));
    let (_, ok2) = m.cycle();
    assert!(ok2);
    for _ in 0..3 {
        m.cycle();
    }
    assert_eq!(m.state.int_stack, vec![5]);
}

#[test]
fn yield_and_return_move_and_discard_execution_items() {
    let mut m = Machine::new(
        10_000,
        ScriptedIns::new(Vec::new()),
        ScriptedInts::new(vec![], 0),
        InertFloats {},
    );
    assert!(m.state.push_exe(SimpleInstruction::Pushi64(9)).is_ok());
    assert!(m.provide(SimpleInstruction::PlainOp(PlainOp::Yield)));
    let (_, ok) = m.cycle();
    assert!(ok);
    assert!(matches!(
        m.state.ins_stack.last(),
        Some(SimpleInstruction::Pushi64(9))
    ));
    assert!(m.state.push_exe(SimpleInstruction::Pushi64(1)).is_ok());
    assert!(m.provide(SimpleInstruction::PlainOp(PlainOp::Return)));
    let (_, ok2) = m.cycle();
    assert!(ok2);
    assert!(m.state.exe_stack.is_empty());
    assert!(m.state.int_stack.is_empty());
}
