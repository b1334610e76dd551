//! The simple dialect: the flat opcode enumeration and the tagged
//! instruction sum, with its memory accounting and duplication.

use vstd::prelude::*;

use crate::float::FloatBits;
use crate::mem::{seq_charge, seq_wf, TotalMemory, INS_BYTES, VEC_HEADER_BYTES};
use crate::vec::{TrackedCycleIter, TrackedIter, TrackedVec};

verus! {

broadcast use vstd::seq::group_seq_axioms;

/// Instructions which have implicit parameters and are encodable with a
/// single integer: the flat opcode enumeration of the simple dialect.
///
/// The order of the variants is the ordinal encoding used by
/// `opcode_from_ordinal` and `ordinal`.
#[derive(Clone, Copy, Debug, PartialEq, Eq, Structural, Hash, PartialOrd, Ord)]
pub enum PlainOp {
    Inci64,
    Deci64,
    Addi64,
    Subi64,
    Muli64,
    Divi64,
    Remi64,
    Negi64,
    Absi64,
    Powi64,
    Rotli64,
    Rotri64,
    Shftli64,
    Shftri64,
    Andi64,
    Ori64,
    Xori64,
    Invi64,
    Lesi64,
    Grti64,
    Eqi64,
    Neqi64,
    Incf64,
    Decf64,
    Addf64,
    Subf64,
    Mulf64,
    Divf64,
    Remf64,
    Negf64,
    Absf64,
    Powif64,
    Powff64,
    Lesf64,
    Grtf64,
    Eqf64,
    Neqf64,
    Andb,
    Orb,
    Eqb,
    Neqb,
    Notb,
    Itof,
    Ftoi,
    Rotins,
    Roti64,
    Rotf64,
    Rotb,
    Rotinsv,
    Roti64v,
    Rotf64v,
    Copyins,
    Copyi64,
    Copyf64,
    Copyb,
    Copyinsv,
    Copyi64v,
    Copyf64v,
    Popins,
    Popi64,
    Popf64,
    Popb,
    Popinsv,
    Popi64v,
    Popf64v,
    Pushvins,
    Pushvi64,
    Pushvf64,
    Popvins,
    Popvi64,
    Popvf64,
    Readvins,
    Readvi64,
    Readvf64,
    Writevins,
    Writevi64,
    Writevf64,
    Zeroi64,
    CreatePlain,
    CreateBasicBlock,
    CreateLoop,
    CreateIf,
    CreatePushi64,
    CreatePushf64,
    CreatePushb,
    CreatePushi64v,
    CreatePushf64v,
    Return,
    Yield,
    Call,
    Nop,
    Provide,
}

/// How many opcodes the simple dialect has.
pub const TOTAL_PLAIN_INSTRUCTIONS: usize = 92;

/// The ordinal of an opcode: its zero-based position in the enumeration.
pub open spec fn ordinal_of(op: PlainOp) -> nat {
    match op {
        PlainOp::Inci64 => 0,
        PlainOp::Deci64 => 1,
        PlainOp::Addi64 => 2,
        PlainOp::Subi64 => 3,
        PlainOp::Muli64 => 4,
        PlainOp::Divi64 => 5,
        PlainOp::Remi64 => 6,
        PlainOp::Negi64 => 7,
        PlainOp::Absi64 => 8,
        PlainOp::Powi64 => 9,
        PlainOp::Rotli64 => 10,
        PlainOp::Rotri64 => 11,
        PlainOp::Shftli64 => 12,
        PlainOp::Shftri64 => 13,
        PlainOp::Andi64 => 14,
        PlainOp::Ori64 => 15,
        PlainOp::Xori64 => 16,
        PlainOp::Invi64 => 17,
        PlainOp::Lesi64 => 18,
        PlainOp::Grti64 => 19,
        PlainOp::Eqi64 => 20,
        PlainOp::Neqi64 => 21,
        PlainOp::Incf64 => 22,
        PlainOp::Decf64 => 23,
        PlainOp::Addf64 => 24,
        PlainOp::Subf64 => 25,
        PlainOp::Mulf64 => 26,
        PlainOp::Divf64 => 27,
        PlainOp::Remf64 => 28,
        PlainOp::Negf64 => 29,
        PlainOp::Absf64 => 30,
        PlainOp::Powif64 => 31,
        PlainOp::Powff64 => 32,
        PlainOp::Lesf64 => 33,
        PlainOp::Grtf64 => 34,
        PlainOp::Eqf64 => 35,
        PlainOp::Neqf64 => 36,
        PlainOp::Andb => 37,
        PlainOp::Orb => 38,
        PlainOp::Eqb => 39,
        PlainOp::Neqb => 40,
        PlainOp::Notb => 41,
        PlainOp::Itof => 42,
        PlainOp::Ftoi => 43,
        PlainOp::Rotins => 44,
        PlainOp::Roti64 => 45,
        PlainOp::Rotf64 => 46,
        PlainOp::Rotb => 47,
        PlainOp::Rotinsv => 48,
        PlainOp::Roti64v => 49,
        PlainOp::Rotf64v => 50,
        PlainOp::Copyins => 51,
        PlainOp::Copyi64 => 52,
        PlainOp::Copyf64 => 53,
        PlainOp::Copyb => 54,
        PlainOp::Copyinsv => 55,
        PlainOp::Copyi64v => 56,
        PlainOp::Copyf64v => 57,
        PlainOp::Popins => 58,
        PlainOp::Popi64 => 59,
        PlainOp::Popf64 => 60,
        PlainOp::Popb => 61,
        PlainOp::Popinsv => 62,
        PlainOp::Popi64v => 63,
        PlainOp::Popf64v => 64,
        PlainOp::Pushvins => 65,
        PlainOp::Pushvi64 => 66,
        PlainOp::Pushvf64 => 67,
        PlainOp::Popvins => 68,
        PlainOp::Popvi64 => 69,
        PlainOp::Popvf64 => 70,
        PlainOp::Readvins => 71,
        PlainOp::Readvi64 => 72,
        PlainOp::Readvf64 => 73,
        PlainOp::Writevins => 74,
        PlainOp::Writevi64 => 75,
        PlainOp::Writevf64 => 76,
        PlainOp::Zeroi64 => 77,
        PlainOp::CreatePlain => 78,
        PlainOp::CreateBasicBlock => 79,
        PlainOp::CreateLoop => 80,
        PlainOp::CreateIf => 81,
        PlainOp::CreatePushi64 => 82,
        PlainOp::CreatePushf64 => 83,
        PlainOp::CreatePushb => 84,
        PlainOp::CreatePushi64v => 85,
        PlainOp::CreatePushf64v => 86,
        PlainOp::Return => 87,
        PlainOp::Yield => 88,
        PlainOp::Call => 89,
        PlainOp::Nop => 90,
        PlainOp::Provide => 91,
    }
}

impl PlainOp {
    /// The zero-based position of this opcode in the enumeration.
    pub fn ordinal(&self) -> (r: usize)
        ensures
            r == ordinal_of(*self),
    {
        match self {
            PlainOp::Inci64 => 0,
            PlainOp::Deci64 => 1,
            PlainOp::Addi64 => 2,
            PlainOp::Subi64 => 3,
            PlainOp::Muli64 => 4,
            PlainOp::Divi64 => 5,
            PlainOp::Remi64 => 6,
            PlainOp::Negi64 => 7,
            PlainOp::Absi64 => 8,
            PlainOp::Powi64 => 9,
            PlainOp::Rotli64 => 10,
            PlainOp::Rotri64 => 11,
            PlainOp::Shftli64 => 12,
            PlainOp::Shftri64 => 13,
            PlainOp::Andi64 => 14,
            PlainOp::Ori64 => 15,
            PlainOp::Xori64 => 16,
            PlainOp::Invi64 => 17,
            PlainOp::Lesi64 => 18,
            PlainOp::Grti64 => 19,
            PlainOp::Eqi64 => 20,
            PlainOp::Neqi64 => 21,
            PlainOp::Incf64 => 22,
            PlainOp::Decf64 => 23,
            PlainOp::Addf64 => 24,
            PlainOp::Subf64 => 25,
            PlainOp::Mulf64 => 26,
            PlainOp::Divf64 => 27,
            PlainOp::Remf64 => 28,
            PlainOp::Negf64 => 29,
            PlainOp::Absf64 => 30,
            PlainOp::Powif64 => 31,
            PlainOp::Powff64 => 32,
            PlainOp::Lesf64 => 33,
            PlainOp::Grtf64 => 34,
            PlainOp::Eqf64 => 35,
            PlainOp::Neqf64 => 36,
            PlainOp::Andb => 37,
            PlainOp::Orb => 38,
            PlainOp::Eqb => 39,
            PlainOp::Neqb => 40,
            PlainOp::Notb => 41,
            PlainOp::Itof => 42,
            PlainOp::Ftoi => 43,
            PlainOp::Rotins => 44,
            PlainOp::Roti64 => 45,
            PlainOp::Rotf64 => 46,
            PlainOp::Rotb => 47,
            PlainOp::Rotinsv => 48,
            PlainOp::Roti64v => 49,
            PlainOp::Rotf64v => 50,
            PlainOp::Copyins => 51,
            PlainOp::Copyi64 => 52,
            PlainOp::Copyf64 => 53,
            PlainOp::Copyb => 54,
            PlainOp::Copyinsv => 55,
            PlainOp::Copyi64v => 56,
            PlainOp::Copyf64v => 57,
            PlainOp::Popins => 58,
            PlainOp::Popi64 => 59,
            PlainOp::Popf64 => 60,
            PlainOp::Popb => 61,
            PlainOp::Popinsv => 62,
            PlainOp::Popi64v => 63,
            PlainOp::Popf64v => 64,
            PlainOp::Pushvins => 65,
            PlainOp::Pushvi64 => 66,
            PlainOp::Pushvf64 => 67,
            PlainOp::Popvins => 68,
            PlainOp::Popvi64 => 69,
            PlainOp::Popvf64 => 70,
            PlainOp::Readvins => 71,
            PlainOp::Readvi64 => 72,
            PlainOp::Readvf64 => 73,
            PlainOp::Writevins => 74,
            PlainOp::Writevi64 => 75,
            PlainOp::Writevf64 => 76,
            PlainOp::Zeroi64 => 77,
            PlainOp::CreatePlain => 78,
            PlainOp::CreateBasicBlock => 79,
            PlainOp::CreateLoop => 80,
            PlainOp::CreateIf => 81,
            PlainOp::CreatePushi64 => 82,
            PlainOp::CreatePushf64 => 83,
            PlainOp::CreatePushb => 84,
            PlainOp::CreatePushi64v => 85,
            PlainOp::CreatePushf64v => 86,
            PlainOp::Return => 87,
            PlainOp::Yield => 88,
            PlainOp::Call => 89,
            PlainOp::Nop => 90,
            PlainOp::Provide => 91,
        }
    }
}

/// The opcode with the given ordinal; the interface the evolutionary layer
/// uses to sample and mutate code.
pub fn opcode_from_ordinal(n: usize) -> (r: PlainOp)
    requires
        n < TOTAL_PLAIN_INSTRUCTIONS,
    ensures
        ordinal_of(r) == n,
{
    match n {
        0 => PlainOp::Inci64,
        1 => PlainOp::Deci64,
        2 => PlainOp::Addi64,
        3 => PlainOp::Subi64,
        4 => PlainOp::Muli64,
        5 => PlainOp::Divi64,
        6 => PlainOp::Remi64,
        7 => PlainOp::Negi64,
        8 => PlainOp::Absi64,
        9 => PlainOp::Powi64,
        10 => PlainOp::Rotli64,
        11 => PlainOp::Rotri64,
        12 => PlainOp::Shftli64,
        13 => PlainOp::Shftri64,
        14 => PlainOp::Andi64,
        15 => PlainOp::Ori64,
        16 => PlainOp::Xori64,
        17 => PlainOp::Invi64,
        18 => PlainOp::Lesi64,
        19 => PlainOp::Grti64,
        20 => PlainOp::Eqi64,
        21 => PlainOp::Neqi64,
        22 => PlainOp::Incf64,
        23 => PlainOp::Decf64,
        24 => PlainOp::Addf64,
        25 => PlainOp::Subf64,
        26 => PlainOp::Mulf64,
        27 => PlainOp::Divf64,
        28 => PlainOp::Remf64,
        29 => PlainOp::Negf64,
        30 => PlainOp::Absf64,
        31 => PlainOp::Powif64,
        32 => PlainOp::Powff64,
        33 => PlainOp::Lesf64,
        34 => PlainOp::Grtf64,
        35 => PlainOp::Eqf64,
        36 => PlainOp::Neqf64,
        37 => PlainOp::Andb,
        38 => PlainOp::Orb,
        39 => PlainOp::Eqb,
        40 => PlainOp::Neqb,
        41 => PlainOp::Notb,
        42 => PlainOp::Itof,
        43 => PlainOp::Ftoi,
        44 => PlainOp::Rotins,
        45 => PlainOp::Roti64,
        46 => PlainOp::Rotf64,
        47 => PlainOp::Rotb,
        48 => PlainOp::Rotinsv,
        49 => PlainOp::Roti64v,
        50 => PlainOp::Rotf64v,
        51 => PlainOp::Copyins,
        52 => PlainOp::Copyi64,
        53 => PlainOp::Copyf64,
        54 => PlainOp::Copyb,
        55 => PlainOp::Copyinsv,
        56 => PlainOp::Copyi64v,
        57 => PlainOp::Copyf64v,
        58 => PlainOp::Popins,
        59 => PlainOp::Popi64,
        60 => PlainOp::Popf64,
        61 => PlainOp::Popb,
        62 => PlainOp::Popinsv,
        63 => PlainOp::Popi64v,
        64 => PlainOp::Popf64v,
        65 => PlainOp::Pushvins,
        66 => PlainOp::Pushvi64,
        67 => PlainOp::Pushvf64,
        68 => PlainOp::Popvins,
        69 => PlainOp::Popvi64,
        70 => PlainOp::Popvf64,
        71 => PlainOp::Readvins,
        72 => PlainOp::Readvi64,
        73 => PlainOp::Readvf64,
        74 => PlainOp::Writevins,
        75 => PlainOp::Writevi64,
        76 => PlainOp::Writevf64,
        77 => PlainOp::Zeroi64,
        78 => PlainOp::CreatePlain,
        79 => PlainOp::CreateBasicBlock,
        80 => PlainOp::CreateLoop,
        81 => PlainOp::CreateIf,
        82 => PlainOp::CreatePushi64,
        83 => PlainOp::CreatePushf64,
        84 => PlainOp::CreatePushb,
        85 => PlainOp::CreatePushi64v,
        86 => PlainOp::CreatePushf64v,
        87 => PlainOp::Return,
        88 => PlainOp::Yield,
        89 => PlainOp::Call,
        90 => PlainOp::Nop,
        91 => PlainOp::Provide,
        _ => PlainOp::Nop,
    }
}

/// The tagged instruction sum of the simple dialect. Composite control flow
/// (blocks, loops, conditionals) is reified as iterators carried inside the
/// instruction; literal-push variants re-introduce a captured value.
#[derive(Debug)]
pub enum SimpleInstruction {
    PlainOp(PlainOp),
    BasicBlock(TrackedIter<SimpleInstruction>),
    Loop(TrackedCycleIter<SimpleInstruction>),
    If(TrackedIter<SimpleInstruction>, TrackedIter<SimpleInstruction>),
    Pushi64(i64),
    Pushf64(FloatBits),
    Pushb(bool),
    Pushi64v(TrackedVec<i64>),
    Pushf64v(TrackedVec<FloatBits>),
}

/// The mathematical shape of an instruction: iterator payloads become
/// sequences (with their frozen charges and, for a cycling iterator, its
/// position), vector payloads become sequences with their byte totals.
/// Two instructions with equal shapes are interchangeable.
pub enum InsModel {
    PlainOp(PlainOp),
    /// Remaining instructions, and the charge frozen at construction.
    BasicBlock(Seq<InsModel>, nat),
    /// Backing instructions, next position, and the frozen charge.
    Loop(Seq<InsModel>, nat, nat),
    /// Then-branch and else-branch, each with its frozen charge.
    If(Seq<InsModel>, nat, Seq<InsModel>, nat),
    Pushi64(i64),
    Pushf64(FloatBits),
    Pushb(bool),
    Pushi64v(Seq<i64>, nat),
    Pushf64v(Seq<FloatBits>, nat),
}

/// The shapes of a sequence of instructions.
pub open spec fn views_of(s: Seq<SimpleInstruction>) -> Seq<InsModel>
    decreases s,
{
    if s.len() == 0 {
        Seq::empty()
    } else {
        views_of(s.drop_last()).push(ins_view(s.last()))
    }
}

pub broadcast proof fn lemma_views_of_len(s: Seq<SimpleInstruction>)
    ensures
        (#[trigger] views_of(s)).len() == s.len(),
    decreases s,
{
    if s.len() > 0 {
        lemma_views_of_len(s.drop_last());
    }
}

pub broadcast proof fn lemma_views_of_index(s: Seq<SimpleInstruction>, i: int)
    requires
        0 <= i < s.len(),
    ensures
        #[trigger] views_of(s)[i] == ins_view(s[i]),
    decreases s,
{
    lemma_views_of_len(s);
    if i < s.len() - 1 {
        lemma_views_of_index(s.drop_last(), i);
    }
}

/// The shape of one instruction; `i@` abbreviates `ins_view(i)`.
pub open spec fn ins_view(i: SimpleInstruction) -> InsModel
    decreases i,
{
    match i {
            SimpleInstruction::PlainOp(op) => InsModel::PlainOp(op),
            SimpleInstruction::BasicBlock(b) => InsModel::BasicBlock(
                views_of(b.elems@),
                b.size as nat,
            ),
            SimpleInstruction::Loop(l) => InsModel::Loop(
                views_of(l.elems@),
                l.pos as nat,
                l.size as nat,
            ),
            SimpleInstruction::If(t, e) => InsModel::If(
                views_of(t.elems@),
                t.size as nat,
                views_of(e.elems@),
                e.size as nat,
            ),
            SimpleInstruction::Pushi64(n) => InsModel::Pushi64(n),
            SimpleInstruction::Pushf64(f) => InsModel::Pushf64(f),
            SimpleInstruction::Pushb(b) => InsModel::Pushb(b),
            SimpleInstruction::Pushi64v(v) => InsModel::Pushi64v(v.vec@, v.size as nat),
            SimpleInstruction::Pushf64v(v) => InsModel::Pushf64v(v.vec@, v.size as nat),
    }
}

impl View for SimpleInstruction {
    type V = InsModel;

    open spec fn view(&self) -> InsModel {
        ins_view(*self)
    }
}

/// Well-formedness of one instruction: every stored byte total is the exact
/// charge of the elements it stands for, a cycling iterator's position is
/// in range, and measuring the instruction cannot overflow.
pub open spec fn ins_wf(i: SimpleInstruction) -> bool
    decreases i,
{
    match i {
        SimpleInstruction::PlainOp(_) => true,
        SimpleInstruction::BasicBlock(b) => seq_ins_wf(b.elems@) && INS_BYTES + b.size
            <= usize::MAX,
        SimpleInstruction::Loop(l) => seq_ins_wf(l.elems@) && INS_BYTES + l.size <= usize::MAX
            && (if l.elems@.len() == 0 {
            l.pos == 0
        } else {
            l.pos < l.elems@.len()
        }),
        SimpleInstruction::If(t, e) => seq_ins_wf(t.elems@) && seq_ins_wf(e.elems@) && INS_BYTES
            + t.size + e.size <= usize::MAX,
        SimpleInstruction::Pushi64(_) => true,
        SimpleInstruction::Pushf64(_) => true,
        SimpleInstruction::Pushb(_) => true,
        SimpleInstruction::Pushi64v(v) => v.wf() && INS_BYTES + v.size <= usize::MAX,
        SimpleInstruction::Pushf64v(v) => v.wf() && INS_BYTES + v.size <= usize::MAX,
    }
}

/// Well-formedness of every instruction of a sequence.
pub open spec fn seq_ins_wf(s: Seq<SimpleInstruction>) -> bool
    decreases s,
{
    forall|i: int| 0 <= i < s.len() ==> ins_wf(#[trigger] s[i])
}

/// The generic elementwise well-formedness of a sequence of instructions is
/// exactly `seq_ins_wf`.
pub proof fn lemma_seq_ins_wf(s: Seq<SimpleInstruction>)
    ensures
        seq_wf(s) <==> seq_ins_wf(s),
{
    assert forall|i: int| 0 <= i < s.len() implies ((#[trigger] s[i]).wf() <==> ins_wf(s[i])) by {}
}

impl TotalMemory for SimpleInstruction {
    open spec fn wf(&self) -> bool {
        ins_wf(*self)
    }

    open spec fn charge(&self) -> nat {
        match self {
            SimpleInstruction::PlainOp(_) => INS_BYTES as nat,
            SimpleInstruction::BasicBlock(b) => (INS_BYTES + b.size) as nat,
            SimpleInstruction::Loop(l) => (INS_BYTES + l.size) as nat,
            SimpleInstruction::If(t, e) => (INS_BYTES + t.size + e.size) as nat,
            SimpleInstruction::Pushi64(_) => INS_BYTES as nat,
            SimpleInstruction::Pushf64(_) => INS_BYTES as nat,
            SimpleInstruction::Pushb(_) => INS_BYTES as nat,
            SimpleInstruction::Pushi64v(v) => (INS_BYTES + v.size) as nat,
            SimpleInstruction::Pushf64v(v) => (INS_BYTES + v.size) as nat,
        }
    }

    fn total_memory(&self) -> usize {
        match self {
            SimpleInstruction::PlainOp(_) => INS_BYTES,
            SimpleInstruction::BasicBlock(b) => INS_BYTES + b.size,
            SimpleInstruction::Loop(l) => INS_BYTES + l.size,
            SimpleInstruction::If(t, e) => INS_BYTES + t.size + e.size,
            SimpleInstruction::Pushi64(_) => INS_BYTES,
            SimpleInstruction::Pushf64(_) => INS_BYTES,
            SimpleInstruction::Pushb(_) => INS_BYTES,
            SimpleInstruction::Pushi64v(v) => INS_BYTES + v.size,
            SimpleInstruction::Pushf64v(v) => INS_BYTES + v.size,
        }
    }
}

/// Duplicate every instruction of a vector; the duplicates have the same
/// shapes, charges and well-formedness as the originals.
fn dup_ins_vec(v: &Vec<SimpleInstruction>) -> (r: Vec<SimpleInstruction>)
    requires
        seq_wf(v@),
    ensures
        r@.len() == v@.len(),
        forall|i: int| 0 <= i < v@.len() ==> (#[trigger] r@[i])@ == v@[i]@,
        seq_wf(r@),
        forall|i: int| 0 <= i < v@.len() ==> (#[trigger] r@[i]).charge() == v@[i].charge(),
        views_of(r@) == views_of(v@),
        seq_charge(r@) == seq_charge(v@),
    decreases v@,
{
    let mut r: Vec<SimpleInstruction> = Vec::new();
    let mut i: usize = 0;
    while i < v.len()
        invariant
            i <= v@.len(),
            seq_wf(v@),
            r@.len() == i,
            forall|j: int| 0 <= j < i ==> (#[trigger] r@[j])@ == v@[j]@,
            seq_wf(r@),
            forall|j: int| 0 <= j < i ==> (#[trigger] r@[j]).charge() == v@[j].charge(),
        decreases v@.len() - i,
    {
        let d = v[i].dup();
        r.push(d);
        i = i + 1;
    }
    proof {
        lemma_views_of_len(r@);
        lemma_views_of_len(v@);
        assert forall|i: int| 0 <= i < v@.len() implies views_of(r@)[i] == views_of(v@)[i] by {
            lemma_views_of_index(r@, i);
            lemma_views_of_index(v@, i);
        }
        assert(views_of(r@) =~= views_of(v@));
        lemma_seq_charge_pointwise(r@, v@);
    }
    r
}

/// Two elementwise charge-equal sequences have equal totals.
proof fn lemma_seq_charge_pointwise(a: Seq<SimpleInstruction>, b: Seq<SimpleInstruction>)
    requires
        a.len() == b.len(),
        forall|i: int| 0 <= i < a.len() ==> (#[trigger] a[i]).charge() == b[i].charge(),
    ensures
        seq_charge(a) == seq_charge(b),
    decreases a.len(),
{
    if a.len() > 0 {
        lemma_seq_charge_pointwise(a.drop_last(), b.drop_last());
    }
}

impl SimpleInstruction {
    /// An exact duplicate: same shape, same charge, well-formed. This is
    /// what the machine's copy opcodes clone.
    pub fn dup(&self) -> (r: SimpleInstruction)
        requires
            self.wf(),
        ensures
            r@ == self@,
            r.wf(),
            r.charge() == self.charge(),
        decreases self,
    {
        match self {
            SimpleInstruction::PlainOp(op) => SimpleInstruction::PlainOp(*op),
            SimpleInstruction::BasicBlock(b) => SimpleInstruction::BasicBlock(
                TrackedIter { elems: dup_ins_vec(&b.elems), size: b.size },
            ),
            SimpleInstruction::Loop(l) => SimpleInstruction::Loop(
                TrackedCycleIter { elems: dup_ins_vec(&l.elems), pos: l.pos, size: l.size },
            ),
            SimpleInstruction::If(t, e) => SimpleInstruction::If(
                TrackedIter { elems: dup_ins_vec(&t.elems), size: t.size },
                TrackedIter { elems: dup_ins_vec(&e.elems), size: e.size },
            ),
            SimpleInstruction::Pushi64(n) => SimpleInstruction::Pushi64(*n),
            SimpleInstruction::Pushf64(f) => SimpleInstruction::Pushf64(*f),
            SimpleInstruction::Pushb(b) => SimpleInstruction::Pushb(*b),
            SimpleInstruction::Pushi64v(v) => SimpleInstruction::Pushi64v(v.dup()),
            SimpleInstruction::Pushf64v(v) => SimpleInstruction::Pushf64v(v.dup()),
        }
    }
}

impl TrackedVec<SimpleInstruction> {
    /// A duplicate whose instructions have the same shapes and charges.
    pub fn dup(&self) -> (r: TrackedVec<SimpleInstruction>)
        requires
            self.wf(),
        ensures
            r.wf(),
            r.size == self.size,
            r.vec@.len() == self.vec@.len(),
            views_of(r.vec@) == views_of(self.vec@),
    {
        TrackedVec { vec: dup_ins_vec(&self.vec), size: self.size }
    }
}

impl TrackedCycleIter<SimpleInstruction> {
    /// Yield a duplicate of the element at the current position and advance,
    /// wrapping around at the end; `None` only if the backing sequence is
    /// empty. The byte total does not change.
    pub fn next(&mut self) -> (r: Option<SimpleInstruction>)
        requires
            old(self).wf(),
        ensures
            final(self).wf(),
            final(self).elems == old(self).elems,
            final(self).elems@ == old(self).elems@,
            final(self).size == old(self).size,
            old(self).elems@.len() == 0 ==> r is None && final(self).pos == old(self).pos,
            old(self).elems@.len() > 0 ==> {
                &&& match r {
                    Some(x) => {
                        &&& x@ == old(self).elems@[old(self).pos as int]@
                        &&& x.wf()
                        &&& x.charge() == old(self).elems@[old(self).pos as int].charge()
                    },
                    None => false,
                }
                &&& final(self).pos as int == if old(self).pos + 1 == old(self).elems@.len() {
                    0int
                } else {
                    old(self).pos + 1
                }
            },
    {
        if self.elems.len() == 0 {
            None
        } else {
            let x = self.elems[self.pos].dup();
            self.pos = if self.pos + 1 == self.elems.len() {
                0
            } else {
                self.pos + 1
            };
            Some(x)
        }
    }
}

} // verus!
