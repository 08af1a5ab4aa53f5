//! General laws of the instruction engine, stated over the execution
//! relation [`exec_post`] and the end-of-cycle step [`advanced`] that the
//! engine's contracts are written in.

use crate::cpu::{
    advanced, exec_post, imm_nn, lemma_opcode_fields, machine_same, nib1, nib2, nib4,
    Cpu, EngineError,
};
use vstd::prelude::*;

verus! {

/// Loading a register: executing `6xnn` leaves `V[x] == nn`, touches no
/// other machine state but the registers, and the cycle advances the
/// program counter by exactly 2.
pub proof fn lemma_load_register(pre: Cpu, mid: Cpu, post: Cpu, op: u16, keys: Seq<bool>)
    requires
        pre.wf(),
        nib1(op) == 0x6,
        exec_post(pre, mid, op, keys, Ok::<bool, EngineError>(true)),
        advanced(mid, post),
    ensures
        post.vp@[nib2(op) as int] == imm_nn(op) as u8,
        post.pc == pre.pc + 2,
        post.memory@ == pre.memory@,
        forall|j: int| 0 <= j < 16 && j != nib2(op) ==> post.vp@[j] == pre.vp@[j],
{
    lemma_opcode_fields(op);
}

/// Call/return symmetry: executing `2nnn` and then, on the next cycle,
/// `00EE`, restores the program counter to the call-site address and the
/// stack pointer to its pre-call value.
pub proof fn lemma_call_return(
    pre: Cpu,
    mid1: Cpu,
    mid2: Cpu,
    post: Cpu,
    op_call: u16,
    keys1: Seq<bool>,
    keys2: Seq<bool>,
)
    requires
        pre.wf(),
        pre.pc <= 0xFFFF,
        nib1(op_call) == 0x2,
        exec_post(pre, mid1, op_call, keys1, Ok::<bool, EngineError>(true)),
        advanced(mid1, mid2),
        exec_post(mid2, post, 0x00EE, keys2, Ok::<bool, EngineError>(true)),
    ensures
        post.pc == pre.pc,
        post.sp == pre.sp,
{
    lemma_opcode_fields(op_call);
    assert(nib1(0x00EE) == 0 && nib2(0x00EE) == 0 && crate::cpu::nib3(0x00EE) == 0xE && nib4(
        0x00EE,
    ) == 0xE) by (bit_vector);
    assert(mid2.stack@[mid2.sp as int] == pre.pc as u16);
    assert(pre.pc as u16 as usize == pre.pc);
}

/// Register dump/load round trip: dumping `V[0..=x]` to memory at `I` and
/// then, on the next cycle, loading the same region back reproduces the
/// original register values exactly.
pub proof fn lemma_dump_load_round_trip(
    pre: Cpu,
    mid1: Cpu,
    mid2: Cpu,
    post: Cpu,
    op_dump: u16,
    op_load: u16,
    keys1: Seq<bool>,
    keys2: Seq<bool>,
)
    requires
        pre.wf(),
        nib1(op_dump) == 0xF,
        imm_nn(op_dump) == 0x55,
        nib1(op_load) == 0xF,
        imm_nn(op_load) == 0x65,
        nib2(op_load) == nib2(op_dump),
        exec_post(pre, mid1, op_dump, keys1, Ok::<bool, EngineError>(true)),
        advanced(mid1, mid2),
        exec_post(mid2, post, op_load, keys2, Ok::<bool, EngineError>(true)),
    ensures
        post.vp@ == pre.vp@,
{
    lemma_opcode_fields(op_dump);
    lemma_opcode_fields(op_load);
    assert(post.vp@ =~= pre.vp@);
}

/// Skip symmetry: from one machine state, `3xnn` makes the cycle advance
/// the program counter by 4 exactly when `V[x] == nn`, `4xnn` exactly when
/// `V[x] != nn`, and the two never both skip nor both fall through.
pub proof fn lemma_skip_symmetry(
    pre: Cpu,
    mid3: Cpu,
    post3: Cpu,
    mid4: Cpu,
    post4: Cpu,
    op3: u16,
    op4: u16,
    keys: Seq<bool>,
)
    requires
        pre.wf(),
        nib1(op3) == 0x3,
        nib1(op4) == 0x4,
        nib2(op4) == nib2(op3),
        imm_nn(op4) == imm_nn(op3),
        exec_post(pre, mid3, op3, keys, Ok::<bool, EngineError>(true)),
        advanced(mid3, post3),
        exec_post(pre, mid4, op4, keys, Ok::<bool, EngineError>(true)),
        advanced(mid4, post4),
    ensures
        post3.pc == pre.pc + 4 <==> pre.vp@[nib2(op3) as int] == imm_nn(op3) as u8,
        post4.pc == pre.pc + 4 <==> pre.vp@[nib2(op3) as int] != imm_nn(op3) as u8,
        post3.pc == pre.pc + 4 <==> !(post4.pc == pre.pc + 4),
        post3.pc == pre.pc + 4 || post3.pc == pre.pc + 2,
        post4.pc == pre.pc + 4 || post4.pc == pre.pc + 2,
{
    lemma_opcode_fields(op3);
    lemma_opcode_fields(op4);
}

/// An unknown opcode pattern is a fatal decode fault that carries the raw
/// opcode and mutates no register, memory or timer state.
pub proof fn lemma_unknown_opcode_preserves_state(
    pre: Cpu,
    post: Cpu,
    op: u16,
    keys: Seq<bool>,
    r: Result<bool, EngineError>,
)
    requires
        exec_post(pre, post, op, keys, r),
        r == Err::<bool, EngineError>(EngineError::UnknownOpcode(op)),
    ensures
        machine_same(pre, post),
        post.vp@ == pre.vp@,
        post.memory@ == pre.memory@,
        post.delay_timer == pre.delay_timer,
        post.sound_timer == pre.sound_timer,
{
}

} // verus!
