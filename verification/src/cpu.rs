//! The instruction engine: fetch, decode, dispatch and execute one
//! instruction per cycle against the owned machine state.
//!
//! Each cycle the host hands in the freshly polled key state and the
//! quit signal; the engine fetches the two bytes at the program counter,
//! splits the 16-bit opcode into four nibbles, dispatches to exactly one
//! handler, applies the per-cycle program-counter advance and decrements
//! both timers. The spec functions [`exec_post`] and [`cycle_post`] state
//! the exact machine-state relation of every opcode and of a whole cycle.
//!
//! Control transfers follow the redirect-flag convention: a jump or call
//! handler stores the target address and raises [`Cpu::redirected`], and the
//! per-cycle advance of 2 is skipped for that cycle, so the next fetch lands
//! exactly on the target.
//!
//! The blocking key-wait instruction is the one suspension point: it parks
//! the register index in [`Cpu::waiting_for_key`] and the cycle reports
//! [`StepOutcome::WaitingForKey`] with the program counter and timers left
//! untouched; the host polls its input source and completes the cycle
//! through [`Cpu::finish_key_wait`].

use crate::display::{collision_cols, draw_cols, Display};
use crate::fontset::{font_seq, font_table, FONTSET_LOCATION};
use crate::keypad::Keypad;
use rand::Rng;
use vstd::prelude::*;

verus! {

/// A fatal condition that halts the engine.
#[derive(Clone, Copy, Debug, PartialEq, Eq, Structural)]
pub enum EngineError {
    /// Decode fault: the nibble pattern matches no handler. Carries the raw
    /// opcode value.
    UnknownOpcode(u16),
    /// Resource fault: a call was attempted with every stack slot in use.
    StackOverflow,
    /// Resource fault: a return was attempted with the call stack empty.
    StackUnderflow,
    /// Resource fault: an address derived from the index register, the
    /// program counter or the jump-offset sum falls outside the memory
    /// image.
    MemoryOutOfRange,
    /// Resource fault: a key query named a key outside the 16-key pad.
    KeyOutOfRange,
    /// Load fault: the program image does not fit between the load address
    /// and the end of memory.
    ProgramTooLarge,
}

/// What one engine cycle reports to the host loop.
#[derive(Clone, Copy, Debug, PartialEq, Eq, Structural)]
pub enum StepOutcome {
    /// The cycle completed; keep running.
    Continue,
    /// The input source requested termination; stop cleanly.
    Stop,
    /// The engine is blocked on the key-wait instruction for the named
    /// register; poll for a key edge and call [`Cpu::finish_key_wait`].
    WaitingForKey(u8),
}

/// The machine: memory image, register file, program counter, index
/// register, timer pair, call stack, keypad and display, plus the transient
/// opcode of the current cycle and the engine's own cycle bookkeeping.
pub struct Cpu {
    /// The 4096-byte memory image.
    pub memory: Vec<u8>,
    /// The 16 general-purpose registers; register 0xF is the flag register.
    pub vp: Vec<u8>,
    /// Address of the next instruction to fetch.
    pub pc: usize,
    /// The index register: a 16-bit pointer register, semantically 12-bit.
    /// It is never masked on write; the add-to-index operation reads it
    /// modulo 2^16, and a value past 0xFFF is caught at the memory
    /// operations that use it.
    pub i: usize,
    /// The delay timer, decremented once per cycle while nonzero.
    pub delay_timer: u8,
    /// The sound timer, decremented once per cycle while nonzero.
    pub sound_timer: u8,
    /// The 16-key key state, refreshed from the host's poll each cycle.
    pub keypad: Keypad,
    /// The 64x32 display buffer.
    pub display: Display,
    /// The 16 return-address slots of the call stack.
    pub stack: Vec<u16>,
    /// The stack pointer: index of the topmost slot in use, 0 when empty.
    pub sp: usize,
    /// The opcode fetched this cycle.
    pub opcode: u16,
    /// Whether the opcode just executed redirected control flow, which
    /// suppresses the per-cycle advance of the program counter.
    pub redirected: bool,
    /// The register awaiting a key, while the key-wait instruction blocks.
    pub waiting_for_key: Option<u8>,
}

/// Highest nibble of an opcode.
pub open spec fn nib1(op: u16) -> u16 {
    (op & 0xF000) >> 12
}

/// Second nibble of an opcode, the register index `x`.
pub open spec fn nib2(op: u16) -> u16 {
    (op & 0x0F00) >> 8
}

/// Third nibble of an opcode, the register index `y`.
pub open spec fn nib3(op: u16) -> u16 {
    (op & 0x00F0) >> 4
}

/// Lowest nibble of an opcode.
pub open spec fn nib4(op: u16) -> u16 {
    op & 0x000F
}

/// 8-bit immediate of an opcode.
pub open spec fn imm_nn(op: u16) -> u16 {
    op & 0x00FF
}

/// 12-bit immediate of an opcode.
pub open spec fn imm_nnn(op: u16) -> u16 {
    op & 0x0FFF
}

/// Bounds of the opcode fields, and how the immediates decompose into
/// nibbles.
pub proof fn lemma_opcode_fields(op: u16)
    by (bit_vector)
    ensures
        nib1(op) < 16,
        nib2(op) < 16,
        nib3(op) < 16,
        nib4(op) < 16,
        imm_nn(op) < 256,
        imm_nnn(op) < 4096,
        imm_nn(op) == nib3(op) * 16 + nib4(op),
        imm_nnn(op) == nib2(op) * 256 + nib3(op) * 16 + nib4(op),
{
}

/// The opcode fetched at the program counter: two consecutive bytes,
/// combined big-endian.
pub open spec fn fetch_op(pre: Cpu) -> u16 {
    ((pre.memory@[pre.pc as int] as u16) << 8) | (pre.memory@[pre.pc as int + 1] as u16)
}

/// Whether the opcode redirects control flow, suppressing the per-cycle
/// program-counter advance. A return does not: it restores the call-site
/// address and lets the advance step past the call instruction.
pub open spec fn redirects(op: u16) -> bool {
    nib1(op) == 0x1 || nib1(op) == 0x2 || nib1(op) == 0xB
}

/// Structural well-formedness: fixed extents of the owned components.
impl Cpu {
    pub open spec fn wf(&self) -> bool {
        &&& self.memory@.len() == 4096
        &&& self.vp@.len() == 16
        &&& self.stack@.len() == 16
        &&& self.sp < 16
        &&& self.display.wf()
        &&& self.keypad.wf()
        &&& match self.waiting_for_key {
            Some(x) => x < 16,
            None => true,
        }
    }
}

/// All machine state equal: memory, registers, program counter, index,
/// timers, stack, display buffer and key-wait state.
pub open spec fn machine_same(pre: Cpu, post: Cpu) -> bool {
    &&& post.memory@ == pre.memory@
    &&& post.vp@ == pre.vp@
    &&& post.pc == pre.pc
    &&& post.i == pre.i
    &&& post.delay_timer == pre.delay_timer
    &&& post.sound_timer == pre.sound_timer
    &&& post.stack@ == pre.stack@
    &&& post.sp == pre.sp
    &&& post.display.display@ == pre.display.display@
    &&& post.waiting_for_key == pre.waiting_for_key
}

/// All machine state equal but the registers.
pub open spec fn same_except_regs(pre: Cpu, post: Cpu) -> bool {
    &&& post.memory@ == pre.memory@
    &&& post.pc == pre.pc
    &&& post.i == pre.i
    &&& post.delay_timer == pre.delay_timer
    &&& post.sound_timer == pre.sound_timer
    &&& post.stack@ == pre.stack@
    &&& post.sp == pre.sp
    &&& post.display.display@ == pre.display.display@
    &&& post.waiting_for_key == pre.waiting_for_key
}

/// All machine state equal but the program counter.
pub open spec fn same_except_pc(pre: Cpu, post: Cpu) -> bool {
    &&& post.memory@ == pre.memory@
    &&& post.vp@ == pre.vp@
    &&& post.i == pre.i
    &&& post.delay_timer == pre.delay_timer
    &&& post.sound_timer == pre.sound_timer
    &&& post.stack@ == pre.stack@
    &&& post.sp == pre.sp
    &&& post.display.display@ == pre.display.display@
    &&& post.waiting_for_key == pre.waiting_for_key
}

/// All machine state equal but the program counter, the stack and the stack
/// pointer.
pub open spec fn same_except_flow(pre: Cpu, post: Cpu) -> bool {
    &&& post.memory@ == pre.memory@
    &&& post.vp@ == pre.vp@
    &&& post.i == pre.i
    &&& post.delay_timer == pre.delay_timer
    &&& post.sound_timer == pre.sound_timer
    &&& post.display.display@ == pre.display.display@
    &&& post.waiting_for_key == pre.waiting_for_key
}

/// All machine state equal but the index register.
pub open spec fn same_except_index(pre: Cpu, post: Cpu) -> bool {
    &&& post.memory@ == pre.memory@
    &&& post.vp@ == pre.vp@
    &&& post.pc == pre.pc
    &&& post.delay_timer == pre.delay_timer
    &&& post.sound_timer == pre.sound_timer
    &&& post.stack@ == pre.stack@
    &&& post.sp == pre.sp
    &&& post.display.display@ == pre.display.display@
    &&& post.waiting_for_key == pre.waiting_for_key
}

/// All machine state equal but the index register and the registers.
pub open spec fn same_except_index_regs(pre: Cpu, post: Cpu) -> bool {
    &&& post.memory@ == pre.memory@
    &&& post.pc == pre.pc
    &&& post.delay_timer == pre.delay_timer
    &&& post.sound_timer == pre.sound_timer
    &&& post.stack@ == pre.stack@
    &&& post.sp == pre.sp
    &&& post.display.display@ == pre.display.display@
    &&& post.waiting_for_key == pre.waiting_for_key
}

/// All machine state equal but the display buffer.
pub open spec fn same_except_display(pre: Cpu, post: Cpu) -> bool {
    &&& post.memory@ == pre.memory@
    &&& post.vp@ == pre.vp@
    &&& post.pc == pre.pc
    &&& post.i == pre.i
    &&& post.delay_timer == pre.delay_timer
    &&& post.sound_timer == pre.sound_timer
    &&& post.stack@ == pre.stack@
    &&& post.sp == pre.sp
    &&& post.waiting_for_key == pre.waiting_for_key
}

/// All machine state equal but the display buffer and the registers.
pub open spec fn same_except_display_regs(pre: Cpu, post: Cpu) -> bool {
    &&& post.memory@ == pre.memory@
    &&& post.pc == pre.pc
    &&& post.i == pre.i
    &&& post.delay_timer == pre.delay_timer
    &&& post.sound_timer == pre.sound_timer
    &&& post.stack@ == pre.stack@
    &&& post.sp == pre.sp
    &&& post.waiting_for_key == pre.waiting_for_key
}

/// All machine state equal but the memory image.
pub open spec fn same_except_memory(pre: Cpu, post: Cpu) -> bool {
    &&& post.vp@ == pre.vp@
    &&& post.pc == pre.pc
    &&& post.i == pre.i
    &&& post.delay_timer == pre.delay_timer
    &&& post.sound_timer == pre.sound_timer
    &&& post.stack@ == pre.stack@
    &&& post.sp == pre.sp
    &&& post.display.display@ == pre.display.display@
    &&& post.waiting_for_key == pre.waiting_for_key
}

/// All machine state equal but the delay timer.
pub open spec fn same_except_delay(pre: Cpu, post: Cpu) -> bool {
    &&& post.memory@ == pre.memory@
    &&& post.vp@ == pre.vp@
    &&& post.pc == pre.pc
    &&& post.i == pre.i
    &&& post.sound_timer == pre.sound_timer
    &&& post.stack@ == pre.stack@
    &&& post.sp == pre.sp
    &&& post.display.display@ == pre.display.display@
    &&& post.waiting_for_key == pre.waiting_for_key
}

/// All machine state equal but the sound timer.
pub open spec fn same_except_sound(pre: Cpu, post: Cpu) -> bool {
    &&& post.memory@ == pre.memory@
    &&& post.vp@ == pre.vp@
    &&& post.pc == pre.pc
    &&& post.i == pre.i
    &&& post.delay_timer == pre.delay_timer
    &&& post.stack@ == pre.stack@
    &&& post.sp == pre.sp
    &&& post.display.display@ == pre.display.display@
    &&& post.waiting_for_key == pre.waiting_for_key
}

/// All machine state equal but the key-wait state.
pub open spec fn same_except_waiting(pre: Cpu, post: Cpu) -> bool {
    &&& post.memory@ == pre.memory@
    &&& post.vp@ == pre.vp@
    &&& post.pc == pre.pc
    &&& post.i == pre.i
    &&& post.delay_timer == pre.delay_timer
    &&& post.sound_timer == pre.sound_timer
    &&& post.stack@ == pre.stack@
    &&& post.sp == pre.sp
    &&& post.display.display@ == pre.display.display@
}

/// The display buffer after XOR-compositing the first `nrows` rows of the
/// 8-wide sprite read from memory at `i`, at base coordinates `(x, y)`.
pub open spec fn draw_rows(d: Seq<u8>, x: int, y: int, mem: Seq<u8>, i: int, nrows: int) -> Seq<
    u8,
>
    decreases nrows,
{
    if nrows <= 0 {
        d
    } else {
        let prev = draw_rows(d, x, y, mem, i, nrows - 1);
        draw_cols(prev, x, y + (nrows - 1), mem[i + (nrows - 1)], 8)
    }
}

/// Whether compositing the first `nrows` sprite rows turns some lit pixel
/// dark.
pub open spec fn collision_rows(d: Seq<u8>, x: int, y: int, mem: Seq<u8>, i: int, nrows: int) -> bool
    decreases nrows,
{
    if nrows <= 0 {
        false
    } else {
        collision_rows(d, x, y, mem, i, nrows - 1) || collision_cols(
            draw_rows(d, x, y, mem, i, nrows - 1),
            x,
            y + (nrows - 1),
            mem[i + (nrows - 1)],
            8,
        )
    }
}

/// Base x coordinate of a sprite draw: the value of `V[x]`, read after the
/// flag register has been cleared, so a sprite addressed through the flag
/// register draws at 0.
pub open spec fn sprite_base_x(pre: Cpu, op: u16) -> int {
    if nib2(op) == 15 {
        0
    } else {
        pre.vp@[nib2(op) as int] as int
    }
}

/// Base y coordinate of a sprite draw, read the same way.
pub open spec fn sprite_base_y(pre: Cpu, op: u16) -> int {
    if nib3(op) == 15 {
        0
    } else {
        pre.vp@[nib3(op) as int] as int
    }
}

/// The fatal condition an opcode meets in the given machine state, when
/// there is one. Errors depend only on the pre-state and the opcode:
/// an unmatched nibble pattern is a decode fault, and the checks on the
/// call stack and on addresses derived from the index register or the
/// jump-offset sum are resource faults.
pub open spec fn exec_fault(pre: Cpu, op: u16) -> Option<EngineError> {
    let x = nib2(op) as int;
    let n = nib4(op) as int;
    if nib1(op) == 0x0 && nib2(op) == 0x0 && nib3(op) == 0xE && nib4(op) == 0x0 {
        None
    } else if nib1(op) == 0x0 && nib2(op) == 0x0 && nib3(op) == 0xE && nib4(op) == 0xE {
        if pre.sp == 0 {
            Some(EngineError::StackUnderflow)
        } else {
            None
        }
    } else if nib1(op) == 0x1 {
        None
    } else if nib1(op) == 0x2 {
        if pre.sp >= 15 {
            Some(EngineError::StackOverflow)
        } else {
            None
        }
    } else if nib1(op) == 0x3 || nib1(op) == 0x4 {
        None
    } else if nib1(op) == 0x5 && nib4(op) == 0x0 {
        None
    } else if nib1(op) == 0x6 || nib1(op) == 0x7 {
        None
    } else if nib1(op) == 0x8 && (nib4(op) <= 0x7 || nib4(op) == 0xE) {
        None
    } else if nib1(op) == 0x9 && nib4(op) == 0x0 {
        None
    } else if nib1(op) == 0xA {
        None
    } else if nib1(op) == 0xB {
        if pre.vp@[0] + imm_nnn(op) > 0xFFF {
            Some(EngineError::MemoryOutOfRange)
        } else {
            None
        }
    } else if nib1(op) == 0xC {
        None
    } else if nib1(op) == 0xD {
        if n > 0 && pre.i + n > 4096 {
            Some(EngineError::MemoryOutOfRange)
        } else {
            None
        }
    } else if nib1(op) == 0xE && nib3(op) == 0x9 && nib4(op) == 0xE {
        if pre.vp@[x] >= 16 {
            Some(EngineError::KeyOutOfRange)
        } else {
            None
        }
    } else if nib1(op) == 0xE && nib3(op) == 0xA && nib4(op) == 0x1 {
        if pre.vp@[x] >= 16 {
            Some(EngineError::KeyOutOfRange)
        } else {
            None
        }
    } else if nib1(op) == 0xF && (imm_nn(op) == 0x07 || imm_nn(op) == 0x0A || imm_nn(op) == 0x15
        || imm_nn(op) == 0x18 || imm_nn(op) == 0x1E || imm_nn(op) == 0x29) {
        None
    } else if nib1(op) == 0xF && imm_nn(op) == 0x33 {
        if pre.i > 4093 {
            Some(EngineError::MemoryOutOfRange)
        } else {
            None
        }
    } else if nib1(op) == 0xF && (imm_nn(op) == 0x55 || imm_nn(op) == 0x65) {
        if pre.i + x > 4095 {
            Some(EngineError::MemoryOutOfRange)
        } else {
            None
        }
    } else {
        Some(EngineError::UnknownOpcode(op))
    }
}

/// The machine-state relation of one fault-free opcode execution, before
/// the per-cycle program-counter advance and timer decrement. `keys` is the
/// key state the key-query opcodes consult.
pub open spec fn exec_ok(pre: Cpu, post: Cpu, op: u16, keys: Seq<bool>) -> bool {
    let x = nib2(op) as int;
    let y = nib3(op) as int;
    let n = nib4(op) as int;
    let nn = imm_nn(op) as u8;
    let nnn = imm_nnn(op);
    let vx = pre.vp@[x];
    let vy = pre.vp@[y];
    if nib1(op) == 0x0 && nib2(op) == 0x0 && nib3(op) == 0xE && nib4(op) == 0x0 {
        // 00E0: clear the display buffer.
        &&& same_except_display(pre, post)
        &&& post.display.display@ == Seq::new(2048, |j: int| 0u8)
    } else if nib1(op) == 0x0 && nib2(op) == 0x0 && nib3(op) == 0xE && nib4(op) == 0xE {
        // 00EE: pop the call stack into the program counter.
        &&& same_except_flow(pre, post)
        &&& post.stack@ == pre.stack@
        &&& post.sp == pre.sp - 1
        &&& post.pc == pre.stack@[pre.sp as int] as usize
    } else if nib1(op) == 0x1 {
        // 1nnn: unconditional jump.
        &&& same_except_pc(pre, post)
        &&& post.pc == nnn as usize
    } else if nib1(op) == 0x2 {
        // 2nnn: push the call-site address, then jump.
        &&& same_except_flow(pre, post)
        &&& post.sp == pre.sp + 1
        &&& post.stack@ == pre.stack@.update(pre.sp + 1, pre.pc as u16)
        &&& post.pc == nnn as usize
    } else if nib1(op) == 0x3 {
        // 3xnn: skip the next instruction iff V[x] == nn.
        &&& same_except_pc(pre, post)
        &&& post.pc == if vx == nn {
            (pre.pc + 2) as int
        } else {
            pre.pc as int
        }
    } else if nib1(op) == 0x4 {
        // 4xnn: skip the next instruction iff V[x] != nn.
        &&& same_except_pc(pre, post)
        &&& post.pc == if vx != nn {
            (pre.pc + 2) as int
        } else {
            pre.pc as int
        }
    } else if nib1(op) == 0x5 && nib4(op) == 0x0 {
        // 5xy0: skip the next instruction iff V[x] == V[y].
        &&& same_except_pc(pre, post)
        &&& post.pc == if vx == vy {
            (pre.pc + 2) as int
        } else {
            pre.pc as int
        }
    } else if nib1(op) == 0x6 {
        // 6xnn: V[x] := nn.
        &&& same_except_regs(pre, post)
        &&& post.vp@ == pre.vp@.update(x, nn)
    } else if nib1(op) == 0x7 {
        // 7xnn: V[x] := V[x] + nn, wrapping, no flag change.
        &&& same_except_regs(pre, post)
        &&& post.vp@ == pre.vp@.update(x, ((vx + nn) % 256) as u8)
    } else if nib1(op) == 0x8 && nib4(op) == 0x0 {
        // 8xy0: V[x] := V[y].
        &&& same_except_regs(pre, post)
        &&& post.vp@ == pre.vp@.update(x, vy)
    } else if nib1(op) == 0x8 && nib4(op) == 0x1 {
        // 8xy1: V[x] := V[x] | V[y].
        &&& same_except_regs(pre, post)
        &&& post.vp@ == pre.vp@.update(x, vx | vy)
    } else if nib1(op) == 0x8 && nib4(op) == 0x2 {
        // 8xy2: V[x] := V[x] & V[y].
        &&& same_except_regs(pre, post)
        &&& post.vp@ == pre.vp@.update(x, vx & vy)
    } else if nib1(op) == 0x8 && nib4(op) == 0x3 {
        // 8xy3: V[x] := V[x] ^ V[y].
        &&& same_except_regs(pre, post)
        &&& post.vp@ == pre.vp@.update(x, vx ^ vy)
    } else if nib1(op) == 0x8 && nib4(op) == 0x4 {
        // 8xy4: widened sum; flag 1 on carry, then V[x] := sum mod 256.
        &&& same_except_regs(pre, post)
        &&& post.vp@ == pre.vp@.update(15, if vx + vy > 255 {
            1u8
        } else {
            0u8
        }).update(x, ((vx + vy) % 256) as u8)
    } else if nib1(op) == 0x8 && nib4(op) == 0x5 {
        // 8xy5: widened difference; flag 0 on borrow, then V[x] := diff mod
        // 256.
        &&& same_except_regs(pre, post)
        &&& post.vp@ == pre.vp@.update(15, if vx < vy {
            0u8
        } else {
            1u8
        }).update(x, ((vx - vy) % 256) as u8)
    } else if nib1(op) == 0x8 && nib4(op) == 0x6 {
        // 8xy6: flag := V[x] & 1, then V[x] halved; through the flag
        // register the shift reads the just-written flag.
        &&& same_except_regs(pre, post)
        &&& post.vp@ == {
            let v1 = pre.vp@.update(15, vx & 1);
            v1.update(x, v1[x] / 2)
        }
    } else if nib1(op) == 0x8 && nib4(op) == 0x7 {
        // 8xy7: flag := 1 iff V[y] > V[x] on the pre-update values, then
        // V[x] := V[y] - V[x] mod 256 on the values after the flag write.
        &&& same_except_regs(pre, post)
        &&& post.vp@ == {
            let v1 = pre.vp@.update(15, if vy > vx {
                1u8
            } else {
                0u8
            });
            v1.update(x, ((v1[y] - v1[x]) % 256) as u8)
        }
    } else if nib1(op) == 0x8 && nib4(op) == 0xE {
        // 8xyE: flag := V[x] & 0x80, then V[x] doubled mod 256 on the values
        // after the flag write.
        &&& same_except_regs(pre, post)
        &&& post.vp@ == {
            let v1 = pre.vp@.update(15, vx & 0x80);
            v1.update(x, ((v1[x] * 2) % 256) as u8)
        }
    } else if nib1(op) == 0x9 && nib4(op) == 0x0 {
        // 9xy0: skip the next instruction iff V[x] != V[y].
        &&& same_except_pc(pre, post)
        &&& post.pc == if vx != vy {
            (pre.pc + 2) as int
        } else {
            pre.pc as int
        }
    } else if nib1(op) == 0xA {
        // Annn: I := nnn.
        &&& same_except_index(pre, post)
        &&& post.i == nnn as usize
    } else if nib1(op) == 0xB {
        // Bnnn: jump to V[0] + nnn, range-checked by `exec_fault`.
        &&& same_except_pc(pre, post)
        &&& post.pc == pre.vp@[0] + nnn
    } else if nib1(op) == 0xC {
        // Cxnn: V[x] := random byte masked by nn; only the mask is
        // promised.
        &&& same_except_regs(pre, post)
        &&& post.vp@ == pre.vp@.update(x, post.vp@[x])
        &&& post.vp@[x] & !nn == 0
    } else if nib1(op) == 0xD {
        // Dxyn: XOR-composite the n-row sprite at memory I onto the display
        // at (V[x], V[y]); flag := 1 iff some lit pixel went dark.
        &&& same_except_display_regs(pre, post)
        &&& post.display.display@ == draw_rows(
            pre.display.display@,
            sprite_base_x(pre, op),
            sprite_base_y(pre, op),
            pre.memory@,
            pre.i as int,
            n,
        )
        &&& post.vp@ == pre.vp@.update(15, if collision_rows(
            pre.display.display@,
            sprite_base_x(pre, op),
            sprite_base_y(pre, op),
            pre.memory@,
            pre.i as int,
            n,
        ) {
            1u8
        } else {
            0u8
        })
    } else if nib1(op) == 0xE && nib3(op) == 0x9 && nib4(op) == 0xE {
        // Ex9E: skip the next instruction iff key V[x] is down.
        &&& same_except_pc(pre, post)
        &&& post.pc == if keys[vx as int] {
            (pre.pc + 2) as int
        } else {
            pre.pc as int
        }
    } else if nib1(op) == 0xE && nib3(op) == 0xA && nib4(op) == 0x1 {
        // ExA1: skip the next instruction iff key V[x] is up.
        &&& same_except_pc(pre, post)
        &&& post.pc == if !keys[vx as int] {
            (pre.pc + 2) as int
        } else {
            pre.pc as int
        }
    } else if nib1(op) == 0xF && imm_nn(op) == 0x07 {
        // Fx07: V[x] := delay timer.
        &&& same_except_regs(pre, post)
        &&& post.vp@ == pre.vp@.update(x, pre.delay_timer)
    } else if nib1(op) == 0xF && imm_nn(op) == 0x0A {
        // Fx0A: suspend until a key-down edge; park the register index.
        &&& same_except_waiting(pre, post)
        &&& post.waiting_for_key == Some(nib2(op) as u8)
    } else if nib1(op) == 0xF && imm_nn(op) == 0x15 {
        // Fx15: delay timer := V[x].
        &&& same_except_delay(pre, post)
        &&& post.delay_timer == vx
    } else if nib1(op) == 0xF && imm_nn(op) == 0x18 {
        // Fx18: sound timer := V[x].
        &&& same_except_sound(pre, post)
        &&& post.sound_timer == vx
    } else if nib1(op) == 0xF && imm_nn(op) == 0x1E {
        // Fx1E: widened sum of the 16-bit index register and V[x]; flag 1
        // iff the sum leaves the 12-bit address space; I := sum.
        &&& same_except_index_regs(pre, post)
        &&& post.i == (pre.i as int % 0x10000) + vx
        &&& post.vp@ == pre.vp@.update(15, if (pre.i as int % 0x10000) + vx > 0xFFF {
            1u8
        } else {
            0u8
        })
    } else if nib1(op) == 0xF && imm_nn(op) == 0x29 {
        // Fx29: I := address of the glyph for digit V[x].
        &&& same_except_index(pre, post)
        &&& post.i == 0x50 + 5 * (vx as int)
    } else if nib1(op) == 0xF && imm_nn(op) == 0x33 {
        // Fx33: store the decimal digits of V[x] at I, I+1, I+2.
        &&& same_except_memory(pre, post)
        &&& post.memory@ == pre.memory@.update(pre.i as int, vx / 100).update(
            pre.i as int + 1,
            (vx / 10) % 10,
        ).update(pre.i as int + 2, vx % 10)
    } else if nib1(op) == 0xF && imm_nn(op) == 0x55 {
        // Fx55: copy V[0..=x] into memory at I.
        &&& same_except_memory(pre, post)
        &&& post.memory@.len() == pre.memory@.len()
        &&& forall|j: int| 0 <= j <= x ==> post.memory@[pre.i + j] == pre.vp@[j]
        &&& forall|j: int|
            0 <= j < pre.memory@.len() && !(pre.i <= j <= pre.i + x) ==> post.memory@[j]
                == pre.memory@[j]
    } else if nib1(op) == 0xF && imm_nn(op) == 0x65 {
        // Fx65: copy memory at I into V[0..=x].
        &&& same_except_regs(pre, post)
        &&& post.vp@.len() == pre.vp@.len()
        &&& forall|j: int| 0 <= j <= x ==> post.vp@[j] == pre.memory@[pre.i + j]
        &&& forall|j: int| x < j < 16 ==> post.vp@[j] == pre.vp@[j]
    } else {
        // Unmatched patterns never reach here: `exec_fault` reports them.
        false
    }
}

/// The full relation of one opcode execution: the result is the fault
/// `exec_fault` names, if any, with the machine state untouched; otherwise
/// success with the machine state related by `exec_ok`, and the redirect
/// flag recording whether the opcode redirected control flow.
pub open spec fn exec_post(
    pre: Cpu,
    post: Cpu,
    op: u16,
    keys: Seq<bool>,
    r: Result<bool, EngineError>,
) -> bool {
    match exec_fault(pre, op) {
        Some(e) => {
            &&& r == Err::<bool, EngineError>(e)
            &&& machine_same(pre, post)
            &&& post.redirected == false
        },
        None => {
            &&& r == Ok::<bool, EngineError>(true)
            &&& exec_ok(pre, post, op, keys)
            &&& post.redirected == redirects(op)
        },
    }
}

/// The opcode field and the keypad, which no handler touches.
pub open spec fn io_same(pre: Cpu, post: Cpu) -> bool {
    post.opcode == pre.opcode && post.keypad == pre.keypad
}

/// The end-of-cycle step that follows a completed opcode: the program
/// counter advances by exactly 2 unless the opcode redirected control flow,
/// and both timers decrement, saturating at zero.
pub open spec fn advanced(mid: Cpu, post: Cpu) -> bool {
    &&& post.memory@ == mid.memory@
    &&& post.vp@ == mid.vp@
    &&& post.i == mid.i
    &&& post.stack@ == mid.stack@
    &&& post.sp == mid.sp
    &&& post.display.display@ == mid.display.display@
    &&& post.waiting_for_key == mid.waiting_for_key
    &&& post.opcode == mid.opcode
    &&& post.keypad == mid.keypad
    &&& post.redirected == mid.redirected
    &&& if mid.redirected {
        post.pc == mid.pc
    } else {
        post.pc == mid.pc + 2
    }
    &&& post.delay_timer == if mid.delay_timer > 0 {
        (mid.delay_timer - 1) as u8
    } else {
        0u8
    }
    &&& post.sound_timer == if mid.sound_timer > 0 {
        (mid.sound_timer - 1) as u8
    } else {
        0u8
    }
}

/// The relation of one whole engine cycle. The keypad always takes the
/// polled key state. A quit signal stops the cycle before the fetch; a
/// pending key wait reports itself again untouched; a program counter at
/// the edge of memory is a fatal fetch fault. Otherwise the fetched opcode
/// executes as `exec_post` states, and on a completed instruction the
/// advance-and-timers step `advanced` closes the cycle; an instruction that
/// began a key wait leaves the program counter and timers untouched.
pub open spec fn cycle_post(
    pre: Cpu,
    post: Cpu,
    quit: bool,
    keys: Seq<bool>,
    r: Result<StepOutcome, EngineError>,
) -> bool {
    &&& post.keypad.pressed_keys@ == keys
    &&& if quit {
        &&& r == Ok::<StepOutcome, EngineError>(StepOutcome::Stop)
        &&& machine_same(pre, post)
        &&& post.opcode == pre.opcode
        &&& post.redirected == pre.redirected
    } else {
        match pre.waiting_for_key {
            Some(k) => {
                &&& r == Ok::<StepOutcome, EngineError>(StepOutcome::WaitingForKey(k))
                &&& machine_same(pre, post)
                &&& post.opcode == pre.opcode
                &&& post.redirected == pre.redirected
            },
            None => {
                if pre.pc >= 4095 {
                    &&& r == Err::<StepOutcome, EngineError>(EngineError::MemoryOutOfRange)
                    &&& machine_same(pre, post)
                    &&& post.opcode == pre.opcode
                    &&& post.redirected == pre.redirected
                } else {
                    let op = fetch_op(pre);
                    &&& post.opcode == op
                    &&& match r {
                        Result::Err(e) => exec_post(
                            pre,
                            post,
                            op,
                            keys,
                            Err::<bool, EngineError>(e),
                        ),
                        Result::Ok(StepOutcome::WaitingForKey(x)) => exec_post(
                            pre,
                            post,
                            op,
                            keys,
                            Ok::<bool, EngineError>(true),
                        ) && post.waiting_for_key == Some(x),
                        Result::Ok(StepOutcome::Continue) => exists|mid: Cpu|
                            #[trigger] advanced(mid, post) && exec_post(
                                pre,
                                mid,
                                op,
                                keys,
                                Ok::<bool, EngineError>(true),
                            ) && mid.waiting_for_key is None,
                        Result::Ok(StepOutcome::Stop) => false,
                    }
                }
            },
        }
    }
}

/// `exec_post` reads only the machine state of its pre-state, never the
/// transient opcode or the keypad, so it transfers between pre-states that
/// agree on the machine state.
proof fn lemma_exec_post_machine(
    pre1: Cpu,
    pre2: Cpu,
    post: Cpu,
    op: u16,
    keys: Seq<bool>,
    r: Result<bool, EngineError>,
)
    requires
        machine_same(pre1, pre2),
        exec_post(pre2, post, op, keys, r),
    ensures
        exec_post(pre1, post, op, keys, r),
{
}

/// Relies on `rand::thread_rng` and `rand::Rng::gen::<u8>`: a byte from the
/// thread-local generator. Nothing is known of its value.
#[verifier::external_body]
fn random_byte() -> u8 {
    let mut rng = rand::thread_rng();
    rng.gen::<u8>()
}

impl Cpu {
    /// Opcode 00E0: clear the display buffer.
    fn clear_screen(&mut self) -> (r: Result<bool, EngineError>)
        requires
            old(self).wf(),
        ensures
            final(self).wf(),
            r == Ok::<bool, EngineError>(true),
            io_same(*old(self), *final(self)),
            final(self).redirected == old(self).redirected,
            same_except_display(*old(self), *final(self)),
            final(self).display.display@ == Seq::new(2048, |j: int| 0u8),
    {
        self.display.clear_screen();
        Ok(true)
    }

    /// Opcode 00EE: pop the call stack into the program counter; fatal when
    /// the stack is empty.
    fn return_from_subroutine(&mut self) -> (r: Result<bool, EngineError>)
        requires
            old(self).wf(),
        ensures
            final(self).wf(),
            io_same(*old(self), *final(self)),
            final(self).redirected == old(self).redirected,
            old(self).sp == 0 ==> r == Err::<bool, EngineError>(EngineError::StackUnderflow)
                && machine_same(*old(self), *final(self)),
            old(self).sp > 0 ==> {
                &&& r == Ok::<bool, EngineError>(true)
                &&& same_except_flow(*old(self), *final(self))
                &&& final(self).stack@ == old(self).stack@
                &&& final(self).sp == old(self).sp - 1
                &&& final(self).pc == old(self).stack@[old(self).sp as int] as usize
            },
    {
        if self.sp == 0 {
            return Err(EngineError::StackUnderflow);
        }
        self.pc = self.stack[self.sp] as usize;
        self.sp = self.sp - 1;
        Ok(true)
    }

    /// Opcode 1nnn: unconditional jump.
    fn jump_to_address(&mut self, target_addr: u16) -> (r: Result<bool, EngineError>)
        requires
            old(self).wf(),
        ensures
            final(self).wf(),
            r == Ok::<bool, EngineError>(true),
            io_same(*old(self), *final(self)),
            final(self).redirected == true,
            same_except_pc(*old(self), *final(self)),
            final(self).pc == target_addr as usize,
    {
        self.pc = target_addr as usize;
        self.redirected = true;
        Ok(true)
    }

    /// Opcode 2nnn: push the call-site address, then jump; fatal when every
    /// stack slot is in use.
    fn call_subroutine(&mut self, target_addr: u16) -> (r: Result<bool, EngineError>)
        requires
            old(self).wf(),
        ensures
            final(self).wf(),
            io_same(*old(self), *final(self)),
            old(self).sp >= 15 ==> r == Err::<bool, EngineError>(EngineError::StackOverflow)
                && machine_same(*old(self), *final(self)) && final(self).redirected == old(
                self,
            ).redirected,
            old(self).sp < 15 ==> {
                &&& r == Ok::<bool, EngineError>(true)
                &&& same_except_flow(*old(self), *final(self))
                &&& final(self).sp == old(self).sp + 1
                &&& final(self).stack@ == old(self).stack@.update(
                    old(self).sp + 1,
                    old(self).pc as u16,
                )
                &&& final(self).pc == target_addr as usize
                &&& final(self).redirected == true
            },
    {
        if self.sp >= 15 {
            return Err(EngineError::StackOverflow);
        }
        self.sp = self.sp + 1;
        let site = #[verifier::truncate] (self.pc as u16);
        self.stack[self.sp] = site;
        self.pc = target_addr as usize;
        self.redirected = true;
        Ok(true)
    }

    /// Opcode 3xnn: skip the next instruction iff `V[x] == nn`.
    fn if_equal_skip(&mut self, reg_index: u16, constant: u16) -> (r: Result<bool, EngineError>)
        requires
            old(self).wf(),
            reg_index < 16,
            constant < 256,
            old(self).pc + 2 <= usize::MAX,
        ensures
            final(self).wf(),
            r == Ok::<bool, EngineError>(true),
            io_same(*old(self), *final(self)),
            final(self).redirected == old(self).redirected,
            same_except_pc(*old(self), *final(self)),
            final(self).pc == if old(self).vp@[reg_index as int] == constant as u8 {
                (old(self).pc + 2) as int
            } else {
                old(self).pc as int
            },
    {
        let c = constant as u8;
        if c == self.vp[reg_index as usize] {
            self.pc = self.pc + 2;
        }
        Ok(true)
    }

    /// Opcode 4xnn: skip the next instruction iff `V[x] != nn`.
    fn if_not_equal_skip(&mut self, reg_index: u16, constant: u16) -> (r: Result<
        bool,
        EngineError,
    >)
        requires
            old(self).wf(),
            reg_index < 16,
            constant < 256,
            old(self).pc + 2 <= usize::MAX,
        ensures
            final(self).wf(),
            r == Ok::<bool, EngineError>(true),
            io_same(*old(self), *final(self)),
            final(self).redirected == old(self).redirected,
            same_except_pc(*old(self), *final(self)),
            final(self).pc == if old(self).vp@[reg_index as int] != constant as u8 {
                (old(self).pc + 2) as int
            } else {
                old(self).pc as int
            },
    {
        let c = constant as u8;
        if c != self.vp[reg_index as usize] {
            self.pc = self.pc + 2;
        }
        Ok(true)
    }

    /// Opcode 5xy0: skip the next instruction iff `V[x] == V[y]`.
    fn if_registers_equal_skip(&mut self, x: u16, y: u16) -> (r: Result<bool, EngineError>)
        requires
            old(self).wf(),
            x < 16,
            y < 16,
            old(self).pc + 2 <= usize::MAX,
        ensures
            final(self).wf(),
            r == Ok::<bool, EngineError>(true),
            io_same(*old(self), *final(self)),
            final(self).redirected == old(self).redirected,
            same_except_pc(*old(self), *final(self)),
            final(self).pc == if old(self).vp@[x as int] == old(self).vp@[y as int] {
                (old(self).pc + 2) as int
            } else {
                old(self).pc as int
            },
    {
        if self.vp[x as usize] == self.vp[y as usize] {
            self.pc = self.pc + 2;
        }
        Ok(true)
    }

    /// Opcode 9xy0: skip the next instruction iff `V[x] != V[y]`.
    fn if_reg_not_eq_skip(&mut self, x: u16, y: u16) -> (r: Result<bool, EngineError>)
        requires
            old(self).wf(),
            x < 16,
            y < 16,
            old(self).pc + 2 <= usize::MAX,
        ensures
            final(self).wf(),
            r == Ok::<bool, EngineError>(true),
            io_same(*old(self), *final(self)),
            final(self).redirected == old(self).redirected,
            same_except_pc(*old(self), *final(self)),
            final(self).pc == if old(self).vp@[x as int] != old(self).vp@[y as int] {
                (old(self).pc + 2) as int
            } else {
                old(self).pc as int
            },
    {
        if self.vp[x as usize] != self.vp[y as usize] {
            self.pc = self.pc + 2;
        }
        Ok(true)
    }

    /// Opcode 6xnn: `V[x] := nn`.
    fn assign_to_reg(&mut self, x: u16, nn: u16) -> (r: Result<bool, EngineError>)
        requires
            old(self).wf(),
            x < 16,
            nn < 256,
        ensures
            final(self).wf(),
            r == Ok::<bool, EngineError>(true),
            io_same(*old(self), *final(self)),
            final(self).redirected == old(self).redirected,
            same_except_regs(*old(self), *final(self)),
            final(self).vp@ == old(self).vp@.update(x as int, nn as u8),
    {
        let v = nn as u8;
        self.vp[x as usize] = v;
        Ok(true)
    }

    /// Opcode 7xnn: `V[x] := V[x] + nn`, wrapping, no flag change.
    fn add_to_reg(&mut self, x: u16, nn: u16) -> (r: Result<bool, EngineError>)
        requires
            old(self).wf(),
            x < 16,
            nn < 256,
        ensures
            final(self).wf(),
            r == Ok::<bool, EngineError>(true),
            io_same(*old(self), *final(self)),
            final(self).redirected == old(self).redirected,
            same_except_regs(*old(self), *final(self)),
            final(self).vp@ == old(self).vp@.update(
                x as int,
                ((old(self).vp@[x as int] + nn as u8) % 256) as u8,
            ),
    {
        let vp_x: u16 = self.vp[x as usize] as u16;
        let result: u16 = vp_x + nn;
        let v = #[verifier::truncate] (result as u8);
        proof {
            let a = self.vp@[x as int];
            assert((a as u16 + nn) as u8 as int == (a as int + nn as int) % 256 && a as u16 + nn
                <= 0xFFFF) by (bit_vector)
                requires
                    nn < 256,
            ;
        }
        self.vp[x as usize] = v;
        Ok(true)
    }

    /// Opcode 8xy0: `V[x] := V[y]`.
    fn set_reg(&mut self, x: u16, y: u16) -> (r: Result<bool, EngineError>)
        requires
            old(self).wf(),
            x < 16,
            y < 16,
        ensures
            final(self).wf(),
            r == Ok::<bool, EngineError>(true),
            io_same(*old(self), *final(self)),
            final(self).redirected == old(self).redirected,
            same_except_regs(*old(self), *final(self)),
            final(self).vp@ == old(self).vp@.update(x as int, old(self).vp@[y as int]),
    {
        let v = self.vp[y as usize];
        self.vp[x as usize] = v;
        Ok(true)
    }

    /// Opcode 8xy1: `V[x] := V[x] | V[y]`.
    fn bitwise_or(&mut self, x: u16, y: u16) -> (r: Result<bool, EngineError>)
        requires
            old(self).wf(),
            x < 16,
            y < 16,
        ensures
            final(self).wf(),
            r == Ok::<bool, EngineError>(true),
            io_same(*old(self), *final(self)),
            final(self).redirected == old(self).redirected,
            same_except_regs(*old(self), *final(self)),
            final(self).vp@ == old(self).vp@.update(
                x as int,
                old(self).vp@[x as int] | old(self).vp@[y as int],
            ),
    {
        let v = self.vp[x as usize] | self.vp[y as usize];
        self.vp[x as usize] = v;
        Ok(true)
    }

    /// Opcode 8xy2: `V[x] := V[x] & V[y]`.
    fn bitwise_and(&mut self, x: u16, y: u16) -> (r: Result<bool, EngineError>)
        requires
            old(self).wf(),
            x < 16,
            y < 16,
        ensures
            final(self).wf(),
            r == Ok::<bool, EngineError>(true),
            io_same(*old(self), *final(self)),
            final(self).redirected == old(self).redirected,
            same_except_regs(*old(self), *final(self)),
            final(self).vp@ == old(self).vp@.update(
                x as int,
                old(self).vp@[x as int] & old(self).vp@[y as int],
            ),
    {
        let v = self.vp[x as usize] & self.vp[y as usize];
        self.vp[x as usize] = v;
        Ok(true)
    }

    /// Opcode 8xy3: `V[x] := V[x] ^ V[y]`.
    fn bitwise_xor(&mut self, x: u16, y: u16) -> (r: Result<bool, EngineError>)
        requires
            old(self).wf(),
            x < 16,
            y < 16,
        ensures
            final(self).wf(),
            r == Ok::<bool, EngineError>(true),
            io_same(*old(self), *final(self)),
            final(self).redirected == old(self).redirected,
            same_except_regs(*old(self), *final(self)),
            final(self).vp@ == old(self).vp@.update(
                x as int,
                old(self).vp@[x as int] ^ old(self).vp@[y as int],
            ),
    {
        let v = self.vp[x as usize] ^ self.vp[y as usize];
        self.vp[x as usize] = v;
        Ok(true)
    }

    /// Opcode 8xy4: widened sum; flag 1 on carry, then `V[x] := sum mod
    /// 256`.
    fn reg_sum(&mut self, x: u16, y: u16) -> (r: Result<bool, EngineError>)
        requires
            old(self).wf(),
            x < 16,
            y < 16,
        ensures
            final(self).wf(),
            r == Ok::<bool, EngineError>(true),
            io_same(*old(self), *final(self)),
            final(self).redirected == old(self).redirected,
            same_except_regs(*old(self), *final(self)),
            final(self).vp@ == old(self).vp@.update(
                15,
                if old(self).vp@[x as int] + old(self).vp@[y as int] > 255 {
                    1u8
                } else {
                    0u8
                },
            ).update(
                x as int,
                ((old(self).vp@[x as int] + old(self).vp@[y as int]) % 256) as u8,
            ),
    {
        let vx = self.vp[x as usize] as u16;
        let vy = self.vp[y as usize] as u16;
        let result: u16 = vx + vy;
        if result > 0xFF {
            self.vp[15] = 1u8;
        } else {
            self.vp[15] = 0u8;
        }
        let v = #[verifier::truncate] (result as u8);
        proof {
            let a = old(self).vp@[x as int];
            let b = old(self).vp@[y as int];
            assert((a as u16 + b as u16) as u8 as int == (a as int + b as int) % 256)
                by (bit_vector);
        }
        self.vp[x as usize] = v;
        Ok(true)
    }

    /// Opcode 8xy5: widened difference; flag 0 on borrow, then `V[x] :=
    /// difference mod 256`.
    fn reg_sub(&mut self, x: u16, y: u16) -> (r: Result<bool, EngineError>)
        requires
            old(self).wf(),
            x < 16,
            y < 16,
        ensures
            final(self).wf(),
            r == Ok::<bool, EngineError>(true),
            io_same(*old(self), *final(self)),
            final(self).redirected == old(self).redirected,
            same_except_regs(*old(self), *final(self)),
            final(self).vp@ == old(self).vp@.update(
                15,
                if old(self).vp@[x as int] < old(self).vp@[y as int] {
                    0u8
                } else {
                    1u8
                },
            ).update(
                x as int,
                ((old(self).vp@[x as int] - old(self).vp@[y as int]) % 256) as u8,
            ),
    {
        let vx = self.vp[x as usize];
        let vy = self.vp[y as usize];
        if vx < vy {
            self.vp[15] = 0u8;
        } else {
            self.vp[15] = 1u8;
        }
        let v: u8 = if vx >= vy {
            vx - vy
        } else {
            let d: u16 = 256u16 - ((vy - vx) as u16);
            #[verifier::truncate] (d as u8)
        };
        proof {
            assert(vx < vy ==> (256 - (vy - vx)) as u8 as int == (vx as int - vy as int) % 256)
                by (bit_vector);
            assert(vx >= vy ==> (vx - vy) as int == (vx as int - vy as int) % 256) by (bit_vector);
        }
        self.vp[x as usize] = v;
        Ok(true)
    }

    /// Opcode 8xy6: flag := `V[x] & 1`, then `V[x]` halved; through the
    /// flag register the halving reads the just-written flag.
    fn right_shift(&mut self, x: u16) -> (r: Result<bool, EngineError>)
        requires
            old(self).wf(),
            x < 16,
        ensures
            final(self).wf(),
            r == Ok::<bool, EngineError>(true),
            io_same(*old(self), *final(self)),
            final(self).redirected == old(self).redirected,
            same_except_regs(*old(self), *final(self)),
            final(self).vp@ == {
                let v1 = old(self).vp@.update(15, old(self).vp@[x as int] & 1);
                v1.update(x as int, v1[x as int] / 2)
            },
    {
        let flag = self.vp[x as usize] & 0x01;
        self.vp[15] = flag;
        let v = self.vp[x as usize] / 2;
        self.vp[x as usize] = v;
        Ok(true)
    }

    /// Opcode 8xy7: flag := 1 iff `V[y] > V[x]` on the pre-update values,
    /// then `V[x] := V[y] - V[x] mod 256` on the values after the flag
    /// write.
    fn reverse_sub(&mut self, x: u16, y: u16) -> (r: Result<bool, EngineError>)
        requires
            old(self).wf(),
            x < 16,
            y < 16,
        ensures
            final(self).wf(),
            r == Ok::<bool, EngineError>(true),
            io_same(*old(self), *final(self)),
            final(self).redirected == old(self).redirected,
            same_except_regs(*old(self), *final(self)),
            final(self).vp@ == {
                let v1 = old(self).vp@.update(
                    15,
                    if old(self).vp@[y as int] > old(self).vp@[x as int] {
                        1u8
                    } else {
                        0u8
                    },
                );
                v1.update(x as int, ((v1[y as int] - v1[x as int]) % 256) as u8)
            },
    {
        if self.vp[y as usize] > self.vp[x as usize] {
            self.vp[15] = 1u8;
        } else {
            self.vp[15] = 0u8;
        }
        let vx = self.vp[x as usize];
        let vy = self.vp[y as usize];
        let v: u8 = if vy >= vx {
            vy - vx
        } else {
            let d: u16 = 256u16 - ((vx - vy) as u16);
            #[verifier::truncate] (d as u8)
        };
        proof {
            assert(vy < vx ==> (256 - (vx - vy)) as u8 as int == (vy as int - vx as int) % 256)
                by (bit_vector);
            assert(vy >= vx ==> (vy - vx) as int == (vy as int - vx as int) % 256) by (bit_vector);
        }
        self.vp[x as usize] = v;
        Ok(true)
    }

    /// Opcode 8xyE: flag := `V[x] & 0x80`, then `V[x]` doubled mod 256 on
    /// the values after the flag write.
    fn left_shift(&mut self, x: u16) -> (r: Result<bool, EngineError>)
        requires
            old(self).wf(),
            x < 16,
        ensures
            final(self).wf(),
            r == Ok::<bool, EngineError>(true),
            io_same(*old(self), *final(self)),
            final(self).redirected == old(self).redirected,
            same_except_regs(*old(self), *final(self)),
            final(self).vp@ == {
                let v1 = old(self).vp@.update(15, old(self).vp@[x as int] & 0x80);
                v1.update(x as int, ((v1[x as int] * 2) % 256) as u8)
            },
    {
        let flag = self.vp[x as usize] & 0x80;
        self.vp[15] = flag;
        let vp_x = self.vp[x as usize] as u16;
        let result: u16 = vp_x * 2u16;
        let v = #[verifier::truncate] (result as u8);
        proof {
            let a = self.vp@[x as int];
            assert((a as u16 * 2) as u8 as int == (a as int * 2) % 256 && a as u16 * 2 <= 0xFFFF)
                by (bit_vector);
        }
        self.vp[x as usize] = v;
        Ok(true)
    }

    /// Opcode Annn: `I := nnn`.
    fn set_index_register(&mut self, opcode: u16) -> (r: Result<bool, EngineError>)
        requires
            old(self).wf(),
        ensures
            final(self).wf(),
            r == Ok::<bool, EngineError>(true),
            io_same(*old(self), *final(self)),
            final(self).redirected == old(self).redirected,
            same_except_index(*old(self), *final(self)),
            final(self).i == opcode as usize,
    {
        self.i = opcode as usize;
        Ok(true)
    }

    /// Opcode Bnnn: jump to `V[0] + nnn`, range-checked against the address
    /// space.
    fn jump_to_addr_plus_v0(&mut self, nnn: u16) -> (r: Result<bool, EngineError>)
        requires
            old(self).wf(),
        ensures
            final(self).wf(),
            io_same(*old(self), *final(self)),
            old(self).vp@[0] + nnn > 0xFFF ==> r == Err::<bool, EngineError>(
                EngineError::MemoryOutOfRange,
            ) && machine_same(*old(self), *final(self)) && final(self).redirected == old(
                self,
            ).redirected,
            old(self).vp@[0] + nnn <= 0xFFF ==> {
                &&& r == Ok::<bool, EngineError>(true)
                &&& same_except_pc(*old(self), *final(self))
                &&& final(self).pc == old(self).vp@[0] + nnn
                &&& final(self).redirected == true
            },
    {
        let target = self.vp[0] as usize + nnn as usize;
        if target > 0xFFF {
            return Err(EngineError::MemoryOutOfRange);
        }
        self.pc = target;
        self.redirected = true;
        Ok(true)
    }

    /// Opcode Cxnn: `V[x] := random byte & nn`. The random byte comes from
    /// the host's generator; only the mask is promised.
    fn random_number_xor(&mut self, x: u16, nn: u16) -> (r: Result<bool, EngineError>)
        requires
            old(self).wf(),
            x < 16,
            nn < 256,
        ensures
            final(self).wf(),
            r == Ok::<bool, EngineError>(true),
            io_same(*old(self), *final(self)),
            final(self).redirected == old(self).redirected,
            same_except_regs(*old(self), *final(self)),
            final(self).vp@ == old(self).vp@.update(x as int, final(self).vp@[x as int]),
            final(self).vp@[x as int] & !(nn as u8) == 0,
    {
        let mask = nn as u8;
        let rb = random_byte();
        let v = rb & mask;
        proof {
            assert(rb & mask & !mask == 0) by (bit_vector);
        }
        self.vp[x as usize] = v;
        Ok(true)
    }

    /// Opcode Ex9E: skip the next instruction iff key `V[x]` is down; fatal
    /// when `V[x]` names no key.
    fn if_key_pressed_skip(&mut self, x: u16) -> (r: Result<bool, EngineError>)
        requires
            old(self).wf(),
            x < 16,
            old(self).pc + 2 <= usize::MAX,
        ensures
            final(self).wf(),
            io_same(*old(self), *final(self)),
            final(self).redirected == old(self).redirected,
            old(self).vp@[x as int] >= 16 ==> r == Err::<bool, EngineError>(
                EngineError::KeyOutOfRange,
            ) && machine_same(*old(self), *final(self)),
            old(self).vp@[x as int] < 16 ==> {
                &&& r == Ok::<bool, EngineError>(true)
                &&& same_except_pc(*old(self), *final(self))
                &&& final(self).pc == if old(self).keypad.pressed_keys@[old(
                    self,
                ).vp@[x as int] as int] {
                    (old(self).pc + 2) as int
                } else {
                    old(self).pc as int
                }
            },
    {
        let key = self.vp[x as usize];
        if key >= 16 {
            return Err(EngineError::KeyOutOfRange);
        }
        if self.keypad.is_key_pressed(key) {
            self.pc = self.pc + 2;
        }
        Ok(true)
    }

    /// Opcode ExA1: skip the next instruction iff key `V[x]` is up; fatal
    /// when `V[x]` names no key.
    fn if_key_not_pressed_skip(&mut self, x: u16) -> (r: Result<bool, EngineError>)
        requires
            old(self).wf(),
            x < 16,
            old(self).pc + 2 <= usize::MAX,
        ensures
            final(self).wf(),
            io_same(*old(self), *final(self)),
            final(self).redirected == old(self).redirected,
            old(self).vp@[x as int] >= 16 ==> r == Err::<bool, EngineError>(
                EngineError::KeyOutOfRange,
            ) && machine_same(*old(self), *final(self)),
            old(self).vp@[x as int] < 16 ==> {
                &&& r == Ok::<bool, EngineError>(true)
                &&& same_except_pc(*old(self), *final(self))
                &&& final(self).pc == if !old(self).keypad.pressed_keys@[old(
                    self,
                ).vp@[x as int] as int] {
                    (old(self).pc + 2) as int
                } else {
                    old(self).pc as int
                }
            },
    {
        let key = self.vp[x as usize];
        if key >= 16 {
            return Err(EngineError::KeyOutOfRange);
        }
        if !self.keypad.is_key_pressed(key) {
            self.pc = self.pc + 2;
        }
        Ok(true)
    }

    /// Opcode Fx07: `V[x] := delay timer`.
    fn set_vx_to_delay(&mut self, x: u16) -> (r: Result<bool, EngineError>)
        requires
            old(self).wf(),
            x < 16,
        ensures
            final(self).wf(),
            r == Ok::<bool, EngineError>(true),
            io_same(*old(self), *final(self)),
            final(self).redirected == old(self).redirected,
            same_except_regs(*old(self), *final(self)),
            final(self).vp@ == old(self).vp@.update(x as int, old(self).delay_timer),
    {
        let v = self.delay_timer;
        self.vp[x as usize] = v;
        Ok(true)
    }

    /// Opcode Fx0A: park the register index until the host reports a
    /// key-down edge through [`Cpu::finish_key_wait`].
    fn wait_key_press(&mut self, x: u16) -> (r: Result<bool, EngineError>)
        requires
            old(self).wf(),
            x < 16,
        ensures
            final(self).wf(),
            r == Ok::<bool, EngineError>(true),
            io_same(*old(self), *final(self)),
            final(self).redirected == old(self).redirected,
            same_except_waiting(*old(self), *final(self)),
            final(self).waiting_for_key == Some(x as u8),
    {
        self.waiting_for_key = Some(x as u8);
        Ok(true)
    }

    /// Opcode Fx15: `delay timer := V[x]`.
    fn set_delay_to_vx(&mut self, x: u16) -> (r: Result<bool, EngineError>)
        requires
            old(self).wf(),
            x < 16,
        ensures
            final(self).wf(),
            r == Ok::<bool, EngineError>(true),
            io_same(*old(self), *final(self)),
            final(self).redirected == old(self).redirected,
            same_except_delay(*old(self), *final(self)),
            final(self).delay_timer == old(self).vp@[x as int],
    {
        self.delay_timer = self.vp[x as usize];
        Ok(true)
    }

    /// Opcode Fx18: `sound timer := V[x]`.
    fn set_sound_to_vx(&mut self, x: u16) -> (r: Result<bool, EngineError>)
        requires
            old(self).wf(),
            x < 16,
        ensures
            final(self).wf(),
            r == Ok::<bool, EngineError>(true),
            io_same(*old(self), *final(self)),
            final(self).redirected == old(self).redirected,
            same_except_sound(*old(self), *final(self)),
            final(self).sound_timer == old(self).vp@[x as int],
    {
        self.sound_timer = self.vp[x as usize];
        Ok(true)
    }

    /// Opcode Fx1E: widened sum of the 16-bit index register and `V[x]`;
    /// flag 1 iff the sum leaves the 12-bit address space; `I := sum`.
    fn add_vx_to_i(&mut self, x: u16) -> (r: Result<bool, EngineError>)
        requires
            old(self).wf(),
            x < 16,
        ensures
            final(self).wf(),
            r == Ok::<bool, EngineError>(true),
            io_same(*old(self), *final(self)),
            final(self).redirected == old(self).redirected,
            same_except_index_regs(*old(self), *final(self)),
            final(self).i == (old(self).i as int % 0x10000) + old(self).vp@[x as int],
            final(self).vp@ == old(self).vp@.update(
                15,
                if (old(self).i as int % 0x10000) + old(self).vp@[x as int] > 0xFFF {
                    1u8
                } else {
                    0u8
                },
            ),
    {
        let base = self.i % 0x10000;
        let vx = self.vp[x as usize] as usize;
        let result = base + vx;
        if result > 0xFFF {
            self.vp[15] = 1u8;
        } else {
            self.vp[15] = 0u8;
        }
        self.i = result;
        Ok(true)
    }

    /// Opcode Fx29: `I := address of the glyph for digit V[x]`.
    fn set_i_to_sprite_addr(&mut self, x: u16) -> (r: Result<bool, EngineError>)
        requires
            old(self).wf(),
            x < 16,
        ensures
            final(self).wf(),
            r == Ok::<bool, EngineError>(true),
            io_same(*old(self), *final(self)),
            final(self).redirected == old(self).redirected,
            same_except_index(*old(self), *final(self)),
            final(self).i == 0x50 + 5 * (old(self).vp@[x as int] as int),
    {
        let index = FONTSET_LOCATION + 5 * (self.vp[x as usize] as usize);
        self.i = index;
        Ok(true)
    }

    /// Opcode Fx33: store the decimal digits of `V[x]` at `I`, `I+1`,
    /// `I+2`; fatal when that leaves the memory image.
    fn bcd(&mut self, x: u16) -> (r: Result<bool, EngineError>)
        requires
            old(self).wf(),
            x < 16,
        ensures
            final(self).wf(),
            io_same(*old(self), *final(self)),
            final(self).redirected == old(self).redirected,
            old(self).i > 4093 ==> r == Err::<bool, EngineError>(EngineError::MemoryOutOfRange)
                && machine_same(*old(self), *final(self)),
            old(self).i <= 4093 ==> {
                &&& r == Ok::<bool, EngineError>(true)
                &&& same_except_memory(*old(self), *final(self))
                &&& final(self).memory@ == old(self).memory@.update(
                    old(self).i as int,
                    old(self).vp@[x as int] / 100,
                ).update(old(self).i as int + 1, (old(self).vp@[x as int] / 10) % 10).update(
                    old(self).i as int + 2,
                    old(self).vp@[x as int] % 10,
                )
            },
    {
        if self.i > 4093 {
            return Err(EngineError::MemoryOutOfRange);
        }
        let vx = self.vp[x as usize];
        self.memory[self.i] = vx / 100;
        self.memory[self.i + 1] = (vx / 10) % 10;
        self.memory[self.i + 2] = vx % 10;
        Ok(true)
    }

    /// Opcode Fx55: copy `V[0..=x]` into memory at `I`; fatal when that
    /// leaves the memory image.
    fn reg_dump(&mut self, x: u16) -> (r: Result<bool, EngineError>)
        requires
            old(self).wf(),
            x < 16,
        ensures
            final(self).wf(),
            io_same(*old(self), *final(self)),
            final(self).redirected == old(self).redirected,
            old(self).i + x > 4095 ==> r == Err::<bool, EngineError>(EngineError::MemoryOutOfRange)
                && machine_same(*old(self), *final(self)),
            old(self).i + x <= 4095 ==> {
                &&& r == Ok::<bool, EngineError>(true)
                &&& same_except_memory(*old(self), *final(self))
                &&& final(self).memory@.len() == old(self).memory@.len()
                &&& forall|j: int|
                    0 <= j <= x ==> final(self).memory@[old(self).i + j] == old(self).vp@[j]
                &&& forall|j: int|
                    0 <= j < old(self).memory@.len() && !(old(self).i <= j <= old(self).i + x)
                        ==> final(self).memory@[j] == old(self).memory@[j]
            },
    {
        let xu = x as usize;
        if self.i > 4095 - xu {
            return Err(EngineError::MemoryOutOfRange);
        }
        let mut index: usize = 0;
        while index <= xu
            invariant
                old(self).wf(),
                xu == x,
                xu < 16,
                index <= xu + 1,
                old(self).i + xu <= 4095,
                self.memory@.len() == 4096,
                self.vp@ == old(self).vp@,
                self.pc == old(self).pc,
                self.i == old(self).i,
                self.delay_timer == old(self).delay_timer,
                self.sound_timer == old(self).sound_timer,
                self.stack@ == old(self).stack@,
                self.sp == old(self).sp,
                self.display.display@ == old(self).display.display@,
                self.waiting_for_key == old(self).waiting_for_key,
                self.opcode == old(self).opcode,
                self.keypad == old(self).keypad,
                self.redirected == old(self).redirected,
                forall|j: int| 0 <= j < index ==> self.memory@[old(self).i + j] == old(self).vp@[j],
                forall|j: int|
                    0 <= j < 4096 && !(old(self).i <= j < old(self).i + index) ==> self.memory@[j]
                        == old(self).memory@[j],
            decreases xu + 1 - index,
        {
            let v = self.vp[index];
            self.memory[self.i + index] = v;
            index = index + 1;
        }
        Ok(true)
    }

    /// Opcode Fx65: copy memory at `I` into `V[0..=x]`; fatal when that
    /// leaves the memory image.
    fn reg_load(&mut self, x: u16) -> (r: Result<bool, EngineError>)
        requires
            old(self).wf(),
            x < 16,
        ensures
            final(self).wf(),
            io_same(*old(self), *final(self)),
            final(self).redirected == old(self).redirected,
            old(self).i + x > 4095 ==> r == Err::<bool, EngineError>(EngineError::MemoryOutOfRange)
                && machine_same(*old(self), *final(self)),
            old(self).i + x <= 4095 ==> {
                &&& r == Ok::<bool, EngineError>(true)
                &&& same_except_regs(*old(self), *final(self))
                &&& final(self).vp@.len() == old(self).vp@.len()
                &&& forall|j: int|
                    0 <= j <= x ==> final(self).vp@[j] == old(self).memory@[old(self).i + j]
                &&& forall|j: int| x < j < 16 ==> final(self).vp@[j] == old(self).vp@[j]
            },
    {
        let xu = x as usize;
        if self.i > 4095 - xu {
            return Err(EngineError::MemoryOutOfRange);
        }
        let mut index: usize = 0;
        while index <= xu
            invariant
                old(self).wf(),
                xu == x,
                xu < 16,
                index <= xu + 1,
                old(self).i + xu <= 4095,
                self.vp@.len() == 16,
                self.memory@ == old(self).memory@,
                self.pc == old(self).pc,
                self.i == old(self).i,
                self.delay_timer == old(self).delay_timer,
                self.sound_timer == old(self).sound_timer,
                self.stack@ == old(self).stack@,
                self.sp == old(self).sp,
                self.display.display@ == old(self).display.display@,
                self.waiting_for_key == old(self).waiting_for_key,
                self.opcode == old(self).opcode,
                self.keypad == old(self).keypad,
                self.redirected == old(self).redirected,
                forall|j: int| 0 <= j < index ==> self.vp@[j] == old(self).memory@[old(self).i + j],
                forall|j: int| index <= j < 16 ==> self.vp@[j] == old(self).vp@[j],
            decreases xu + 1 - index,
        {
            let v = self.memory[self.i + index];
            self.vp[index] = v;
            index = index + 1;
        }
        Ok(true)
    }

    /// Opcode Dxyn: XOR-composite the n-row sprite read from memory at `I`
    /// onto the display at `(V[x], V[y])`; flag := 1 iff some lit pixel
    /// went dark; fatal when the sprite rows leave the memory image.
    fn draw(&mut self, x: u16, y: u16, n: u16) -> (r: Result<bool, EngineError>)
        requires
            old(self).wf(),
            x < 16,
            y < 16,
            n < 16,
        ensures
            final(self).wf(),
            io_same(*old(self), *final(self)),
            final(self).redirected == old(self).redirected,
            n > 0 && old(self).i + n > 4096 ==> r == Err::<bool, EngineError>(
                EngineError::MemoryOutOfRange,
            ) && machine_same(*old(self), *final(self)),
            !(n > 0 && old(self).i + n > 4096) ==> {
                &&& r == Ok::<bool, EngineError>(true)
                &&& same_except_display_regs(*old(self), *final(self))
                &&& final(self).display.display@ == draw_rows(
                    old(self).display.display@,
                    if x == 15 {
                        0
                    } else {
                        old(self).vp@[x as int] as int
                    },
                    if y == 15 {
                        0
                    } else {
                        old(self).vp@[y as int] as int
                    },
                    old(self).memory@,
                    old(self).i as int,
                    n as int,
                )
                &&& final(self).vp@ == old(self).vp@.update(
                    15,
                    if collision_rows(
                        old(self).display.display@,
                        if x == 15 {
                            0
                        } else {
                            old(self).vp@[x as int] as int
                        },
                        if y == 15 {
                            0
                        } else {
                            old(self).vp@[y as int] as int
                        },
                        old(self).memory@,
                        old(self).i as int,
                        n as int,
                    ) {
                        1u8
                    } else {
                        0u8
                    },
                )
            },
    {
        let nu = n as usize;
        if nu > 0 && self.i > 4096 - nu {
            return Err(EngineError::MemoryOutOfRange);
        }
        self.vp[15] = 0;
        let xc = self.vp[x as usize];
        let yc = self.vp[y as usize];
        let ghost gx: int = if x == 15 {
            0
        } else {
            old(self).vp@[x as int] as int
        };
        let ghost gy: int = if y == 15 {
            0
        } else {
            old(self).vp@[y as int] as int
        };
        let mut byte: usize = 0;
        while byte < nu
            invariant
                old(self).wf(),
                nu == n,
                nu < 16,
                byte <= nu,
                nu > 0 ==> old(self).i + nu <= 4096,
                xc as int == gx,
                yc as int == gy,
                self.memory@ == old(self).memory@,
                self.vp@.len() == 16,
                self.pc == old(self).pc,
                self.i == old(self).i,
                self.delay_timer == old(self).delay_timer,
                self.sound_timer == old(self).sound_timer,
                self.stack@ == old(self).stack@,
                self.sp == old(self).sp,
                self.waiting_for_key == old(self).waiting_for_key,
                self.opcode == old(self).opcode,
                self.keypad == old(self).keypad,
                self.redirected == old(self).redirected,
                self.display.wf(),
                self.display.display@ == draw_rows(
                    old(self).display.display@,
                    gx,
                    gy,
                    old(self).memory@,
                    old(self).i as int,
                    byte as int,
                ),
                self.vp@ == old(self).vp@.update(
                    15,
                    if collision_rows(
                        old(self).display.display@,
                        gx,
                        gy,
                        old(self).memory@,
                        old(self).i as int,
                        byte as int,
                    ) {
                        1u8
                    } else {
                        0u8
                    },
                ),
            decreases nu - byte,
        {
            let buff = self.memory[self.i + byte];
            let coll = self.display.draw(xc as u32, (yc as u32) + (byte as u32), buff);
            if coll {
                self.vp[15] = 1;
            }
            proof {
                assert(self.vp@ =~= old(self).vp@.update(
                    15,
                    if collision_rows(
                        old(self).display.display@,
                        gx,
                        gy,
                        old(self).memory@,
                        old(self).i as int,
                        byte as int + 1,
                    ) {
                        1u8
                    } else {
                        0u8
                    },
                ));
            }
            byte = byte + 1;
        }
        Ok(true)
    }

    /// Decode the fetched opcode into its four nibbles and dispatch to
    /// exactly one handler; an unmatched pattern is a fatal decode fault
    /// that leaves the machine untouched.
    pub fn execute_opcode(&mut self) -> (r: Result<bool, EngineError>)
        requires
            old(self).wf(),
            old(self).pc <= 4094,
        ensures
            final(self).wf(),
            io_same(*old(self), *final(self)),
            exec_post(
                *old(self),
                *final(self),
                old(self).opcode,
                old(self).keypad.pressed_keys@,
                r,
            ),
    {
        self.redirected = false;
        let op = self.opcode;
        proof {
            lemma_opcode_fields(op);
        }
        let op1 = (op & 0xF000) >> 12;
        let op2 = (op & 0x0F00) >> 8;
        let op3 = (op & 0x00F0) >> 4;
        let op4 = op & 0x000F;
        match (op1, op2, op3, op4) {
            (0x0, 0x0, 0xE, 0x0) => self.clear_screen(),
            (0x0, 0x0, 0xE, 0xE) => self.return_from_subroutine(),
            (0x1, _, _, _) => {
                let target_addr: u16 = op & 0x0FFF;
                self.jump_to_address(target_addr)
            },
            (0x2, _, _, _) => {
                let target_addr: u16 = op & 0x0FFF;
                self.call_subroutine(target_addr)
            },
            (0x3, x, _, _) => {
                let constant = op & 0x00FF;
                self.if_equal_skip(x, constant)
            },
            (0x4, x, _, _) => {
                let constant = op & 0x00FF;
                self.if_not_equal_skip(x, constant)
            },
            (0x5, x, y, 0x0) => self.if_registers_equal_skip(x, y),
            (0x6, x, _, _) => {
                let nn = op & 0x00FF;
                self.assign_to_reg(x, nn)
            },
            (0x7, x, _, _) => {
                let nn = op & 0x00FF;
                self.add_to_reg(x, nn)
            },
            (0x8, x, y, 0x0) => self.set_reg(x, y),
            (0x8, x, y, 0x1) => self.bitwise_or(x, y),
            (0x8, x, y, 0x2) => self.bitwise_and(x, y),
            (0x8, x, y, 0x3) => self.bitwise_xor(x, y),
            (0x8, x, y, 0x4) => self.reg_sum(x, y),
            (0x8, x, y, 0x5) => self.reg_sub(x, y),
            (0x8, x, _, 0x6) => self.right_shift(x),
            (0x8, x, y, 0x7) => self.reverse_sub(x, y),
            (0x8, x, _, 0xE) => self.left_shift(x),
            (0x9, x, y, 0x0) => self.if_reg_not_eq_skip(x, y),
            (0xA, _, _, _) => {
                let nnn = op & 0x0FFF;
                self.set_index_register(nnn)
            },
            (0xB, _, _, _) => {
                let nnn = op & 0x0FFF;
                self.jump_to_addr_plus_v0(nnn)
            },
            (0xC, x, _, _) => {
                let nn = op & 0x00FF;
                self.random_number_xor(x, nn)
            },
            (0xD, x, y, n) => self.draw(x, y, n),
            (0xE, x, 0x9, 0xE) => self.if_key_pressed_skip(x),
            (0xE, x, 0xA, 0x1) => self.if_key_not_pressed_skip(x),
            (0xF, x, 0x0, 0x7) => self.set_vx_to_delay(x),
            (0xF, x, 0x0, 0xA) => self.wait_key_press(x),
            (0xF, x, 0x1, 0x5) => self.set_delay_to_vx(x),
            (0xF, x, 0x1, 0x8) => self.set_sound_to_vx(x),
            (0xF, x, 0x1, 0xE) => self.add_vx_to_i(x),
            (0xF, x, 0x2, 0x9) => self.set_i_to_sprite_addr(x),
            (0xF, x, 0x3, 0x3) => self.bcd(x),
            (0xF, x, 0x5, 0x5) => self.reg_dump(x),
            (0xF, x, 0x6, 0x5) => self.reg_load(x),
            (_, _, _, _) => Err(EngineError::UnknownOpcode(op)),
        }
    }

    /// Decrement both timers, saturating at zero.
    fn update_timers(&mut self)
        ensures
            final(self).memory@ == old(self).memory@,
            final(self).vp@ == old(self).vp@,
            final(self).pc == old(self).pc,
            final(self).i == old(self).i,
            final(self).stack@ == old(self).stack@,
            final(self).sp == old(self).sp,
            final(self).display.display@ == old(self).display.display@,
            final(self).waiting_for_key == old(self).waiting_for_key,
            final(self).opcode == old(self).opcode,
            final(self).keypad == old(self).keypad,
            final(self).redirected == old(self).redirected,
            final(self).delay_timer == if old(self).delay_timer > 0 {
                (old(self).delay_timer - 1) as u8
            } else {
                0u8
            },
            final(self).sound_timer == if old(self).sound_timer > 0 {
                (old(self).sound_timer - 1) as u8
            } else {
                0u8
            },
    {
        if self.delay_timer > 0 {
            self.delay_timer = self.delay_timer - 1;
        }
        if self.sound_timer > 0 {
            self.sound_timer = self.sound_timer - 1;
        }
    }

    /// Zero the stack, the registers and the whole memory image.
    fn clear(&mut self)
        requires
            old(self).wf(),
        ensures
            final(self).wf(),
            final(self).stack@ == Seq::new(16, |j: int| 0u16),
            final(self).vp@ == Seq::new(16, |j: int| 0u8),
            final(self).memory@ == Seq::new(4096, |j: int| 0u8),
            final(self).pc == old(self).pc,
            final(self).i == old(self).i,
            final(self).delay_timer == old(self).delay_timer,
            final(self).sound_timer == old(self).sound_timer,
            final(self).sp == old(self).sp,
            final(self).display == old(self).display,
            final(self).waiting_for_key == old(self).waiting_for_key,
            final(self).opcode == old(self).opcode,
            final(self).keypad == old(self).keypad,
            final(self).redirected == old(self).redirected,
    {
        self.stack = vec![0u16; 16];
        self.vp = vec![0u8; 16];
        self.memory = vec![0u8; 4096];
        proof {
            assert(self.stack@ =~= Seq::new(16, |j: int| 0u16));
            assert(self.vp@ =~= Seq::new(16, |j: int| 0u8));
            assert(self.memory@ =~= Seq::new(4096, |j: int| 0u8));
        }
    }

    /// A machine with every component zeroed and every key released. Memory
    /// holds no glyph table yet: `initialize` installs it.
    pub fn new() -> (r: Cpu)
        ensures
            r.wf(),
            r.memory@ == Seq::new(4096, |j: int| 0u8),
            r.vp@ == Seq::new(16, |j: int| 0u8),
            r.stack@ == Seq::new(16, |j: int| 0u16),
            r.display.display@ == Seq::new(2048, |j: int| 0u8),
            forall|k: int| 0 <= k < 16 ==> !r.keypad.pressed_keys@[k],
            r.pc == 0,
            r.i == 0,
            r.delay_timer == 0,
            r.sound_timer == 0,
            r.sp == 0,
            r.opcode == 0,
            r.redirected == false,
            r.waiting_for_key is None,
    {
        let c = Cpu {
            memory: vec![0u8; 4096],
            vp: vec![0u8; 16],
            pc: 0,
            i: 0,
            delay_timer: 0,
            sound_timer: 0,
            keypad: Keypad::new(),
            display: Display::new(),
            stack: vec![0u16; 16],
            sp: 0,
            opcode: 0,
            redirected: false,
            waiting_for_key: None,
        };
        proof {
            assert(c.memory@ =~= Seq::new(4096, |j: int| 0u8));
            assert(c.vp@ =~= Seq::new(16, |j: int| 0u8));
            assert(c.stack@ =~= Seq::new(16, |j: int| 0u16));
        }
        c
    }

    /// Reset the machine for a fresh run: the program counter at the load
    /// address, stack, registers and memory zeroed, the glyph table
    /// installed in low memory, both timers zeroed. The display buffer is
    /// left as it is.
    pub fn initialize(&mut self) -> (r: Result<bool, String>)
        requires
            old(self).wf(),
        ensures
            final(self).wf(),
            r == Ok::<bool, String>(true),
            final(self).pc == 0x200,
            final(self).sp == 0,
            final(self).i == 0,
            final(self).opcode == 0,
            final(self).delay_timer == 0,
            final(self).sound_timer == 0,
            final(self).redirected == false,
            final(self).waiting_for_key is None,
            final(self).stack@ == Seq::new(16, |j: int| 0u16),
            final(self).vp@ == Seq::new(16, |j: int| 0u8),
            final(self).memory@ == Seq::new(
                4096,
                |j: int|
                    if FONTSET_LOCATION <= j < FONTSET_LOCATION + 80 {
                        font_seq()[j - FONTSET_LOCATION]
                    } else {
                        0u8
                    },
            ),
            final(self).display == old(self).display,
            final(self).keypad == old(self).keypad,
    {
        self.pc = 0x200;
        self.sp = 0;
        self.i = 0;
        self.opcode = 0;
        self.redirected = false;
        self.waiting_for_key = None;
        self.clear();
        let font = font_table();
        let mut index: usize = 0;
        while index < 80
            invariant
                index <= 80,
                font@ == font_seq(),
                self.wf(),
                self.memory@.len() == 4096,
                forall|j: int|
                    0 <= j < 4096 && !(FONTSET_LOCATION <= j < FONTSET_LOCATION + index)
                        ==> self.memory@[j] == 0u8,
                forall|j: int|
                    FONTSET_LOCATION <= j < FONTSET_LOCATION + index ==> self.memory@[j]
                        == font_seq()[j - FONTSET_LOCATION],
                self.pc == 0x200,
                self.sp == 0,
                self.i == 0,
                self.opcode == 0,
                self.redirected == false,
                self.waiting_for_key is None,
                self.stack@ == Seq::new(16, |j: int| 0u16),
                self.vp@ == Seq::new(16, |j: int| 0u8),
                self.delay_timer == old(self).delay_timer,
                self.sound_timer == old(self).sound_timer,
                self.display == old(self).display,
                self.keypad == old(self).keypad,
            decreases 80 - index,
        {
            let b = font[index];
            self.memory[FONTSET_LOCATION + index] = b;
            index = index + 1;
        }
        self.delay_timer = 0;
        self.sound_timer = 0;
        proof {
            assert(self.memory@ =~= Seq::new(
                4096,
                |j: int|
                    if FONTSET_LOCATION <= j < FONTSET_LOCATION + 80 {
                        font_seq()[j - FONTSET_LOCATION]
                    } else {
                        0u8
                    },
            ));
        }
        Ok(true)
    }

    /// Copy a program image into memory at the load address. An image
    /// larger than the space between the load address and the end of
    /// memory is rejected whole.
    pub fn load_game(&mut self, buffer: &Vec<u8>) -> (r: Result<(), EngineError>)
        requires
            old(self).wf(),
        ensures
            final(self).wf(),
            buffer@.len() > 0xE00 ==> r == Err::<(), EngineError>(EngineError::ProgramTooLarge)
                && *final(self) == *old(self),
            buffer@.len() <= 0xE00 ==> {
                &&& r == Ok::<(), EngineError>(())
                &&& same_except_memory(*old(self), *final(self))
                &&& io_same(*old(self), *final(self))
                &&& final(self).redirected == old(self).redirected
                &&& final(self).memory@.len() == 4096
                &&& forall|j: int|
                    0 <= j < buffer@.len() ==> final(self).memory@[0x200 + j] == buffer@[j]
                &&& forall|j: int|
                    0 <= j < 4096 && !(0x200 <= j < 0x200 + buffer@.len())
                        ==> final(self).memory@[j] == old(self).memory@[j]
            },
    {
        if buffer.len() > 0xE00 {
            return Err(EngineError::ProgramTooLarge);
        }
        let mut index: usize = 0;
        while index < buffer.len()
            invariant
                old(self).wf(),
                buffer@.len() <= 0xE00,
                index <= buffer@.len(),
                self.memory@.len() == 4096,
                self.vp@ == old(self).vp@,
                self.pc == old(self).pc,
                self.i == old(self).i,
                self.delay_timer == old(self).delay_timer,
                self.sound_timer == old(self).sound_timer,
                self.stack@ == old(self).stack@,
                self.sp == old(self).sp,
                self.display.display@ == old(self).display.display@,
                self.display.wf() == old(self).display.wf(),
                self.waiting_for_key == old(self).waiting_for_key,
                self.opcode == old(self).opcode,
                self.keypad == old(self).keypad,
                self.redirected == old(self).redirected,
                forall|j: int| 0 <= j < index ==> self.memory@[0x200 + j] == buffer@[j],
                forall|j: int|
                    0 <= j < 4096 && !(0x200 <= j < 0x200 + index) ==> self.memory@[j] == old(
                        self,
                    ).memory@[j],
            decreases buffer@.len() - index,
        {
            let b = buffer[index];
            self.memory[index + 0x200] = b;
            index = index + 1;
        }
        Ok(())
    }

    /// Run one engine cycle. `pressed` is the key state from the host's
    /// poll of its input source, and `quit` its termination signal.
    pub fn emulate_cycle(&mut self, quit: bool, pressed: Vec<bool>) -> (r: Result<
        StepOutcome,
        EngineError,
    >)
        requires
            old(self).wf(),
            pressed@.len() == 16,
        ensures
            final(self).wf(),
            cycle_post(*old(self), *final(self), quit, pressed@, r),
    {
        self.keypad.emulate_cycle(pressed);
        if quit {
            return Ok(StepOutcome::Stop);
        }
        match self.waiting_for_key {
            Some(k) => {
                return Ok(StepOutcome::WaitingForKey(k));
            },
            None => {},
        }
        if self.pc >= 4095 {
            return Err(EngineError::MemoryOutOfRange);
        }
        let hi = self.memory[self.pc];
        let lo = self.memory[self.pc + 1];
        self.opcode = ((hi as u16) << 8) | (lo as u16);
        proof {
            lemma_opcode_fields(self.opcode);
        }
        let ghost pre2 = *self;
        let res = self.execute_opcode();
        proof {
            lemma_exec_post_machine(
                *old(self),
                pre2,
                *self,
                pre2.opcode,
                pre2.keypad.pressed_keys@,
                res,
            );
        }
        match res {
            Err(e) => {
                return Err(e);
            },
            Ok(_) => {},
        }
        match self.waiting_for_key {
            Some(k) => {
                return Ok(StepOutcome::WaitingForKey(k));
            },
            None => {},
        }
        let ghost mid = *self;
        proof {
            assert(mid.pc <= 0xFFFF);
        }
        if !self.redirected {
            self.pc = self.pc + 2;
        }
        self.update_timers();
        proof {
            assert(advanced(mid, *self));
        }
        Ok(StepOutcome::Continue)
    }

    /// Complete a pending key wait with the key the host observed: store it
    /// in the parked register and close the suspended cycle with the
    /// program-counter advance and the timer decrement. Reports whether a
    /// wait was pending.
    pub fn finish_key_wait(&mut self, key: u8) -> (r: bool)
        requires
            old(self).wf(),
            old(self).pc + 2 <= usize::MAX,
        ensures
            final(self).wf(),
            match old(self).waiting_for_key {
                Some(x) => {
                    &&& r == true
                    &&& final(self).vp@ == old(self).vp@.update(x as int, key)
                    &&& final(self).waiting_for_key is None
                    &&& final(self).pc == old(self).pc + 2
                    &&& final(self).delay_timer == if old(self).delay_timer > 0 {
                        (old(self).delay_timer - 1) as u8
                    } else {
                        0u8
                    }
                    &&& final(self).sound_timer == if old(self).sound_timer > 0 {
                        (old(self).sound_timer - 1) as u8
                    } else {
                        0u8
                    }
                    &&& final(self).memory@ == old(self).memory@
                    &&& final(self).i == old(self).i
                    &&& final(self).stack@ == old(self).stack@
                    &&& final(self).sp == old(self).sp
                    &&& final(self).display.display@ == old(self).display.display@
                    &&& final(self).opcode == old(self).opcode
                    &&& final(self).keypad == old(self).keypad
                    &&& final(self).redirected == old(self).redirected
                },
                None => r == false && *final(self) == *old(self),
            },
    {
        match self.waiting_for_key {
            Some(x) => {
                self.vp[x as usize] = key;
                self.waiting_for_key = None;
                self.pc = self.pc + 2;
                self.update_timers();
                true
            },
            None => false,
        }
    }

    /// A copy of the display buffer.
    pub fn get_display(&self) -> (r: Vec<u8>)
        requires
            self.wf(),
        ensures
            r@ == self.display.display@,
    {
        self.display.get_display()
    }

    /// Replace the display buffer, as a test snapshot-restore.
    pub fn set_display(&mut self, display: Vec<u8>)
        requires
            old(self).wf(),
            display@.len() == 2048,
        ensures
            final(self).wf(),
            same_except_display(*old(self), *final(self)),
            io_same(*old(self), *final(self)),
            final(self).redirected == old(self).redirected,
            final(self).display.display@ == display@,
    {
        self.display.set_display(display);
    }

    /// The keypad, for the host to feed between cycles.
    pub fn get_keypad(&mut self) -> &mut Keypad {
        &mut self.keypad
    }

    /// Push a return address, as a test fixture; the caller keeps a free
    /// slot available.
    pub fn push_stack(&mut self, new_pc: u16)
        requires
            old(self).wf(),
            old(self).sp < 15,
        ensures
            final(self).wf(),
            same_except_flow(*old(self), *final(self)),
            io_same(*old(self), *final(self)),
            final(self).redirected == old(self).redirected,
            final(self).pc == old(self).pc,
            final(self).sp == old(self).sp + 1,
            final(self).stack@ == old(self).stack@.update(old(self).sp + 1, new_pc),
    {
        self.sp = self.sp + 1;
        self.stack[self.sp] = new_pc;
    }

    /// The return address at the top of the stack.
    pub fn top_stack(&self) -> (r: u16)
        requires
            self.wf(),
        ensures
            r == self.stack@[self.sp as int],
    {
        self.stack[self.sp]
    }

    /// Set one general-purpose register.
    pub fn set_register(&mut self, index: usize, value: u8)
        requires
            old(self).wf(),
            index < 16,
        ensures
            final(self).wf(),
            same_except_regs(*old(self), *final(self)),
            io_same(*old(self), *final(self)),
            final(self).redirected == old(self).redirected,
            final(self).vp@ == old(self).vp@.update(index as int, value),
    {
        self.vp[index] = value;
    }

    /// Read one general-purpose register.
    pub fn get_register(&self, index: usize) -> (r: u8)
        requires
            self.wf(),
            index < 16,
        ensures
            r == self.vp@[index as int],
    {
        self.vp[index]
    }
}

} // verus!
