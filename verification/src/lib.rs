//! A small fixed-instruction-set virtual machine: a 4096-byte memory image,
//! sixteen 8-bit registers, a 16-bit index register, a 16-slot call stack,
//! two countdown timers, a 64x32 monochrome display buffer and a 16-key
//! keypad, driven by a fetch-decode-dispatch-execute cycle.
//!
//! The instruction engine lives in [`cpu`]; the display buffer with its
//! XOR-compositing draw operation in [`display`]; the key state in
//! [`keypad`]; the built-in glyph table in [`fontset`]; proofs of the
//! engine's cross-instruction laws in [`laws`]. Window presentation and
//! physical-input polling are collaborators outside this crate: the engine
//! receives the polled key state as plain values and exposes the display
//! buffer for a host to present.

use vstd::prelude::*;

pub mod cpu;
pub mod display;
pub mod fontset;
pub mod keypad;
pub mod laws;

verus! {

/// Width of the logical display in pixels.
pub const DISPLAY_WIDTH: usize = 64;

/// Height of the logical display in pixels.
pub const DISPLAY_HEIGHT: usize = 32;

/// Number of cells of the logical display buffer.
pub const DISPLAY_CELLS: usize = 2048;

/// Number of addressable bytes of the memory image.
pub const MEMORY_SIZE: usize = 4096;

/// Number of general-purpose registers.
pub const NUM_REGISTERS: usize = 16;

/// Number of return-address slots of the call stack.
pub const STACK_SIZE: usize = 16;

/// Number of keys of the keypad.
pub const NUM_KEYS: usize = 16;

/// Address at which program images are loaded.
pub const PROGRAM_START: usize = 0x200;

/// Largest program image that fits between `PROGRAM_START` and the end of
/// memory.
pub const MAX_PROGRAM_SIZE: usize = 0xE00;

/// Picks the program name: the first positional argument when one is given,
/// a fixed built-in name otherwise. `args` holds the process name first, as
/// an argument vector does.
pub fn get_rom_name(args: Vec<String>) -> (r: String)
    requires
        args@.len() >= 1,
    ensures
        args@.len() == 1 ==> r@ == "TICTAC"@,
        args@.len() > 1 ==> r@ == args@[1]@,
{
    if args.len() == 1 {
        return String::from_str("TICTAC");
    }
    args[1].clone()
}

} // verus!
