//! A CHIP-8 style interpreter core: memory, registers, a call stack, timers,
//! key state and a monochrome display, advanced one instruction per `tick`.
use vstd::prelude::*;

pub mod emu;
pub mod instruction;
pub mod laws;
pub mod state;

pub use emu::{x_y_as_byte_offset, Emu};
pub use instruction::{decode, op_as_address, op_as_u8, Instruction};
pub use state::{
    Fault, DISPLAY_SIZE, FONTSET_SIZE, MAX_PROGRAM_SIZE, NUM_KEYS, NUM_REGS, RAM_SIZE,
    SCREEN_HEIGHT, SCREEN_WIDTH, STACK_SIZE, START_ADDR,
};
