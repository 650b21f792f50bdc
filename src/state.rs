use vstd::prelude::*;

use crate::instruction::{decode_spec, Instruction};

verus! {

/// Width of the display in pixels.
pub const SCREEN_WIDTH: usize = 64;
/// Height of the display in pixels.
pub const SCREEN_HEIGHT: usize = 32;
/// Number of pixels, stored row-major (`y * SCREEN_WIDTH + x`).
pub const DISPLAY_SIZE: usize = 2048;
/// Bytes of addressable memory.
pub const RAM_SIZE: usize = 4096;
/// Number of general-purpose registers `V0`..`VF`.
pub const NUM_REGS: usize = 16;
/// Number of keys.
pub const NUM_KEYS: usize = 16;
/// Depth of the call stack.
pub const STACK_SIZE: usize = 16;
/// Bytes taken by the built-in font at the bottom of memory.
pub const FONTSET_SIZE: usize = 80;
/// Address at which programs are loaded and execution starts.
pub const START_ADDR: u16 = 0x200;
/// Largest program that fits between `START_ADDR` and the end of memory.
pub const MAX_PROGRAM_SIZE: usize = 3584;

/// A fatal condition met while executing an instruction. When `tick` reports
/// one, the machine state is left as it was before that call.
#[derive(Clone, Copy, Debug, PartialEq, Eq, Structural)]
pub enum Fault {
    /// The program counter does not leave room for a two-byte fetch.
    ProgramCounterOutOfBounds,
    /// An access relative to the index register runs past the end of memory.
    MemoryOutOfBounds,
    /// A sprite row falls outside the display.
    DisplayOutOfBounds,
    /// A call with all stack slots in use.
    StackOverflow,
    /// A return with an empty stack.
    StackUnderflow,
    /// An instruction word of no known pattern.
    UnsupportedOpcode(u16),
}

/// The abstract machine state.
#[verifier::ext_equal]
pub struct EmuState {
    /// Address of the next instruction.
    pub pc: int,
    /// Memory, `RAM_SIZE` bytes.
    pub ram: Seq<u8>,
    /// Pixels, row-major, `DISPLAY_SIZE` of them.
    pub screen: Seq<bool>,
    /// Registers `V0`..`VF`.
    pub v: Seq<u8>,
    /// The index register.
    pub i: int,
    /// Number of return addresses on the stack.
    pub sp: int,
    /// Return-address slots; those below `sp` are in use.
    pub stack: Seq<u16>,
    /// Key state, one flag per key.
    pub keys: Seq<bool>,
    /// Delay timer.
    pub dt: u8,
    /// Sound timer.
    pub st: u8,
}

/// Sizes and ranges that every reachable state keeps.
pub open spec fn valid(s: EmuState) -> bool {
    &&& 0 <= s.pc < 0x10000
    &&& s.ram.len() == RAM_SIZE
    &&& s.screen.len() == DISPLAY_SIZE
    &&& s.v.len() == NUM_REGS
    &&& 0 <= s.i < 0x10000
    &&& 0 <= s.sp <= STACK_SIZE
    &&& s.stack.len() == STACK_SIZE
    &&& s.keys.len() == NUM_KEYS
}

/// The sixteen hexadecimal digit glyphs, five rows of one byte each.
pub open spec fn font() -> Seq<u8> {
    seq![
        0xF0u8, 0x90, 0x90, 0x90, 0xF0, 0x20, 0x60, 0x20, 0x20, 0x70,
        0xF0, 0x10, 0xF0, 0x80, 0xF0, 0xF0, 0x10, 0xF0, 0x10, 0xF0,
        0x90, 0x90, 0xF0, 0x10, 0x10, 0xF0, 0x80, 0xF0, 0x10, 0xF0,
        0xF0, 0x80, 0xF0, 0x90, 0xF0, 0xF0, 0x10, 0x20, 0x40, 0x40,
        0xF0, 0x90, 0xF0, 0x90, 0xF0, 0xF0, 0x90, 0xF0, 0x10, 0xF0,
        0xF0, 0x90, 0xF0, 0x90, 0x90, 0xE0, 0x90, 0xE0, 0x90, 0xE0,
        0xF0, 0x80, 0x80, 0x80, 0xF0, 0xE0, 0x90, 0x90, 0x90, 0xE0,
        0xF0, 0x80, 0xF0, 0x80, 0xF0, 0xF0, 0x80, 0xF0, 0x80, 0x80,
    ]
}

/// Memory of a fresh machine: the font, then zeros.
pub open spec fn initial_ram() -> Seq<u8> {
    Seq::new(RAM_SIZE as nat, |j: int| if j < FONTSET_SIZE { font()[j] } else { 0u8 })
}

/// The state of a freshly built or reset machine.
pub open spec fn initial_state() -> EmuState {
    EmuState {
        pc: START_ADDR as int,
        ram: initial_ram(),
        screen: Seq::new(DISPLAY_SIZE as nat, |j: int| false),
        v: Seq::new(NUM_REGS as nat, |j: int| 0u8),
        i: 0,
        sp: 0,
        stack: Seq::new(STACK_SIZE as nat, |j: int| 0u16),
        keys: Seq::new(NUM_KEYS as nat, |j: int| false),
        dt: 0,
        st: 0,
    }
}

/// `s` with `data` written into memory from `START_ADDR` on.
pub open spec fn loaded(s: EmuState, data: Seq<u8>) -> EmuState {
    EmuState {
        ram: Seq::new(
            s.ram.len(),
            |j: int|
                if START_ADDR <= j < START_ADDR + data.len() {
                    data[j - START_ADDR]
                } else {
                    s.ram[j]
                },
        ),
        ..s
    }
}

/// `s` after one timer tick: each nonzero timer goes down by one.
pub open spec fn timers_ticked(s: EmuState) -> EmuState {
    EmuState {
        dt: if s.dt > 0 { (s.dt - 1) as u8 } else { 0 },
        st: if s.st > 0 { (s.st - 1) as u8 } else { 0 },
        ..s
    }
}

/// `s` with key `idx` set to `pressed`.
pub open spec fn key_set(s: EmuState, idx: int, pressed: bool) -> EmuState {
    EmuState { keys: s.keys.update(idx, pressed), ..s }
}

/// `s` with register `x` set to `val`.
pub open spec fn with_reg(s: EmuState, x: int, val: u8) -> EmuState {
    EmuState { v: s.v.update(x, val), ..s }
}

/// `s` with the program counter moved on by one instruction.
pub open spec fn advanced(s: EmuState) -> EmuState {
    EmuState { pc: s.pc + 2, ..s }
}

/// `s` with the program counter set to `pc`.
pub open spec fn jumped(s: EmuState, pc: int) -> EmuState {
    EmuState { pc: pc, ..s }
}

/// `s` with the index register set to `i`.
pub open spec fn with_index(s: EmuState, i: int) -> EmuState {
    EmuState { i: i, ..s }
}

/// The word that a fetch at `s.pc` reads: two bytes, high byte first.
pub open spec fn fetched_word(s: EmuState) -> u16 {
    (s.ram[s.pc] as int * 0x100 + s.ram[s.pc + 1] as int) as u16
}

/// Whether a fetch at `s.pc` stays inside memory.
pub open spec fn can_fetch(s: EmuState) -> bool {
    s.pc + 1 < RAM_SIZE
}

/// Display offset of the pixel at column `x`, row `y`.
pub open spec fn pixel_offset(x: u8, y: u8) -> int {
    SCREEN_WIDTH * y + x
}

/// The display after drawing `n` rows from memory at `i` onto offsets
/// `start..start + n`: a pixel flips where its memory byte is `0xFF`.
pub open spec fn drawn(screen: Seq<bool>, ram: Seq<u8>, i: int, start: int, n: int) -> Seq<bool> {
    Seq::new(
        screen.len(),
        |j: int|
            if start <= j < start + n && ram[i + (j - start)] == 0xFF {
                !screen[j]
            } else {
                screen[j]
            },
    )
}

/// The flag left by a draw of `n > 0` rows: the collision of its last row.
pub open spec fn draw_flag(screen: Seq<bool>, ram: Seq<u8>, i: int, start: int, n: int) -> u8 {
    if screen[start + n - 1] && ram[i + n - 1] == 0xFF {
        1
    } else {
        0
    }
}

/// Memory after storing `V0..V(x-1)` from address `s.i` on.
pub open spec fn stored_regs(s: EmuState, x: int) -> Seq<u8> {
    Seq::new(s.ram.len(), |j: int| if s.i <= j < s.i + x { s.v[j - s.i] } else { s.ram[j] })
}

/// Registers after loading `V0..V(x-1)` from address `s.i` on.
pub open spec fn loaded_regs(s: EmuState, x: int) -> Seq<u8> {
    Seq::new(s.v.len(), |j: int| if j < x { s.ram[s.i + j] } else { s.v[j] })
}

/// What executing `ins` does to `s`, whose program counter has already moved
/// past the instruction.
pub open spec fn execute_spec(s: EmuState, ins: Instruction) -> Result<EmuState, Fault> {
    match ins {
        Instruction::Nop => Ok(s),
        Instruction::ClearScreen => Ok(
            EmuState { screen: Seq::new(DISPLAY_SIZE as nat, |j: int| false), ..s },
        ),
        Instruction::Return => if s.sp == 0 {
            Err(Fault::StackUnderflow)
        } else {
            Ok(EmuState { sp: s.sp - 1, pc: s.stack[s.sp - 1] as int, ..s })
        },
        Instruction::Jump { nnn } => Ok(jumped(s, nnn as int)),
        Instruction::Call { nnn } => if s.sp >= STACK_SIZE {
            Err(Fault::StackOverflow)
        } else {
            Ok(
                EmuState {
                    stack: s.stack.update(s.sp, s.pc as u16),
                    sp: s.sp + 1,
                    pc: nnn as int,
                    ..s
                },
            )
        },
        Instruction::SkipIfEqImm { x, kk } => Ok(
            if s.v[x as int] == kk {
                advanced(s)
            } else {
                s
            },
        ),
        Instruction::SkipIfNeImm { x, kk } => Ok(
            if s.v[x as int] != kk {
                advanced(s)
            } else {
                s
            },
        ),
        Instruction::SkipIfEqReg { x, y } => Ok(
            if s.v[x as int] == s.v[y as int] {
                advanced(s)
            } else {
                s
            },
        ),
        Instruction::SetImm { x, kk } => Ok(with_reg(s, x as int, kk)),
        Instruction::AddImm { x, kk } => Ok(
            with_reg(s, x as int, ((s.v[x as int] + kk) % 0x100) as u8),
        ),
        Instruction::Assign { x, y } => Ok(with_reg(s, x as int, s.v[y as int])),
        Instruction::Or { x, y } => Ok(with_reg(s, x as int, s.v[x as int] | s.v[y as int])),
        Instruction::And { x, y } => Ok(with_reg(s, x as int, s.v[x as int] & s.v[y as int])),
        Instruction::Xor { x, y } => Ok(with_reg(s, x as int, s.v[x as int] ^ s.v[y as int])),
        Instruction::AddReg { x, y } => {
            let t = with_reg(s, 0xF, if s.v[x as int] + s.v[y as int] > 0xFF { 1u8 } else { 0u8 });
            Ok(with_reg(t, x as int, ((t.v[x as int] + t.v[y as int]) % 0x100) as u8))
        },
        Instruction::SubReg { x, y } => {
            let t = with_reg(s, 0xF, if s.v[x as int] > s.v[y as int] { 1u8 } else { 0u8 });
            Ok(with_reg(t, x as int, ((t.v[x as int] - t.v[y as int] + 0x100) % 0x100) as u8))
        },
        Instruction::SetIndex { nnn } => Ok(with_index(s, nnn as int)),
        Instruction::Draw { x, y, n } => {
            let start = pixel_offset(s.v[x as int], s.v[y as int]);
            if n == 0 {
                Ok(s)
            } else if s.i + n > RAM_SIZE {
                Err(Fault::MemoryOutOfBounds)
            } else if start + n > DISPLAY_SIZE {
                Err(Fault::DisplayOutOfBounds)
            } else {
                Ok(
                    EmuState {
                        screen: drawn(s.screen, s.ram, s.i, start, n as int),
                        v: s.v.update(0xF, draw_flag(s.screen, s.ram, s.i, start, n as int)),
                        ..s
                    },
                )
            }
        },
        Instruction::AddIndex { x } => Ok(with_index(s, (s.i + s.v[x as int]) % 0x10000)),
        Instruction::FontGlyph { x } => Ok(with_index(s, 5 * (s.v[x as int] % 0x10))),
        Instruction::StoreRegs { x } => if x > 0 && s.i + x > RAM_SIZE {
            Err(Fault::MemoryOutOfBounds)
        } else {
            Ok(EmuState { ram: stored_regs(s, x as int), ..s })
        },
        Instruction::LoadRegs { x } => if x > 0 && s.i + x > RAM_SIZE {
            Err(Fault::MemoryOutOfBounds)
        } else {
            Ok(EmuState { v: loaded_regs(s, x as int), ..s })
        },
        Instruction::Unsupported { op } => Err(Fault::UnsupportedOpcode(op)),
    }
}

/// One fetch-decode-execute cycle on `s`.
pub open spec fn step(s: EmuState) -> Result<EmuState, Fault> {
    if can_fetch(s) {
        execute_spec(advanced(s), decode_spec(fetched_word(s)))
    } else {
        Err(Fault::ProgramCounterOutOfBounds)
    }
}

} // verus!
