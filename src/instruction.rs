use vstd::prelude::*;

verus! {

/// One decoded instruction word. `x` and `y` name registers (0..16), `kk` is an
/// immediate byte, `nnn` a 12-bit address and `n` a sprite height.
#[derive(Clone, Copy, Debug, PartialEq, Eq, Structural)]
pub enum Instruction {
    /// `0000`
    Nop,
    /// `00E0`
    ClearScreen,
    /// `00EE`
    Return,
    /// `1nnn`
    Jump { nnn: u16 },
    /// `2nnn`
    Call { nnn: u16 },
    /// `3xkk`
    SkipIfEqImm { x: u8, kk: u8 },
    /// `4xkk`
    SkipIfNeImm { x: u8, kk: u8 },
    /// `5xy0`
    SkipIfEqReg { x: u8, y: u8 },
    /// `6xkk`
    SetImm { x: u8, kk: u8 },
    /// `7xkk`
    AddImm { x: u8, kk: u8 },
    /// `8xy0`
    Assign { x: u8, y: u8 },
    /// `8xy1`
    Or { x: u8, y: u8 },
    /// `8xy2`
    And { x: u8, y: u8 },
    /// `8xy3`
    Xor { x: u8, y: u8 },
    /// `8xy4`: `VF` is set to the carry first, then `Vx += Vy` wraps; where
    /// `x` or `y` names `VF` the sum reads the flag just written.
    AddReg { x: u8, y: u8 },
    /// `8xy5`: `VF` is set to `Vx > Vy` first, then `Vx -= Vy` wraps; where
    /// `x` or `y` names `VF` the difference reads the flag just written.
    SubReg { x: u8, y: u8 },
    /// `Annn`
    SetIndex { nnn: u16 },
    /// `Dxyn`: row `r` of `n` toggles the pixel at offset
    /// `64 * Vy + Vx + r` where the memory byte at `I + r` is `0xFF`.
    Draw { x: u8, y: u8, n: u8 },
    /// `Fx1E`
    AddIndex { x: u8 },
    /// `Fx29`
    FontGlyph { x: u8 },
    /// `Fx55`
    StoreRegs { x: u8 },
    /// `Fx65`
    LoadRegs { x: u8 },
    /// Any word that matches none of the patterns above.
    Unsupported { op: u16 },
}

/// The four hexadecimal digits of an instruction word, most significant first.
pub open spec fn nibble(op: u16, k: int) -> u8 {
    if k == 0 {
        (op / 0x1000) as u8
    } else if k == 1 {
        ((op / 0x100) % 0x10) as u8
    } else if k == 2 {
        ((op / 0x10) % 0x10) as u8
    } else {
        (op % 0x10) as u8
    }
}

/// The instruction that a word denotes, by its four nibbles.
pub open spec fn decode_spec(op: u16) -> Instruction {
    let (d1, d2, d3, d4) = (nibble(op, 0), nibble(op, 1), nibble(op, 2), nibble(op, 3));
    let kk = (op % 0x100) as u8;
    let nnn = (op % 0x1000) as u16;
    if op == 0x0000 {
        Instruction::Nop
    } else if op == 0x00E0 {
        Instruction::ClearScreen
    } else if op == 0x00EE {
        Instruction::Return
    } else if d1 == 1 {
        Instruction::Jump { nnn }
    } else if d1 == 2 {
        Instruction::Call { nnn }
    } else if d1 == 3 {
        Instruction::SkipIfEqImm { x: d2, kk }
    } else if d1 == 4 {
        Instruction::SkipIfNeImm { x: d2, kk }
    } else if d1 == 5 && d4 == 0 {
        Instruction::SkipIfEqReg { x: d2, y: d3 }
    } else if d1 == 6 {
        Instruction::SetImm { x: d2, kk }
    } else if d1 == 7 {
        Instruction::AddImm { x: d2, kk }
    } else if d1 == 8 && d4 == 0 {
        Instruction::Assign { x: d2, y: d3 }
    } else if d1 == 8 && d4 == 1 {
        Instruction::Or { x: d2, y: d3 }
    } else if d1 == 8 && d4 == 2 {
        Instruction::And { x: d2, y: d3 }
    } else if d1 == 8 && d4 == 3 {
        Instruction::Xor { x: d2, y: d3 }
    } else if d1 == 8 && d4 == 4 {
        Instruction::AddReg { x: d2, y: d3 }
    } else if d1 == 8 && d4 == 5 {
        Instruction::SubReg { x: d2, y: d3 }
    } else if d1 == 0xA {
        Instruction::SetIndex { nnn }
    } else if d1 == 0xD {
        Instruction::Draw { x: d2, y: d3, n: d4 }
    } else if d1 == 0xF && d3 == 1 && d4 == 0xE {
        Instruction::AddIndex { x: d2 }
    } else if d1 == 0xF && d3 == 2 && d4 == 9 {
        Instruction::FontGlyph { x: d2 }
    } else if d1 == 0xF && d3 == 5 && d4 == 5 {
        Instruction::StoreRegs { x: d2 }
    } else if d1 == 0xF && d3 == 6 && d4 == 5 {
        Instruction::LoadRegs { x: d2 }
    } else {
        Instruction::Unsupported { op }
    }
}

/// Every register operand of a decoded instruction is below 16.
pub open spec fn operands_in_range(ins: Instruction) -> bool {
    match ins {
        Instruction::SkipIfEqImm { x, .. } | Instruction::SkipIfNeImm { x, .. }
        | Instruction::SetImm { x, .. } | Instruction::AddImm { x, .. }
        | Instruction::AddIndex { x } | Instruction::FontGlyph { x }
        | Instruction::StoreRegs { x } | Instruction::LoadRegs { x } => x < 16,
        Instruction::SkipIfEqReg { x, y } | Instruction::Assign { x, y }
        | Instruction::Or { x, y } | Instruction::And { x, y }
        | Instruction::Xor { x, y } | Instruction::AddReg { x, y }
        | Instruction::SubReg { x, y } => x < 16 && y < 16,
        Instruction::Draw { x, y, n } => x < 16 && y < 16 && n < 16,
        Instruction::Jump { nnn } | Instruction::Call { nnn } | Instruction::SetIndex { nnn } => nnn < 0x1000,
        _ => true,
    }
}

/// Instructions that only move the program counter, use the stack, or clear
/// the display.
pub open spec fn is_flow(ins: Instruction) -> bool {
    ||| ins is Nop
    ||| ins is ClearScreen
    ||| ins is Return
    ||| ins is Jump
    ||| ins is Call
    ||| ins is SkipIfEqImm
    ||| ins is SkipIfNeImm
    ||| ins is SkipIfEqReg
}

/// Instructions that compute into a register.
pub open spec fn is_arith(ins: Instruction) -> bool {
    ||| ins is SetImm
    ||| ins is AddImm
    ||| ins is Assign
    ||| ins is Or
    ||| ins is And
    ||| ins is Xor
    ||| ins is AddReg
    ||| ins is SubReg
}

/// Instructions that set the index register.
pub open spec fn is_index_op(ins: Instruction) -> bool {
    ||| ins is SetIndex
    ||| ins is AddIndex
    ||| ins is FontGlyph
}

/// The low byte of an instruction word (`kk`).
pub fn op_as_u8(op: u16) -> (r: u8)
    ensures
        r == op % 0x100,
{
    assert(op & 0xFF == op % 0x100) by (bit_vector);
    (op & 0xFF) as u8
}

/// The low twelve bits of an instruction word (`nnn`).
pub fn op_as_address(op: u16) -> (r: u16)
    ensures
        r == op % 0x1000,
{
    assert(op & 0xFFF == op % 0x1000) by (bit_vector);
    op & 0xFFF
}

/// Splits an instruction word into its four nibbles.
fn nibbles(op: u16) -> (r: (u8, u8, u8, u8))
    ensures
        r.0 == nibble(op, 0),
        r.1 == nibble(op, 1),
        r.2 == nibble(op, 2),
        r.3 == nibble(op, 3),
        r.0 < 16 && r.1 < 16 && r.2 < 16 && r.3 < 16,
{
    assert((op & 0xF000) >> 12 == op / 0x1000) by (bit_vector);
    assert((op & 0x0F00) >> 8 == (op / 0x100) % 0x10) by (bit_vector);
    assert((op & 0x00F0) >> 4 == (op / 0x10) % 0x10) by (bit_vector);
    assert(op & 0x000F == op % 0x10) by (bit_vector);
    (
        ((op & 0xF000) >> 12) as u8,
        ((op & 0x0F00) >> 8) as u8,
        ((op & 0x00F0) >> 4) as u8,
        (op & 0x000F) as u8,
    )
}

/// Decodes an instruction word. Every word decodes; those of no known pattern
/// become `Unsupported`, carrying the word.
pub fn decode(op: u16) -> (r: Instruction)
    ensures
        r == decode_spec(op),
        operands_in_range(r),
{
    let (d1, d2, d3, d4) = nibbles(op);
    let kk = op_as_u8(op);
    let nnn = op_as_address(op);
    match (d1, d2, d3, d4) {
        (0, 0, 0, 0) => Instruction::Nop,
        (0, 0, 0xE, 0) => Instruction::ClearScreen,
        (0, 0, 0xE, 0xE) => Instruction::Return,
        (1, _, _, _) => Instruction::Jump { nnn },
        (2, _, _, _) => Instruction::Call { nnn },
        (3, x, _, _) => Instruction::SkipIfEqImm { x, kk },
        (4, x, _, _) => Instruction::SkipIfNeImm { x, kk },
        (5, x, y, 0) => Instruction::SkipIfEqReg { x, y },
        (6, x, _, _) => Instruction::SetImm { x, kk },
        (7, x, _, _) => Instruction::AddImm { x, kk },
        (8, x, y, 0) => Instruction::Assign { x, y },
        (8, x, y, 1) => Instruction::Or { x, y },
        (8, x, y, 2) => Instruction::And { x, y },
        (8, x, y, 3) => Instruction::Xor { x, y },
        (8, x, y, 4) => Instruction::AddReg { x, y },
        (8, x, y, 5) => Instruction::SubReg { x, y },
        (0xA, _, _, _) => Instruction::SetIndex { nnn },
        (0xD, x, y, n) => Instruction::Draw { x, y, n },
        (0xF, x, 1, 0xE) => Instruction::AddIndex { x },
        (0xF, x, 2, 9) => Instruction::FontGlyph { x },
        (0xF, x, 5, 5) => Instruction::StoreRegs { x },
        (0xF, x, 6, 5) => Instruction::LoadRegs { x },
        _ => Instruction::Unsupported { op },
    }
}

} // verus!
