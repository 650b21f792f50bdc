use vstd::prelude::*;

use crate::instruction::{decode_spec, Instruction};
use crate::state::{
    can_fetch, execute_spec, fetched_word, font, initial_state, jumped, step, valid, EmuState,
    Fault, DISPLAY_SIZE, FONTSET_SIZE, NUM_KEYS, NUM_REGS, RAM_SIZE, START_ADDR,
};

verus! {

/// The state after `n` ticks from `s`, or the first fault met on the way.
pub open spec fn ticks(s: EmuState, n: nat) -> Result<EmuState, Fault>
    decreases n,
{
    if n == 0 {
        Ok(s)
    } else {
        match step(s) {
            Ok(t) => ticks(t, (n - 1) as nat),
            Err(e) => Err(e),
        }
    }
}

/// A fresh or reset machine starts at `START_ADDR` with a blank display, zero
/// registers, index, stack pointer and timers, no key down, the font in the
/// first bytes of memory and zeros in the rest.
pub proof fn lemma_initial_state_blank()
    ensures
        valid(initial_state()),
        initial_state().pc == START_ADDR,
        forall|j: int| 0 <= j < DISPLAY_SIZE ==> !#[trigger] initial_state().screen[j],
        forall|j: int| 0 <= j < NUM_REGS ==> #[trigger] initial_state().v[j] == 0,
        forall|j: int| 0 <= j < NUM_KEYS ==> !#[trigger] initial_state().keys[j],
        initial_state().i == 0,
        initial_state().sp == 0,
        initial_state().dt == 0,
        initial_state().st == 0,
        forall|j: int| 0 <= j < FONTSET_SIZE ==> #[trigger] initial_state().ram[j] == font()[j],
        forall|j: int| FONTSET_SIZE <= j < RAM_SIZE ==> #[trigger] initial_state().ram[j] == 0,
{
}

/// A jump at `0x200` to `0x204` and a jump at `0x204` back to `0x200` make the
/// program counter alternate between the two forever, with nothing else in the
/// state changing.
pub proof fn lemma_jump_loop(s: EmuState, n: nat)
    requires
        valid(s),
        s.pc == 0x200,
        s.ram[0x200] == 0x12,
        s.ram[0x201] == 0x04,
        s.ram[0x204] == 0x12,
        s.ram[0x205] == 0x00,
    ensures
        ticks(s, 2 * n) == Ok::<EmuState, Fault>(s),
        ticks(s, 2 * n + 1) == Ok::<EmuState, Fault>(jumped(s, 0x204)),
    decreases n,
{
    let t = jumped(s, 0x204);
    assert(fetched_word(s) == 0x1204);
    assert(decode_spec(0x1204) == Instruction::Jump { nnn: 0x204 });
    assert(step(s) == Ok::<EmuState, Fault>(t));
    assert(fetched_word(t) == 0x1200);
    assert(decode_spec(0x1200) == Instruction::Jump { nnn: 0x200 });
    assert(jumped(t, 0x200) =~= s);
    assert(step(t) == Ok::<EmuState, Fault>(s));
    if n > 0 {
        lemma_jump_loop(s, (n - 1) as nat);
        assert(ticks(s, 2 * n) == ticks(t, (2 * n - 1) as nat));
        assert(ticks(t, (2 * n - 1) as nat) == ticks(s, (2 * n - 2) as nat));
    }
    assert(ticks(s, 2 * n + 1) == ticks(t, 2 * n));
}

/// Clearing the display leaves every pixel off, whatever was drawn before.
pub proof fn lemma_clear_blanks_display(s: EmuState)
    requires
        valid(s),
        can_fetch(s),
        fetched_word(s) == 0x00E0,
    ensures
        step(s) is Ok,
        step(s)->Ok_0.screen.len() == DISPLAY_SIZE,
        forall|j: int| 0 <= j < DISPLAY_SIZE ==> !#[trigger] step(s)->Ok_0.screen[j],
{
    assert(decode_spec(0x00E0) == Instruction::ClearScreen);
}

/// Adding an immediate to a register other than `VF` wraps modulo 256 and
/// leaves `VF` alone.
pub proof fn lemma_add_imm_keeps_flag(s: EmuState, x: u8, kk: u8)
    requires
        valid(s),
        x < 0xF,
    ensures
        execute_spec(s, Instruction::AddImm { x, kk }) is Ok,
        execute_spec(s, Instruction::AddImm { x, kk })->Ok_0.v[x as int] == (s.v[x as int] + kk)
            % 0x100,
        execute_spec(s, Instruction::AddImm { x, kk })->Ok_0.v[0xF] == s.v[0xF],
{
}

/// Adding register `y` to register `x` (both other than `VF`) leaves the sum
/// modulo 256 in `x` and sets `VF` to 1 exactly when the sum exceeds 255.
pub proof fn lemma_add_reg_carry(s: EmuState, x: u8, y: u8)
    requires
        valid(s),
        x < 0xF,
        y < 0xF,
    ensures
        execute_spec(s, Instruction::AddReg { x, y }) is Ok,
        execute_spec(s, Instruction::AddReg { x, y })->Ok_0.v[x as int] == (s.v[x as int]
            + s.v[y as int]) % 0x100,
        execute_spec(s, Instruction::AddReg { x, y })->Ok_0.v[0xF] == (if s.v[x as int]
            + s.v[y as int] > 0xFF {
            1u8
        } else {
            0u8
        }),
{
}

/// Storing `V0..V(x-1)` at the index register and loading the same range back
/// gives the registers that were there before.
pub proof fn lemma_store_load_round_trip(s: EmuState, x: u8)
    requires
        valid(s),
        1 <= x < 16,
        s.i + x <= RAM_SIZE,
    ensures
        execute_spec(s, Instruction::StoreRegs { x }) is Ok,
        execute_spec(execute_spec(s, Instruction::StoreRegs { x })->Ok_0, Instruction::LoadRegs { x })
            is Ok,
        execute_spec(
            execute_spec(s, Instruction::StoreRegs { x })->Ok_0,
            Instruction::LoadRegs { x },
        )->Ok_0.v == s.v,
{
    let t = execute_spec(s, Instruction::StoreRegs { x })->Ok_0;
    let u = execute_spec(t, Instruction::LoadRegs { x })->Ok_0;
    assert(u.v =~= s.v);
}

/// A word of no known pattern faults with that word.
pub proof fn lemma_unsupported_faults(s: EmuState)
    requires
        valid(s),
        can_fetch(s),
        decode_spec(fetched_word(s)) is Unsupported,
    ensures
        step(s) == Err::<EmuState, Fault>(Fault::UnsupportedOpcode(fetched_word(s))),
{
}

/// Every word whose leading digit is 9 is of no known pattern.
pub proof fn lemma_nine_unsupported(op: u16)
    requires
        op / 0x1000 == 9,
    ensures
        decode_spec(op) == (Instruction::Unsupported { op }),
{
}

} // verus!
