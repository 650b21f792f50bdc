use vstd::prelude::*;

use crate::instruction::{decode, is_arith, is_flow, is_index_op, operands_in_range, Instruction};
use crate::state::{
    advanced, can_fetch, draw_flag, drawn, execute_spec, fetched_word, font, initial_ram,
    initial_state, key_set, loaded, loaded_regs, pixel_offset, step, stored_regs,
    timers_ticked, valid, EmuState, Fault, DISPLAY_SIZE, FONTSET_SIZE, MAX_PROGRAM_SIZE,
    NUM_KEYS, NUM_REGS, RAM_SIZE, SCREEN_WIDTH, STACK_SIZE, START_ADDR,
};

verus! {

/// The interpreter: memory, display, registers, call stack, keys and timers.
pub struct Emu {
    pc: u16,
    ram: Vec<u8>,
    screen: Vec<bool>,
    v_reg: Vec<u8>,
    i_reg: u16,
    sp: u16,
    stack: Vec<u16>,
    keys: Vec<bool>,
    dt: u8,
    st: u8,
}

impl View for Emu {
    type V = EmuState;

    closed spec fn view(&self) -> EmuState {
        EmuState {
            pc: self.pc as int,
            ram: self.ram@,
            screen: self.screen@,
            v: self.v_reg@,
            i: self.i_reg as int,
            sp: self.sp as int,
            stack: self.stack@,
            keys: self.keys@,
            dt: self.dt,
            st: self.st,
        }
    }
}

/// The font table as bytes.
fn fontset() -> (r: Vec<u8>)
    ensures
        r@ == font(),
{
    let r = vec![
        0xF0u8, 0x90, 0x90, 0x90, 0xF0, // 0
        0x20, 0x60, 0x20, 0x20, 0x70, // 1
        0xF0, 0x10, 0xF0, 0x80, 0xF0, // 2
        0xF0, 0x10, 0xF0, 0x10, 0xF0, // 3
        0x90, 0x90, 0xF0, 0x10, 0x10, // 4
        0xF0, 0x80, 0xF0, 0x10, 0xF0, // 5
        0xF0, 0x80, 0xF0, 0x90, 0xF0, // 6
        0xF0, 0x10, 0x20, 0x40, 0x40, // 7
        0xF0, 0x90, 0xF0, 0x90, 0xF0, // 8
        0xF0, 0x90, 0xF0, 0x10, 0xF0, // 9
        0xF0, 0x90, 0xF0, 0x90, 0x90, // A
        0xE0, 0x90, 0xE0, 0x90, 0xE0, // B
        0xF0, 0x80, 0x80, 0x80, 0xF0, // C
        0xE0, 0x90, 0x90, 0x90, 0xE0, // D
        0xF0, 0x80, 0xF0, 0x80, 0xF0, // E
        0xF0, 0x80, 0xF0, 0x80, 0x80, // F
    ];
    assert(r@ =~= font());
    r
}

/// Memory of a fresh machine.
fn initial_memory() -> (r: Vec<u8>)
    ensures
        r@ == initial_ram(),
{
    let glyphs = fontset();
    let mut ram = vec![0u8; RAM_SIZE];
    let mut j: usize = 0;
    while j < FONTSET_SIZE
        invariant
            j <= FONTSET_SIZE,
            glyphs@ == font(),
            ram@.len() == RAM_SIZE,
            forall|k: int| 0 <= k < j ==> ram@[k] == font()[k],
            forall|k: int| j <= k < RAM_SIZE ==> ram@[k] == 0,
        decreases FONTSET_SIZE - j,
    {
        ram.set(j, glyphs[j]);
        j = j + 1;
    }
    assert(ram@ =~= initial_ram());
    ram
}

impl Emu {
    /// Sizes and ranges that every method keeps.
    pub open spec fn wf(&self) -> bool {
        valid(self@)
    }

    /// A machine with the font installed, execution at `START_ADDR`, and
    /// everything else zero or off.
    pub fn new() -> (r: Emu)
        ensures
            r.wf(),
            r@ == initial_state(),
    {
        let r = Emu {
            pc: START_ADDR,
            ram: initial_memory(),
            screen: vec![false; DISPLAY_SIZE],
            v_reg: vec![0u8; NUM_REGS],
            i_reg: 0,
            sp: 0,
            stack: vec![0u16; STACK_SIZE],
            keys: vec![false; NUM_KEYS],
            dt: 0,
            st: 0,
        };
        assert(r@ =~= initial_state());
        r
    }

    /// Restores the state that `new` gives.
    pub fn reset(&mut self)
        ensures
            final(self).wf(),
            final(self)@ == initial_state(),
    {
        *self = Emu::new();
    }

    /// Writes `data` into memory from `START_ADDR` on; nothing else changes.
    pub fn load(&mut self, data: &[u8])
        requires
            old(self).wf(),
            data@.len() <= MAX_PROGRAM_SIZE,
        ensures
            final(self).wf(),
            final(self)@ == loaded(old(self)@, data@),
    {
        let start = START_ADDR as usize;
        let mut j: usize = 0;
        while j < data.len()
            invariant
                start == START_ADDR,
                data@.len() <= MAX_PROGRAM_SIZE,
                j <= data@.len(),
                self.wf(),
                self@ == (EmuState { ram: self@.ram, ..old(self)@ }),
                forall|k: int|
                    0 <= k < RAM_SIZE ==> self@.ram[k] == (if start <= k < start + j {
                        data@[k - start]
                    } else {
                        old(self)@.ram[k]
                    }),
            decreases data@.len() - j,
        {
            self.ram.set(start + j, data[j]);
            j = j + 1;
        }
        assert(self@ =~= loaded(old(self)@, data@));
    }

    /// The display, row-major, `SCREEN_WIDTH` pixels per row.
    pub fn get_display(&self) -> (r: &[bool])
        ensures
            r@ == self@.screen,
    {
        self.screen.as_slice()
    }

    /// Counts each nonzero timer down by one. The sound timer reaching zero is
    /// the cue for the host to sound.
    pub fn tick_timers(&mut self)
        requires
            old(self).wf(),
        ensures
            final(self).wf(),
            final(self)@ == timers_ticked(old(self)@),
    {
        if self.dt > 0 {
            self.dt = self.dt - 1;
        }
        if self.st > 0 {
            self.st = self.st - 1;
        }
        assert(self@ =~= timers_ticked(old(self)@));
    }

    /// Executes one instruction. On a fault the state is left unchanged.
    pub fn tick(&mut self) -> (r: Result<(), Fault>)
        requires
            old(self).wf(),
        ensures
            final(self).wf(),
            match step(old(self)@) {
                Ok(s) => r is Ok && final(self)@ == s,
                Err(e) => r == Err::<(), Fault>(e) && final(self)@ == old(self)@,
            },
    {
        let op = match self.fetch() {
            Ok(op) => op,
            Err(e) => return Err(e),
        };
        let ins = decode(op);
        let r = self.execute(ins);
        if r.is_err() {
            self.pc = self.pc - 2;
            assert(self@ =~= old(self)@);
        }
        r
    }

    /// Sets key `idx` to pressed or released.
    pub fn keypress(&mut self, idx: usize, pressed: bool)
        requires
            old(self).wf(),
            idx < NUM_KEYS,
        ensures
            final(self).wf(),
            final(self)@ == key_set(old(self)@, idx as int, pressed),
    {
        self.keys.set(idx, pressed);
        assert(self@ =~= key_set(old(self)@, idx as int, pressed));
    }

    /// The program counter.
    pub fn program_counter(&self) -> (r: u16)
        ensures
            r == self@.pc,
    {
        self.pc
    }

    /// Register `Vx`.
    pub fn register(&self, x: usize) -> (r: u8)
        requires
            self.wf(),
            x < NUM_REGS,
        ensures
            r == self@.v[x as int],
    {
        self.v_reg[x]
    }

    /// The index register.
    pub fn index_register(&self) -> (r: u16)
        ensures
            r == self@.i,
    {
        self.i_reg
    }

    /// The number of return addresses on the stack.
    pub fn stack_pointer(&self) -> (r: u16)
        ensures
            r == self@.sp,
    {
        self.sp
    }

    /// The delay timer.
    pub fn delay_timer(&self) -> (r: u8)
        ensures
            r == self@.dt,
    {
        self.dt
    }

    /// The sound timer.
    pub fn sound_timer(&self) -> (r: u8)
        ensures
            r == self@.st,
    {
        self.st
    }

    /// The memory byte at `addr`.
    pub fn memory(&self, addr: usize) -> (r: u8)
        requires
            self.wf(),
            addr < RAM_SIZE,
        ensures
            r == self@.ram[addr as int],
    {
        self.ram[addr]
    }

    /// Whether key `idx` is down.
    pub fn key_pressed(&self, idx: usize) -> (r: bool)
        requires
            self.wf(),
            idx < NUM_KEYS,
        ensures
            r == self@.keys[idx as int],
    {
        self.keys[idx]
    }

    /// Reads the word at the program counter and moves past it.
    fn fetch(&mut self) -> (r: Result<u16, Fault>)
        requires
            old(self).wf(),
        ensures
            final(self).wf(),
            can_fetch(old(self)@) ==> r == Ok::<u16, Fault>(fetched_word(old(self)@))
                && final(self)@ == advanced(old(self)@) && final(self).pc <= RAM_SIZE,
            !can_fetch(old(self)@) ==> r == Err::<u16, Fault>(Fault::ProgramCounterOutOfBounds)
                && final(self)@ == old(self)@,
    {
        let pc = self.pc as usize;
        if pc + 1 >= RAM_SIZE {
            return Err(Fault::ProgramCounterOutOfBounds);
        }
        let high = self.ram[pc] as u16;
        let low = self.ram[pc + 1] as u16;
        assert((high << 8u16) | low == high * 0x100 + low) by (bit_vector)
            requires
                high < 0x100,
                low < 0x100,
        ;
        let op = (high << 8u16) | low;
        self.pc = self.pc + 2;
        assert(self@ =~= advanced(old(self)@));
        Ok(op)
    }

    /// Pushes a return address.
    fn push(&mut self, val: u16)
        requires
            old(self).wf(),
            old(self).sp < STACK_SIZE,
        ensures
            final(self).wf(),
            final(self)@ == (EmuState {
                stack: old(self)@.stack.update(old(self)@.sp, val),
                sp: old(self)@.sp + 1,
                ..old(self)@
            }),
    {
        self.stack.set(self.sp as usize, val);
        self.sp = self.sp + 1;
        assert(self@ =~= (EmuState {
            stack: old(self)@.stack.update(old(self)@.sp, val),
            sp: old(self)@.sp + 1,
            ..old(self)@
        }));
    }

    /// Pops the latest return address.
    fn pop(&mut self) -> (r: u16)
        requires
            old(self).wf(),
            old(self).sp > 0,
        ensures
            final(self).wf(),
            r == old(self)@.stack[old(self)@.sp - 1],
            final(self)@ == (EmuState { sp: old(self)@.sp - 1, ..old(self)@ }),
    {
        self.sp = self.sp - 1;
        let r = self.stack[self.sp as usize];
        assert(self@ =~= (EmuState { sp: old(self)@.sp - 1, ..old(self)@ }));
        r
    }

    /// Executes `ins`, the program counter having already moved past it. On a
    /// fault nothing changes.
    fn execute(&mut self, ins: Instruction) -> (r: Result<(), Fault>)
        requires
            old(self).wf(),
            old(self).pc <= RAM_SIZE,
            operands_in_range(ins),
        ensures
            final(self).wf(),
            match execute_spec(old(self)@, ins) {
                Ok(s) => r is Ok && final(self)@ == s,
                Err(e) => r == Err::<(), Fault>(e) && final(self)@ == old(self)@,
            },
    {
        match ins {
            Instruction::Nop
            | Instruction::ClearScreen
            | Instruction::Return
            | Instruction::Jump { .. }
            | Instruction::Call { .. }
            | Instruction::SkipIfEqImm { .. }
            | Instruction::SkipIfNeImm { .. }
            | Instruction::SkipIfEqReg { .. } => self.execute_flow(ins),
            Instruction::SetImm { .. }
            | Instruction::AddImm { .. }
            | Instruction::Assign { .. }
            | Instruction::Or { .. }
            | Instruction::And { .. }
            | Instruction::Xor { .. }
            | Instruction::AddReg { .. }
            | Instruction::SubReg { .. } => self.execute_arith(ins),
            Instruction::SetIndex { .. }
            | Instruction::AddIndex { .. }
            | Instruction::FontGlyph { .. } => self.execute_index(ins),
            Instruction::Draw { x, y, n } => self.draw(x, y, n),
            Instruction::StoreRegs { x } => self.store_regs(x),
            Instruction::LoadRegs { x } => self.load_regs(x),
            Instruction::Unsupported { op } => Err(Fault::UnsupportedOpcode(op)),
        }
    }

    /// Control flow and the display clear.
    fn execute_flow(&mut self, ins: Instruction) -> (r: Result<(), Fault>)
        requires
            old(self).wf(),
            old(self).pc <= RAM_SIZE,
            operands_in_range(ins),
            is_flow(ins),
        ensures
            final(self).wf(),
            match execute_spec(old(self)@, ins) {
                Ok(s) => r is Ok && final(self)@ == s,
                Err(e) => r == Err::<(), Fault>(e) && final(self)@ == old(self)@,
            },
    {
        match ins {
            Instruction::Nop => {},
            Instruction::ClearScreen => {
                self.screen = vec![false; DISPLAY_SIZE];
            },
            Instruction::Return => {
                if self.sp == 0 {
                    return Err(Fault::StackUnderflow);
                }
                self.pc = self.pop();
            },
            Instruction::Jump { nnn } => {
                self.pc = nnn;
            },
            Instruction::Call { nnn } => {
                if self.sp as usize >= STACK_SIZE {
                    return Err(Fault::StackOverflow);
                }
                self.push(self.pc);
                self.pc = nnn;
            },
            Instruction::SkipIfEqImm { x, kk } => {
                if self.v_reg[x as usize] == kk {
                    self.pc = self.pc + 2;
                }
            },
            Instruction::SkipIfNeImm { x, kk } => {
                if self.v_reg[x as usize] != kk {
                    self.pc = self.pc + 2;
                }
            },
            Instruction::SkipIfEqReg { x, y } => {
                if self.v_reg[x as usize] == self.v_reg[y as usize] {
                    self.pc = self.pc + 2;
                }
            },
            _ => {},
        }
        assert(self@ =~= execute_spec(old(self)@, ins)->Ok_0);
        Ok(())
    }

    /// Register arithmetic.
    fn execute_arith(&mut self, ins: Instruction) -> (r: Result<(), Fault>)
        requires
            old(self).wf(),
            old(self).pc <= RAM_SIZE,
            operands_in_range(ins),
            is_arith(ins),
        ensures
            final(self).wf(),
            match execute_spec(old(self)@, ins) {
                Ok(s) => r is Ok && final(self)@ == s,
                Err(e) => r == Err::<(), Fault>(e) && final(self)@ == old(self)@,
            },
    {
        match ins {
            Instruction::SetImm { x, kk } => {
                self.v_reg.set(x as usize, kk);
            },
            Instruction::AddImm { x, kk } => {
                let val = self.v_reg[x as usize].wrapping_add(kk);
                self.v_reg.set(x as usize, val);
            },
            Instruction::Assign { x, y } => {
                let val = self.v_reg[y as usize];
                self.v_reg.set(x as usize, val);
            },
            Instruction::Or { x, y } => {
                let val = self.v_reg[x as usize] | self.v_reg[y as usize];
                self.v_reg.set(x as usize, val);
            },
            Instruction::And { x, y } => {
                let val = self.v_reg[x as usize] & self.v_reg[y as usize];
                self.v_reg.set(x as usize, val);
            },
            Instruction::Xor { x, y } => {
                let val = self.v_reg[x as usize] ^ self.v_reg[y as usize];
                self.v_reg.set(x as usize, val);
            },
            Instruction::AddReg { x, y } => {
                let carry = self.v_reg[x as usize] as u16 + self.v_reg[y as usize] as u16 > 0xFF;
                self.v_reg.set(0xF, if carry { 1 } else { 0 });
                let val = self.v_reg[x as usize].wrapping_add(self.v_reg[y as usize]);
                self.v_reg.set(x as usize, val);
            },
            Instruction::SubReg { x, y } => {
                let no_borrow = self.v_reg[x as usize] > self.v_reg[y as usize];
                self.v_reg.set(0xF, if no_borrow { 1 } else { 0 });
                let val = self.v_reg[x as usize].wrapping_sub(self.v_reg[y as usize]);
                self.v_reg.set(x as usize, val);
            },
            _ => {},
        }
        assert(self@ =~= execute_spec(old(self)@, ins)->Ok_0);
        Ok(())
    }

    /// Index register updates.
    fn execute_index(&mut self, ins: Instruction) -> (r: Result<(), Fault>)
        requires
            old(self).wf(),
            old(self).pc <= RAM_SIZE,
            operands_in_range(ins),
            is_index_op(ins),
        ensures
            final(self).wf(),
            match execute_spec(old(self)@, ins) {
                Ok(s) => r is Ok && final(self)@ == s,
                Err(e) => r == Err::<(), Fault>(e) && final(self)@ == old(self)@,
            },
    {
        match ins {
            Instruction::SetIndex { nnn } => {
                self.i_reg = nnn;
            },
            Instruction::AddIndex { x } => {
                self.i_reg = self.i_reg.wrapping_add(self.v_reg[x as usize] as u16);
            },
            Instruction::FontGlyph { x } => {
                self.i_reg = 5 * (self.v_reg[x as usize] % 0x10) as u16;
            },
            _ => {},
        }
        assert(self@ =~= execute_spec(old(self)@, ins)->Ok_0);
        Ok(())
    }

    /// `Dxyn`: draws `n` sprite rows from memory at the index register.
    fn draw(&mut self, x: u8, y: u8, n: u8) -> (r: Result<(), Fault>)
        requires
            old(self).wf(),
            x < 16,
            y < 16,
            n < 16,
        ensures
            final(self).wf(),
            match execute_spec(old(self)@, Instruction::Draw { x, y, n }) {
                Ok(s) => r is Ok && final(self)@ == s,
                Err(e) => r == Err::<(), Fault>(e) && final(self)@ == old(self)@,
            },
    {
        let ram_start = self.i_reg as usize;
        let screen_start = x_y_as_byte_offset(self.v_reg[x as usize], self.v_reg[y as usize]);
        let rows = n as usize;
        if rows == 0 {
            assert(self@ =~= old(self)@);
            return Ok(());
        }
        if ram_start + rows > RAM_SIZE {
            return Err(Fault::MemoryOutOfBounds);
        }
        if screen_start + rows > DISPLAY_SIZE {
            return Err(Fault::DisplayOutOfBounds);
        }
        let ghost s0 = old(self)@;
        let mut k: usize = 0;
        while k < rows
            invariant
                self.wf(),
                valid(s0),
                rows == n,
                0 < rows < 16,
                k <= rows,
                ram_start == s0.i,
                screen_start == pixel_offset(s0.v[x as int], s0.v[y as int]),
                ram_start + rows <= RAM_SIZE,
                screen_start + rows <= DISPLAY_SIZE,
                self@ == (EmuState { screen: self@.screen, v: self@.v, ..s0 }),
                self@.screen == drawn(s0.screen, s0.ram, s0.i, screen_start as int, k as int),
                k == 0 ==> self@.v == s0.v,
                k > 0 ==> self@.v == s0.v.update(
                    0xF,
                    draw_flag(s0.screen, s0.ram, s0.i, screen_start as int, k as int),
                ),
            decreases rows - k,
        {
            self.v_reg.set(0xF, 0);
            let pixel = self.screen[screen_start + k];
            let byte = self.ram[ram_start + k];
            assert(pixel == s0.screen[screen_start + k]);
            assert(byte == s0.ram[s0.i + k]);
            if byte == 0xFF {
                if pixel {
                    self.screen.set(screen_start + k, false);
                    self.v_reg.set(0xF, 1);
                } else {
                    self.screen.set(screen_start + k, true);
                }
            }
            k = k + 1;
            assert(self@.screen =~= drawn(s0.screen, s0.ram, s0.i, screen_start as int, k as int));
            assert(self@.v =~= s0.v.update(
                0xF,
                draw_flag(s0.screen, s0.ram, s0.i, screen_start as int, k as int),
            ));
        }
        assert(self@ =~= execute_spec(s0, Instruction::Draw { x, y, n })->Ok_0);
        Ok(())
    }

    /// `Fx55`: stores `V0..V(x-1)` into memory at the index register.
    fn store_regs(&mut self, x: u8) -> (r: Result<(), Fault>)
        requires
            old(self).wf(),
            x < 16,
        ensures
            final(self).wf(),
            match execute_spec(old(self)@, Instruction::StoreRegs { x }) {
                Ok(s) => r is Ok && final(self)@ == s,
                Err(e) => r == Err::<(), Fault>(e) && final(self)@ == old(self)@,
            },
    {
        let base = self.i_reg as usize;
        let count = x as usize;
        if count > 0 && base + count > RAM_SIZE {
            return Err(Fault::MemoryOutOfBounds);
        }
        let ghost s0 = old(self)@;
        let mut k: usize = 0;
        while k < count
            invariant
                self.wf(),
                count < 16,
                k <= count,
                base == s0.i,
                count == 0 || base + count <= RAM_SIZE,
                self@ == (EmuState { ram: self@.ram, ..s0 }),
                self@.ram == stored_regs(s0, k as int),
            decreases count - k,
        {
            let val = self.v_reg[k];
            self.ram.set(base + k, val);
            k = k + 1;
            assert(self@.ram =~= stored_regs(s0, k as int));
        }
        assert(self@ =~= execute_spec(s0, Instruction::StoreRegs { x })->Ok_0);
        Ok(())
    }

    /// `Fx65`: loads `V0..V(x-1)` from memory at the index register.
    fn load_regs(&mut self, x: u8) -> (r: Result<(), Fault>)
        requires
            old(self).wf(),
            x < 16,
        ensures
            final(self).wf(),
            match execute_spec(old(self)@, Instruction::LoadRegs { x }) {
                Ok(s) => r is Ok && final(self)@ == s,
                Err(e) => r == Err::<(), Fault>(e) && final(self)@ == old(self)@,
            },
    {
        let base = self.i_reg as usize;
        let count = x as usize;
        if count > 0 && base + count > RAM_SIZE {
            return Err(Fault::MemoryOutOfBounds);
        }
        let ghost s0 = old(self)@;
        let mut k: usize = 0;
        while k < count
            invariant
                self.wf(),
                count < 16,
                k <= count,
                base == s0.i,
                count == 0 || base + count <= RAM_SIZE,
                self@ == (EmuState { v: self@.v, ..s0 }),
                self@.v == loaded_regs(s0, k as int),
            decreases count - k,
        {
            let val = self.ram[base + k];
            self.v_reg.set(k, val);
            k = k + 1;
            assert(self@.v =~= loaded_regs(s0, k as int));
        }
        assert(self@ =~= execute_spec(s0, Instruction::LoadRegs { x })->Ok_0);
        Ok(())
    }
}

impl Default for Emu {
    fn default() -> (r: Emu)
        ensures
            r.wf(),
            r@ == initial_state(),
    {
        Emu::new()
    }
}

/// Display offset of the pixel at column `x`, row `y`.
pub fn x_y_as_byte_offset(x: u8, y: u8) -> (r: usize)
    ensures
        r == pixel_offset(x, y),
{
    SCREEN_WIDTH * y as usize + x as usize
}

} // verus!
