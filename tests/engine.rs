use chip8_core::{
    decode, op_as_address, op_as_u8, x_y_as_byte_offset, Emu, Fault, Instruction,
    DISPLAY_SIZE, FONTSET_SIZE, MAX_PROGRAM_SIZE, NUM_KEYS, NUM_REGS, RAM_SIZE, START_ADDR,
};

const FONT: [u8; 80] = [
    0xF0, 0x90, 0x90, 0x90, 0xF0, 0x20, 0x60, 0x20, 0x20, 0x70, 0xF0, 0x10, 0xF0, 0x80, 0xF0,
    0xF0, 0x10, 0xF0, 0x10, 0xF0, 0x90, 0x90, 0xF0, 0x10, 0x10, 0xF0, 0x80, 0xF0, 0x10, 0xF0,
    0xF0, 0x80, 0xF0, 0x90, 0xF0, 0xF0, 0x10, 0x20, 0x40, 0x40, 0xF0, 0x90, 0xF0, 0x90, 0xF0,
    0xF0, 0x90, 0xF0, 0x10, 0xF0, 0xF0, 0x90, 0xF0, 0x90, 0x90, 0xE0, 0x90, 0xE0, 0x90, 0xE0,
    0xF0, 0x80, 0x80, 0x80, 0xF0, 0xE0, 0x90, 0x90, 0x90, 0xE0, 0xF0, 0x80, 0xF0, 0x80, 0xF0,
    0xF0, 0x80, 0xF0, 0x80, 0x80,
];

fn with_program(words: &[u16]) -> Emu {
    let mut bytes = Vec::new();
    for w in words {
        bytes.push((w >> 8) as u8);
        bytes.push((w & 0xFF) as u8);
    }
    let mut emu = Emu::new();
    emu.load(&bytes);
    emu
}

/// The program already in memory, padded up to 0x300, followed by `sprite`.
fn with_sprite(emu: &Emu, sprite: &[u8]) -> Vec<u8> {
    let mut p: Vec<u8> = (0x200..0x300).map(|a| emu.memory(a)).collect();
    p.extend_from_slice(sprite);
    p
}

fn run(emu: &mut Emu, n: usize) {
    for _ in 0..n {
        assert_eq!(emu.tick(), Ok(()));
    }
}

fn assert_blank(emu: &Emu) {
    assert_eq!(emu.program_counter(), START_ADDR);
    assert_eq!(emu.get_display().len(), DISPLAY_SIZE);
    assert!(emu.get_display().iter().all(|p| !*p));
    for x in 0..NUM_REGS {
        assert_eq!(emu.register(x), 0);
    }
    for k in 0..NUM_KEYS {
        assert!(!emu.key_pressed(k));
    }
    assert_eq!(emu.index_register(), 0);
    assert_eq!(emu.stack_pointer(), 0);
    assert_eq!(emu.delay_timer(), 0);
    assert_eq!(emu.sound_timer(), 0);
    for a in 0..FONTSET_SIZE {
        assert_eq!(emu.memory(a), FONT[a]);
    }
    for a in FONTSET_SIZE..RAM_SIZE {
        assert_eq!(emu.memory(a), 0);
    }
}

#[test]
fn new_machine_is_blank() {
    assert_blank(&Emu::new());
    assert_blank(&Emu::default());
}

#[test]
fn reset_restores_blank_state() {
    let mut emu = with_program(&[0x6A05, 0xA300, 0xD001, 0x2300]);
    emu.keypress(4, true);
    run(&mut emu, 4);
    emu.reset();
    assert_blank(&emu);
}

#[test]
fn set_index_then_advance() {
    let mut emu = Emu::new();
    emu.load(&[0xA2, 0x23]);
    assert_eq!(emu.tick(), Ok(()));
    assert_eq!(emu.index_register(), 0x223);
    assert_eq!(emu.program_counter(), 0x202);
}

#[test]
fn load_writes_from_start_address_only() {
    let mut emu = Emu::new();
    emu.load(&[1, 2, 3]);
    assert_eq!(emu.memory(0x1FF), 0);
    assert_eq!(emu.memory(0x200), 1);
    assert_eq!(emu.memory(0x202), 3);
    assert_eq!(emu.memory(0x203), 0);
    assert_eq!(emu.memory(0), FONT[0]);
}

#[test]
fn load_largest_program() {
    let mut emu = Emu::new();
    let data = vec![0xAB; MAX_PROGRAM_SIZE];
    emu.load(&data);
    assert_eq!(emu.memory(RAM_SIZE - 1), 0xAB);
    assert_eq!(emu.memory(START_ADDR as usize), 0xAB);
}

#[test]
fn jump_loop_alternates() {
    let mut emu = with_program(&[0x1204, 0x0000, 0x1200]);
    for _ in 0..10 {
        assert_eq!(emu.tick(), Ok(()));
        assert_eq!(emu.program_counter(), 0x204);
        assert_eq!(emu.tick(), Ok(()));
        assert_eq!(emu.program_counter(), 0x200);
    }
    assert!(emu.get_display().iter().all(|p| !*p));
    for x in 0..NUM_REGS {
        assert_eq!(emu.register(x), 0);
    }
}

#[test]
fn add_immediate_keeps_flag() {
    let mut emu = with_program(&[0x6F07, 0x6A05, 0x7A10]);
    run(&mut emu, 3);
    assert_eq!(emu.register(0xA), 0x15);
    assert_eq!(emu.register(0xF), 7);
}

#[test]
fn add_immediate_wraps() {
    let mut emu = with_program(&[0x63FF, 0x7302]);
    run(&mut emu, 2);
    assert_eq!(emu.register(3), 1);
    assert_eq!(emu.register(0xF), 0);
}

#[test]
fn add_registers_sets_carry_and_wraps() {
    let mut emu = with_program(&[0x61FA, 0x620A, 0x8124]);
    run(&mut emu, 3);
    assert_eq!(emu.register(0xF), 1);
    assert_eq!(emu.register(1), 4);
    assert_eq!(emu.register(2), 10);
}

#[test]
fn add_registers_clears_carry() {
    let mut emu = with_program(&[0x6F09, 0x6103, 0x6204, 0x8124]);
    run(&mut emu, 4);
    assert_eq!(emu.register(0xF), 0);
    assert_eq!(emu.register(1), 7);
}

#[test]
fn subtract_registers() {
    let mut emu = with_program(&[0x6109, 0x6203, 0x8125, 0x6303, 0x6409, 0x8345]);
    run(&mut emu, 3);
    assert_eq!(emu.register(1), 6);
    assert_eq!(emu.register(0xF), 1);
    run(&mut emu, 3);
    assert_eq!(emu.register(3), 250);
    assert_eq!(emu.register(0xF), 0);
}

#[test]
fn bitwise_and_assign() {
    let mut emu = with_program(&[
        0x610C, 0x620A, 0x8310, 0x8321, 0x8410, 0x8422, 0x8510, 0x8523,
    ]);
    run(&mut emu, 8);
    assert_eq!(emu.register(3), 0x0E);
    assert_eq!(emu.register(4), 0x08);
    assert_eq!(emu.register(5), 0x06);
}

#[test]
fn skips() {
    // 3xkk taken, 4xkk not taken, 5xy0 taken
    let mut emu = with_program(&[0x6105, 0x3105, 0x0000, 0x4105, 0x6207, 0x5120]);
    run(&mut emu, 2);
    assert_eq!(emu.program_counter(), 0x206);
    run(&mut emu, 1);
    assert_eq!(emu.program_counter(), 0x208);
    run(&mut emu, 2);
    assert_eq!(emu.program_counter(), 0x20C);
    let mut emu = with_program(&[0x6105, 0x6205, 0x5120]);
    run(&mut emu, 3);
    assert_eq!(emu.program_counter(), 0x208);
}

#[test]
fn call_and_return() {
    let mut emu = with_program(&[0x2206, 0x0000, 0x0000, 0x00EE]);
    run(&mut emu, 1);
    assert_eq!(emu.program_counter(), 0x206);
    assert_eq!(emu.stack_pointer(), 1);
    run(&mut emu, 1);
    assert_eq!(emu.program_counter(), 0x202);
    assert_eq!(emu.stack_pointer(), 0);
}

#[test]
fn return_on_empty_stack_faults() {
    let mut emu = with_program(&[0x00EE]);
    assert_eq!(emu.tick(), Err(Fault::StackUnderflow));
    assert_eq!(emu.program_counter(), START_ADDR);
}

#[test]
fn call_overflow_faults() {
    let mut emu = with_program(&[0x2200]);
    run(&mut emu, 16);
    assert_eq!(emu.stack_pointer(), 16);
    assert_eq!(emu.tick(), Err(Fault::StackOverflow));
    assert_eq!(emu.stack_pointer(), 16);
    assert_eq!(emu.program_counter(), START_ADDR);
}

#[test]
fn draw_toggles_full_bytes_and_sets_flag() {
    // sprite rows at 0x300: FF, 0F, FF
    let mut emu = with_program(&[0xA300, 0x6102, 0x6201, 0xD123, 0xD123]);
    emu.load(&with_sprite(&emu, &[0xFF, 0x0F, 0xFF]));
    run(&mut emu, 4);
    let start = x_y_as_byte_offset(2, 1);
    assert_eq!(start, 66);
    let d = emu.get_display();
    assert!(d[start]);
    assert!(!d[start + 1]);
    assert!(d[start + 2]);
    assert_eq!(d.iter().filter(|p| **p).count(), 2);
    assert_eq!(emu.register(0xF), 0);
    run(&mut emu, 1);
    assert!(emu.get_display().iter().all(|p| !*p));
    assert_eq!(emu.register(0xF), 1);
}

#[test]
fn draw_flag_reflects_last_row() {
    // the first row collides, the second row is not a full byte
    let mut emu = with_program(&[0xA300, 0xD001, 0xD002]);
    emu.load(&with_sprite(&emu, &[0xFF, 0x00]));
    run(&mut emu, 2);
    assert!(emu.get_display()[0]);
    run(&mut emu, 1);
    assert!(!emu.get_display()[0]);
    assert_eq!(emu.register(0xF), 0);
}

#[test]
fn draw_past_display_faults() {
    let mut emu = with_program(&[0xA000, 0x613F, 0x621F, 0xD122]);
    run(&mut emu, 3);
    assert_eq!(emu.tick(), Err(Fault::DisplayOutOfBounds));
    assert_eq!(emu.program_counter(), 0x206);
}

#[test]
fn draw_past_memory_faults() {
    let mut emu = with_program(&[0xAFFF, 0xD002]);
    run(&mut emu, 1);
    assert_eq!(emu.tick(), Err(Fault::MemoryOutOfBounds));
}

#[test]
fn clear_after_draw() {
    let mut emu = with_program(&[0xA300, 0xD003, 0x6140, 0xD103, 0x00E0]);
    emu.load(&with_sprite(&emu, &[0xFF, 0xFF, 0xFF]));
    run(&mut emu, 4);
    assert_eq!(emu.get_display().iter().filter(|p| **p).count(), 6);
    assert!(emu.get_display().iter().any(|p| *p));
    run(&mut emu, 1);
    assert!(emu.get_display().iter().all(|p| !*p));
    assert_eq!(emu.get_display().len(), DISPLAY_SIZE);
}

#[test]
fn store_then_load_round_trip() {
    for x in 1..16u16 {
        let mut words = Vec::new();
        for r in 0..16u16 {
            words.push(0x6000 | (r << 8) | (0x11 * r + 3));
        }
        words.push(0xA400);
        words.push(0xF055 | (x << 8));
        for r in 0..16u16 {
            words.push(0x6000 | (r << 8));
        }
        words.push(0xF065 | (x << 8));
        let mut emu = with_program(&words);
        run(&mut emu, 16);
        let before: Vec<u8> = (0..16).map(|r| emu.register(r)).collect();
        run(&mut emu, 2);
        for r in 0..(x as usize) {
            assert_eq!(emu.memory(0x400 + r), before[r]);
        }
        assert_eq!(emu.memory(0x400 + x as usize), 0);
        run(&mut emu, 17);
        for r in 0..(x as usize) {
            assert_eq!(emu.register(r), before[r]);
        }
        for r in (x as usize)..16 {
            assert_eq!(emu.register(r), 0);
        }
    }
}

#[test]
fn store_past_memory_faults() {
    let mut emu = with_program(&[0xAFFE, 0xF355]);
    run(&mut emu, 1);
    assert_eq!(emu.tick(), Err(Fault::MemoryOutOfBounds));
    assert_eq!(emu.memory(0xFFE), 0);
}

#[test]
fn index_add_and_font_glyph() {
    let mut emu = with_program(&[0xA010, 0x6305, 0xF31E, 0x641C, 0xF429]);
    run(&mut emu, 3);
    assert_eq!(emu.index_register(), 0x15);
    run(&mut emu, 2);
    assert_eq!(emu.index_register(), 60);
}

#[test]
fn unsupported_opcode_faults() {
    let mut emu = with_program(&[0x9120]);
    assert_eq!(emu.tick(), Err(Fault::UnsupportedOpcode(0x9120)));
    assert_eq!(emu.program_counter(), START_ADDR);
    assert_eq!(emu.tick(), Err(Fault::UnsupportedOpcode(0x9120)));
}

#[test]
fn fetch_past_memory_faults() {
    let mut emu = with_program(&[0x1FFF]);
    run(&mut emu, 1);
    assert_eq!(emu.program_counter(), 0xFFF);
    assert_eq!(emu.tick(), Err(Fault::ProgramCounterOutOfBounds));
}

#[test]
fn timers_stay_at_zero() {
    let mut emu = Emu::new();
    emu.tick_timers();
    assert_eq!(emu.delay_timer(), 0);
    assert_eq!(emu.sound_timer(), 0);
}

#[test]
fn keypress_sets_and_clears() {
    let mut emu = Emu::new();
    emu.keypress(15, true);
    assert!(emu.key_pressed(15));
    assert!(!emu.key_pressed(14));
    emu.keypress(15, false);
    assert!(!emu.key_pressed(15));
}

#[test]
fn decode_patterns() {
    assert_eq!(decode(0x0000), Instruction::Nop);
    assert_eq!(decode(0x00E0), Instruction::ClearScreen);
    assert_eq!(decode(0x00EE), Instruction::Return);
    assert_eq!(decode(0x1ABC), Instruction::Jump { nnn: 0xABC });
    assert_eq!(decode(0x8AB4), Instruction::AddReg { x: 0xA, y: 0xB });
    assert_eq!(decode(0xD12F), Instruction::Draw { x: 1, y: 2, n: 0xF });
    assert_eq!(decode(0xF765), Instruction::LoadRegs { x: 7 });
    assert_eq!(decode(0x8126), Instruction::Unsupported { op: 0x8126 });
    assert_eq!(decode(0x5121), Instruction::Unsupported { op: 0x5121 });
    assert_eq!(decode(0x00E1), Instruction::Unsupported { op: 0x00E1 });
    assert_eq!(op_as_u8(0x1234), 0x34);
    assert_eq!(op_as_address(0x1234), 0x234);
}
