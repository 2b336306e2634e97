use chip8::{Chip8, Chip8Error, Instr, LoadError, decode, from_u8_rgb, render};

fn machine(program: &[u8]) -> Chip8 {
    let mut chip = Chip8::new();
    chip.load_game(program).unwrap();
    chip
}

#[test]
fn set_register_single_cycle() {
    let mut chip = machine(&[0x60, 0x05]);
    assert_eq!(chip.emulate_cycle(), Ok(false));
    assert_eq!(chip.v[0], 5);
    assert_eq!(chip.pc, 0x202);
    assert_eq!(chip.opcode, 0x6005);
}

#[test]
fn font_glyph_address() {
    let mut chip = machine(&[0xA0, 0x50, 0xF0, 0x29]);
    chip.v[0] = 0xA;
    chip.emulate_cycle().unwrap();
    assert_eq!(chip.i, 0x050);
    chip.emulate_cycle().unwrap();
    assert_eq!(chip.i, 0x050 + 50);
    assert_eq!(chip.pc, 0x204);
}

#[test]
fn clear_then_draw_one_row() {
    let mut chip = machine(&[0x00, 0xE0, 0xD0, 0x01]);
    chip.gfx[100] = true;
    chip.i = 0x300;
    chip.memory[0x300] = 0b1010_0110;
    chip.emulate_cycle().unwrap();
    assert!(chip.gfx.iter().all(|p| !p));
    chip.emulate_cycle().unwrap();
    assert_eq!(chip.v[0xF], 0);
    for p in 0..64 * 32 {
        let expected = p < 8 && (0b1010_0110u8 >> (7 - p)) & 1 == 1;
        assert_eq!(chip.gfx[p], expected, "pixel {}", p);
    }
    assert!(chip.draw_flag);
}

#[test]
fn draw_twice_restores_and_reports_collision() {
    let mut chip = machine(&[0xD1, 0x25, 0xD1, 0x25]);
    chip.v[1] = 62;
    chip.v[2] = 30;
    chip.i = 0x50; // glyph "0"
    chip.gfx[5] = true;
    let before = chip.gfx.clone();
    chip.emulate_cycle().unwrap();
    assert_eq!(chip.v[0xF], 0);
    // wraps on each axis: (62,30) and (63,30), then (0,30), (1,30)
    assert!(chip.gfx[62 + 30 * 64]);
    assert!(chip.gfx[1 + 30 * 64]);
    assert!(chip.gfx[62 + 0 * 64]);
    assert!(!chip.gfx[2 + 30 * 64]);
    chip.emulate_cycle().unwrap();
    assert_eq!(chip.v[0xF], 1);
    assert_eq!(chip.gfx, before);
}

#[test]
fn draw_collision_flag() {
    let mut chip = machine(&[0xD0, 0x01]);
    chip.i = 0x50;
    chip.gfx[0] = true;
    chip.emulate_cycle().unwrap();
    assert_eq!(chip.v[0xF], 1);
    assert!(!chip.gfx[0]);
    assert!(chip.gfx[1] && chip.gfx[2] && chip.gfx[3]);
}

#[test]
fn draw_query_clears_flag() {
    let mut chip = machine(&[0x00, 0xE0]);
    assert!(chip.draw().is_none());
    chip.emulate_cycle().unwrap();
    let frame = chip.draw().unwrap();
    assert_eq!(frame.len(), 64 * 32);
    assert!(!chip.draw_flag);
    assert!(chip.draw().is_none());
}

#[test]
fn set_then_add_wraps() {
    let mut chip = machine(&[0x63, 0xF0, 0x73, 0x20]);
    chip.emulate_cycle().unwrap();
    chip.emulate_cycle().unwrap();
    assert_eq!(chip.v[3], 0x10);
    assert_eq!(chip.v[0xF], 0);
}

#[test]
fn skips_by_four_or_two() {
    let mut chip = machine(&[0x30, 0x07]);
    chip.v[0] = 7;
    chip.emulate_cycle().unwrap();
    assert_eq!(chip.pc, 0x204);

    let mut chip = machine(&[0x30, 0x07]);
    chip.v[0] = 8;
    chip.emulate_cycle().unwrap();
    assert_eq!(chip.pc, 0x202);

    let mut chip = machine(&[0x40, 0x07]);
    chip.v[0] = 8;
    chip.emulate_cycle().unwrap();
    assert_eq!(chip.pc, 0x204);

    let mut chip = machine(&[0x51, 0x20]);
    chip.v[1] = 3;
    chip.v[2] = 3;
    chip.emulate_cycle().unwrap();
    assert_eq!(chip.pc, 0x204);

    let mut chip = machine(&[0x91, 0x20]);
    chip.v[1] = 3;
    chip.v[2] = 3;
    chip.emulate_cycle().unwrap();
    assert_eq!(chip.pc, 0x202);
}

#[test]
fn key_skips() {
    let mut chip = machine(&[0xE0, 0x9E]);
    chip.v[0] = 4;
    let mut keys = [false; 16];
    keys[4] = true;
    chip.set_keys(keys);
    chip.emulate_cycle().unwrap();
    assert_eq!(chip.pc, 0x204);

    let mut chip = machine(&[0xE0, 0xA1]);
    chip.v[0] = 4;
    chip.set_keys(keys);
    chip.emulate_cycle().unwrap();
    assert_eq!(chip.pc, 0x202);
}

#[test]
fn key_out_of_range() {
    let mut chip = machine(&[0xE0, 0x9E]);
    chip.v[0] = 0x20;
    assert_eq!(chip.emulate_cycle(), Err(Chip8Error::KeyOutOfRange(0x20)));
    assert_eq!(chip.pc, 0x200);
}

#[test]
fn alu_carry_and_borrow() {
    // 8014: V0 += V1
    let mut chip = machine(&[0x80, 0x14]);
    chip.v[0] = 200;
    chip.v[1] = 100;
    chip.emulate_cycle().unwrap();
    assert_eq!((chip.v[0], chip.v[0xF]), (44, 1));

    let mut chip = machine(&[0x80, 0x14]);
    chip.v[0] = 20;
    chip.v[1] = 100;
    chip.emulate_cycle().unwrap();
    assert_eq!((chip.v[0], chip.v[0xF]), (120, 0));

    // 8015: V0 -= V1
    let mut chip = machine(&[0x80, 0x15]);
    chip.v[0] = 10;
    chip.v[1] = 20;
    chip.emulate_cycle().unwrap();
    assert_eq!((chip.v[0], chip.v[0xF]), (246, 0));

    let mut chip = machine(&[0x80, 0x15]);
    chip.v[0] = 20;
    chip.v[1] = 20;
    chip.emulate_cycle().unwrap();
    assert_eq!((chip.v[0], chip.v[0xF]), (0, 1));

    // 8017: V0 = V1 - V0
    let mut chip = machine(&[0x80, 0x17]);
    chip.v[0] = 5;
    chip.v[1] = 20;
    chip.emulate_cycle().unwrap();
    assert_eq!((chip.v[0], chip.v[0xF]), (15, 1));
}

#[test]
fn alu_shifts_and_logic() {
    let mut chip = machine(&[0x80, 0x16]);
    chip.v[0] = 0b1000_0011;
    chip.emulate_cycle().unwrap();
    assert_eq!((chip.v[0], chip.v[0xF]), (0b0100_0001, 1));

    let mut chip = machine(&[0x80, 0x1E]);
    chip.v[0] = 0b1000_0011;
    chip.emulate_cycle().unwrap();
    assert_eq!((chip.v[0], chip.v[0xF]), (0b0000_0110, 1));

    let mut chip = machine(&[0x80, 0x11, 0x82, 0x32, 0x84, 0x53, 0x86, 0x70]);
    chip.v[0] = 0b1100;
    chip.v[1] = 0b1010;
    chip.v[2] = 0b1100;
    chip.v[3] = 0b1010;
    chip.v[4] = 0b1100;
    chip.v[5] = 0b1010;
    chip.v[7] = 99;
    for _ in 0..4 {
        chip.emulate_cycle().unwrap();
    }
    assert_eq!(chip.v[0], 0b1110);
    assert_eq!(chip.v[2], 0b1000);
    assert_eq!(chip.v[4], 0b0110);
    assert_eq!(chip.v[6], 99);
}

#[test]
fn call_and_return_lifo() {
    // 0x200: call 0x300; 0x300: call 0x400; 0x400: return; 0x302: return
    let mut chip = machine(&[0x23, 0x00]);
    chip.memory[0x300] = 0x24;
    chip.memory[0x301] = 0x00;
    chip.memory[0x302] = 0x00;
    chip.memory[0x303] = 0xEE;
    chip.memory[0x400] = 0x00;
    chip.memory[0x401] = 0xEE;
    chip.emulate_cycle().unwrap();
    assert_eq!(chip.pc, 0x300);
    chip.emulate_cycle().unwrap();
    assert_eq!(chip.pc, 0x400);
    assert_eq!(chip.stack, vec![0x202, 0x302]);
    chip.emulate_cycle().unwrap();
    assert_eq!(chip.pc, 0x302);
    chip.emulate_cycle().unwrap();
    assert_eq!(chip.pc, 0x202);
    assert!(chip.stack.is_empty());
}

#[test]
fn stack_underflow() {
    let mut chip = machine(&[0x00, 0xEE]);
    assert_eq!(chip.emulate_cycle(), Err(Chip8Error::StackUnderflow));
    assert_eq!(chip.pc, 0x200);
    assert_eq!(chip.emulate_cycle(), Err(Chip8Error::StackUnderflow));
}

#[test]
fn stack_overflow() {
    let mut chip = machine(&[0x22, 0x00]);
    for depth in 1..=16 {
        chip.emulate_cycle().unwrap();
        assert_eq!(chip.stack.len(), depth);
    }
    assert_eq!(chip.emulate_cycle(), Err(Chip8Error::StackOverflow));
    assert_eq!(chip.stack.len(), 16);
}

#[test]
fn unknown_opcode_halts() {
    let mut chip = machine(&[0x01, 0x23]);
    assert_eq!(chip.emulate_cycle(), Err(Chip8Error::UnknownOpcode(0x0123)));
    assert_eq!(chip.pc, 0x200);
    let mut chip = machine(&[0xFF, 0xFF]);
    assert_eq!(chip.emulate_cycle(), Err(Chip8Error::UnknownOpcode(0xFFFF)));
    let mut chip = machine(&[0x80, 0x08]);
    assert_eq!(chip.emulate_cycle(), Err(Chip8Error::UnknownOpcode(0x8008)));
}

#[test]
fn out_of_range_accesses() {
    let mut chip = machine(&[0xF0, 0x33]);
    chip.i = 0xFFE;
    assert_eq!(chip.emulate_cycle(), Err(Chip8Error::AddressOutOfRange));
    let mut chip = machine(&[0xF3, 0x55]);
    chip.i = 0xFFD;
    assert_eq!(chip.emulate_cycle(), Err(Chip8Error::AddressOutOfRange));
    let mut chip = machine(&[0xD0, 0x03]);
    chip.i = 0xFFE;
    assert_eq!(chip.emulate_cycle(), Err(Chip8Error::AddressOutOfRange));
    let mut chip = machine(&[0x1F, 0xFF]);
    chip.emulate_cycle().unwrap();
    assert_eq!(chip.pc, 0xFFF);
    assert_eq!(chip.emulate_cycle(), Err(Chip8Error::AddressOutOfRange));
}

#[test]
fn bcd_and_register_blocks() {
    let mut chip = machine(&[0xF0, 0x33, 0xF2, 0x55, 0xA4, 0x00, 0xF1, 0x65]);
    chip.v[0] = 254;
    chip.v[1] = 7;
    chip.v[2] = 9;
    chip.i = 0x300;
    chip.emulate_cycle().unwrap();
    assert_eq!(&chip.memory[0x300..0x303], &[2, 5, 4]);
    chip.emulate_cycle().unwrap();
    assert_eq!(&chip.memory[0x300..0x304], &[254, 7, 9, 0]);
    assert_eq!(chip.i, 0x300);
    chip.memory[0x400] = 11;
    chip.memory[0x401] = 22;
    chip.memory[0x402] = 33;
    chip.emulate_cycle().unwrap();
    chip.emulate_cycle().unwrap();
    assert_eq!(&chip.v[0..3], &[11, 22, 9]);
    assert_eq!(chip.i, 0x400);
}

#[test]
fn index_and_jumps() {
    let mut chip = machine(&[0xF0, 0x1E]);
    chip.i = 0xFFFF;
    chip.v[0] = 2;
    chip.emulate_cycle().unwrap();
    assert_eq!(chip.i, 1);

    let mut chip = machine(&[0xB3, 0x00]);
    chip.v[0] = 0x10;
    chip.emulate_cycle().unwrap();
    assert_eq!(chip.pc, 0x310);

    let mut chip = machine(&[0x1A, 0xBC]);
    chip.emulate_cycle().unwrap();
    assert_eq!(chip.pc, 0xABC);
}

#[test]
fn timers_and_beep() {
    let mut chip = machine(&[0x60, 0x02, 0xF0, 0x18, 0xF0, 0x15, 0xF1, 0x07]);
    chip.emulate_cycle().unwrap();
    assert_eq!(chip.emulate_cycle(), Ok(false)); // sound 2 -> 1
    assert_eq!(chip.sound_timer, 1);
    assert_eq!(chip.emulate_cycle(), Ok(true)); // sound 1 -> 0, delay 2 -> 1
    assert_eq!(chip.sound_timer, 0);
    assert_eq!(chip.delay_timer, 1);
    assert_eq!(chip.emulate_cycle(), Ok(false));
    assert_eq!(chip.v[1], 1);
    assert_eq!(chip.delay_timer, 0);
    assert!(!chip.update_timers());
    assert_eq!(chip.delay_timer, 0);
    assert_eq!(chip.sound_timer, 0);
}

#[test]
fn update_timers_beeps_only_from_one() {
    let mut chip = Chip8::new();
    chip.sound_timer = 3;
    assert!(!chip.update_timers());
    assert!(!chip.update_timers());
    assert!(chip.update_timers());
    assert!(!chip.update_timers());
    assert_eq!(chip.sound_timer, 0);
}

#[test]
fn wait_for_key() {
    let mut chip = machine(&[0xF5, 0x0A]);
    let mut keys = [false; 16];
    keys[3] = true;
    chip.set_keys(keys);
    chip.step(0).unwrap();
    assert_eq!(chip.pc, 0x200);
    chip.step(0).unwrap();
    // key 3 was already down when the wait began
    assert_eq!(chip.pc, 0x200);
    keys[9] = true;
    chip.set_keys(keys);
    chip.step(0).unwrap();
    assert_eq!(chip.pc, 0x202);
    assert_eq!(chip.v[5], 9);
    assert!(!chip.awaiting_key);
}

#[test]
fn random_masks_with_immediate() {
    let mut chip = machine(&[0xC2, 0xF0]);
    chip.step(0xAB).unwrap();
    assert_eq!(chip.v[2], 0xA0);
    assert_eq!(chip.pc, 0x202);
    let mut chip = machine(&[0xC2, 0x00]);
    chip.emulate_cycle().unwrap();
    assert_eq!(chip.v[2], 0);
}

#[test]
fn initial_state_and_font() {
    let chip = Chip8::new();
    assert_eq!(chip.pc, 0x200);
    assert_eq!(chip.memory.len(), 4096);
    assert_eq!(&chip.memory[0x50..0x55], &[0xF0, 0x90, 0x90, 0x90, 0xF0]);
    assert_eq!(&chip.memory[0x9B..0xA0], &[0xF0, 0x80, 0xF0, 0x80, 0x80]);
    assert_eq!(chip.memory[0xA0], 0);
    assert_eq!(chip.v, vec![0; 16]);
    assert!(chip.stack.is_empty());
    assert_eq!(chip.gfx.len(), 64 * 32);
}

#[test]
fn load_game_limits() {
    let mut chip = Chip8::new();
    let big = vec![1u8; 4096 - 0x200 + 1];
    assert_eq!(chip.load_game(&big), Err(LoadError::ProgramTooLarge));
    assert_eq!(chip.memory[0x200], 0);
    let full = vec![7u8; 4096 - 0x200];
    assert_eq!(chip.load_game(&full), Ok(()));
    assert_eq!(chip.memory[0xFFF], 7);
    assert_eq!(chip.memory[0x1FF], 0);
}

#[test]
fn decode_forms() {
    assert_eq!(decode(0x00E0), Some(Instr::Clear));
    assert_eq!(decode(0x00EE), Some(Instr::Return));
    assert_eq!(decode(0x1234), Some(Instr::Jump { nnn: 0x234 }));
    assert_eq!(decode(0x8AB6), Some(Instr::ShiftRight { x: 0xA, y: 0xB }));
    assert_eq!(decode(0xD12F), Some(Instr::Draw { x: 1, y: 2, n: 0xF }));
    assert_eq!(decode(0xE3A1), Some(Instr::SkipKeyUp { x: 3 }));
    assert_eq!(decode(0xF765), Some(Instr::LoadRegs { x: 7 }));
    assert_eq!(decode(0x5121), None);
    assert_eq!(decode(0xE39F), None);
    assert_eq!(decode(0xF000), None);
}

#[test]
fn colours_and_render() {
    assert_eq!(from_u8_rgb(255, 255, 255), 0xFF_FFFF);
    assert_eq!(from_u8_rgb(0x12, 0x34, 0x56), 0x12_3456);
    assert_eq!(from_u8_rgb(0, 0, 0), 0);
    assert_eq!(render(&vec![true, false, true]), vec![0xFF_FFFF, 0, 0xFF_FFFF]);
}
