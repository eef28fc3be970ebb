use chip8::{decode, Chip8, Chip8Error, Instruction};

fn load(words: &[u16]) -> Chip8 {
    let mut bytes: Vec<u8> = Vec::new();
    for w in words {
        bytes.push((w >> 8) as u8);
        bytes.push((w & 0xFF) as u8);
    }
    Chip8::new(&bytes).unwrap()
}

fn run(chip: &mut Chip8, n: usize) {
    for _ in 0..n {
        chip.cycle_with_random(0).unwrap();
    }
}

#[test]
fn add_with_carry_overflows() {
    let mut chip = load(&[0x60FF, 0x6101, 0x8014]);
    run(&mut chip, 3);
    assert_eq!(chip.register(0), 0x00);
    assert_eq!(chip.register(0xF), 1);
}

#[test]
fn add_with_carry_no_overflow() {
    let mut chip = load(&[0x6001, 0x6101, 0x8014]);
    run(&mut chip, 3);
    assert_eq!(chip.register(0), 0x02);
    assert_eq!(chip.register(0xF), 0);
}

#[test]
fn subtract_without_borrow() {
    let mut chip = load(&[0x6005, 0x6103, 0x8015]);
    run(&mut chip, 3);
    assert_eq!(chip.register(0), 0x02);
    assert_eq!(chip.register(0xF), 1);
}

#[test]
fn subtract_with_borrow() {
    let mut chip = load(&[0x6003, 0x6105, 0x8015]);
    run(&mut chip, 3);
    assert_eq!(chip.register(0), 0xFE);
    assert_eq!(chip.register(0xF), 0);
}

#[test]
fn subtract_equal_values_sets_no_borrow() {
    let mut chip = load(&[0x6007, 0x6107, 0x8015]);
    run(&mut chip, 3);
    assert_eq!(chip.register(0), 0x00);
    assert_eq!(chip.register(0xF), 1);
}

#[test]
fn reverse_subtract() {
    let mut chip = load(&[0x6003, 0x6105, 0x8017]);
    run(&mut chip, 3);
    assert_eq!(chip.register(0), 0x02);
    assert_eq!(chip.register(0xF), 1);
    let mut chip = load(&[0x6005, 0x6103, 0x8017]);
    run(&mut chip, 3);
    assert_eq!(chip.register(0), 0xFE);
    assert_eq!(chip.register(0xF), 0);
}

#[test]
fn shift_right_moves_bit_zero_into_flag() {
    let mut chip = load(&[0x6003, 0x8006]);
    run(&mut chip, 2);
    assert_eq!(chip.register(0), 0x01);
    assert_eq!(chip.register(0xF), 1);
}

#[test]
fn shift_left_moves_bit_seven_into_flag() {
    let mut chip = load(&[0x6081, 0x800E]);
    run(&mut chip, 2);
    assert_eq!(chip.register(0), 0x02);
    assert_eq!(chip.register(0xF), 1);
}

#[test]
fn bitwise_operations() {
    let mut chip = load(&[0x600C, 0x610A, 0x8011, 0x620C, 0x8212, 0x630C, 0x8313]);
    run(&mut chip, 7);
    assert_eq!(chip.register(0), 0x0E);
    assert_eq!(chip.register(2), 0x08);
    assert_eq!(chip.register(3), 0x06);
}

#[test]
fn add_immediate_wraps_and_keeps_flag() {
    let mut chip = load(&[0x6F05, 0x60FF, 0x7002]);
    run(&mut chip, 3);
    assert_eq!(chip.register(0), 0x01);
    assert_eq!(chip.register(0xF), 5);
}

#[test]
fn bcd_expansion() {
    let mut chip = load(&[0xA300, 0x609C, 0xF033]);
    run(&mut chip, 3);
    assert_eq!(chip.memory_at(0x300), 1);
    assert_eq!(chip.memory_at(0x301), 5);
    assert_eq!(chip.memory_at(0x302), 6);
    assert_eq!(chip.index_register(), 0x300);
}

#[test]
fn draw_twice_sets_then_clears() {
    // glyph "0": F0 90 90 90 F0 at the font base
    let mut chip = load(&[0x6000, 0x6100, 0xA050, 0xD015, 0xD015]);
    run(&mut chip, 4);
    assert_eq!(chip.register(0xF), 0);
    assert_eq!(chip.get_video(0, 0), 1);
    assert_eq!(chip.get_video(3, 0), 1);
    assert_eq!(chip.get_video(4, 0), 0);
    assert_eq!(chip.get_video(0, 1), 1);
    assert_eq!(chip.get_video(1, 1), 0);
    assert_eq!(chip.get_video(3, 4), 1);
    run(&mut chip, 1);
    assert_eq!(chip.register(0xF), 1);
    for y in 0..32 {
        for x in 0..64 {
            assert_eq!(chip.get_video(x, y), 0);
        }
    }
}

#[test]
fn draw_wraps_past_right_and_bottom_edges() {
    let mut chip = load(&[0x603E, 0x611E, 0xA050, 0xD015]);
    run(&mut chip, 4);
    // top row F0 at row 30: columns 62, 63, 0, 1
    assert_eq!(chip.get_video(62, 30), 1);
    assert_eq!(chip.get_video(63, 30), 1);
    assert_eq!(chip.get_video(0, 30), 1);
    assert_eq!(chip.get_video(1, 30), 1);
    assert_eq!(chip.get_video(2, 30), 0);
    // third row 90 lands on row 0: columns 62 and 1
    assert_eq!(chip.get_video(62, 0), 1);
    assert_eq!(chip.get_video(63, 0), 0);
    assert_eq!(chip.get_video(0, 0), 0);
    assert_eq!(chip.get_video(1, 0), 1);
    // last row F0 lands on row 2
    assert_eq!(chip.get_video(0, 2), 1);
    assert_eq!(chip.register(0xF), 0);
}

#[test]
fn draw_start_coordinates_wrap() {
    let mut chip = load(&[0x6041, 0x6122, 0xA050, 0xD011]);
    run(&mut chip, 4);
    // (65, 34) starts at (1, 2)
    assert_eq!(chip.get_video(1, 2), 1);
    assert_eq!(chip.get_video(4, 2), 1);
    assert_eq!(chip.get_video(5, 2), 0);
}

#[test]
fn clear_screen_turns_all_off() {
    let mut chip = load(&[0xA050, 0xD015, 0x00E0]);
    run(&mut chip, 2);
    assert_eq!(chip.get_video(0, 0), 1);
    run(&mut chip, 1);
    assert_eq!(chip.get_video(0, 0), 0);
}

#[test]
fn call_then_return_round_trips() {
    // 0x200: call 0x206; 0x202: V1 = 5; 0x206: return
    let mut chip = load(&[0x2206, 0x6105, 0x0000, 0x00EE]);
    run(&mut chip, 1);
    assert_eq!(chip.pc(), 0x206);
    assert_eq!(chip.stack_depth(), 1);
    run(&mut chip, 1);
    assert_eq!(chip.pc(), 0x202);
    assert_eq!(chip.stack_depth(), 0);
    run(&mut chip, 1);
    assert_eq!(chip.register(1), 5);
}

#[test]
fn seventeenth_nested_call_overflows() {
    let mut words: Vec<u16> = Vec::new();
    for k in 0..17u16 {
        words.push(0x2000 | (0x202 + 2 * k));
    }
    let mut chip = load(&words);
    for _ in 0..16 {
        assert_eq!(chip.cycle_with_random(0), Ok(()));
    }
    assert_eq!(chip.stack_depth(), 16);
    let pc = chip.pc();
    assert_eq!(chip.cycle_with_random(0), Err(Chip8Error::StackOverflow));
    assert_eq!(chip.pc(), pc);
    assert_eq!(chip.stack_depth(), 16);
}

#[test]
fn return_with_empty_stack_underflows() {
    let mut chip = load(&[0x00EE]);
    assert_eq!(chip.cycle_with_random(0), Err(Chip8Error::StackUnderflow));
    assert_eq!(chip.pc(), 0x200);
}

#[test]
fn unknown_opcode_is_fatal() {
    let mut chip = load(&[0x5121]);
    assert_eq!(chip.cycle_with_random(0), Err(Chip8Error::InvalidOpcode(0x5121)));
    assert_eq!(chip.pc(), 0x200);
    let mut chip = load(&[0x0000]);
    assert_eq!(chip.cycle(), Err(Chip8Error::InvalidOpcode(0x0000)));
}

#[test]
fn key_wait_spins_until_a_key_is_pressed() {
    // V0 = 3; delay = V0; sound = V0; wait for a key into V1
    let mut chip = load(&[0x6003, 0xF015, 0xF018, 0xF10A]);
    run(&mut chip, 3);
    assert_eq!(chip.read_delay_timer(), 1);
    assert_eq!(chip.read_sound_timer(), 2);
    let pc = chip.pc();
    for _ in 0..5 {
        run(&mut chip, 1);
        assert_eq!(chip.pc(), pc);
        for i in 0..16 {
            assert_eq!(chip.register(i), if i == 0 { 3 } else { 0 });
        }
    }
    assert_eq!(chip.read_delay_timer(), 0);
    assert_eq!(chip.read_sound_timer(), 0);
    chip.set_key(9, true);
    chip.set_key(7, true);
    run(&mut chip, 1);
    assert_eq!(chip.register(1), 7);
    assert_eq!(chip.pc(), pc + 2);
}

#[test]
fn one_cycle_advances_pc_by_two() {
    let mut chip = load(&[0x6042, 0xA123, 0x8014, 0x3001]);
    for k in 1..5u16 {
        run(&mut chip, 1);
        assert_eq!(chip.pc(), 0x200 + 2 * k);
    }
}

#[test]
fn skips_advance_pc_by_four_when_taken() {
    let mut chip = load(&[0x3000, 0x0000, 0x4001, 0x0000, 0x5010, 0x0000, 0x9010]);
    run(&mut chip, 3);
    assert_eq!(chip.pc(), 0x20C);
    run(&mut chip, 1);
    assert_eq!(chip.pc(), 0x20E);
}

#[test]
fn key_skips_follow_keypad() {
    let mut chip = load(&[0x6012, 0xE09E, 0x0000, 0xE0A1, 0x0000]);
    chip.set_key(2, true);
    run(&mut chip, 2);
    assert_eq!(chip.pc(), 0x206);
    run(&mut chip, 1);
    assert_eq!(chip.pc(), 0x208);
}

#[test]
fn jumps() {
    let mut chip = load(&[0x1208, 0x0000, 0x0000, 0x0000, 0x6010, 0xB300]);
    run(&mut chip, 1);
    assert_eq!(chip.pc(), 0x208);
    run(&mut chip, 2);
    assert_eq!(chip.pc(), 0x310);
}

#[test]
fn index_operations() {
    let mut chip = load(&[0x600A, 0xF029, 0x6105, 0xF11E]);
    run(&mut chip, 2);
    assert_eq!(chip.index_register(), 0x82);
    run(&mut chip, 2);
    assert_eq!(chip.index_register(), 0x87);
    assert_eq!(chip.register(0xF), 0);
}

#[test]
fn store_and_load_registers() {
    let mut chip = load(&[0x6011, 0x6122, 0x6233, 0x6344, 0xA400, 0xF255, 0x6000, 0x6100, 0x6200, 0xF165]);
    run(&mut chip, 6);
    assert_eq!(chip.memory_at(0x400), 0x11);
    assert_eq!(chip.memory_at(0x401), 0x22);
    assert_eq!(chip.memory_at(0x402), 0x33);
    assert_eq!(chip.memory_at(0x403), 0x00);
    assert_eq!(chip.index_register(), 0x400);
    run(&mut chip, 4);
    assert_eq!(chip.register(0), 0x11);
    assert_eq!(chip.register(1), 0x22);
    assert_eq!(chip.register(2), 0x00);
    assert_eq!(chip.register(3), 0x44);
}

#[test]
fn timers_read_back() {
    let mut chip = load(&[0x6009, 0xF015, 0xF107]);
    run(&mut chip, 3);
    assert_eq!(chip.register(1), 8);
    assert_eq!(chip.read_delay_timer(), 7);
}

#[test]
fn random_mask_applies_to_given_byte() {
    let mut chip = load(&[0xC0F0, 0xC10F]);
    chip.cycle_with_random(0xAB).unwrap();
    chip.cycle_with_random(0xAB).unwrap();
    assert_eq!(chip.register(0), 0xA0);
    assert_eq!(chip.register(1), 0x0B);
}

#[test]
fn random_with_zero_mask_is_zero() {
    let mut chip = load(&[0xC000]);
    chip.cycle().unwrap();
    assert_eq!(chip.register(0), 0);
    assert_eq!(chip.pc(), 0x202);
}

#[test]
fn new_loads_font_and_program() {
    let chip = Chip8::new(&vec![0xAB, 0xCD]).unwrap();
    assert_eq!(chip.memory_at(0x50), 0xF0);
    assert_eq!(chip.memory_at(0x9F), 0x80);
    assert_eq!(chip.memory_at(0x200), 0xAB);
    assert_eq!(chip.memory_at(0x201), 0xCD);
    assert_eq!(chip.memory_at(0x202), 0x00);
    assert_eq!(chip.pc(), 0x200);
    assert_eq!(chip.stack_depth(), 0);
    assert_eq!(chip.get_video(0, 0), 0);
}

#[test]
fn program_size_limit() {
    assert!(Chip8::new(&vec![0u8; 4096 - 0x200]).is_ok());
    assert!(matches!(Chip8::new(&vec![0u8; 4096 - 0x200 + 1]), Err(Chip8Error::ProgramTooLarge)));
}

#[test]
fn decode_table() {
    assert_eq!(decode(0xD1, 0x25), Some(Instruction::Draw { x: 1, y: 2, n: 5 }));
    assert_eq!(decode(0x2A, 0xBC), Some(Instruction::Call { addr: 0xABC }));
    assert_eq!(decode(0x8A, 0xBE), Some(Instruction::ShiftLeft { x: 0xA }));
    assert_eq!(decode(0xF3, 0x65), Some(Instruction::LoadRegs { x: 3 }));
    assert_eq!(decode(0x00, 0xE0), Some(Instruction::Clear));
    assert_eq!(decode(0x51, 0x21), None);
    assert_eq!(decode(0x80, 0x18), None);
    assert_eq!(decode(0xE0, 0x00), None);
    assert_eq!(decode(0xF0, 0x99), None);
}

#[test]
fn execute_runs_a_decoded_instruction() {
    let mut chip = load(&[]);
    assert_eq!(chip.execute(Instruction::LoadImm { x: 4, nn: 0x42 }, 0), Ok(()));
    assert_eq!(chip.register(4), 0x42);
    assert_eq!(chip.execute(Instruction::Return, 0), Err(Chip8Error::StackUnderflow));
}
