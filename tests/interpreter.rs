use chip8::{C8Cpu, Fault, Instr};

fn machine_with(rom: &[u8]) -> C8Cpu {
    let mut cpu = C8Cpu::new();
    cpu.load_rom(rom.to_vec()).unwrap();
    cpu
}

fn run(cpu: &mut C8Cpu, steps: usize) {
    for _ in 0..steps {
        cpu.step_with(0).unwrap();
    }
}

#[test]
fn new_machine_has_font_and_start_address() {
    let cpu = C8Cpu::new();
    assert_eq!(cpu.pc(), 0x200);
    assert_eq!(cpu.memory_byte(0x50), 0xF0);
    assert_eq!(cpu.memory_byte(0x55), 0x20);
    assert_eq!(cpu.memory_byte(0x9F), 0x80);
    assert_eq!(cpu.memory_byte(0x4F), 0);
    assert_eq!(cpu.memory_byte(0xA0), 0);
    assert_eq!(cpu.memory_byte(0x200), 0);
    assert_eq!(cpu.index(), 0);
    assert_eq!(cpu.stack_pointer(), 0);
    assert!(!cpu.draw_flag());
    assert!(!cpu.is_waiting_for_key());
    for x in 0..16 {
        assert_eq!(cpu.register(x), 0);
    }
}

#[test]
fn load_then_step_sets_register() {
    let mut cpu = machine_with(&[0x60, 0x05]);
    assert_eq!(cpu.step_with(0), Ok(()));
    assert_eq!(cpu.register(0), 5);
    assert_eq!(cpu.pc(), 0x202);
}

#[test]
fn rom_of_maximal_size_fits() {
    let mut cpu = C8Cpu::new();
    let mut rom = vec![0u8; 0x0e00];
    rom[0x0dff] = 0x77;
    assert_eq!(cpu.load_rom(rom), Ok(()));
    assert_eq!(cpu.memory_byte(0xfff), 0x77);
}

#[test]
fn oversized_rom_is_rejected_untouched() {
    let mut cpu = C8Cpu::new();
    let rom = vec![0xAAu8; 0x0e01];
    assert_eq!(cpu.load_rom(rom), Err(Fault::RomTooLarge { len: 0x0e01 }));
    assert_eq!(cpu.memory_byte(0x200), 0);
}

#[test]
fn decode_fields() {
    assert_eq!(chip8::isa::decode(0x8ab4), Some(Instr::AddReg { x: 0xa, y: 0xb }));
    assert_eq!(chip8::isa::decode(0xd125), Some(Instr::Drw { x: 1, y: 2, n: 5 }));
    assert_eq!(chip8::isa::decode(0x1abc), Some(Instr::Jp { addr: 0xabc }));
    assert_eq!(chip8::isa::decode(0xf365), Some(Instr::Load { x: 3 }));
    assert_eq!(chip8::isa::decode(0x5121), None);
    assert_eq!(chip8::isa::decode(0x0123), None);
    assert_eq!(chip8::isa::decode(0x800f), None);
    assert_eq!(chip8::isa::decode(0xe1a2), None);
    assert_eq!(chip8::isa::decode(0xf1ff), None);
}

#[test]
fn add_with_carry() {
    let mut cpu = machine_with(&[0x61, 0xff, 0x62, 0x02, 0x81, 0x24]);
    run(&mut cpu, 3);
    assert_eq!(cpu.register(1), 1);
    assert_eq!(cpu.register(0xf), 1);
    assert_eq!(cpu.pc(), 0x206);
}

#[test]
fn add_without_carry() {
    let mut cpu = machine_with(&[0x61, 0xfd, 0x62, 0x02, 0x6f, 0x01, 0x81, 0x24]);
    run(&mut cpu, 4);
    assert_eq!(cpu.register(1), 0xff);
    assert_eq!(cpu.register(0xf), 0);
}

#[test]
fn sub_without_borrow() {
    let mut cpu = machine_with(&[0x61, 0x05, 0x62, 0x03, 0x81, 0x25]);
    run(&mut cpu, 3);
    assert_eq!(cpu.register(1), 2);
    assert_eq!(cpu.register(0xf), 1);
}

#[test]
fn sub_with_borrow_wraps() {
    let mut cpu = machine_with(&[0x61, 0x03, 0x62, 0x05, 0x81, 0x25]);
    run(&mut cpu, 3);
    assert_eq!(cpu.register(1), 254);
    assert_eq!(cpu.register(0xf), 0);
}

#[test]
fn sub_of_equal_values_clears_flag() {
    let mut cpu = machine_with(&[0x61, 0x07, 0x62, 0x07, 0x6f, 0x01, 0x81, 0x25]);
    run(&mut cpu, 4);
    assert_eq!(cpu.register(1), 0);
    assert_eq!(cpu.register(0xf), 0);
}

#[test]
fn subn_reverses_operands() {
    let mut cpu = machine_with(&[0x61, 0x03, 0x62, 0x05, 0x81, 0x27]);
    run(&mut cpu, 3);
    assert_eq!(cpu.register(1), 2);
    assert_eq!(cpu.register(0xf), 1);
}

#[test]
fn shifts_report_dropped_bit() {
    let mut cpu = machine_with(&[0x61, 0x81, 0x81, 0x06, 0x62, 0x81, 0x82, 0x0e]);
    run(&mut cpu, 2);
    assert_eq!(cpu.register(1), 0x40);
    assert_eq!(cpu.register(0xf), 1);
    run(&mut cpu, 2);
    assert_eq!(cpu.register(2), 0x02);
    assert_eq!(cpu.register(0xf), 1);
}

#[test]
fn bitwise_and_copy_ops() {
    let mut cpu = machine_with(&[
        0x61, 0xcc, 0x62, 0xaa, 0x83, 0x10, 0x83, 0x21, 0x84, 0x10, 0x84, 0x22, 0x85, 0x10, 0x85,
        0x23,
    ]);
    run(&mut cpu, 8);
    assert_eq!(cpu.register(3), 0xee);
    assert_eq!(cpu.register(4), 0x88);
    assert_eq!(cpu.register(5), 0x66);
}

#[test]
fn add_immediate_wraps_without_flag() {
    let mut cpu = machine_with(&[0x61, 0xf0, 0x71, 0x20]);
    run(&mut cpu, 2);
    assert_eq!(cpu.register(1), 0x10);
    assert_eq!(cpu.register(0xf), 0);
}

#[test]
fn draw_twice_restores_and_collides() {
    // I = 0x50 (glyph 0), draw at (3, 4) twice.
    let mut cpu = machine_with(&[0xa0, 0x50, 0x61, 0x03, 0x62, 0x04, 0xd1, 0x25, 0xd1, 0x25]);
    run(&mut cpu, 4);
    assert_eq!(cpu.register(0xf), 0);
    assert!(cpu.draw_flag());
    assert_eq!(cpu.display_row(4), 0xfu64 << 3);
    assert!(cpu.pixel(3, 4) && cpu.pixel(6, 4) && !cpu.pixel(7, 4));
    run(&mut cpu, 1);
    assert_eq!(cpu.register(0xf), 1);
    for row in 0..32 {
        assert_eq!(cpu.display_row(row), 0);
    }
}

#[test]
fn draw_wraps_around_both_edges() {
    // I = 0x300 holding 0xFF; V0 = 63, V1 = 31; draw one row.
    let mut rom = vec![0xa3, 0x00, 0x60, 0x3f, 0x61, 0x1f, 0xd0, 0x11];
    rom.resize(0x100, 0);
    rom.push(0xff);
    let mut cpu = machine_with(&rom);
    run(&mut cpu, 4);
    assert_eq!(cpu.display_row(31), (1u64 << 63) | 0x7f);
    assert!(cpu.pixel(63, 31));
    for col in 0..7 {
        assert!(cpu.pixel(col, 31));
    }
    assert!(!cpu.pixel(7, 31));
    assert!(!cpu.pixel(62, 31));
    assert_eq!(cpu.register(0xf), 0);
}

#[test]
fn draw_wraps_rows_to_the_top() {
    // Glyph 0 (five rows) at (0, 30): rows 30, 31, 0, 1, 2.
    let mut cpu = machine_with(&[0xa0, 0x50, 0x60, 0x00, 0x61, 0x1e, 0xd0, 0x15]);
    run(&mut cpu, 4);
    assert_eq!(cpu.display_row(30), 0x0f);
    assert_eq!(cpu.display_row(31), 0x09);
    assert_eq!(cpu.display_row(0), 0x09);
    assert_eq!(cpu.display_row(2), 0x0f);
    assert_eq!(cpu.display_row(3), 0);
}

#[test]
fn clear_screen_blanks_and_flags() {
    let mut cpu = machine_with(&[0xa0, 0x50, 0xd0, 0x05, 0x00, 0xe0]);
    run(&mut cpu, 2);
    cpu.clear_draw_flag();
    assert!(!cpu.draw_flag());
    run(&mut cpu, 1);
    assert!(cpu.draw_flag());
    for row in 0..32 {
        assert_eq!(cpu.display_row(row), 0);
    }
    assert_eq!(cpu.pc(), 0x206);
}

#[test]
fn call_then_return_resumes_after_call() {
    // 0x200: CALL 0x206; 0x202: LD V0, 9; ... 0x206: RET
    let mut cpu = machine_with(&[0x22, 0x06, 0x60, 0x09, 0x00, 0x00, 0x00, 0xee]);
    run(&mut cpu, 1);
    assert_eq!(cpu.pc(), 0x206);
    assert_eq!(cpu.stack_pointer(), 1);
    assert_eq!(cpu.stack_entry(0), 0x202);
    run(&mut cpu, 1);
    assert_eq!(cpu.pc(), 0x202);
    assert_eq!(cpu.stack_pointer(), 0);
    run(&mut cpu, 1);
    assert_eq!(cpu.register(0), 9);
}

#[test]
fn return_on_empty_stack_faults() {
    let mut cpu = machine_with(&[0x00, 0xee]);
    assert_eq!(cpu.step_with(0), Err(Fault::StackUnderflow { opcode: 0x00ee, addr: 0x200 }));
    assert_eq!(cpu.pc(), 0x200);
}

#[test]
fn seventeenth_call_overflows() {
    let mut cpu = machine_with(&[0x22, 0x00]);
    run(&mut cpu, 16);
    assert_eq!(cpu.stack_pointer(), 16);
    assert_eq!(cpu.step_with(0), Err(Fault::StackOverflow { opcode: 0x2200, addr: 0x200 }));
    assert_eq!(cpu.stack_pointer(), 16);
}

#[test]
fn invalid_opcode_faults_with_address() {
    let mut cpu = machine_with(&[0x60, 0x01, 0x51, 0x21]);
    run(&mut cpu, 1);
    assert_eq!(cpu.step_with(0), Err(Fault::InvalidOpcode { opcode: 0x5121, addr: 0x202 }));
    assert_eq!(cpu.pc(), 0x202);
}

#[test]
fn fetch_past_memory_end_faults() {
    let mut cpu = machine_with(&[0x1f, 0xff]);
    run(&mut cpu, 1);
    assert_eq!(cpu.pc(), 0xfff);
    assert_eq!(cpu.step_with(0), Err(Fault::FetchOutOfRange { addr: 0xfff }));
}

#[test]
fn bcd_stores_decimal_digits() {
    let mut cpu = machine_with(&[0x60, 0xea, 0xa3, 0x00, 0xf0, 0x33]);
    run(&mut cpu, 3);
    assert_eq!(cpu.memory_byte(0x300), 2);
    assert_eq!(cpu.memory_byte(0x301), 3);
    assert_eq!(cpu.memory_byte(0x302), 4);
}

#[test]
fn bcd_past_memory_end_faults() {
    let mut cpu = machine_with(&[0xaf, 0xfe, 0xf0, 0x33]);
    run(&mut cpu, 1);
    assert_eq!(cpu.step_with(0), Err(Fault::MemoryOutOfRange { opcode: 0xf033, addr: 0x202 }));
    assert_eq!(cpu.memory_byte(0xffe), 0);
}

#[test]
fn store_and_load_registers() {
    let mut cpu = machine_with(&[
        0x60, 0x11, 0x61, 0x22, 0x62, 0x33, 0xa3, 0x00, 0xf1, 0x55, 0x60, 0x00, 0x61, 0x00, 0x62,
        0x44, 0xf1, 0x65,
    ]);
    run(&mut cpu, 5);
    assert_eq!(cpu.memory_byte(0x300), 0x11);
    assert_eq!(cpu.memory_byte(0x301), 0x22);
    assert_eq!(cpu.memory_byte(0x302), 0);
    run(&mut cpu, 4);
    assert_eq!(cpu.register(0), 0x11);
    assert_eq!(cpu.register(1), 0x22);
    assert_eq!(cpu.register(2), 0x44);
}

#[test]
fn store_past_memory_end_faults() {
    let mut cpu = machine_with(&[0xaf, 0xfe, 0xf2, 0x55]);
    run(&mut cpu, 1);
    assert_eq!(cpu.step_with(0), Err(Fault::MemoryOutOfRange { opcode: 0xf255, addr: 0x202 }));
}

#[test]
fn sprite_past_memory_end_faults() {
    let mut cpu = machine_with(&[0xaf, 0xfe, 0xd0, 0x03]);
    run(&mut cpu, 1);
    assert_eq!(cpu.step_with(0), Err(Fault::MemoryOutOfRange { opcode: 0xd003, addr: 0x202 }));
    assert!(!cpu.draw_flag());
}

#[test]
fn skip_if_equal_immediate() {
    let mut cpu = machine_with(&[0x60, 0x05, 0x30, 0x05]);
    run(&mut cpu, 2);
    assert_eq!(cpu.pc(), 0x206);
    let mut cpu = machine_with(&[0x60, 0x05, 0x30, 0x06]);
    run(&mut cpu, 2);
    assert_eq!(cpu.pc(), 0x204);
}

#[test]
fn skip_if_not_equal_immediate() {
    let mut cpu = machine_with(&[0x60, 0x05, 0x40, 0x06]);
    run(&mut cpu, 2);
    assert_eq!(cpu.pc(), 0x206);
    let mut cpu = machine_with(&[0x60, 0x05, 0x40, 0x05]);
    run(&mut cpu, 2);
    assert_eq!(cpu.pc(), 0x204);
}

#[test]
fn skip_if_registers_equal() {
    let mut cpu = machine_with(&[0x60, 0x05, 0x61, 0x05, 0x50, 0x10]);
    run(&mut cpu, 3);
    assert_eq!(cpu.pc(), 0x208);
    let mut cpu = machine_with(&[0x60, 0x05, 0x61, 0x01, 0x50, 0x10]);
    run(&mut cpu, 3);
    assert_eq!(cpu.pc(), 0x206);
}

#[test]
fn skip_if_registers_differ() {
    let mut cpu = machine_with(&[0x60, 0x05, 0x61, 0x01, 0x90, 0x10]);
    run(&mut cpu, 3);
    assert_eq!(cpu.pc(), 0x208);
    let mut cpu = machine_with(&[0x60, 0x05, 0x61, 0x05, 0x90, 0x10]);
    run(&mut cpu, 3);
    assert_eq!(cpu.pc(), 0x206);
}

#[test]
fn key_skips_follow_keypad() {
    let mut cpu = machine_with(&[0x60, 0x0a, 0xe0, 0x9e, 0x00, 0x00, 0xe0, 0xa1]);
    cpu.set_key(0xa);
    assert_eq!(cpu.keypad(), 1 << 0xa);
    run(&mut cpu, 2);
    assert_eq!(cpu.pc(), 0x206);
    run(&mut cpu, 1);
    assert_eq!(cpu.pc(), 0x208);
    let mut cpu = machine_with(&[0x60, 0x0a, 0xe0, 0x9e, 0xe0, 0xa1]);
    cpu.set_key(0xa);
    cpu.release_key(0xa);
    assert_eq!(cpu.keypad(), 0);
    run(&mut cpu, 2);
    assert_eq!(cpu.pc(), 0x204);
    run(&mut cpu, 1);
    assert_eq!(cpu.pc(), 0x208);
}

#[test]
fn key_value_beyond_pad_is_never_down() {
    let mut cpu = machine_with(&[0x60, 0x20, 0xe0, 0x9e]);
    cpu.set_key(0);
    run(&mut cpu, 2);
    assert_eq!(cpu.pc(), 0x204);
}

#[test]
fn key_wait_suspends_until_press() {
    let mut cpu = machine_with(&[0x63, 0x01, 0xf3, 0x0a, 0x64, 0x07]);
    run(&mut cpu, 2);
    assert!(cpu.is_waiting_for_key());
    assert_eq!(cpu.waiting_for_key_register(), 3);
    assert_eq!(cpu.pc(), 0x204);
    for _ in 0..5 {
        assert_eq!(cpu.step_with(0), Ok(()));
        assert_eq!(cpu.pc(), 0x204);
        assert_eq!(cpu.register(3), 1);
        assert_eq!(cpu.register(4), 0);
    }
    cpu.set_key(0xb);
    assert!(!cpu.is_waiting_for_key());
    assert_eq!(cpu.register(3), 0xb);
    run(&mut cpu, 1);
    assert_eq!(cpu.register(4), 7);
    assert_eq!(cpu.pc(), 0x206);
}

#[test]
fn timers_load_and_tick_to_zero() {
    let mut cpu = machine_with(&[0x60, 0x02, 0xf0, 0x15, 0xf0, 0x18, 0xf1, 0x07]);
    run(&mut cpu, 3);
    assert_eq!(cpu.delay_timer(), 2);
    assert_eq!(cpu.sound_timer(), 2);
    cpu.tick_timers();
    run(&mut cpu, 1);
    assert_eq!(cpu.register(1), 1);
    cpu.tick_timers();
    cpu.tick_timers();
    assert_eq!(cpu.delay_timer(), 0);
    assert_eq!(cpu.sound_timer(), 0);
}

#[test]
fn index_ops_and_font_lookup() {
    let mut cpu = machine_with(&[0xa1, 0x00, 0x60, 0x20, 0xf0, 0x1e, 0x61, 0x1a, 0xf1, 0x29]);
    run(&mut cpu, 3);
    assert_eq!(cpu.index(), 0x120);
    run(&mut cpu, 2);
    assert_eq!(cpu.index(), 0x50 + 5 * 0xa);
}

#[test]
fn jumps() {
    let mut cpu = machine_with(&[0x60, 0x04, 0xb3, 0x00]);
    run(&mut cpu, 2);
    assert_eq!(cpu.pc(), 0x304);
    let mut cpu = machine_with(&[0x13, 0x45]);
    run(&mut cpu, 1);
    assert_eq!(cpu.pc(), 0x345);
}

#[test]
fn random_byte_is_masked() {
    let mut cpu = C8Cpu::new();
    assert_eq!(cpu.execute(0xc30f, 0xab), Ok(()));
    assert_eq!(cpu.register(3), 0x0b);
    assert_eq!(cpu.pc(), 0x202);
    let mut cpu = machine_with(&[0xc3, 0x00, 0xc4, 0xf0]);
    assert_eq!(cpu.single_cycle(), Ok(()));
    assert_eq!(cpu.register(3), 0);
    assert_eq!(cpu.single_cycle(), Ok(()));
    assert_eq!(cpu.register(4) & 0x0f, 0);
}

#[test]
fn flag_register_as_operand_keeps_flag() {
    // VF = 0xff, V1 = 1; 8F14: VF = VF + V1 overflows; the flag wins.
    let mut cpu = machine_with(&[0x6f, 0xff, 0x61, 0x01, 0x8f, 0x14]);
    run(&mut cpu, 3);
    assert_eq!(cpu.register(0xf), 1);
}
