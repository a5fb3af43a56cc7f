use chip8::{Cpu, CpuError};

fn cpu_with(rom: &[u8]) -> Cpu {
    let mut cpu = Cpu::new();
    assert!(cpu.load_rom(rom).is_ok());
    cpu
}

fn run(cpu: &mut Cpu, steps: usize) {
    for _ in 0..steps {
        cpu.cpu_exec();
    }
}

#[test]
fn load_rom_places_bytes_at_program_start() {
    for size in [0usize, 1, 2, 100, 3584] {
        let rom: Vec<u8> = (0..size).map(|k| (k % 251) as u8 + 1).collect();
        let mut cpu = Cpu::new();
        let res = cpu.load_rom(&rom).unwrap();
        assert_eq!(res.bytes_read, size);
        assert_eq!(cpu.rom_size(), size);
        for k in 0..size {
            assert_eq!(cpu.memory_at(0x200 + k), rom[k]);
        }
        if size < 3584 {
            assert_eq!(cpu.memory_at(0x200 + size), 0);
        }
    }
}

#[test]
fn load_rom_too_large_is_refused() {
    let mut cpu = cpu_with(&[0xAB, 0xCD]);
    let rom = vec![0x11u8; 3585];
    match cpu.load_rom(&rom) {
        Err(CpuError::RomSizeError { max, actual }) => {
            assert_eq!(max, 3584);
            assert_eq!(actual, 3585);
        }
        _ => panic!("expected a size error"),
    }
    assert_eq!(cpu.memory_at(0x200), 0xAB);
    assert_eq!(cpu.memory_at(0x201), 0xCD);
    assert_eq!(cpu.memory_at(0x202), 0);
    assert_eq!(cpu.rom_size(), 2);
}

#[test]
fn new_cpu_is_at_power_on_state() {
    let cpu = Cpu::new();
    assert_eq!(cpu.pc(), 0x200);
    assert_eq!(cpu.index(), 0);
    assert_eq!(cpu.stack_pointer(), 0);
    assert_eq!(cpu.delay_timer(), 0);
    assert_eq!(cpu.sound_timer(), 0);
    assert!(!cpu.is_awaiting_key());
    for x in 0..16 {
        assert_eq!(cpu.register(x), 0);
        assert!(!cpu.key_pressed(x));
    }
    // Glyph 0 of the font, then glyph F's last row.
    assert_eq!(cpu.memory_at(0x50), 0xF0);
    assert_eq!(cpu.memory_at(0x51), 0x90);
    assert_eq!(cpu.memory_at(0x50 + 79), 0x80);
    assert!(cpu.get_display().iter().all(|row| row.iter().all(|p| !p)));
}

#[test]
fn clear_display_turns_every_pixel_off() {
    let mut cpu = cpu_with(&[0x00, 0xE0]);
    cpu.set_display(0, 0, true);
    cpu.set_display(63, 31, true);
    cpu.set_display(10, 5, true);
    assert!(cpu.get_display()[5][10]);
    cpu.cpu_exec();
    assert!(cpu.get_display().iter().all(|row| row.iter().all(|p| !p)));
    assert_eq!(cpu.pc(), 0x202);
}

#[test]
fn jump_sets_pc_exactly() {
    let mut cpu = cpu_with(&[0x60, 0x07, 0x1A, 0xBC]);
    run(&mut cpu, 2);
    assert_eq!(cpu.pc(), 0x0ABC);
    assert_eq!(cpu.register(0), 0x07);
    for x in 1..16 {
        assert_eq!(cpu.register(x), 0);
    }
}

#[test]
fn load_immediate_sets_register_and_advances() {
    let mut cpu = cpu_with(&[0x6A, 0x12]);
    cpu.cpu_exec();
    assert_eq!(cpu.register(10), 0x12);
    assert_eq!(cpu.pc(), 0x202);
}

#[test]
fn add_registers_carries() {
    let mut cpu = cpu_with(&[0x60, 0xFF, 0x61, 0x01, 0x80, 0x14]);
    run(&mut cpu, 3);
    assert_eq!(cpu.register(0), 0x00);
    assert_eq!(cpu.register(15), 1);
    assert_eq!(cpu.pc(), 0x206);
}

#[test]
fn add_registers_without_carry() {
    let mut cpu = cpu_with(&[0x60, 0x10, 0x61, 0x20, 0x6F, 0x01, 0x80, 0x14]);
    run(&mut cpu, 4);
    assert_eq!(cpu.register(0), 0x30);
    assert_eq!(cpu.register(15), 0);
}

#[test]
fn sub_registers_borrows() {
    let mut cpu = cpu_with(&[0x60, 0x05, 0x61, 0x0A, 0x80, 0x15]);
    run(&mut cpu, 3);
    assert_eq!(cpu.register(0), 0xFB);
    assert_eq!(cpu.register(15), 0);
}

#[test]
fn sub_registers_without_borrow() {
    let mut cpu = cpu_with(&[0x60, 0x0A, 0x61, 0x0A, 0x80, 0x15]);
    run(&mut cpu, 3);
    assert_eq!(cpu.register(0), 0x00);
    assert_eq!(cpu.register(15), 1);
}

#[test]
fn subn_registers() {
    let mut cpu = cpu_with(&[0x60, 0x0A, 0x61, 0x05, 0x80, 0x17]);
    run(&mut cpu, 3);
    assert_eq!(cpu.register(0), 0xFB);
    assert_eq!(cpu.register(15), 0);
    let mut cpu = cpu_with(&[0x60, 0x05, 0x61, 0x0A, 0x80, 0x17]);
    run(&mut cpu, 3);
    assert_eq!(cpu.register(0), 0x05);
    assert_eq!(cpu.register(15), 1);
}

#[test]
fn shifts_take_flag_from_source() {
    let mut cpu = cpu_with(&[0x61, 0x81, 0x80, 0x16]);
    run(&mut cpu, 2);
    assert_eq!(cpu.register(0), 0x40);
    assert_eq!(cpu.register(15), 1);
    let mut cpu = cpu_with(&[0x61, 0x81, 0x80, 0x1E]);
    run(&mut cpu, 2);
    assert_eq!(cpu.register(0), 0x02);
    assert_eq!(cpu.register(15), 1);
    let mut cpu = cpu_with(&[0x61, 0x42, 0x80, 0x1E]);
    run(&mut cpu, 2);
    assert_eq!(cpu.register(0), 0x84);
    assert_eq!(cpu.register(15), 0);
}

#[test]
fn bitwise_and_assign() {
    let mut cpu = cpu_with(&[0x60, 0xF0, 0x61, 0x3C, 0x82, 0x00, 0x82, 0x11, 0x83, 0x00, 0x83, 0x12, 0x84, 0x00, 0x84, 0x13]);
    run(&mut cpu, 8);
    assert_eq!(cpu.register(2), 0xFC);
    assert_eq!(cpu.register(3), 0x30);
    assert_eq!(cpu.register(4), 0xCC);
}

#[test]
fn add_immediate_wraps_without_flag() {
    let mut cpu = cpu_with(&[0x63, 0xF0, 0x73, 0x20]);
    run(&mut cpu, 2);
    assert_eq!(cpu.register(3), 0x10);
    assert_eq!(cpu.register(15), 0);
}

#[test]
fn return_with_empty_stack_is_a_no_op() {
    let mut cpu = cpu_with(&[0x00, 0xEE]);
    cpu.cpu_exec();
    assert_eq!(cpu.pc(), 0x200);
    assert_eq!(cpu.stack_pointer(), 0);
}

#[test]
fn call_then_return_restores_pc() {
    // 0x200: CALL 0x206; 0x206: RET
    let mut cpu = cpu_with(&[0x22, 0x06, 0x00, 0x00, 0x00, 0x00, 0x00, 0xEE]);
    cpu.cpu_exec();
    assert_eq!(cpu.pc(), 0x206);
    assert_eq!(cpu.stack_pointer(), 1);
    cpu.cpu_exec();
    assert_eq!(cpu.pc(), 0x200);
    assert_eq!(cpu.stack_pointer(), 0);
}

#[test]
fn call_on_full_stack_is_dropped() {
    // 0x200: CALL 0x200, forever.
    let mut cpu = cpu_with(&[0x22, 0x00]);
    run(&mut cpu, 16);
    assert_eq!(cpu.stack_pointer(), 16);
    cpu.cpu_exec();
    assert_eq!(cpu.stack_pointer(), 16);
    assert_eq!(cpu.pc(), 0x200);
}

#[test]
fn draw_twice_restores_display_and_reports_collision() {
    // I := 0x20A; draw 1 row at (V0, V1) twice; sprite byte 0xFF at 0x20A.
    let rom = [0xA2, 0x0A, 0xD0, 0x11, 0xD0, 0x11, 0x12, 0x06, 0x00, 0x00, 0xFF];
    let mut cpu = cpu_with(&rom);
    run(&mut cpu, 2);
    assert_eq!(cpu.register(15), 0);
    let d = cpu.get_display();
    for x in 0..64 {
        assert_eq!(d[0][x], x < 8);
    }
    cpu.cpu_exec();
    assert_eq!(cpu.register(15), 1);
    assert!(cpu.get_display().iter().all(|row| row.iter().all(|p| !p)));
}

#[test]
fn draw_wraps_around_edges() {
    // V0 := 62, V1 := 31, I := 0x210, draw 2 rows; sprite 0xC0, 0x80.
    let rom = [0x60, 62, 0x61, 31, 0xA2, 0x10, 0xD0, 0x12, 0x12, 0x08, 0, 0, 0, 0, 0, 0, 0xC0, 0x80];
    let mut cpu = cpu_with(&rom);
    run(&mut cpu, 4);
    let d = cpu.get_display();
    assert!(d[31][62] && d[31][63] && d[0][62]);
    assert!(!d[0][63]);
    let lit = d.iter().flat_map(|r| r.iter()).filter(|p| **p).count();
    assert_eq!(lit, 3);
    assert_eq!(cpu.register(15), 0);
}

#[test]
fn draw_over_lit_pixel_sets_flag() {
    let rom = [0xA2, 0x06, 0xD0, 0x01, 0x12, 0x04, 0x80];
    let mut cpu = cpu_with(&rom);
    cpu.set_display(0, 0, true);
    run(&mut cpu, 2);
    assert_eq!(cpu.register(15), 1);
    assert!(!cpu.get_display()[0][0]);
}

#[test]
fn skips_on_immediate_and_register() {
    let mut cpu = cpu_with(&[0x60, 0x05, 0x30, 0x05]);
    run(&mut cpu, 2);
    assert_eq!(cpu.pc(), 0x206);
    let mut cpu = cpu_with(&[0x60, 0x05, 0x30, 0x06]);
    run(&mut cpu, 2);
    assert_eq!(cpu.pc(), 0x204);
    let mut cpu = cpu_with(&[0x60, 0x05, 0x40, 0x06]);
    run(&mut cpu, 2);
    assert_eq!(cpu.pc(), 0x206);
    let mut cpu = cpu_with(&[0x60, 0x05, 0x61, 0x05, 0x50, 0x10]);
    run(&mut cpu, 3);
    assert_eq!(cpu.pc(), 0x208);
    let mut cpu = cpu_with(&[0x60, 0x05, 0x61, 0x05, 0x90, 0x10]);
    run(&mut cpu, 3);
    assert_eq!(cpu.pc(), 0x206);
}

#[test]
fn unknown_opcodes_change_nothing() {
    for word in [0x5001u16, 0x8008, 0x9001, 0xE000, 0xF0FF] {
        let mut cpu = cpu_with(&[(word >> 8) as u8, word as u8]);
        cpu.cpu_exec();
        assert_eq!(cpu.pc(), 0x200);
        assert_eq!(cpu.index(), 0);
        for x in 0..16 {
            assert_eq!(cpu.register(x), 0);
        }
    }
}

#[test]
fn system_call_is_skipped() {
    let mut cpu = cpu_with(&[0x01, 0x23]);
    cpu.cpu_exec();
    assert_eq!(cpu.pc(), 0x202);
}

#[test]
fn index_and_jump_plus_v0() {
    let mut cpu = cpu_with(&[0xA1, 0x23, 0x60, 0x10, 0xB3, 0x00]);
    run(&mut cpu, 3);
    assert_eq!(cpu.index(), 0x123);
    assert_eq!(cpu.pc(), 0x310);
    let mut cpu = cpu_with(&[0x60, 0xFF, 0xBF, 0xFF]);
    run(&mut cpu, 2);
    assert_eq!(cpu.pc(), (0xFFF + 0xFF) % 0x1000);
}

#[test]
fn random_is_masked() {
    let mut cpu = cpu_with(&[0xC0, 0x00, 0xC1, 0x0F]);
    run(&mut cpu, 2);
    assert_eq!(cpu.register(0), 0);
    assert!(cpu.register(1) <= 0x0F);
    assert_eq!(cpu.pc(), 0x204);
}

#[test]
fn exec_instr_uses_given_random_byte() {
    let mut cpu = Cpu::new();
    cpu.exec_instr(0xC3F0, 0xAB);
    assert_eq!(cpu.register(3), 0xA0);
    assert_eq!(cpu.pc(), 0x202);
}

#[test]
fn key_skips() {
    let mut cpu = cpu_with(&[0x65, 0x07, 0xE5, 0x9E]);
    cpu.set_key(7, true);
    run(&mut cpu, 2);
    assert_eq!(cpu.pc(), 0x206);
    let mut cpu = cpu_with(&[0x65, 0x07, 0xE5, 0xA1]);
    cpu.set_key(7, true);
    run(&mut cpu, 2);
    assert_eq!(cpu.pc(), 0x204);
    let mut cpu = cpu_with(&[0x65, 0x07, 0xE5, 0xA1]);
    run(&mut cpu, 2);
    assert_eq!(cpu.pc(), 0x206);
    // A register value past the keypad names no key.
    let mut cpu = cpu_with(&[0x65, 0x20, 0xE5, 0x9E]);
    run(&mut cpu, 2);
    assert_eq!(cpu.pc(), 0x204);
}

#[test]
fn wait_for_key_stalls_until_a_press() {
    let mut cpu = cpu_with(&[0xF4, 0x0A]);
    cpu.set_key(3, true);
    cpu.cpu_exec();
    assert!(cpu.is_awaiting_key());
    assert_eq!(cpu.pc(), 0x200);
    cpu.cpu_exec();
    assert_eq!(cpu.pc(), 0x200);
    // A key held since before the wait is no new press.
    cpu.set_key(3, true);
    cpu.cpu_exec();
    assert_eq!(cpu.pc(), 0x200);
    cpu.set_key(9, true);
    cpu.cpu_exec();
    assert!(!cpu.is_awaiting_key());
    assert_eq!(cpu.register(4), 9);
    assert_eq!(cpu.pc(), 0x202);
}

#[test]
fn set_key_ignores_out_of_range() {
    let mut cpu = Cpu::new();
    cpu.set_key(16, true);
    for k in 0..16 {
        assert!(!cpu.key_pressed(k));
    }
    cpu.set_key(15, true);
    assert!(cpu.key_pressed(15));
    cpu.set_key(15, false);
    assert!(!cpu.key_pressed(15));
}

#[test]
fn timers_load_store_and_tick() {
    let mut cpu = cpu_with(&[0x60, 0x02, 0xF0, 0x15, 0xF0, 0x18, 0xF1, 0x07]);
    run(&mut cpu, 3);
    assert_eq!(cpu.delay_timer(), 2);
    assert_eq!(cpu.sound_timer(), 2);
    cpu.tick_timers();
    assert_eq!(cpu.delay_timer(), 1);
    cpu.cpu_exec();
    assert_eq!(cpu.register(1), 1);
    cpu.tick_timers();
    cpu.tick_timers();
    assert_eq!(cpu.delay_timer(), 0);
    assert_eq!(cpu.sound_timer(), 0);
}

#[test]
fn add_to_index_wraps_in_16_bits() {
    let mut cpu = cpu_with(&[0xAF, 0xFF, 0x60, 0x02, 0xF0, 0x1E]);
    run(&mut cpu, 3);
    assert_eq!(cpu.index(), 0x1001);
    cpu.exec_instr(0xAFFF, 0);
    cpu.exec_instr(0x60FF, 0);
    for _ in 0..253 {
        cpu.exec_instr(0xF01E, 0);
    }
    assert_eq!(cpu.index(), ((0xFFF + 253 * 0xFF) % 0x10000) as u16);
    assert_eq!(cpu.register(15), 0);
}

#[test]
fn font_address_of_digit() {
    let mut cpu = cpu_with(&[0x60, 0x0A, 0xF0, 0x29]);
    run(&mut cpu, 2);
    assert_eq!(cpu.index(), 0x50 + 10 * 5);
    assert_eq!(cpu.memory_at(cpu.index() as usize), 0xF0);
    assert_eq!(cpu.memory_at(cpu.index() as usize + 1), 0x90);
}

#[test]
fn store_bcd_digits() {
    let mut cpu = cpu_with(&[0x60, 234, 0xA3, 0x00, 0xF0, 0x33]);
    run(&mut cpu, 3);
    assert_eq!(cpu.memory_at(0x300), 2);
    assert_eq!(cpu.memory_at(0x301), 3);
    assert_eq!(cpu.memory_at(0x302), 4);
}

#[test]
fn store_and_load_registers() {
    let mut cpu = cpu_with(&[0x60, 0x11, 0x61, 0x22, 0x62, 0x33, 0xA3, 0x00, 0xF1, 0x55]);
    run(&mut cpu, 5);
    assert_eq!(cpu.memory_at(0x300), 0x11);
    assert_eq!(cpu.memory_at(0x301), 0x22);
    assert_eq!(cpu.memory_at(0x302), 0);
    assert_eq!(cpu.index(), 0x300);
    cpu.exec_instr(0x6000, 0);
    cpu.exec_instr(0x6100, 0);
    cpu.exec_instr(0x62EE, 0);
    cpu.exec_instr(0xF165, 0);
    assert_eq!(cpu.register(0), 0x11);
    assert_eq!(cpu.register(1), 0x22);
    assert_eq!(cpu.register(2), 0xEE);
}

#[test]
fn fetch_reads_big_endian_word() {
    let cpu = cpu_with(&[0xAB, 0xCD]);
    assert_eq!(cpu.next_instr(), 0xABCD);
}
