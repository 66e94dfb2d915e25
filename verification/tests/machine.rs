use gb_rs::cpu::{Pair, CPU};
use gb_rs::error::EmuError;
use gb_rs::gb::Gameboy;

fn machine_with(program: Vec<u8>) -> Gameboy {
    Gameboy::new(program)
}

#[test]
fn pair_write_then_read_all_values() {
    let mut cpu = CPU::new(Vec::new());
    for v in 0u32..65536 {
        let v = v as u16;
        cpu.store_reg16(Pair::BC, v);
        assert_eq!(cpu.get_reg16(Pair::BC), v);
        cpu.store_reg16(Pair::DE, v);
        assert_eq!(cpu.get_reg16(Pair::DE), v);
        cpu.store_reg16(Pair::HL, v);
        assert_eq!(cpu.get_reg16(Pair::HL), v);
    }
}

#[test]
fn pair_write_sets_both_halves() {
    let mut cpu = CPU::new(Vec::new());
    cpu.store_reg16(Pair::DE, 0xABCD);
    assert_eq!(cpu.d, 0xAB);
    assert_eq!(cpu.e, 0xCD);
}

#[test]
fn dec_b_from_one_sets_zero_and_subtract() {
    let mut gb = machine_with(vec![0x05]);
    gb.cpu.b = 0x01;
    gb.step().unwrap();
    assert_eq!(gb.cpu.b, 0x00);
    assert!(gb.cpu.zf);
    assert!(gb.cpu.nf);
    assert!(!gb.cpu.hf);
}

#[test]
fn inc_c_half_carry_boundary() {
    let mut gb = machine_with(vec![0x0C]);
    gb.cpu.c = 0x0F;
    gb.step().unwrap();
    assert_eq!(gb.cpu.c, 0x10);
    assert!(gb.cpu.hf);

    let mut gb = machine_with(vec![0x0C]);
    gb.cpu.c = 0x0E;
    gb.step().unwrap();
    assert_eq!(gb.cpu.c, 0x0F);
    assert!(!gb.cpu.hf);
}

#[test]
fn call_then_ret_restores_pc_and_sp() {
    // CALL 0xC000 at 0x0150; RET at 0xC000.
    let mut gb = machine_with(Vec::new());
    gb.cpu.memory.load_value_u8(0x0150, 0xCD).unwrap();
    gb.cpu.memory.load_value_u8(0x0151, 0x00).unwrap();
    gb.cpu.memory.load_value_u8(0x0152, 0xC0).unwrap();
    gb.cpu.memory.load_value_u8(0xC000, 0xC9).unwrap();
    for start_sp in [2u16, 0x0100, 0x8000, 0xFFFE] {
        gb.cpu.pc = 0x0150;
        gb.cpu.sp = start_sp;
        gb.step().unwrap();
        assert_eq!(gb.cpu.pc, 0xC000);
        assert_eq!(gb.cpu.sp, start_sp.wrapping_sub(2));
        gb.step().unwrap();
        assert_eq!(gb.cpu.pc, 0x0153);
        assert_eq!(gb.cpu.sp, start_sp);
    }
}

#[test]
fn call_pushes_return_address_high_byte_higher() {
    let mut gb = machine_with(Vec::new());
    gb.cpu.memory.load_value_u8(0x0150, 0xCD).unwrap();
    gb.cpu.memory.load_value_u8(0x0151, 0x34).unwrap();
    gb.cpu.memory.load_value_u8(0x0152, 0x12).unwrap();
    gb.cpu.pc = 0x0150;
    gb.cpu.sp = 0xFFFE;
    gb.step().unwrap();
    assert_eq!(gb.cpu.pc, 0x1234);
    // Return address 0x0153: high byte at the higher address.
    assert_eq!(gb.cpu.memory.read_value_u8(0xFFFD), 0x01);
    assert_eq!(gb.cpu.memory.read_value_u8(0xFFFC), 0x53);
}

#[test]
fn push_pop_bc_round_trip_samples() {
    for (b, c) in [(0x00u8, 0x00u8), (0x12, 0x34), (0xFF, 0x01), (0x80, 0x7F), (0xAB, 0xCD)] {
        let mut gb = machine_with(vec![0xC5, 0xC1]);
        gb.cpu.sp = 0x9000;
        gb.cpu.b = b;
        gb.cpu.c = c;
        gb.step().unwrap();
        gb.cpu.b = 0;
        gb.cpu.c = 0;
        gb.step().unwrap();
        assert_eq!(gb.cpu.b, b);
        assert_eq!(gb.cpu.c, c);
        assert_eq!(gb.cpu.sp, 0x9000);
    }
}

#[test]
fn relative_jump_backward_self_loop() {
    // JR with displacement 0xFE (-2) at 0x0100 lands back at 0x0100.
    let mut gb = machine_with(Vec::new());
    gb.cpu.memory.load_value_u8(0x0100, 0x18).unwrap();
    gb.cpu.memory.load_value_u8(0x0101, 0xFE).unwrap();
    gb.cpu.pc = 0x0100;
    gb.step().unwrap();
    assert_eq!(gb.cpu.pc, 0x0100);
}

#[test]
fn relative_jump_forward() {
    // JR with displacement 0x02 at 0x0100 lands at 0x0104.
    let mut gb = machine_with(Vec::new());
    gb.cpu.memory.load_value_u8(0x0100, 0x18).unwrap();
    gb.cpu.memory.load_value_u8(0x0101, 0x02).unwrap();
    gb.cpu.pc = 0x0100;
    gb.step().unwrap();
    assert_eq!(gb.cpu.pc, 0x0104);
}

#[test]
fn conditional_relative_jump_follows_zero_flag() {
    // JR NZ taken when Zero is clear (3 cycles), not taken when set (2).
    let mut gb = machine_with(vec![0x20, 0x10]);
    gb.cpu.zf = false;
    let cycles = gb.step().unwrap();
    assert_eq!(gb.cpu.pc, 0x0012);
    assert_eq!(cycles, 3);

    let mut gb = machine_with(vec![0x20, 0x10]);
    gb.cpu.zf = true;
    let cycles = gb.step().unwrap();
    assert_eq!(gb.cpu.pc, 0x0002);
    assert_eq!(cycles, 2);

    // JR Z is the mirror image.
    let mut gb = machine_with(vec![0x28, 0x10]);
    gb.cpu.zf = true;
    gb.step().unwrap();
    assert_eq!(gb.cpu.pc, 0x0012);
}

#[test]
fn unknown_opcode_reports_error_and_mutates_nothing() {
    let mut gb = machine_with(vec![0xFF]);
    gb.cpu.a = 0x55;
    let before_clock = gb.cpu.m_clock;
    let r = gb.step();
    assert_eq!(r, Err(EmuError::UnimplementedOpcode { byte: 0xFF, address: 0x0000 }));
    assert_eq!(gb.cpu.pc, 0x0000);
    assert_eq!(gb.cpu.a, 0x55);
    assert_eq!(gb.cpu.m_clock, before_clock);
}

#[test]
fn unknown_prefixed_opcode_reports_second_byte() {
    let mut gb = machine_with(vec![0xCB, 0x00]);
    let r = gb.step();
    assert_eq!(r, Err(EmuError::UnimplementedOpcode { byte: 0x00, address: 0x0001 }));
    assert_eq!(gb.cpu.pc, 0x0000);
}

#[test]
fn boot_image_copied_byte_for_byte() {
    let gb = machine_with(vec![0xDE, 0xAD, 0xBE, 0xEF]);
    assert_eq!(gb.cpu.memory.read_value_u8(0), 0xDE);
    assert_eq!(gb.cpu.memory.read_value_u8(1), 0xAD);
    assert_eq!(gb.cpu.memory.read_value_u8(2), 0xBE);
    assert_eq!(gb.cpu.memory.read_value_u8(3), 0xEF);
    assert_eq!(gb.cpu.memory.read_value_u8(4), 0x00);
    assert_eq!(gb.cpu.memory.read_value_u8(0xFFFF), 0x00);
    assert_eq!(gb.cpu.pc, 0);
    assert_eq!(gb.cpu.sp, 0);
    assert_eq!(gb.cpu.m_clock, 0);
}

#[test]
fn xor_a_clears_a_and_sets_zero_only() {
    let mut gb = machine_with(vec![0xAF]);
    gb.cpu.a = 0x5A;
    gb.cpu.cf = true;
    gb.step().unwrap();
    assert_eq!(gb.cpu.a, 0);
    assert!(gb.cpu.zf);
    assert!(!gb.cpu.nf);
    assert!(!gb.cpu.hf);
    assert!(!gb.cpu.cf);
}

#[test]
fn sub_b_sets_borrow_flags() {
    let mut gb = machine_with(vec![0x90]);
    gb.cpu.a = 0x05;
    gb.cpu.b = 0x06;
    gb.step().unwrap();
    assert_eq!(gb.cpu.a, 0xFF);
    assert!(!gb.cpu.zf);
    assert!(gb.cpu.nf);
    assert!(gb.cpu.hf);
    assert!(gb.cpu.cf);

    let mut gb = machine_with(vec![0x90]);
    gb.cpu.a = 0x10;
    gb.cpu.b = 0x10;
    gb.step().unwrap();
    assert_eq!(gb.cpu.a, 0x00);
    assert!(gb.cpu.zf);
    assert!(!gb.cpu.cf);
}

#[test]
fn adc_adds_carry_in_and_wraps() {
    let mut gb = machine_with(vec![0xCE, 0x01]);
    gb.cpu.a = 0xFF;
    gb.cpu.cf = true;
    gb.step().unwrap();
    assert_eq!(gb.cpu.a, 0x01);
    assert!(gb.cpu.cf);
    assert!(gb.cpu.hf);
    assert!(!gb.cpu.zf);
    assert!(!gb.cpu.nf);
}

#[test]
fn cp_d8_compares_without_changing_a() {
    let mut gb = machine_with(vec![0xFE, 0x42]);
    gb.cpu.a = 0x42;
    gb.step().unwrap();
    assert_eq!(gb.cpu.a, 0x42);
    assert!(gb.cpu.zf);
    assert!(gb.cpu.nf);
    assert!(!gb.cpu.cf);

    let mut gb = machine_with(vec![0xFE, 0x50]);
    gb.cpu.a = 0x42;
    gb.step().unwrap();
    assert!(!gb.cpu.zf);
    assert!(gb.cpu.cf);
}

#[test]
fn rla_rotates_through_carry() {
    let mut gb = machine_with(vec![0x17]);
    gb.cpu.a = 0x80;
    gb.cpu.cf = false;
    gb.step().unwrap();
    assert_eq!(gb.cpu.a, 0x00);
    assert!(gb.cpu.cf);
    assert!(!gb.cpu.zf);

    let mut gb = machine_with(vec![0x17]);
    gb.cpu.a = 0x00;
    gb.cpu.cf = true;
    gb.step().unwrap();
    assert_eq!(gb.cpu.a, 0x01);
    assert!(!gb.cpu.cf);
}

#[test]
fn prefixed_rl_c_rotates_and_sets_zero() {
    let mut gb = machine_with(vec![0xCB, 0x11]);
    gb.cpu.c = 0x80;
    gb.cpu.cf = false;
    let cycles = gb.step().unwrap();
    assert_eq!(gb.cpu.c, 0x00);
    assert!(gb.cpu.cf);
    assert!(gb.cpu.zf);
    assert_eq!(gb.cpu.pc, 2);
    assert_eq!(cycles, 2);
}

#[test]
fn prefixed_bit7_h_tests_the_high_bit() {
    let mut gb = machine_with(vec![0xCB, 0x7C]);
    gb.cpu.h = 0x80;
    gb.step().unwrap();
    assert!(!gb.cpu.zf);
    assert!(gb.cpu.hf);
    assert_eq!(gb.cpu.pc, 2);

    let mut gb = machine_with(vec![0xCB, 0x7C]);
    gb.cpu.h = 0x7F;
    gb.step().unwrap();
    assert!(gb.cpu.zf);
}

#[test]
fn ld_hl_dec_a_stores_then_steps_down() {
    let mut gb = machine_with(vec![0x32]);
    gb.cpu.a = 0x99;
    gb.cpu.h = 0x80;
    gb.cpu.l = 0x00;
    gb.step().unwrap();
    assert_eq!(gb.cpu.memory.read_value_u8(0x8000), 0x99);
    assert_eq!(gb.cpu.h, 0x7F);
    assert_eq!(gb.cpu.l, 0xFF);
}

#[test]
fn ldh_windows_read_and_write_high_page() {
    let mut gb = machine_with(vec![0xE0, 0x47, 0xF0, 0x47]);
    gb.cpu.a = 0x5A;
    gb.step().unwrap();
    assert_eq!(gb.cpu.memory.read_value_u8(0xFF47), 0x5A);
    gb.cpu.a = 0x00;
    gb.step().unwrap();
    assert_eq!(gb.cpu.a, 0x5A);
}

#[test]
fn sixteen_bit_increment_wraps_without_flags() {
    let mut gb = machine_with(vec![0x23]);
    gb.cpu.h = 0xFF;
    gb.cpu.l = 0xFF;
    gb.cpu.zf = true;
    gb.cpu.cf = true;
    gb.step().unwrap();
    assert_eq!(gb.cpu.h, 0x00);
    assert_eq!(gb.cpu.l, 0x00);
    assert!(gb.cpu.zf);
    assert!(gb.cpu.cf);
}

#[test]
fn clock_accumulates_cycle_costs() {
    // NOP (1), LD B,d8 (2), LD HL,d16 (3), LD (HL),A (2).
    let mut gb = machine_with(vec![0x00, 0x06, 0x07, 0x21, 0x00, 0x90, 0x77]);
    assert_eq!(gb.step().unwrap(), 1);
    assert_eq!(gb.cpu.m_clock, 1);
    assert_eq!(gb.step().unwrap(), 2);
    assert_eq!(gb.cpu.m_clock, 3);
    assert_eq!(gb.step().unwrap(), 3);
    assert_eq!(gb.cpu.m_clock, 6);
    assert_eq!(gb.step().unwrap(), 2);
    assert_eq!(gb.cpu.m_clock, 8);
    assert_eq!(gb.cpu.b, 0x07);
    assert_eq!(gb.cpu.memory.read_value_u8(0x9000), 0x00);
}

#[test]
fn flags_pack_into_high_nibble() {
    let mut cpu = CPU::new(Vec::new());
    cpu.zf = true;
    cpu.cf = true;
    assert_eq!(cpu.f(), 0b1001_0000);
    cpu.nf = true;
    cpu.hf = true;
    assert_eq!(cpu.f(), 0b1111_0000);
}

#[test]
fn interrupt_enable_flag_round_trip() {
    let mut cpu = CPU::new(Vec::new());
    assert!(!cpu.interrupts());
    cpu.set_interrupt_enable(true);
    assert!(cpu.interrupts());
    cpu.set_interrupt_enable(false);
    assert!(!cpu.interrupts());
}

#[test]
fn interrupt_dispatch_pushes_pc_and_clears_enable() {
    let mut gb = machine_with(Vec::new());
    gb.cpu.memory.load_value_u8(0x0040, 0xC9).unwrap();
    gb.cpu.pc = 0x1234;
    gb.cpu.sp = 0xFFFE;
    gb.cpu.set_interrupt_enable(true);
    gb.cpu.service_interrupt(0x0040);
    assert_eq!(gb.cpu.pc, 0x0040);
    assert_eq!(gb.cpu.sp, 0xFFFC);
    assert!(!gb.cpu.interrupts());
    // The handler's RET resumes at the interrupted address.
    gb.step().unwrap();
    assert_eq!(gb.cpu.pc, 0x1234);
    assert_eq!(gb.cpu.sp, 0xFFFE);
}

#[test]
fn half_carry_helpers_match_nibble_arithmetic() {
    assert!(gb_rs::bits::half_carry_add(0x0F, 0x01));
    assert!(!gb_rs::bits::half_carry_add(0x0E, 0x01));
    assert!(gb_rs::bits::half_carry_add(0x3F, 0x01));
    assert!(gb_rs::bits::half_carry_sub(0x10, 0x01));
    assert!(!gb_rs::bits::half_carry_sub(0x11, 0x01));
    assert!(!gb_rs::bits::half_carry_sub(0x05, 0x03));
}

#[test]
fn read_word_is_little_endian() {
    let gb = machine_with(vec![0x00, 0x34, 0x12]);
    assert_eq!(gb.cpu.read_word(), 0x1234);
    assert_eq!(gb.cpu.read_byte(1), 0x34);
    assert_eq!(gb.cpu.read_byte(2), 0x12);
}

#[test]
fn ret_nz_checks_the_zero_flag() {
    // RET NZ with Zero set falls through in 2 cycles.
    let mut gb = machine_with(vec![0xC0]);
    gb.cpu.sp = 0x9000;
    gb.cpu.zf = true;
    let cycles = gb.step().unwrap();
    assert_eq!(gb.cpu.pc, 0x0001);
    assert_eq!(gb.cpu.sp, 0x9000);
    assert_eq!(cycles, 2);

    // With Zero clear it pops and jumps in 5 cycles.
    let mut gb = machine_with(vec![0xC0]);
    gb.cpu.memory.load_value_u8(0x9000, 0x34).unwrap();
    gb.cpu.memory.load_value_u8(0x9001, 0x12).unwrap();
    gb.cpu.sp = 0x9000;
    gb.cpu.zf = false;
    let cycles = gb.step().unwrap();
    assert_eq!(gb.cpu.pc, 0x1234);
    assert_eq!(gb.cpu.sp, 0x9002);
    assert_eq!(cycles, 5);
}

#[test]
fn countdown_loop_runs_to_completion() {
    // LD B,3; then DEC B / JR NZ,-3 until B reaches zero.
    let mut gb = machine_with(vec![0x06, 0x03, 0x05, 0x20, 0xFD]);
    assert_eq!(gb.step().unwrap(), 2);
    for expected_b in [2u8, 1, 0] {
        assert_eq!(gb.cpu.pc, 0x0002);
        gb.step().unwrap();
        assert_eq!(gb.cpu.b, expected_b);
        gb.step().unwrap();
    }
    assert_eq!(gb.cpu.pc, 0x0005);
    assert!(gb.cpu.zf);
    assert_eq!(gb.cpu.m_clock, 2 + 4 + 4 + 3);
}

#[test]
fn full_size_boot_image_fills_the_address_space() {
    let mut image = vec![0u8; 65536];
    image[0] = 0x00;
    image[65535] = 0xA5;
    let gb = machine_with(image);
    assert_eq!(gb.cpu.memory.read_value_u8(65535), 0xA5);
    assert_eq!(gb.cpu.memory.read_value_u8(1), 0x00);
}

#[test]
fn indirect_loads_move_a_through_memory() {
    // LD (BC),A then LD A,(DE) reads back through the other pair.
    let mut gb = machine_with(vec![0x02, 0x1A]);
    gb.cpu.a = 0x77;
    gb.cpu.store_reg16(gb_rs::cpu::Pair::BC, 0x8234);
    gb.cpu.store_reg16(gb_rs::cpu::Pair::DE, 0x8234);
    gb.step().unwrap();
    assert_eq!(gb.cpu.memory.read_value_u8(0x8234), 0x77);
    gb.cpu.a = 0x00;
    gb.step().unwrap();
    assert_eq!(gb.cpu.a, 0x77);
}

#[test]
fn absolute_jump_and_stack_pointer_load() {
    // LD SP,0xFFFE; JP 0x4000.
    let mut gb = machine_with(vec![0x31, 0xFE, 0xFF, 0xC3, 0x00, 0x40]);
    gb.step().unwrap();
    assert_eq!(gb.cpu.sp, 0xFFFE);
    let cycles = gb.step().unwrap();
    assert_eq!(gb.cpu.pc, 0x4000);
    assert_eq!(cycles, 4);
}

#[test]
fn update_timers_is_inert() {
    let mut gb = machine_with(vec![0x00]);
    gb.cpu.update_timers();
    assert_eq!(gb.cpu.pc, 0);
    assert_eq!(gb.cpu.m_clock, 0);
}
