use gameboy::machine::{Completion, Fault};
use gameboy::registers::{Flag, Reg16, Reg8};
use gameboy::Gameboy;

/// A console with a 32 KiB cartridge whose program starts at 0x0100.
fn console(program: &[u8]) -> Gameboy {
    let mut bytes = vec![0u8; 0x8000];
    bytes[0x100..0x100 + program.len()].copy_from_slice(program);
    bytes[0x148] = 0x00;
    bytes[0x149] = 0x00;
    let mut g = Gameboy::new();
    g.load_rom(bytes.iter().map(|&b| b as char).collect());
    g
}

fn run(g: &mut Gameboy, steps: usize) {
    for _ in 0..steps {
        assert_eq!(g.step(), Ok(Completion::Running));
    }
}

#[test]
fn nop_advances_pc_by_one() {
    let mut g = console(&[0x00, 0x00]);
    run(&mut g, 1);
    assert_eq!(g.registers.pc, 0x0101);
}

#[test]
fn halt_stops_execution() {
    let mut g = console(&[0x76]);
    let r = g.step();
    assert_eq!(r, Ok(Completion::Halted));
    assert!(!r.unwrap().keeps_running());
    assert_eq!(g.registers.pc, 0x0101);
    assert!(Completion::Running.keeps_running());
}

#[test]
fn unimplemented_opcodes_are_reported() {
    let mut g = console(&[0xD3]);
    assert_eq!(g.step(), Ok(Completion::Unimplemented(0xD3)));
    let mut g = console(&[0xCB, 0x00]);
    assert_eq!(g.step(), Ok(Completion::UnimplementedPrefixed(0x00)));
    assert_eq!(g.registers.pc, 0x0102);
    // ADC, SUB and SBC are not implemented; (HL) is not even read
    let mut g = console(&[0x8E]);
    assert_eq!(g.step(), Ok(Completion::Unimplemented(0x8E)));
}

#[test]
fn add_sets_half_carry_zero_and_carry() {
    // LD A,0x0F; LD B,0x01; ADD A,B; LD C,0xF0; ADD A,C
    let mut g = console(&[0x3E, 0x0F, 0x06, 0x01, 0x80, 0x0E, 0xF0, 0x81]);
    run(&mut g, 3);
    assert_eq!(g.registers.a, 0x10);
    assert!(g.registers.get_flag(Flag::H));
    assert!(!g.registers.get_flag(Flag::Z));
    assert!(!g.registers.get_flag(Flag::C));
    assert!(!g.registers.get_flag(Flag::N));
    run(&mut g, 2);
    assert_eq!(g.registers.a, 0x00);
    assert!(g.registers.get_flag(Flag::Z));
    assert!(g.registers.get_flag(Flag::C));
    assert!(!g.registers.get_flag(Flag::H));
}

#[test]
fn logic_operations_and_compare() {
    // LD A,0xF0; AND 0x3C; OR B (B=0); XOR A; LD A,0x05; CP 0x07
    let mut g = console(&[0x3E, 0xF0, 0xE6, 0x3C, 0xB0, 0xAF, 0x3E, 0x05, 0xFE, 0x07]);
    run(&mut g, 2);
    assert_eq!(g.registers.a, 0x30);
    assert_eq!(g.registers.f & 0xF0, 0x20);
    run(&mut g, 1);
    assert_eq!(g.registers.a, 0x30);
    assert_eq!(g.registers.f & 0xF0, 0x00);
    run(&mut g, 1);
    assert_eq!(g.registers.a, 0x00);
    assert_eq!(g.registers.f & 0xF0, 0x80);
    run(&mut g, 2);
    assert_eq!(g.registers.a, 0x05);
    // Z clear, N set, H set (5 < 7 in the low nibble), C set
    assert_eq!(g.registers.f & 0xF0, 0x70);
}

#[test]
fn inc_then_dec_restores_the_register() {
    // LD B,0xFF; INC B; DEC B; LD C,0x00; DEC C; INC C
    let mut g = console(&[0x06, 0xFF, 0x04, 0x05, 0x0E, 0x00, 0x0D, 0x0C]);
    run(&mut g, 2);
    assert_eq!(g.registers.b, 0x00);
    assert!(g.registers.get_flag(Flag::Z));
    assert!(g.registers.get_flag(Flag::H));
    run(&mut g, 1);
    assert_eq!(g.registers.b, 0xFF);
    assert!(g.registers.get_flag(Flag::N));
    run(&mut g, 2);
    assert_eq!(g.registers.c, 0xFF);
    run(&mut g, 1);
    assert_eq!(g.registers.c, 0x00);
}

#[test]
fn opcode_0x2d_increments_l() {
    // LD L,0x10; 0x2D
    let mut g = console(&[0x2E, 0x10, 0x2D]);
    run(&mut g, 2);
    assert_eq!(g.registers.l, 0x11);
}

#[test]
fn cpl_twice_restores_a() {
    let mut g = console(&[0x3E, 0x5A, 0x2F, 0x2F]);
    run(&mut g, 2);
    assert_eq!(g.registers.a, 0xA5);
    assert!(g.registers.get_flag(Flag::N) && g.registers.get_flag(Flag::H));
    run(&mut g, 1);
    assert_eq!(g.registers.a, 0x5A);
}

#[test]
fn shift_and_rotate_a() {
    // LD A,0x81; 0x07 (C <- bit 7, A <<= 1); 0x1F (rotate right through carry)
    let mut g = console(&[0x3E, 0x81, 0x07, 0x1F, 0x1F]);
    run(&mut g, 2);
    assert_eq!(g.registers.a, 0x02);
    assert!(g.registers.get_flag(Flag::C));
    run(&mut g, 1);
    assert_eq!(g.registers.a, 0x81);
    assert!(!g.registers.get_flag(Flag::C));
    run(&mut g, 1);
    assert_eq!(g.registers.a, 0x40);
    assert!(g.registers.get_flag(Flag::C));
}

#[test]
fn sixteen_bit_increment_and_decrement_wrap() {
    // LD BC,0x00FF; INC BC; DEC BC; LD DE,0x0000; DEC DE; INC DE
    let mut g = console(&[0x01, 0xFF, 0x00, 0x03, 0x0B, 0x11, 0x00, 0x00, 0x1B, 0x13]);
    let flags = g.registers.f;
    run(&mut g, 2);
    assert_eq!(g.registers.get_bc(), 0x0100);
    run(&mut g, 1);
    assert_eq!(g.registers.get_bc(), 0x00FF);
    run(&mut g, 2);
    assert_eq!(g.registers.get_de(), 0xFFFF);
    run(&mut g, 1);
    assert_eq!(g.registers.get_de(), 0x0000);
    assert_eq!(g.registers.f, flags);
}

#[test]
fn inc16_at_ffff_wraps_to_zero() {
    // LD HL,0xFFFF; INC HL; LD SP,0x0000; DEC SP
    let mut g = console(&[0x21, 0xFF, 0xFF, 0x23, 0x31, 0x00, 0x00, 0x3B]);
    run(&mut g, 2);
    assert_eq!(g.registers.get_hl(), 0x0000);
    assert_eq!(g.registers.pc, 0x0104);
    run(&mut g, 2);
    assert_eq!(g.registers.sp, 0xFFFF);
}

#[test]
fn dec16_method_wraps_at_zero() {
    let mut g = Gameboy::new();
    g.registers.set_reg_16(Reg16::BC, 0x0000);
    g.dec_16(Reg16::BC);
    assert_eq!(g.registers.get_bc(), 0xFFFF);
    g.inc_16(Reg16::BC);
    assert_eq!(g.registers.get_bc(), 0x0000);
}

#[test]
fn register_accessors() {
    let mut g = Gameboy::new();
    let mut r = g.registers();
    assert_eq!(r.pc, 0x0100);
    r.a = 0x77;
    r.pc = 0x0200;
    g.set_registers(r);
    assert_eq!(g.registers().a, 0x77);
    assert_eq!(g.registers.pc, 0x0200);
}

#[test]
fn instruction_methods_compose() {
    let mut g = Gameboy::new();
    g.registers.set_reg_8(Reg8::B, 0xFF);
    g.inc_8(Reg8::B);
    g.dec_8(Reg8::B);
    assert_eq!(g.registers.b, 0xFF);
    g.registers.set_reg_8(Reg8::C, 0x3C);
    g.swap(Reg8::C);
    assert_eq!(g.registers.c, 0xC3);
    g.swap(Reg8::C);
    assert_eq!(g.registers.c, 0x3C);
    g.registers.sp = 0xC010;
    assert_eq!(g.push_d16(0xBEEF), Ok(()));
    assert_eq!(g.pop_d16(), Ok(0xBEEF));
    assert_eq!(g.registers.sp, 0xC010);
}

#[test]
fn add_hl_flags() {
    // LD HL,0x0FFF; LD BC,0x0001; ADD HL,BC; LD DE,0xF000; ADD HL,DE
    let mut g = console(&[0x21, 0xFF, 0x0F, 0x01, 0x01, 0x00, 0x09, 0x11, 0x00, 0xF0, 0x19]);
    run(&mut g, 3);
    assert_eq!(g.registers.get_hl(), 0x1000);
    assert!(g.registers.get_flag(Flag::H));
    assert!(!g.registers.get_flag(Flag::C));
    run(&mut g, 2);
    assert_eq!(g.registers.get_hl(), 0x0000);
    assert!(g.registers.get_flag(Flag::C));
}

#[test]
fn loads_through_memory() {
    // LD HL,0xC000; LD (HL),0x42; LD B,(HL); LD A,0x17; LD (HL+),A; LD A,(HL-); LD A,(HL)
    let mut g = console(&[0x21, 0x00, 0xC0, 0x36, 0x42, 0x46, 0x3E, 0x17, 0x22, 0x3A, 0x7E]);
    run(&mut g, 3);
    assert_eq!(g.registers.b, 0x42);
    run(&mut g, 2);
    assert_eq!(g.read(0xC000), Ok(0x17));
    assert_eq!(g.registers.get_hl(), 0xC001);
    run(&mut g, 1);
    assert_eq!(g.registers.a, 0x00);
    assert_eq!(g.registers.get_hl(), 0xC000);
    run(&mut g, 1);
    assert_eq!(g.registers.a, 0x17);
}

#[test]
fn hl_increment_past_ffff_faults_after_the_write() {
    // LD HL,0xFFFF; LD A,0x09; LD (HL+),A
    let mut g = console(&[0x21, 0xFF, 0xFF, 0x3E, 0x09, 0x22]);
    run(&mut g, 2);
    assert_eq!(g.step(), Err(Fault::AddOverflow));
    assert_eq!(g.read(0xFFFF), Ok(0x09));
}

#[test]
fn direct_and_high_page_accesses() {
    // LD A,0x33; LD (0xC123),A; LDH (0x80),A; LD A,0; LD A,(0xC123); LD C,0x80; LD A,0x44; LD (C),A; LDH A,(0x80)
    let mut g = console(&[
        0x3E, 0x33, 0xEA, 0x23, 0xC1, 0xE0, 0x80, 0x3E, 0x00, 0xFA, 0x23, 0xC1, 0x0E, 0x80, 0x3E,
        0x44, 0xE2, 0xF0, 0x80,
    ]);
    run(&mut g, 3);
    assert_eq!(g.read(0xC123), Ok(0x33));
    assert_eq!(g.read(0xFF80), Ok(0x33));
    run(&mut g, 2);
    assert_eq!(g.registers.a, 0x33);
    run(&mut g, 4);
    assert_eq!(g.registers.a, 0x44);
}

#[test]
fn store_sp_writes_high_byte_first() {
    // LD SP,0xBEEF; LD (0xC000),SP
    let mut g = console(&[0x31, 0xEF, 0xBE, 0x08, 0x00, 0xC0]);
    run(&mut g, 2);
    assert_eq!(g.read(0xC000), Ok(0xBE));
    assert_eq!(g.read(0xC001), Ok(0xEF));
}

#[test]
fn jumps_relative_and_absolute() {
    // JR +2; (skipped: NOP NOP); JR NZ taken? Z is set at boot (F = 0xB0) so JR NZ is not taken
    let mut g = console(&[0x18, 0x02, 0x00, 0x00, 0x20, 0x10, 0x28, 0xF8]);
    run(&mut g, 1);
    assert_eq!(g.registers.pc, 0x0104);
    run(&mut g, 1);
    assert_eq!(g.registers.pc, 0x0106);
    // JR Z,-8 is taken
    run(&mut g, 1);
    assert_eq!(g.registers.pc, 0x0100);
    // JP 0x0150; JP HL
    let mut g = console(&[0xC3, 0x50, 0x01]);
    run(&mut g, 1);
    assert_eq!(g.registers.pc, 0x0150);
    let mut g = console(&[0x21, 0x34, 0x12, 0xE9]);
    run(&mut g, 2);
    assert_eq!(g.registers.pc, 0x1234);
    // JP NC is taken only when C is clear (C is set at boot)
    let mut g = console(&[0xD2, 0x00, 0x02, 0xDA, 0x00, 0x03]);
    run(&mut g, 1);
    assert_eq!(g.registers.pc, 0x0103);
    run(&mut g, 1);
    assert_eq!(g.registers.pc, 0x0300);
}

#[test]
fn relative_jump_out_of_signed_range_faults() {
    // JP 0x7FFD; at 0x7FFD: JR +0x10, from PC 0x7FFF past the signed 16-bit range
    let mut bytes = vec![0u8; 0x8000];
    bytes[0x100..0x103].copy_from_slice(&[0xC3, 0xFD, 0x7F]);
    bytes[0x7FFD] = 0x18;
    bytes[0x7FFE] = 0x10;
    let mut g = Gameboy::new();
    g.load_rom(bytes.iter().map(|&b| b as char).collect());
    run(&mut g, 1);
    assert_eq!(g.step(), Err(Fault::AddOverflow));
}

#[test]
fn call_then_ret_resumes_after_the_call() {
    // CALL 0x0110; HALT ... 0x0110: RET
    let mut program = vec![0u8; 0x11];
    program[0..3].copy_from_slice(&[0xCD, 0x10, 0x01]);
    program[3] = 0x76;
    program[0x10] = 0xC9;
    let mut g = console(&program);
    run(&mut g, 1);
    assert_eq!(g.registers.pc, 0x0110);
    assert_eq!(g.registers.sp, 0xFFFC);
    assert_eq!(g.read(0xFFFD), Ok(0x01));
    assert_eq!(g.read(0xFFFC), Ok(0x03));
    run(&mut g, 1);
    assert_eq!(g.registers.pc, 0x0103);
    assert_eq!(g.registers.sp, 0xFFFE);
    assert_eq!(g.step(), Ok(Completion::Halted));
}

#[test]
fn push_then_pop_gives_the_value_back() {
    // LD BC,0x1234; PUSH BC; POP DE; PUSH AF; POP HL
    let mut g = console(&[0x01, 0x34, 0x12, 0xC5, 0xD1, 0xF5, 0xE1]);
    run(&mut g, 3);
    assert_eq!(g.registers.get_de(), 0x1234);
    assert_eq!(g.registers.sp, 0xFFFE);
    run(&mut g, 2);
    assert_eq!(g.registers.get_hl(), 0x01B0);
}

#[test]
fn conditional_returns() {
    // CALL 0x0110 ... 0x0110: RET NZ (not taken, Z set); RET Z (taken)
    let mut program = vec![0u8; 0x12];
    program[0..3].copy_from_slice(&[0xCD, 0x10, 0x01]);
    program[0x10] = 0xC0;
    program[0x11] = 0xC8;
    let mut g = console(&program);
    run(&mut g, 2);
    assert_eq!(g.registers.pc, 0x0111);
    run(&mut g, 1);
    assert_eq!(g.registers.pc, 0x0103);
}

#[test]
fn rst_pushes_and_jumps() {
    let mut g = console(&[0xEF]);
    run(&mut g, 1);
    assert_eq!(g.registers.pc, 0x0028);
    assert_eq!(g.registers.sp, 0xFFFC);
    assert_eq!(g.read(0xFFFC), Ok(0x01));
    assert_eq!(g.read(0xFFFD), Ok(0x01));
}

#[test]
fn push_below_zero_faults() {
    // LD SP,0x0001; PUSH BC
    let mut g = console(&[0x31, 0x01, 0x00, 0xC5]);
    run(&mut g, 1);
    // the high byte lands at 0x0000, a ROM bank control address, before the fault
    assert_eq!(g.step(), Err(Fault::SubtractOverflow));
    let mut g = console(&[0x31, 0x00, 0x00, 0xC5]);
    run(&mut g, 1);
    assert_eq!(g.step(), Err(Fault::SubtractOverflow));
}

#[test]
fn pop_past_ffff_faults() {
    // LD SP,0xFFFE; POP BC
    let mut g = console(&[0x31, 0xFE, 0xFF, 0xC1]);
    run(&mut g, 1);
    assert_eq!(g.step(), Err(Fault::AddOverflow));
}

#[test]
fn swap_twice_restores_the_byte() {
    // LD A,0x1F; SWAP A; SWAP A; LD HL,0xC000; LD (HL),0xAB; SWAP (HL)
    let mut g = console(&[0x3E, 0x1F, 0xCB, 0x37, 0xCB, 0x37, 0x21, 0x00, 0xC0, 0x36, 0xAB, 0xCB, 0x36]);
    run(&mut g, 2);
    assert_eq!(g.registers.a, 0xF1);
    run(&mut g, 1);
    assert_eq!(g.registers.a, 0x1F);
    run(&mut g, 3);
    assert_eq!(g.read(0xC000), Ok(0xBA));
}

#[test]
fn res_clears_one_bit() {
    // LD B,0xFF; RES 0,B; RES 7,B; LD A,0xFF; CB 0x87 (clears bit 1 of A); LD HL,0xC000; LD (HL),0xFF; RES 3,(HL)
    let mut g = console(&[
        0x06, 0xFF, 0xCB, 0x80, 0xCB, 0xB8, 0x3E, 0xFF, 0xCB, 0x87, 0x21, 0x00, 0xC0, 0x36, 0xFF,
        0xCB, 0x9E,
    ]);
    run(&mut g, 2);
    assert_eq!(g.registers.b, 0xFE);
    run(&mut g, 1);
    assert_eq!(g.registers.b, 0x7E);
    run(&mut g, 2);
    assert_eq!(g.registers.a, 0xFD);
    run(&mut g, 3);
    assert_eq!(g.read(0xC000), Ok(0xF7));
}

#[test]
fn interrupt_enable_register() {
    // EI; DI
    let mut g = console(&[0xFB, 0xF3]);
    run(&mut g, 1);
    assert_eq!(g.read(0xFFFF), Ok(1));
    run(&mut g, 1);
    assert_eq!(g.read(0xFFFF), Ok(0));
}

#[test]
fn stop_does_nothing_but_advance() {
    let mut g = console(&[0x10]);
    run(&mut g, 1);
    assert_eq!(g.registers.pc, 0x0101);
}

#[test]
fn banking_mode_write_of_other_values_faults() {
    // LD A,0x02; LD (0x6000),A
    let mut g = console(&[0x3E, 0x02, 0xEA, 0x00, 0x60]);
    run(&mut g, 1);
    assert_eq!(g.step(), Err(Fault::InvalidBankingMode(2)));
}

#[test]
fn reading_disabled_ram_faults() {
    // LD A,(0xA000)
    let mut g = console(&[0xFA, 0x00, 0xA0]);
    assert_eq!(g.step(), Err(Fault::RamDisabled));
    assert_eq!(g.registers.pc, 0x0103);
}

#[test]
fn stepping_without_a_cartridge_faults() {
    let mut g = Gameboy::new();
    assert_eq!(g.step(), Err(Fault::MissingRomBank { bank: 0, count: 0 }));
    assert_eq!(g.registers.pc, 0x0100);
}

#[test]
fn register_to_register_loads() {
    // LD B,0x11; LD C,B; LD D,C; LD E,D; LD H,E; LD L,H; LD A,L
    let mut g = console(&[0x06, 0x11, 0x48, 0x51, 0x5A, 0x63, 0x6C, 0x7D]);
    run(&mut g, 7);
    let r = g.registers;
    assert_eq!((r.b, r.c, r.d, r.e, r.h, r.l, r.a), (0x11, 0x11, 0x11, 0x11, 0x11, 0x11, 0x11));
}

#[test]
fn writes_to_plain_memory_read_back() {
    let mut g = Gameboy::new();
    for addr in [0x8000u16, 0x9FFF, 0xC000, 0xDFFF, 0xFF80, 0xFFFF] {
        assert_eq!(g.write(addr, 0x5C), Ok(()));
        assert_eq!(g.read(addr), Ok(0x5C));
    }
    // the cartridge RAM window is written to the address space but read from the RAM bank
    assert_eq!(g.write(0xA000, 0x5C), Ok(()));
    assert_eq!(g.read(0xA000), Err(Fault::RamDisabled));
}
