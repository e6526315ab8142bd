use gameboy::registers::{Flag, Reg16, Reg8, Registers};

#[test]
fn registers_start_with_post_boot_values() {
    let r = Registers::new();
    assert_eq!(r.get_af(), 0x01B0);
    assert_eq!(r.get_bc(), 0x0013);
    assert_eq!(r.get_de(), 0x00D8);
    assert_eq!(r.get_hl(), 0x014D);
    assert_eq!(r.get_sp(), 0xFFFE);
    assert_eq!(r.get_pc(), 0x0100);
}

#[test]
fn reg8_write_read_keeps_others() {
    let mut r = Registers::new();
    r.set_reg_8(Reg8::D, 0x5A);
    assert_eq!(r.get_reg_8(Reg8::D), 0x5A);
    assert_eq!(r.get_d(), 0x5A);
    assert_eq!(r.get_reg_8(Reg8::E), 0xD8);
    assert_eq!(r.get_reg_8(Reg8::A), 0x01);
    assert_eq!(r.f, 0xB0);
    r.set_b(1);
    r.set_c(2);
    r.set_e(3);
    r.set_h(4);
    r.set_l(5);
    r.set_a(6);
    assert_eq!((r.get_b(), r.get_c(), r.get_e(), r.get_h(), r.get_l(), r.get_a()), (1, 2, 3, 4, 5, 6));
}

#[test]
fn reg16_pairs_join_high_and_low_bytes() {
    let mut r = Registers::new();
    r.set_reg_16(Reg16::BC, 0x1234);
    assert_eq!(r.b, 0x12);
    assert_eq!(r.c, 0x34);
    assert_eq!(r.get_reg_16(Reg16::BC), 0x1234);
    assert_eq!(r.get_reg_16(Reg16::DE), 0x00D8);
    r.set_reg_16(Reg16::AF, 0xABCD);
    assert_eq!((r.a, r.f), (0xAB, 0xCD));
    assert_eq!(r.get_af(), 0xABCD);
    r.set_hl(0xFF01);
    assert_eq!((r.h, r.l), (0xFF, 0x01));
    r.set_reg_16(Reg16::SP, 0x8000);
    assert_eq!(r.get_reg_16(Reg16::SP), 0x8000);
    r.set_sp(0xC000);
    r.set_pc(0x0150);
    assert_eq!((r.get_sp(), r.get_pc()), (0xC000, 0x0150));
}

#[test]
fn flags_write_read_keep_other_flags() {
    let mut r = Registers::new();
    r.f = 0x00;
    r.set_flag(Flag::Z, true);
    assert_eq!(r.f, 0x80);
    assert!(r.get_flag(Flag::Z));
    assert!(!r.get_flag(Flag::N));
    r.set_flag(Flag::C, true);
    r.set_flag(Flag::H, true);
    r.set_flag(Flag::N, true);
    assert_eq!(r.f, 0xF0);
    r.set_flag(Flag::Z, false);
    assert_eq!(r.f, 0x70);
    assert!(r.get_flag(Flag::N) && r.get_flag(Flag::H) && r.get_flag(Flag::C));
    r.f = 0x0F;
    r.set_flag(Flag::H, true);
    assert_eq!(r.f, 0x2F);
}

#[test]
fn join_and_split_words() {
    assert_eq!(gameboy::registers::join_bytes(0xBE, 0xEF), 0xBEEF);
    assert_eq!(gameboy::registers::split_word(0xBEEF), (0xBE, 0xEF));
    assert_eq!(gameboy::registers::split_word(0x00FF), (0x00, 0xFF));
}
