//! What the register file holds and what each register instruction
//! computes, stated bit by bit or arithmetically.
use vstd::prelude::*;

use crate::isa::{
    alu_add, alu_add_hl, alu_and, alu_cp, alu_cpl, alu_dec8, alu_inc8, alu_ld, alu_or, alu_res,
    alu_rotate_right_a, alu_shift_left_a, alu_swap, alu_xor, reg_at,
};
use crate::laws::law_flag_write_read;
use crate::registers::{Flag, Reg16, Reg8, Registers};

verus! {

/// Bit `k` of a byte.
pub open spec fn bit(x: u8, k: u8) -> bool {
    (x >> k) & 1u8 == 1u8
}

/// The 8-bit register at operand index `i` of an opcode: 0 B, 1 C, 2 D,
/// 3 E, 4 H, 5 L, 7 A.
pub open spec fn operand(r: Registers, i: u8) -> u8 {
    if i == 0 {
        r.b
    } else if i == 1 {
        r.c
    } else if i == 2 {
        r.d
    } else if i == 3 {
        r.e
    } else if i == 4 {
        r.h
    } else if i == 5 {
        r.l
    } else {
        r.a
    }
}

/// B, C, D, E, H, L, SP and PC of `s` are those of `r`.
pub open spec fn keeps_all_but_af(r: Registers, s: Registers) -> bool {
    s.b == r.b && s.c == r.c && s.d == r.d && s.e == r.e && s.h == r.h && s.l == r.l && s.sp
        == r.sp && s.pc == r.pc
}

broadcast proof fn lemma_flag_update(r: Registers, flag: Flag, v: bool, other: Flag)
    ensures
        #[trigger] r.with_flag(flag, v).flag(other) == if other == flag {
            v
        } else {
            r.flag(other)
        },
{
    law_flag_write_read(r, flag, other, v);
}

broadcast proof fn lemma_reg8_keeps_flags(r: Registers, reg: Reg8, v: u8, other: Flag)
    ensures
        #[trigger] r.with_reg8(reg, v).flag(other) == r.flag(other),
{
}

proof fn lemma_nibble(x: u8)
    ensures
        x & 0x0F == x % 16,
{
    assert(x & 0x0F == x % 16) by (bit_vector);
}

proof fn lemma_bits_and(a: u8, n: u8, k: u8)
    by (bit_vector)
    requires
        k < 8,
    ensures
        bit(a & n, k) == (bit(a, k) && bit(n, k)),
{
}

proof fn lemma_bits_or(a: u8, n: u8, k: u8)
    by (bit_vector)
    requires
        k < 8,
    ensures
        bit(a | n, k) == (bit(a, k) || bit(n, k)),
{
}

proof fn lemma_bits_xor(a: u8, n: u8, k: u8)
    by (bit_vector)
    requires
        k < 8,
    ensures
        bit(a ^ n, k) == (bit(a, k) != bit(n, k)),
{
}

proof fn lemma_bits_not(a: u8, k: u8)
    by (bit_vector)
    requires
        k < 8,
    ensures
        bit(!a, k) == !bit(a, k),
{
}

// ---The register file---

/// The 8-bit registers are the fields of the same name, for reading and writing.
pub proof fn law_reg8_fields(r: Registers, v: u8)
    ensures
        r.reg8(Reg8::A) == r.a && r.with_reg8(Reg8::A, v).a == v,
        r.reg8(Reg8::B) == r.b && r.with_reg8(Reg8::B, v).b == v,
        r.reg8(Reg8::C) == r.c && r.with_reg8(Reg8::C, v).c == v,
        r.reg8(Reg8::D) == r.d && r.with_reg8(Reg8::D, v).d == v,
        r.reg8(Reg8::E) == r.e && r.with_reg8(Reg8::E, v).e == v,
        r.reg8(Reg8::H) == r.h && r.with_reg8(Reg8::H, v).h == v,
        r.reg8(Reg8::L) == r.l && r.with_reg8(Reg8::L, v).l == v,
{
}

/// Opcode operand indices name B, C, D, E, H, L and A in that order (6 is
/// the byte at HL).
pub proof fn law_operand_index(r: Registers, i: u8)
    requires
        i < 8,
        i != 6,
    ensures
        r.reg8(reg_at(i)) == operand(r, i),
{
}

/// A 16-bit pair is its first register times 256 plus its second; writing
/// it stores the high byte in the first register and the low byte in the
/// second.
pub proof fn law_reg16_fields(r: Registers, v: u16)
    ensures
        r.reg16(Reg16::AF) == r.a * 256 + r.f,
        r.reg16(Reg16::BC) == r.b * 256 + r.c,
        r.reg16(Reg16::DE) == r.d * 256 + r.e,
        r.reg16(Reg16::HL) == r.h * 256 + r.l,
        r.reg16(Reg16::SP) == r.sp,
        r.with_reg16(Reg16::AF, v).a == v / 256 && r.with_reg16(Reg16::AF, v).f == v % 256,
        r.with_reg16(Reg16::BC, v).b == v / 256 && r.with_reg16(Reg16::BC, v).c == v % 256,
        r.with_reg16(Reg16::DE, v).d == v / 256 && r.with_reg16(Reg16::DE, v).e == v % 256,
        r.with_reg16(Reg16::HL, v).h == v / 256 && r.with_reg16(Reg16::HL, v).l == v % 256,
        r.with_reg16(Reg16::SP, v).sp == v,
{
}

/// Z is bit 7 of F, N bit 6, H bit 5 and C bit 4; setting a flag keeps the
/// low nibble of F.
pub proof fn law_flag_bits(r: Registers, flag: Flag, v: bool)
    ensures
        r.flag(Flag::Z) == bit(r.f, 7),
        r.flag(Flag::N) == bit(r.f, 6),
        r.flag(Flag::H) == bit(r.f, 5),
        r.flag(Flag::C) == bit(r.f, 4),
        r.with_flag(flag, v).f % 16 == r.f % 16,
{
    let f = r.f;
    assert((f & 0x80 != 0) == bit(f, 7) && (f & 0x40 != 0) == bit(f, 6) && (f & 0x20 != 0) == bit(
        f,
        5,
    ) && (f & 0x10 != 0) == bit(f, 4)) by (bit_vector);
    let m = crate::registers::flag_mask(flag);
    assert(m == 0x80u8 || m == 0x40u8 || m == 0x20u8 || m == 0x10u8);
    assert((f | m) % 16 == f % 16 && (f & !m) % 16 == f % 16) by (bit_vector)
        requires
            m == 0x80u8 || m == 0x40u8 || m == 0x20u8 || m == 0x10u8,
    ;
}

// ---Arithmetic and logic on A---

/// ADD: A becomes A + n modulo 256; Z when that is 0; N cleared; H on a
/// carry out of the low nibbles; C on a carry out of the byte.
pub proof fn law_alu_add(r: Registers, n: u8)
    ensures
        alu_add(r, n).a == (r.a + n) % 256,
        alu_add(r, n).flag(Flag::Z) == (alu_add(r, n).a == 0),
        !alu_add(r, n).flag(Flag::N),
        alu_add(r, n).flag(Flag::H) == (r.a % 16 + n % 16 >= 16),
        alu_add(r, n).flag(Flag::C) == (r.a + n >= 256),
        keeps_all_but_af(r, alu_add(r, n)),
{
    broadcast use {lemma_flag_update, lemma_reg8_keeps_flags};

    lemma_nibble(r.a);
    lemma_nibble(n);
}

/// AND: every bit of A is the and of the bits of A and n; Z when A is 0;
/// N and C cleared, H set.
pub proof fn law_alu_and(r: Registers, n: u8)
    ensures
        forall|k: u8| k < 8 ==> #[trigger] bit(alu_and(r, n).a, k) == (bit(r.a, k) && bit(n, k)),
        alu_and(r, n).flag(Flag::Z) == (alu_and(r, n).a == 0),
        !alu_and(r, n).flag(Flag::N),
        alu_and(r, n).flag(Flag::H),
        !alu_and(r, n).flag(Flag::C),
        keeps_all_but_af(r, alu_and(r, n)),
{
    broadcast use {lemma_flag_update, lemma_reg8_keeps_flags};

    assert(alu_and(r, n).a == (r.a & n));
    assert forall|k: u8| k < 8 implies #[trigger] bit(alu_and(r, n).a, k) == (bit(r.a, k) && bit(
        n,
        k,
    )) by {
        lemma_bits_and(r.a, n, k);
    }
}

/// OR: every bit of A is the or of the bits of A and n; Z when A is 0;
/// N, H and C cleared.
pub proof fn law_alu_or(r: Registers, n: u8)
    ensures
        forall|k: u8| k < 8 ==> #[trigger] bit(alu_or(r, n).a, k) == (bit(r.a, k) || bit(n, k)),
        alu_or(r, n).flag(Flag::Z) == (alu_or(r, n).a == 0),
        !alu_or(r, n).flag(Flag::N),
        !alu_or(r, n).flag(Flag::H),
        !alu_or(r, n).flag(Flag::C),
        keeps_all_but_af(r, alu_or(r, n)),
{
    broadcast use {lemma_flag_update, lemma_reg8_keeps_flags};

    assert(alu_or(r, n).a == (r.a | n));
    assert forall|k: u8| k < 8 implies #[trigger] bit(alu_or(r, n).a, k) == (bit(r.a, k) || bit(
        n,
        k,
    )) by {
        lemma_bits_or(r.a, n, k);
    }
}

/// XOR: every bit of A is set when exactly one of the bits of A and n is;
/// Z when A is 0; N, H and C cleared.
pub proof fn law_alu_xor(r: Registers, n: u8)
    ensures
        forall|k: u8| k < 8 ==> #[trigger] bit(alu_xor(r, n).a, k) == (bit(r.a, k) != bit(n, k)),
        alu_xor(r, n).flag(Flag::Z) == (alu_xor(r, n).a == 0),
        !alu_xor(r, n).flag(Flag::N),
        !alu_xor(r, n).flag(Flag::H),
        !alu_xor(r, n).flag(Flag::C),
        keeps_all_but_af(r, alu_xor(r, n)),
{
    broadcast use {lemma_flag_update, lemma_reg8_keeps_flags};

    assert forall|k: u8| k < 8 implies #[trigger] bit(alu_xor(r, n).a, k) == (bit(r.a, k) != bit(
        n,
        k,
    )) by {
        lemma_bits_xor(r.a, n, k);
    }
}

/// CP: A is kept; Z when A equals n; N set; H when the low nibble of A is
/// below that of n; C when A is below n.
pub proof fn law_alu_cp(r: Registers, n: u8)
    ensures
        alu_cp(r, n).a == r.a,
        alu_cp(r, n).flag(Flag::Z) == (r.a == n),
        alu_cp(r, n).flag(Flag::N),
        alu_cp(r, n).flag(Flag::H) == (r.a % 16 < n % 16),
        alu_cp(r, n).flag(Flag::C) == (r.a < n),
        keeps_all_but_af(r, alu_cp(r, n)),
{
    broadcast use {lemma_flag_update, lemma_reg8_keeps_flags};

    lemma_nibble(r.a);
    lemma_nibble(n);
}

/// CPL: every bit of A is inverted; N and H set; Z and C kept.
pub proof fn law_alu_cpl(r: Registers)
    ensures
        forall|k: u8| k < 8 ==> #[trigger] bit(alu_cpl(r).a, k) == !bit(r.a, k),
        alu_cpl(r).flag(Flag::N),
        alu_cpl(r).flag(Flag::H),
        alu_cpl(r).flag(Flag::Z) == r.flag(Flag::Z),
        alu_cpl(r).flag(Flag::C) == r.flag(Flag::C),
        keeps_all_but_af(r, alu_cpl(r)),
{
    broadcast use {lemma_flag_update, lemma_reg8_keeps_flags};

    assert forall|k: u8| k < 8 implies #[trigger] bit(alu_cpl(r).a, k) == !bit(r.a, k) by {
        lemma_bits_not(r.a, k);
    }
}

/// INC r: the register goes up by one modulo 256; Z when it becomes 0; N
/// cleared; H when its low nibble was 15; C and the other registers kept.
pub proof fn law_alu_inc8(r: Registers, reg: Reg8, other: Reg8)
    ensures
        alu_inc8(r, reg).reg8(reg) == (r.reg8(reg) + 1) % 256,
        alu_inc8(r, reg).flag(Flag::Z) == (alu_inc8(r, reg).reg8(reg) == 0),
        !alu_inc8(r, reg).flag(Flag::N),
        alu_inc8(r, reg).flag(Flag::H) == (r.reg8(reg) % 16 == 15),
        alu_inc8(r, reg).flag(Flag::C) == r.flag(Flag::C),
        other != reg ==> alu_inc8(r, reg).reg8(other) == r.reg8(other),
        alu_inc8(r, reg).sp == r.sp && alu_inc8(r, reg).pc == r.pc,
{
    broadcast use {lemma_flag_update, lemma_reg8_keeps_flags};

    lemma_nibble(r.reg8(reg));
}

/// DEC r: the register goes down by one modulo 256; Z when it becomes 0;
/// N set; H when its low nibble was 0; C and the other registers kept.
pub proof fn law_alu_dec8(r: Registers, reg: Reg8, other: Reg8)
    ensures
        alu_dec8(r, reg).reg8(reg) == (r.reg8(reg) + 255) % 256,
        alu_dec8(r, reg).flag(Flag::Z) == (alu_dec8(r, reg).reg8(reg) == 0),
        alu_dec8(r, reg).flag(Flag::N),
        alu_dec8(r, reg).flag(Flag::H) == (r.reg8(reg) % 16 == 0),
        alu_dec8(r, reg).flag(Flag::C) == r.flag(Flag::C),
        other != reg ==> alu_dec8(r, reg).reg8(other) == r.reg8(other),
        alu_dec8(r, reg).sp == r.sp && alu_dec8(r, reg).pc == r.pc,
{
    broadcast use {lemma_flag_update, lemma_reg8_keeps_flags};

    lemma_nibble(r.reg8(reg));
}

/// ADD HL, rr: HL becomes HL + rr modulo 65536; Z kept; N cleared; H on a
/// carry out of bit 11; C on a carry out of bit 15; A, BC, DE, SP, PC kept.
pub proof fn law_alu_add_hl(r: Registers, reg: Reg16)
    ensures
        alu_add_hl(r, reg).reg16(Reg16::HL) == (r.reg16(Reg16::HL) + r.reg16(reg)) % 65536,
        alu_add_hl(r, reg).flag(Flag::Z) == r.flag(Flag::Z),
        !alu_add_hl(r, reg).flag(Flag::N),
        alu_add_hl(r, reg).flag(Flag::H) == (r.reg16(Reg16::HL) % 4096 + r.reg16(reg) % 4096
            >= 4096),
        alu_add_hl(r, reg).flag(Flag::C) == (r.reg16(Reg16::HL) + r.reg16(reg) >= 65536),
        alu_add_hl(r, reg).a == r.a,
        alu_add_hl(r, reg).b == r.b && alu_add_hl(r, reg).c == r.c,
        alu_add_hl(r, reg).d == r.d && alu_add_hl(r, reg).e == r.e,
        alu_add_hl(r, reg).sp == r.sp && alu_add_hl(r, reg).pc == r.pc,
{
    broadcast use {lemma_flag_update, lemma_reg8_keeps_flags};

    let hl = r.reg16(Reg16::HL);
    let n = r.reg16(reg);
    assert(hl & 0x0FFF == hl % 4096 && n & 0x0FFF == n % 4096) by (bit_vector);
    crate::laws::law_word_bytes(((hl + n) % 65536) as u16);
}

/// Opcode 0x07: A doubles modulo 256 (bit 0 becomes 0); C takes the old bit
/// 7; Z, N and H kept.
pub proof fn law_alu_shift_left_a(r: Registers)
    ensures
        alu_shift_left_a(r).a == (r.a * 2) % 256,
        alu_shift_left_a(r).flag(Flag::C) == (r.a >= 128),
        alu_shift_left_a(r).flag(Flag::Z) == r.flag(Flag::Z),
        alu_shift_left_a(r).flag(Flag::N) == r.flag(Flag::N),
        alu_shift_left_a(r).flag(Flag::H) == r.flag(Flag::H),
        keeps_all_but_af(r, alu_shift_left_a(r)),
{
    broadcast use {lemma_flag_update, lemma_reg8_keeps_flags};

    let a = r.a;
    assert((a << 1u8) == (a * 2) % 256 && (a & 0x80 == 0x80) == (a >= 128)) by (bit_vector);
}

/// Opcode 0x1F: A halves, the old carry entering at bit 7; C takes the old
/// bit 0; Z, N and H kept.
pub proof fn law_alu_rotate_right_a(r: Registers)
    ensures
        alu_rotate_right_a(r).a == r.a / 2 + (if r.flag(Flag::C) {
            128int
        } else {
            0
        }),
        alu_rotate_right_a(r).flag(Flag::C) == (r.a % 2 == 1),
        alu_rotate_right_a(r).flag(Flag::Z) == r.flag(Flag::Z),
        alu_rotate_right_a(r).flag(Flag::N) == r.flag(Flag::N),
        alu_rotate_right_a(r).flag(Flag::H) == r.flag(Flag::H),
        keeps_all_but_af(r, alu_rotate_right_a(r)),
{
    broadcast use {lemma_flag_update, lemma_reg8_keeps_flags};

    let a = r.a;
    assert((a >> 1u8) == a / 2 && (a & 0x01 == 0x01) == (a % 2 == 1)) by (bit_vector);
}

// ---Instructions on one register---

/// SWAP r: the register's nibbles trade places; F and the other registers kept.
pub proof fn law_alu_swap(r: Registers, reg: Reg8, other: Reg8)
    ensures
        alu_swap(r, reg).reg8(reg) == (r.reg8(reg) % 16) * 16 + r.reg8(reg) / 16,
        alu_swap(r, reg).f == r.f,
        other != reg ==> alu_swap(r, reg).reg8(other) == r.reg8(other),
        alu_swap(r, reg).sp == r.sp && alu_swap(r, reg).pc == r.pc,
{
    let v = r.reg8(reg);
    assert(((v >> 4u8) | ((v & 0x0F) << 4u8)) == (v % 16) * 16 + v / 16) by (bit_vector);
}

/// RES b, r: bit b of the register is cleared, its other bits kept; F and
/// the other registers kept.
pub proof fn law_alu_res(r: Registers, b: u8, reg: Reg8, other: Reg8)
    requires
        b < 8,
    ensures
        forall|k: u8| k < 8 ==> #[trigger] bit(alu_res(r, b, reg).reg8(reg), k) == (k != b && bit(r.reg8(reg), k)),
        alu_res(r, b, reg).f == r.f,
        other != reg ==> alu_res(r, b, reg).reg8(other) == r.reg8(other),
        alu_res(r, b, reg).sp == r.sp && alu_res(r, b, reg).pc == r.pc,
{
    let v = r.reg8(reg);
    law_reg8_fields(r, v & !(1u8 << b));
    assert(alu_res(r, b, reg).reg8(reg) == v & !(1u8 << b));
    assert forall|k: u8| k < 8 implies #[trigger] bit(alu_res(r, b, reg).reg8(reg), k) == (k != b
        && bit(v, k)) by {
        assert(bit(v & !(1u8 << b), k) == (k != b && bit(v, k))) by (bit_vector)
            requires
                b < 8,
                k < 8,
        ;
    }
}

/// LD dst, src: dst takes the value of src; F and the other registers kept.
pub proof fn law_alu_ld(r: Registers, dst: Reg8, src: Reg8, other: Reg8)
    ensures
        alu_ld(r, dst, src).reg8(dst) == r.reg8(src),
        alu_ld(r, dst, src).f == r.f,
        other != dst ==> alu_ld(r, dst, src).reg8(other) == r.reg8(other),
        alu_ld(r, dst, src).sp == r.sp && alu_ld(r, dst, src).pc == r.pc,
{
}

} // verus!
