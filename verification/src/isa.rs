//! What the instructions that only touch registers do to the register file.
use vstd::prelude::*;

use crate::registers::{Flag, Reg16, Reg8, Registers};

verus! {

/// The byte with its two nibbles exchanged.
pub open spec fn swap_nibbles(x: u8) -> u8 {
    (x >> 4u8) | ((x & 0x0F) << 4u8)
}

/// The byte with bit `b` cleared.
pub open spec fn reset_bit(x: u8, b: u8) -> u8 {
    x & !(1u8 << b)
}

/// ADD A, n: A becomes A + n modulo 256; Z is set when it is 0, N cleared,
/// H set on a carry out of bit 3, C set on a carry out of bit 7.
pub open spec fn alu_add(r: Registers, n: u8) -> Registers {
    let sum: int = r.a + n;
    let v: u8 = (sum % 256) as u8;
    r.with_reg8(Reg8::A, v).with_flag(Flag::Z, v == 0).with_flag(Flag::N, false).with_flag(
        Flag::H,
        (r.a & 0x0F) + (n & 0x0F) > 0x0F,
    ).with_flag(Flag::C, sum > 0xFF)
}

/// ADD HL, rr: HL becomes HL + rr modulo 65536; N cleared, H set on a carry
/// out of bit 11, C on a carry out of bit 15; Z kept.
pub open spec fn alu_add_hl(r: Registers, reg: Reg16) -> Registers {
    let n: u16 = r.reg16(reg);
    let hl: u16 = r.reg16(Reg16::HL);
    let sum: int = hl + n;
    r.with_reg16(Reg16::HL, (sum % 65536) as u16).with_flag(Flag::N, false).with_flag(
        Flag::H,
        (hl & 0x0FFF) + (n & 0x0FFF) > 0x0FFF,
    ).with_flag(Flag::C, sum > 0xFFFF)
}

/// AND n: A becomes A & n; Z from the result, N cleared, H set, C cleared.
pub open spec fn alu_and(r: Registers, n: u8) -> Registers {
    let v: u8 = r.a & n;
    r.with_reg8(Reg8::A, v).with_flag(Flag::Z, v == 0).with_flag(Flag::N, false).with_flag(
        Flag::H,
        true,
    ).with_flag(Flag::C, false)
}

/// OR n: A becomes A | n; Z from the result, N, H and C cleared.
pub open spec fn alu_or(r: Registers, n: u8) -> Registers {
    let v: u8 = r.a | n;
    r.with_reg8(Reg8::A, v).with_flag(Flag::Z, v == 0).with_flag(Flag::N, false).with_flag(
        Flag::H,
        false,
    ).with_flag(Flag::C, false)
}

/// XOR n: A becomes A ^ n; Z from the result, N, H and C cleared.
pub open spec fn alu_xor(r: Registers, n: u8) -> Registers {
    let v: u8 = r.a ^ n;
    r.with_reg8(Reg8::A, v).with_flag(Flag::Z, v == 0).with_flag(Flag::N, false).with_flag(
        Flag::H,
        false,
    ).with_flag(Flag::C, false)
}

/// CP n: A is kept; Z set when A == n, N set, H set on a borrow from bit 4,
/// C set when A < n.
pub open spec fn alu_cp(r: Registers, n: u8) -> Registers {
    r.with_flag(Flag::Z, r.a == n).with_flag(Flag::N, true).with_flag(
        Flag::H,
        (r.a & 0x0F) < (n & 0x0F),
    ).with_flag(Flag::C, r.a < n)
}

/// CPL: A becomes !A; N and H set.
pub open spec fn alu_cpl(r: Registers) -> Registers {
    r.with_reg8(Reg8::A, !r.a).with_flag(Flag::N, true).with_flag(Flag::H, true)
}

/// INC r: H set when the low nibble was 0xF; the register goes up by one,
/// 0xFF wrapping to 0; Z from the result, N cleared.
pub open spec fn alu_inc8(r: Registers, reg: Reg8) -> Registers {
    let v: u8 = r.reg8(reg);
    let n: u8 = if v == 0xFF {
        0
    } else {
        (v + 1) as u8
    };
    r.with_flag(Flag::H, (v & 0x0F) == 0x0F).with_reg8(reg, n).with_flag(Flag::Z, n == 0).with_flag(
        Flag::N,
        false,
    )
}

/// DEC r: H set when the low nibble was 0; the register goes down by one,
/// 0 wrapping to 0xFF; Z from the result, N set.
pub open spec fn alu_dec8(r: Registers, reg: Reg8) -> Registers {
    let v: u8 = r.reg8(reg);
    let n: u8 = if v == 0 {
        0xFF
    } else {
        (v - 1) as u8
    };
    r.with_flag(Flag::H, (v & 0x0F) == 0).with_reg8(reg, n).with_flag(Flag::Z, n == 0).with_flag(
        Flag::N,
        true,
    )
}

/// DEC rr: the register goes down by one, 0 wrapping to 0xFFFF.
pub open spec fn alu_dec16(r: Registers, reg: Reg16) -> Registers {
    r.with_reg16(reg, ((r.reg16(reg) + 0xFFFF) % 0x10000) as u16)
}

/// INC rr: the register goes up by one, 0xFFFF wrapping to 0.
pub open spec fn alu_inc16(r: Registers, reg: Reg16) -> Registers {
    r.with_reg16(reg, ((r.reg16(reg) + 1) % 0x10000) as u16)
}

/// LD dst, src between registers.
pub open spec fn alu_ld(r: Registers, dst: Reg8, src: Reg8) -> Registers {
    r.with_reg8(dst, r.reg8(src))
}

/// RES b, r.
pub open spec fn alu_res(r: Registers, b: u8, reg: Reg8) -> Registers {
    r.with_reg8(reg, reset_bit(r.reg8(reg), b))
}

/// SWAP r; the flags are kept.
pub open spec fn alu_swap(r: Registers, reg: Reg8) -> Registers {
    r.with_reg8(reg, swap_nibbles(r.reg8(reg)))
}

/// Opcode 0x07: C takes bit 7 of A, then A is shifted left, bit 0 cleared.
pub open spec fn alu_shift_left_a(r: Registers) -> Registers {
    r.with_flag(Flag::C, r.a & 0x80 == 0x80).with_reg8(Reg8::A, r.a << 1u8)
}

/// Opcode 0x1F (RRA): C takes bit 0 of A, A is shifted right and the old
/// carry enters at bit 7.
pub open spec fn alu_rotate_right_a(r: Registers) -> Registers {
    let carry: bool = r.flag(Flag::C);
    let shifted: u8 = r.a >> 1u8;
    r.with_flag(Flag::C, r.a & 0x01 == 0x01).with_reg8(
        Reg8::A,
        if carry {
            (shifted + 0x80) as u8
        } else {
            shifted
        },
    )
}

/// The 8-bit register named by bits of an opcode: 0 B, 1 C, 2 D, 3 E, 4 H,
/// 5 L, 7 A (6 stands for the byte at HL and is handled apart).
pub open spec fn reg_at(i: u8) -> Reg8 {
    match i {
        0 => Reg8::B,
        1 => Reg8::C,
        2 => Reg8::D,
        3 => Reg8::E,
        4 => Reg8::H,
        5 => Reg8::L,
        _ => Reg8::A,
    }
}

/// Decodes a register index of an opcode.
pub fn reg_from_index(i: u8) -> (r: Reg8)
    ensures
        r == reg_at(i),
{
    match i {
        0 => Reg8::B,
        1 => Reg8::C,
        2 => Reg8::D,
        3 => Reg8::E,
        4 => Reg8::H,
        5 => Reg8::L,
        _ => Reg8::A,
    }
}

} // verus!
