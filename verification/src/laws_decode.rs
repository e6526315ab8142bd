//! Which instruction each opcode runs, stated by the fields of its encoding;
//! `m` is the machine once the opcode has been fetched.
use vstd::prelude::*;

use crate::cpu::{
    alu_d8, call, done, execute, jp, jr, ld_d16, ld_d8, load, load_a_a16, load_a_high,
    load_a_hl_step, pop_into, prefixed, push, ret, rst, block_prefixed, store_a_a16, store_a_high,
    store_a_hl_step, store_d8_hl, store_sp,
};
use crate::isa::{
    alu_add, alu_add_hl, alu_and, alu_cp, alu_cpl, alu_dec16, alu_dec8, alu_inc16, alu_inc8, alu_ld,
    alu_or, alu_res, alu_rotate_right_a, alu_shift_left_a, alu_swap, alu_xor, reg_at, reset_bit,
    swap_nibbles,
};
use crate::laws_alu::operand;
use crate::machine::{bus_read, bus_write, Completion, Fault, Machine};
use crate::registers::{Flag, Reg16, Reg8};

verus! {

/// The 16-bit register named by bits 4 and 5 of an opcode in 0x00..0x3F:
/// 0 BC, 1 DE, 2 HL, 3 SP.
pub open spec fn pair_at(i: int) -> Reg16 {
    if i == 0 {
        Reg16::BC
    } else if i == 1 {
        Reg16::DE
    } else if i == 2 {
        Reg16::HL
    } else {
        Reg16::SP
    }
}

/// The 16-bit register named by bits 4 and 5 of PUSH and POP: 0 BC, 1 DE,
/// 2 HL, 3 AF.
pub open spec fn stack_pair_at(i: int) -> Reg16 {
    if i == 0 {
        Reg16::BC
    } else if i == 1 {
        Reg16::DE
    } else if i == 2 {
        Reg16::HL
    } else {
        Reg16::AF
    }
}

/// The condition of a conditional JR, JP or RET: bit 3 of the opcode says
/// whether the flag must be set; bit 4 picks C over Z.
pub open spec fn condition(m: Machine, op: u8) -> bool {
    m.registers.flag(if op % 32 >= 16 { Flag::C } else { Flag::Z }) == (op % 16 >= 8)
}

/// The running outcome of an instruction that changes only registers.
pub open spec fn regs_only(m: Machine, r: crate::registers::Registers) -> (Machine, Result<Completion, Fault>) {
    (m.with_registers(r), Ok(Completion::Running))
}

// ---Opcodes 0x00 to 0x3F---

/// Columns 4 and 5 increment and decrement the 8-bit register named by bits
/// 3 to 5 (opcode 0x2D increments L as 0x2C does); column 6 loads it with
/// the next byte; columns 1, 3, 9 and B load, increment, add to HL and
/// decrement the 16-bit register named by bits 4 and 5.
pub proof fn law_decode_block0_registers(m: Machine, op: u8)
    requires
        op < 0x40,
    ensures
        ((op % 8 == 4 && op != 0x34) || op == 0x2D) ==> execute(m, op) == regs_only(
            m,
            alu_inc8(m.registers, reg_at((op / 8) as u8)),
        ),
        (op % 8 == 5 && op != 0x35 && op != 0x2D) ==> execute(m, op) == regs_only(
            m,
            alu_dec8(m.registers, reg_at((op / 8) as u8)),
        ),
        (op % 8 == 6 && op != 0x36) ==> execute(m, op) == done(ld_d8(m, reg_at((op / 8) as u8))),
        op % 16 == 1 ==> execute(m, op) == done(ld_d16(m, pair_at(op as int / 16))),
        op % 16 == 3 ==> execute(m, op) == regs_only(m, alu_inc16(m.registers, pair_at(op as int / 16))),
        op % 16 == 9 ==> execute(m, op) == regs_only(m, alu_add_hl(m.registers, pair_at(op as int / 16))),
        op % 16 == 11 ==> execute(m, op) == regs_only(m, alu_dec16(m.registers, pair_at(op as int / 16))),
{
}

/// Loads and stores through BC, DE and HL, and LD (a16), SP.
pub proof fn law_decode_block0_memory(m: Machine, op: u8)
    ensures
        op == 0x02 ==> execute(m, op) == done(bus_write(m, m.registers.reg16(Reg16::BC), m.registers.a)),
        op == 0x12 ==> execute(m, op) == done(bus_write(m, m.registers.reg16(Reg16::DE), m.registers.a)),
        op == 0x0A ==> execute(m, op) == done(load(m, Reg8::A, m.registers.reg16(Reg16::BC))),
        op == 0x1A ==> execute(m, op) == done(load(m, Reg8::A, m.registers.reg16(Reg16::DE))),
        op == 0x22 ==> execute(m, op) == done(store_a_hl_step(m, true)),
        op == 0x32 ==> execute(m, op) == done(store_a_hl_step(m, false)),
        op == 0x2A ==> execute(m, op) == done(load_a_hl_step(m, true)),
        op == 0x3A ==> execute(m, op) == done(load_a_hl_step(m, false)),
        op == 0x36 ==> execute(m, op) == done(store_d8_hl(m)),
        op == 0x08 ==> execute(m, op) == done(store_sp(m)),
{
}

/// JR (0x18) always jumps; 0x20, 0x28, 0x30 and 0x38 jump on NZ, Z, NC and
/// C; NOP and STOP do nothing; 0x07, 0x1F and 0x2F shift, rotate and
/// complement A.
pub proof fn law_decode_block0_control(m: Machine, op: u8)
    ensures
        op == 0x18 ==> execute(m, op) == done(jr(m, true)),
        (op == 0x20 || op == 0x28 || op == 0x30 || op == 0x38) ==> execute(m, op) == done(
            jr(m, condition(m, op)),
        ),
        (op == 0x00 || op == 0x10) ==> execute(m, op) == (m, Ok::<Completion, Fault>(Completion::Running)),
        op == 0x07 ==> execute(m, op) == regs_only(m, alu_shift_left_a(m.registers)),
        op == 0x1F ==> execute(m, op) == regs_only(m, alu_rotate_right_a(m.registers)),
        op == 0x2F ==> execute(m, op) == regs_only(m, alu_cpl(m.registers)),
{
}

// ---Opcodes 0x40 to 0xBF---

/// 0x40 to 0x7F: LD to the register named by bits 3 to 5 from the one named
/// by bits 0 to 2, index 6 meaning the byte at HL; 0x76 is HALT.
pub proof fn law_decode_loads(m: Machine, op: u8)
    requires
        0x40 <= op < 0x80,
    ensures
        ({
            let dst = ((op - 0x40) / 8) as u8;
            let src = op % 8;
            let hl = m.registers.reg16(Reg16::HL);
            &&& op == 0x76 ==> execute(m, op) == (m, Ok::<Completion, Fault>(Completion::Halted))
            &&& op != 0x76 && src == 6 ==> execute(m, op) == done(load(m, reg_at(dst), hl))
            &&& dst == 6 && src != 6 ==> execute(m, op) == done(
                bus_write(m, hl, operand(m.registers, src)),
            )
            &&& dst != 6 && src != 6 ==> execute(m, op) == regs_only(
                m,
                alu_ld(m.registers, reg_at(dst), reg_at(src)),
            )
        }),
{
}

/// 0x80 to 0xBF: bits 3 to 5 pick ADD, -, -, -, AND, XOR, OR, CP (the
/// others are not implemented); bits 0 to 2 name the operand, 6 being the
/// byte at HL.
pub proof fn law_decode_alu(m: Machine, op: u8, n: u8)
    requires
        0x80 <= op < 0xC0,
        op % 8 == 6 ==> bus_read(m, m.registers.reg16(Reg16::HL)) == Ok::<u8, Fault>(n),
        op % 8 != 6 ==> n == operand(m.registers, op % 8),
    ensures
        op < 0x88 ==> execute(m, op) == regs_only(m, alu_add(m.registers, n)),
        0x88 <= op < 0xA0 ==> execute(m, op) == (m, Ok::<Completion, Fault>(Completion::Unimplemented(op))),
        0xA0 <= op < 0xA8 ==> execute(m, op) == regs_only(m, alu_and(m.registers, n)),
        0xA8 <= op < 0xB0 ==> execute(m, op) == regs_only(m, alu_xor(m.registers, n)),
        0xB0 <= op < 0xB8 ==> execute(m, op) == regs_only(m, alu_or(m.registers, n)),
        0xB8 <= op ==> execute(m, op) == regs_only(m, alu_cp(m.registers, n)),
{
    if op % 8 != 6 {
        crate::laws_alu::law_operand_index(m.registers, op % 8);
    }
}

/// An operand at HL that cannot be read makes the arithmetic opcodes fault.
pub proof fn law_decode_alu_fault(m: Machine, op: u8)
    requires
        0x80 <= op < 0xC0,
        !(0x88 <= op < 0xA0),
        op % 8 == 6,
        bus_read(m, m.registers.reg16(Reg16::HL)) is Err,
    ensures
        execute(m, op) == (m, Err::<Completion, Fault>(bus_read(m, m.registers.reg16(Reg16::HL))->Err_0)),
{
}

// ---Prefixed opcodes---

/// After 0xCB: 0x30 to 0x37 SWAP the operand named by bits 0 to 2; 0x80 to
/// 0xBF RES the bit named by bits 3 to 5 (0x87 clears bit 1 of A, as 0x8F
/// does); the others are not implemented.
pub proof fn law_decode_prefixed(m: Machine, op: u8, v: u8)
    requires
        op % 8 == 6 ==> bus_read(m, m.registers.reg16(Reg16::HL)) == Ok::<u8, Fault>(v),
    ensures
        ({
            let src = op % 8;
            let hl = m.registers.reg16(Reg16::HL);
            let b: u8 = if op == 0x87 {
                1
            } else {
                ((op - 0x80) / 8) as u8
            };
            &&& 0x30 <= op < 0x38 && src != 6 ==> block_prefixed(m, op) == regs_only(
                m,
                alu_swap(m.registers, reg_at(src)),
            )
            &&& 0x30 <= op < 0x38 && src == 6 ==> block_prefixed(m, op) == done(
                bus_write(m, hl, swap_nibbles(v)),
            )
            &&& 0x80 <= op < 0xC0 && src != 6 ==> block_prefixed(m, op) == regs_only(
                m,
                alu_res(m.registers, b, reg_at(src)),
            )
            &&& 0x80 <= op < 0xC0 && src == 6 ==> block_prefixed(m, op) == done(
                bus_write(m, hl, reset_bit(v, b)),
            )
            &&& (op < 0x30 || (0x38 <= op < 0x80) || op >= 0xC0) ==> block_prefixed(m, op) == (
                m,
                Ok::<Completion, Fault>(Completion::UnimplementedPrefixed(op)),
            )
        }),
{
}

// ---Opcodes 0xC0 to 0xFF---

/// RET and JP: 0xC0, 0xC8, 0xD0 and 0xD8 return on NZ, Z, NC and C, 0xC9
/// always; 0xC2, 0xCA, 0xD2 and 0xDA jump on the same conditions, 0xC3
/// always.
pub proof fn law_decode_returns_and_jumps(m: Machine, op: u8)
    requires
        op >= 0xC0,
    ensures
        (op == 0xC0 || op == 0xC8 || op == 0xD0 || op == 0xD8) ==> execute(m, op) == done(
            ret(m, condition(m, op)),
        ),
        op == 0xC9 ==> execute(m, op) == done(ret(m, true)),
        (op == 0xC2 || op == 0xCA || op == 0xD2 || op == 0xDA) ==> execute(m, op) == done(
            jp(m, condition(m, op)),
        ),
        op == 0xC3 ==> execute(m, op) == done(jp(m, true)),
{
}

/// 0xCD calls; 0xE9 jumps to HL; 0xCB runs a prefixed opcode.
pub proof fn law_decode_calls(m: Machine, op: u8)
    ensures
        op == 0xCD ==> execute(m, op) == done(call(m, true)),
        op == 0xE9 ==> execute(m, op) == regs_only(
            m,
            m.registers.with_pc(m.registers.reg16(Reg16::HL)),
        ),
        op == 0xCB ==> execute(m, op) == prefixed(m),
{
}

/// The opcodes from 0xC0 ending in 7 or F restart at 8 times bits 3 to 5.
pub proof fn law_decode_restarts(m: Machine, op: u8)
    requires
        op >= 0xC0,
        op % 8 == 7,
    ensures
        execute(m, op) == done(rst(m, ((op - 0xC0) / 8 * 8) as u8)),
{
}

/// PUSH (0xC5, 0xD5, 0xE5, 0xF5) and POP (0xC1, 0xD1, 0xE1, 0xF1) of the
/// pair named by bits 4 and 5: BC, DE, HL, AF.
pub proof fn law_decode_stack(m: Machine, op: u8)
    requires
        op >= 0xC0,
    ensures
        op % 16 == 5 ==> execute(m, op) == done(
            push(m, m.registers.reg16(stack_pair_at((op - 0xC0) / 16))),
        ),
        op % 16 == 1 ==> execute(m, op) == done(pop_into(m, stack_pair_at((op - 0xC0) / 16))),
{
}

/// The high-page and direct-address loads, AND d8, CP d8, and DI and EI,
/// which write 0 and 1 to 0xFFFF.
pub proof fn law_decode_block3_memory(m: Machine, op: u8)
    ensures
        op == 0xE0 ==> execute(m, op) == done(store_a_high(m)),
        op == 0xF0 ==> execute(m, op) == done(load_a_high(m)),
        op == 0xE2 ==> execute(m, op) == done(
            bus_write(m, (0xFF00 + m.registers.c) as u16, m.registers.a),
        ),
        op == 0xEA ==> execute(m, op) == done(store_a_a16(m)),
        op == 0xFA ==> execute(m, op) == done(load_a_a16(m)),
        op == 0xE6 ==> execute(m, op) == done(alu_d8(m, 4)),
        op == 0xFE ==> execute(m, op) == done(alu_d8(m, 7)),
        op == 0xF3 ==> execute(m, op) == done(bus_write(m, 0xFFFF, 0)),
        op == 0xFB ==> execute(m, op) == done(bus_write(m, 0xFFFF, 1)),
{
}

/// The opcodes that are not implemented report themselves and leave the
/// machine as fetched.
pub proof fn law_decode_unimplemented(m: Machine, op: u8)
    requires
        op == 0x0F || op == 0x17 || op == 0x27 || op == 0x34 || op == 0x35 || op == 0x37 || op
            == 0x3F || (0x88 <= op < 0xA0) || op == 0xC4 || op == 0xC6 || op == 0xCC || op == 0xCE
            || op == 0xD3 || op == 0xD4 || op == 0xD6 || op == 0xD9 || op == 0xDB || op == 0xDC
            || op == 0xDD || op == 0xDE || op == 0xE3 || op == 0xE4 || op == 0xE8 || op == 0xEB
            || op == 0xEC || op == 0xED || op == 0xEE || op == 0xF2 || op == 0xF4 || op == 0xF6
            || op == 0xF8 || op == 0xF9 || op == 0xFC || op == 0xFD,
    ensures
        execute(m, op) == (m, Ok::<Completion, Fault>(Completion::Unimplemented(op))),
{
}

} // verus!
