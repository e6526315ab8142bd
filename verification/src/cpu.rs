//! The instruction set: what one step of the processor does to the machine.
use vstd::prelude::*;

use crate::isa::{
    alu_add, alu_add_hl, alu_and, alu_cp, alu_cpl, alu_dec16, alu_dec8, alu_inc16, alu_inc8,
    alu_ld, alu_or, alu_res, alu_rotate_right_a, alu_shift_left_a, alu_swap, alu_xor, reg_at,
    reset_bit, swap_nibbles,
};
use crate::machine::{bus_read, bus_write, Completion, Fault, Machine, Outcome};
use crate::registers::{high_byte, low_byte, word, Flag, Reg16, Reg8, Registers};

verus! {

/// The outcome of a step that changed only the registers.
pub open spec fn set_regs(m: Machine, r: Registers) -> Outcome<()> {
    (m.with_registers(r), Ok(()))
}

/// An instruction that ran to its end lets execution go on.
pub open spec fn done(o: Outcome<()>) -> Outcome<Completion> {
    match o.1 {
        Ok(_) => (o.0, Ok(Completion::Running)),
        Err(e) => (o.0, Err(e)),
    }
}

/// Reads the byte at PC and advances PC past it.
pub open spec fn fetch(m: Machine) -> Outcome<u8> {
    let pc = m.registers.pc;
    match bus_read(m, pc) {
        Err(e) => (m, Err(e)),
        Ok(v) => if pc == 0xFFFF {
            (m, Err(Fault::AddOverflow))
        } else {
            (m.with_registers(m.registers.with_pc((pc + 1) as u16)), Ok(v))
        },
    }
}

/// Reads a little-endian 16-bit operand at PC.
pub open spec fn fetch16(m: Machine) -> Outcome<u16> {
    let (m1, lo) = fetch(m);
    match lo {
        Err(e) => (m1, Err(e)),
        Ok(lo) => {
            let (m2, hi) = fetch(m1);
            match hi {
                Err(e) => (m2, Err(e)),
                Ok(hi) => (m2, Ok(word(hi, lo))),
            }
        },
    }
}

/// Pushes a 16-bit value: high byte at SP - 1, low byte at SP - 2, then SP
/// goes down by two.
pub open spec fn push(m: Machine, v: u16) -> Outcome<()> {
    let sp = m.registers.sp;
    if sp == 0 {
        (m, Err(Fault::SubtractOverflow))
    } else {
        let (m1, r1) = bus_write(m, (sp - 1) as u16, high_byte(v));
        match r1 {
            Err(e) => (m1, Err(e)),
            Ok(_) => if sp == 1 {
                (m1, Err(Fault::SubtractOverflow))
            } else {
                let (m2, r2) = bus_write(m1, (sp - 2) as u16, low_byte(v));
                match r2 {
                    Err(e) => (m2, Err(e)),
                    Ok(_) => (
                        m2.with_registers(m2.registers.with_reg16(Reg16::SP, (sp - 2) as u16)),
                        Ok(()),
                    ),
                }
            },
        }
    }
}

/// Pops a 16-bit value: low byte at SP, high byte at SP + 1, then SP goes
/// up by two.
pub open spec fn pop(m: Machine) -> Outcome<u16> {
    let sp = m.registers.sp;
    match bus_read(m, sp) {
        Err(e) => (m, Err(e)),
        Ok(lo) => if sp == 0xFFFF {
            (m, Err(Fault::AddOverflow))
        } else {
            match bus_read(m, (sp + 1) as u16) {
                Err(e) => (m, Err(e)),
                Ok(hi) => if sp == 0xFFFE {
                    (m, Err(Fault::AddOverflow))
                } else {
                    (
                        m.with_registers(m.registers.with_reg16(Reg16::SP, (sp + 2) as u16)),
                        Ok(word(hi, lo)),
                    )
                },
            }
        },
    }
}

/// POP rr.
pub open spec fn pop_into(m: Machine, reg: Reg16) -> Outcome<()> {
    let (m1, r) = pop(m);
    match r {
        Err(e) => (m1, Err(e)),
        Ok(v) => set_regs(m1, m1.registers.with_reg16(reg, v)),
    }
}

/// LD rr, d16.
pub open spec fn ld_d16(m: Machine, reg: Reg16) -> Outcome<()> {
    let (m1, r) = fetch16(m);
    match r {
        Err(e) => (m1, Err(e)),
        Ok(v) => set_regs(m1, m1.registers.with_reg16(reg, v)),
    }
}

/// LD r, d8.
pub open spec fn ld_d8(m: Machine, reg: Reg8) -> Outcome<()> {
    let (m1, r) = fetch(m);
    match r {
        Err(e) => (m1, Err(e)),
        Ok(v) => set_regs(m1, m1.registers.with_reg8(reg, v)),
    }
}

/// LD r, (addr).
pub open spec fn load(m: Machine, reg: Reg8, addr: u16) -> Outcome<()> {
    match bus_read(m, addr) {
        Err(e) => (m, Err(e)),
        Ok(v) => set_regs(m, m.registers.with_reg8(reg, v)),
    }
}

/// HL after HL+ (`inc`) or HL- addressing, if it stays in range.
pub open spec fn hl_step(m: Machine, hl: u16, inc: bool) -> Outcome<()> {
    if inc {
        if hl == 0xFFFF {
            (m, Err(Fault::AddOverflow))
        } else {
            set_regs(m, m.registers.with_reg16(Reg16::HL, (hl + 1) as u16))
        }
    } else {
        if hl == 0 {
            (m, Err(Fault::SubtractOverflow))
        } else {
            set_regs(m, m.registers.with_reg16(Reg16::HL, (hl - 1) as u16))
        }
    }
}

/// LD (HL+), A and LD (HL-), A.
pub open spec fn store_a_hl_step(m: Machine, inc: bool) -> Outcome<()> {
    let hl = m.registers.reg16(Reg16::HL);
    let (m1, r) = bus_write(m, hl, m.registers.a);
    match r {
        Err(e) => (m1, Err(e)),
        Ok(_) => hl_step(m1, hl, inc),
    }
}

/// LD A, (HL+) and LD A, (HL-).
pub open spec fn load_a_hl_step(m: Machine, inc: bool) -> Outcome<()> {
    let hl = m.registers.reg16(Reg16::HL);
    match bus_read(m, hl) {
        Err(e) => (m, Err(e)),
        Ok(v) => hl_step(m.with_registers(m.registers.with_reg8(Reg8::A, v)), hl, inc),
    }
}

/// Opcode 0x08: the high byte of SP is stored at a16, the low byte at a16 + 1.
pub open spec fn store_sp(m: Machine) -> Outcome<()> {
    let sp = m.registers.sp;
    let (m1, r) = fetch16(m);
    match r {
        Err(e) => (m1, Err(e)),
        Ok(a16) => {
            let (m2, r2) = bus_write(m1, a16, high_byte(sp));
            match r2 {
                Err(e) => (m2, Err(e)),
                Ok(_) => if a16 == 0xFFFF {
                    (m2, Err(Fault::AddOverflow))
                } else {
                    bus_write(m2, (a16 + 1) as u16, low_byte(sp))
                },
            }
        },
    }
}

/// LD (HL), d8.
pub open spec fn store_d8_hl(m: Machine) -> Outcome<()> {
    let (m1, r) = fetch(m);
    match r {
        Err(e) => (m1, Err(e)),
        Ok(d8) => bus_write(m1, m1.registers.reg16(Reg16::HL), d8),
    }
}

/// PC + a signed 8-bit offset, computed on signed 16-bit values; `None` when
/// the sum leaves the signed 16-bit range.
pub open spec fn jr_target(pc: u16, offset: u8) -> Option<u16> {
    let base: int = if pc < 0x8000 {
        pc as int
    } else {
        pc - 0x10000
    };
    let delta: int = if offset < 0x80 {
        offset as int
    } else {
        offset - 0x100
    };
    let s = base + delta;
    if s < -0x8000 || s > 0x7FFF {
        None
    } else if s < 0 {
        Some((s + 0x10000) as u16)
    } else {
        Some(s as u16)
    }
}

/// JR cond, e8: the offset is always fetched; the jump happens only when
/// the condition holds.
pub open spec fn jr(m: Machine, cond: bool) -> Outcome<()> {
    let (m1, r) = fetch(m);
    match r {
        Err(e) => (m1, Err(e)),
        Ok(offset) => if cond {
            match jr_target(m1.registers.pc, offset) {
                Some(t) => set_regs(m1, m1.registers.with_pc(t)),
                None => (m1, Err(Fault::AddOverflow)),
            }
        } else {
            (m1, Ok(()))
        },
    }
}

/// JP cond, a16: the address is always fetched.
pub open spec fn jp(m: Machine, cond: bool) -> Outcome<()> {
    let (m1, r) = fetch16(m);
    match r {
        Err(e) => (m1, Err(e)),
        Ok(a) => if cond {
            set_regs(m1, m1.registers.with_pc(a))
        } else {
            (m1, Ok(()))
        },
    }
}

/// CALL cond, a16: the address is always fetched; when the condition holds
/// the address of the next instruction is pushed and PC jumps.
pub open spec fn call(m: Machine, cond: bool) -> Outcome<()> {
    let (m1, r) = fetch16(m);
    match r {
        Err(e) => (m1, Err(e)),
        Ok(a) => if cond {
            let (m2, r2) = push(m1, m1.registers.pc);
            match r2 {
                Err(e) => (m2, Err(e)),
                Ok(_) => set_regs(m2, m2.registers.with_pc(a)),
            }
        } else {
            (m1, Ok(()))
        },
    }
}

/// RET cond.
pub open spec fn ret(m: Machine, cond: bool) -> Outcome<()> {
    if cond {
        let (m1, r) = pop(m);
        match r {
            Err(e) => (m1, Err(e)),
            Ok(a) => set_regs(m1, m1.registers.with_pc(a)),
        }
    } else {
        (m, Ok(()))
    }
}

/// RST: pushes PC and jumps to a fixed address.
pub open spec fn rst(m: Machine, target: u8) -> Outcome<()> {
    let (m1, r) = push(m, m.registers.pc);
    match r {
        Err(e) => (m1, Err(e)),
        Ok(_) => set_regs(m1, m1.registers.with_pc(target as u16)),
    }
}

/// Opcodes 0x00 to 0x3F.
pub open spec fn block0(m: Machine, op: u8) -> Outcome<Completion> {
    let r = m.registers;
    match op {
        0x00 => (m, Ok(Completion::Running)),
        0x01 => done(ld_d16(m, Reg16::BC)),
        0x02 => done(bus_write(m, r.reg16(Reg16::BC), r.a)),
        0x03 => done(set_regs(m, alu_inc16(r, Reg16::BC))),
        0x04 => done(set_regs(m, alu_inc8(r, Reg8::B))),
        0x05 => done(set_regs(m, alu_dec8(r, Reg8::B))),
        0x06 => done(ld_d8(m, Reg8::B)),
        0x07 => done(set_regs(m, alu_shift_left_a(r))),
        0x08 => done(store_sp(m)),
        0x09 => done(set_regs(m, alu_add_hl(r, Reg16::BC))),
        0x0a => done(load(m, Reg8::A, r.reg16(Reg16::BC))),
        0x0b => done(set_regs(m, alu_dec16(r, Reg16::BC))),
        0x0c => done(set_regs(m, alu_inc8(r, Reg8::C))),
        0x0d => done(set_regs(m, alu_dec8(r, Reg8::C))),
        0x0e => done(ld_d8(m, Reg8::C)),
        0x10 => (m, Ok(Completion::Running)),
        0x11 => done(ld_d16(m, Reg16::DE)),
        0x12 => done(bus_write(m, r.reg16(Reg16::DE), r.a)),
        0x13 => done(set_regs(m, alu_inc16(r, Reg16::DE))),
        0x14 => done(set_regs(m, alu_inc8(r, Reg8::D))),
        0x15 => done(set_regs(m, alu_dec8(r, Reg8::D))),
        0x16 => done(ld_d8(m, Reg8::D)),
        0x18 => done(jr(m, true)),
        0x19 => done(set_regs(m, alu_add_hl(r, Reg16::DE))),
        0x1a => done(load(m, Reg8::A, r.reg16(Reg16::DE))),
        0x1b => done(set_regs(m, alu_dec16(r, Reg16::DE))),
        0x1c => done(set_regs(m, alu_inc8(r, Reg8::E))),
        0x1d => done(set_regs(m, alu_dec8(r, Reg8::E))),
        0x1e => done(ld_d8(m, Reg8::E)),
        0x1f => done(set_regs(m, alu_rotate_right_a(r))),
        0x20 => done(jr(m, !r.flag(Flag::Z))),
        0x21 => done(ld_d16(m, Reg16::HL)),
        0x22 => done(store_a_hl_step(m, true)),
        0x23 => done(set_regs(m, alu_inc16(r, Reg16::HL))),
        0x24 => done(set_regs(m, alu_inc8(r, Reg8::H))),
        0x25 => done(set_regs(m, alu_dec8(r, Reg8::H))),
        0x26 => done(ld_d8(m, Reg8::H)),
        0x28 => done(jr(m, r.flag(Flag::Z))),
        0x29 => done(set_regs(m, alu_add_hl(r, Reg16::HL))),
        0x2a => done(load_a_hl_step(m, true)),
        0x2b => done(set_regs(m, alu_dec16(r, Reg16::HL))),
        0x2c => done(set_regs(m, alu_inc8(r, Reg8::L))),
        // 0x2D increments L as 0x2C does.
        0x2d => done(set_regs(m, alu_inc8(r, Reg8::L))),
        0x2e => done(ld_d8(m, Reg8::L)),
        0x2f => done(set_regs(m, alu_cpl(r))),
        0x30 => done(jr(m, !r.flag(Flag::C))),
        0x31 => done(ld_d16(m, Reg16::SP)),
        0x32 => done(store_a_hl_step(m, false)),
        0x33 => done(set_regs(m, alu_inc16(r, Reg16::SP))),
        0x36 => done(store_d8_hl(m)),
        0x38 => done(jr(m, r.flag(Flag::C))),
        0x39 => done(set_regs(m, alu_add_hl(r, Reg16::SP))),
        0x3a => done(load_a_hl_step(m, false)),
        0x3b => done(set_regs(m, alu_dec16(r, Reg16::SP))),
        0x3c => done(set_regs(m, alu_inc8(r, Reg8::A))),
        0x3d => done(set_regs(m, alu_dec8(r, Reg8::A))),
        0x3e => done(ld_d8(m, Reg8::A)),
        _ => (m, Ok(Completion::Unimplemented(op))),
    }
}

/// Opcodes 0x40 to 0x7F: LD between registers and the byte at HL; 0x76 is HALT.
pub open spec fn block_load(m: Machine, op: u8) -> Outcome<Completion> {
    let r = m.registers;
    let dst: u8 = ((op - 0x40) / 8) as u8;
    let src: u8 = op % 8;
    if op == 0x76 {
        (m, Ok(Completion::Halted))
    } else if src == 6 {
        done(load(m, reg_at(dst), r.reg16(Reg16::HL)))
    } else if dst == 6 {
        done(bus_write(m, r.reg16(Reg16::HL), r.reg8(reg_at(src))))
    } else {
        done(set_regs(m, alu_ld(r, reg_at(dst), reg_at(src))))
    }
}

/// The arithmetic or logic operation of an opcode group of 0x80 to 0xBF:
/// 0 ADD, 4 AND, 5 XOR, 6 OR, 7 CP.
pub open spec fn alu_op(group: u8, r: Registers, n: u8) -> Registers {
    match group {
        0 => alu_add(r, n),
        4 => alu_and(r, n),
        5 => alu_xor(r, n),
        6 => alu_or(r, n),
        _ => alu_cp(r, n),
    }
}

/// Opcodes 0x80 to 0xBF: ADD, AND, XOR, OR and CP with A; ADC, SUB and SBC
/// (groups 1 to 3) are not implemented.
pub open spec fn block_alu(m: Machine, op: u8) -> Outcome<Completion> {
    let r = m.registers;
    let group: u8 = ((op - 0x80) / 8) as u8;
    let src: u8 = op % 8;
    if group == 1 || group == 2 || group == 3 {
        (m, Ok(Completion::Unimplemented(op)))
    } else if src == 6 {
        match bus_read(m, r.reg16(Reg16::HL)) {
            Err(e) => (m, Err(e)),
            Ok(n) => (m.with_registers(alu_op(group, r, n)), Ok(Completion::Running)),
        }
    } else {
        (m.with_registers(alu_op(group, r, r.reg8(reg_at(src)))), Ok(Completion::Running))
    }
}

/// Opcodes after the 0xCB prefix: SWAP (0x30 to 0x37) and RES (0x80 to
/// 0xBF, where 0x87 clears bit 1 of A as 0x8F does).
pub open spec fn block_prefixed(m: Machine, op: u8) -> Outcome<Completion> {
    let r = m.registers;
    let src: u8 = op % 8;
    let hl = r.reg16(Reg16::HL);
    if 0x30 <= op < 0x38 {
        if src == 6 {
            match bus_read(m, hl) {
                Err(e) => (m, Err(e)),
                Ok(v) => done(bus_write(m, hl, swap_nibbles(v))),
            }
        } else {
            done(set_regs(m, alu_swap(r, reg_at(src))))
        }
    } else if 0x80 <= op < 0xC0 {
        let b: u8 = if op == 0x87 {
            1
        } else {
            ((op - 0x80) / 8) as u8
        };
        if src == 6 {
            match bus_read(m, hl) {
                Err(e) => (m, Err(e)),
                Ok(v) => done(bus_write(m, hl, reset_bit(v, b))),
            }
        } else {
            done(set_regs(m, alu_res(r, b, reg_at(src))))
        }
    } else {
        (m, Ok(Completion::UnimplementedPrefixed(op)))
    }
}

/// LDH (a8), A: A is stored at 0xFF00 + a8.
pub open spec fn store_a_high(m: Machine) -> Outcome<()> {
    let (m1, p) = fetch(m);
    match p {
        Err(e) => (m1, Err(e)),
        Ok(offset) => bus_write(m1, (0xFF00 + offset) as u16, m1.registers.a),
    }
}

/// LDH A, (a8): A is loaded from 0xFF00 + a8.
pub open spec fn load_a_high(m: Machine) -> Outcome<()> {
    let (m1, p) = fetch(m);
    match p {
        Err(e) => (m1, Err(e)),
        Ok(a8) => load(m1, Reg8::A, (0xFF00 + a8) as u16),
    }
}

/// LD (a16), A.
pub open spec fn store_a_a16(m: Machine) -> Outcome<()> {
    let (m1, p) = fetch16(m);
    match p {
        Err(e) => (m1, Err(e)),
        Ok(addr) => bus_write(m1, addr, m1.registers.a),
    }
}

/// LD A, (a16).
pub open spec fn load_a_a16(m: Machine) -> Outcome<()> {
    let (m1, p) = fetch16(m);
    match p {
        Err(e) => (m1, Err(e)),
        Ok(addr) => load(m1, Reg8::A, addr),
    }
}

/// An arithmetic or logic operation with an immediate operand.
pub open spec fn alu_d8(m: Machine, group: u8) -> Outcome<()> {
    let (m1, p) = fetch(m);
    match p {
        Err(e) => (m1, Err(e)),
        Ok(d8) => set_regs(m1, alu_op(group, m1.registers, d8)),
    }
}

/// The 0xCB prefix: the next byte selects the instruction.
pub open spec fn prefixed(m: Machine) -> Outcome<Completion> {
    let (m1, p) = fetch(m);
    match p {
        Err(e) => (m1, Err(e)),
        Ok(op2) => block_prefixed(m1, op2),
    }
}

/// Opcodes 0xC0 to 0xFF.
pub open spec fn block3(m: Machine, op: u8) -> Outcome<Completion> {
    let r = m.registers;
    match op {
        0xc0 => done(ret(m, !r.flag(Flag::Z))),
        0xc1 => done(pop_into(m, Reg16::BC)),
        0xc2 => done(jp(m, !r.flag(Flag::Z))),
        0xc3 => done(jp(m, true)),
        0xc5 => done(push(m, r.reg16(Reg16::BC))),
        0xc7 => done(rst(m, 0x00)),
        0xc8 => done(ret(m, r.flag(Flag::Z))),
        0xc9 => done(ret(m, true)),
        0xca => done(jp(m, r.flag(Flag::Z))),
        0xcb => prefixed(m),
        0xcd => done(call(m, true)),
        0xcf => done(rst(m, 0x08)),
        0xd0 => done(ret(m, !r.flag(Flag::C))),
        0xd1 => done(pop_into(m, Reg16::DE)),
        0xd2 => done(jp(m, !r.flag(Flag::C))),
        0xd5 => done(push(m, r.reg16(Reg16::DE))),
        0xd7 => done(rst(m, 0x10)),
        0xd8 => done(ret(m, r.flag(Flag::C))),
        0xda => done(jp(m, r.flag(Flag::C))),
        0xdf => done(rst(m, 0x18)),
        0xe0 => done(store_a_high(m)),
        0xe1 => done(pop_into(m, Reg16::HL)),
        0xe2 => done(bus_write(m, (0xFF00 + r.c) as u16, r.a)),
        0xe5 => done(push(m, r.reg16(Reg16::HL))),
        0xe6 => done(alu_d8(m, 4)),
        0xe7 => done(rst(m, 0x20)),
        0xe9 => (m.with_registers(r.with_pc(r.reg16(Reg16::HL))), Ok(Completion::Running)),
        0xea => done(store_a_a16(m)),
        0xef => done(rst(m, 0x28)),
        0xf0 => done(load_a_high(m)),
        0xf1 => done(pop_into(m, Reg16::AF)),
        0xf3 => done(bus_write(m, 0xFFFF, 0)),
        0xf5 => done(push(m, r.reg16(Reg16::AF))),
        0xf7 => done(rst(m, 0x30)),
        0xfa => done(load_a_a16(m)),
        0xfb => done(bus_write(m, 0xFFFF, 1)),
        0xfe => done(alu_d8(m, 7)),
        0xff => done(rst(m, 0x38)),
        _ => (m, Ok(Completion::Unimplemented(op))),
    }
}

/// What an opcode does once it has been fetched.
pub open spec fn execute(m: Machine, op: u8) -> Outcome<Completion> {
    if op < 0x40 {
        block0(m, op)
    } else if op < 0x80 {
        block_load(m, op)
    } else if op < 0xC0 {
        block_alu(m, op)
    } else {
        block3(m, op)
    }
}

/// One step of the processor: fetch the opcode at PC and execute it.
pub open spec fn step(m: Machine) -> Outcome<Completion> {
    let (m1, r) = fetch(m);
    match r {
        Err(e) => (m1, Err(e)),
        Ok(op) => execute(m1, op),
    }
}

} // verus!
