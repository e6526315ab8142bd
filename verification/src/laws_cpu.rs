//! What each instruction form does to registers and memory, and which
//! opcode runs which form.
use vstd::prelude::*;

use crate::cpu::{
    alu_d8, call, done, fetch, fetch16, jp, jr, ld_d16, ld_d8, load, load_a_a16, load_a_high,
    load_a_hl_step, pop, pop_into, prefixed, push, ret, rst, set_regs, step, store_a_a16,
    store_a_high, store_a_hl_step, store_d8_hl, store_sp, execute, block_prefixed,
};
use crate::isa::{alu_and, alu_cp};
use crate::laws::plain_memory;
use crate::machine::{bus_read, Completion, Fault, Machine, Outcome};
use crate::registers::{Reg16, Reg8};

verus! {

/// The machine with PC moved on by `k` bytes.
pub open spec fn advanced(m: Machine, k: int) -> Machine {
    m.with_registers(m.registers.with_pc((m.registers.pc + k) as u16))
}

/// A byte taken as a two's complement signed value.
pub open spec fn signed8(x: u8) -> int {
    if x >= 128 {
        x - 256
    } else {
        x as int
    }
}

/// A 16-bit value taken as a two's complement signed value.
pub open spec fn signed16(x: int) -> int {
    if x >= 0x8000 {
        x - 0x10000
    } else {
        x
    }
}

/// The machine after the two bytes `v / 256` at `sp - 1` and `v % 256` at
/// `sp - 2` are stored and SP is lowered by two.
pub open spec fn pushed(m: Machine, v: u16) -> Machine {
    let sp = m.registers.sp;
    Machine {
        memory: m.memory.update(sp - 1, (v / 256) as u8).update(sp - 2, (v % 256) as u8),
        registers: m.registers.with_reg16(Reg16::SP, (sp - 2) as u16),
        ..m
    }
}

// ---Fetching---

/// A fetch reads the byte at PC and moves PC on by one; an unreadable byte
/// or PC at 0xFFFF is a fault that leaves the machine as it was.
pub proof fn law_fetch(m: Machine)
    ensures
        bus_read(m, m.registers.pc) is Err ==> fetch(m) == (
            m,
            Err::<u8, Fault>(bus_read(m, m.registers.pc)->Err_0),
        ),
        bus_read(m, m.registers.pc) is Ok && m.registers.pc < 0xFFFF ==> fetch(m) == (
            advanced(m, 1),
            Ok::<u8, Fault>(bus_read(m, m.registers.pc)->Ok_0),
        ),
        bus_read(m, m.registers.pc) is Ok && m.registers.pc == 0xFFFF ==> fetch(m) == (
            m,
            Err::<u8, Fault>(Fault::AddOverflow),
        ),
{
}

/// A 16-bit operand is read low byte first: the byte at PC plus 256 times
/// the byte after it; PC moves on by two.
pub proof fn law_fetch16(m: Machine, lo: u8, hi: u8)
    requires
        m.registers.pc < 0xFFFE,
        bus_read(m, m.registers.pc) == Ok::<u8, Fault>(lo),
        bus_read(m, (m.registers.pc + 1) as u16) == Ok::<u8, Fault>(hi),
    ensures
        fetch16(m) == (advanced(m, 2), Ok::<u16, Fault>((lo + 256 * hi) as u16)),
{
}

/// A step fetches the opcode at PC and executes it; when the fetch faults,
/// so does the step.
pub proof fn law_step(m: Machine, op: u8)
    ensures
        m.registers.pc < 0xFFFF && bus_read(m, m.registers.pc) == Ok::<u8, Fault>(op) ==> step(m)
            == execute(advanced(m, 1), op),
        fetch(m).1 is Err ==> step(m) == (
            fetch(m).0,
            Err::<Completion, Fault>(fetch(m).1->Err_0),
        ),
{
}

/// An instruction form that completes lets execution go on, and its fault
/// is the step's fault.
pub proof fn law_done(o: Outcome<()>)
    ensures
        o.1 is Ok ==> done(o) == (o.0, Ok::<Completion, Fault>(Completion::Running)),
        o.1 is Err ==> done(o) == (o.0, Err::<Completion, Fault>(o.1->Err_0)),
{
}

// ---Loads---

/// LD r, d8: the register takes the byte after the opcode.
pub proof fn law_ld_d8(m: Machine, reg: Reg8, v: u8)
    requires
        m.registers.pc < 0xFFFF,
        bus_read(m, m.registers.pc) == Ok::<u8, Fault>(v),
    ensures
        ld_d8(m, reg) == (
            m.with_registers(m.registers.with_pc((m.registers.pc + 1) as u16).with_reg8(reg, v)),
            Ok::<(), Fault>(()),
        ),
{
}

/// LD rr, d16: the register takes the 16-bit operand, low byte first.
pub proof fn law_ld_d16(m: Machine, reg: Reg16, lo: u8, hi: u8)
    requires
        m.registers.pc < 0xFFFE,
        bus_read(m, m.registers.pc) == Ok::<u8, Fault>(lo),
        bus_read(m, (m.registers.pc + 1) as u16) == Ok::<u8, Fault>(hi),
    ensures
        ld_d16(m, reg) == (
            m.with_registers(
                m.registers.with_pc((m.registers.pc + 2) as u16).with_reg16(
                    reg,
                    (lo + 256 * hi) as u16,
                ),
            ),
            Ok::<(), Fault>(()),
        ),
{
}

/// LD r, (addr): the register takes the byte read at the address.
pub proof fn law_load(m: Machine, reg: Reg8, addr: u16)
    ensures
        bus_read(m, addr) is Ok ==> load(m, reg, addr) == (
            m.with_registers(m.registers.with_reg8(reg, bus_read(m, addr)->Ok_0)),
            Ok::<(), Fault>(()),
        ),
        bus_read(m, addr) is Err ==> load(m, reg, addr) == (
            m,
            Err::<(), Fault>(bus_read(m, addr)->Err_0),
        ),
{
}

/// LD A, (HL+) and LD A, (HL-): A takes the byte at HL, then HL goes up
/// (`inc`) or down by one; past 0xFFFF or below 0 it is a fault.
pub proof fn law_load_a_hl_step(m: Machine, inc: bool, v: u8)
    requires
        bus_read(m, m.registers.reg16(Reg16::HL)) == Ok::<u8, Fault>(v),
    ensures
        ({
            let hl = m.registers.reg16(Reg16::HL);
            let loaded = m.with_registers(m.registers.with_reg8(Reg8::A, v));
            &&& inc && hl < 0xFFFF ==> load_a_hl_step(m, inc) == (
                m.with_registers(m.registers.with_reg8(Reg8::A, v).with_reg16(Reg16::HL, (hl + 1) as u16)),
                Ok::<(), Fault>(()),
            )
            &&& !inc && hl > 0 ==> load_a_hl_step(m, inc) == (
                m.with_registers(m.registers.with_reg8(Reg8::A, v).with_reg16(Reg16::HL, (hl - 1) as u16)),
                Ok::<(), Fault>(()),
            )
            &&& inc && hl == 0xFFFF ==> load_a_hl_step(m, inc) == (
                loaded,
                Err::<(), Fault>(Fault::AddOverflow),
            )
            &&& !inc && hl == 0 ==> load_a_hl_step(m, inc) == (
                loaded,
                Err::<(), Fault>(Fault::SubtractOverflow),
            )
        }),
{
}

/// LD (HL+), A and LD (HL-), A: A is stored at HL, then HL goes up (`inc`)
/// or down by one.
pub proof fn law_store_a_hl_step(m: Machine, inc: bool)
    requires
        plain_memory(m.registers.reg16(Reg16::HL) as int),
    ensures
        ({
            let hl = m.registers.reg16(Reg16::HL);
            let stored = Machine { memory: m.memory.update(hl as int, m.registers.a), ..m };
            &&& inc && hl < 0xFFFF ==> store_a_hl_step(m, inc) == (
                stored.with_registers(m.registers.with_reg16(Reg16::HL, (hl + 1) as u16)),
                Ok::<(), Fault>(()),
            )
            &&& !inc ==> store_a_hl_step(m, inc) == (
                stored.with_registers(m.registers.with_reg16(Reg16::HL, (hl - 1) as u16)),
                Ok::<(), Fault>(()),
            )
            &&& inc && hl == 0xFFFF ==> store_a_hl_step(m, inc) == (
                stored,
                Err::<(), Fault>(Fault::AddOverflow),
            )
        }),
{
}

/// LD (a16), SP: the high byte of SP is stored at a16, the low byte at a16 + 1.
pub proof fn law_store_sp(m: Machine, lo: u8, hi: u8)
    requires
        m.registers.pc < 0xFFFE,
        bus_read(m, m.registers.pc) == Ok::<u8, Fault>(lo),
        bus_read(m, (m.registers.pc + 1) as u16) == Ok::<u8, Fault>(hi),
        plain_memory(lo + 256 * hi),
        plain_memory(lo + 256 * hi + 1),
    ensures
        ({
            let a = lo + 256 * hi;
            let sp = m.registers.sp;
            store_sp(m) == (
                Machine {
                    memory: m.memory.update(a, (sp / 256) as u8).update(a + 1, (sp % 256) as u8),
                    ..advanced(m, 2)
                },
                Ok::<(), Fault>(()),
            )
        }),
{
}

/// LD (HL), d8: the byte after the opcode is stored at HL.
pub proof fn law_store_d8_hl(m: Machine, v: u8)
    requires
        m.registers.pc < 0xFFFF,
        bus_read(m, m.registers.pc) == Ok::<u8, Fault>(v),
        plain_memory(m.registers.reg16(Reg16::HL) as int),
    ensures
        store_d8_hl(m) == (
            Machine {
                memory: m.memory.update(m.registers.reg16(Reg16::HL) as int, v),
                ..advanced(m, 1)
            },
            Ok::<(), Fault>(()),
        ),
{
}

/// LDH (a8), A stores A at 0xFF00 + a8; LDH A, (a8) loads A from there.
pub proof fn law_high_page(m: Machine, n: u8)
    requires
        m.wf(),
        m.registers.pc < 0xFFFF,
        bus_read(m, m.registers.pc) == Ok::<u8, Fault>(n),
    ensures
        store_a_high(m) == (
            Machine { memory: m.memory.update(0xFF00 + n, m.registers.a), ..advanced(m, 1) },
            Ok::<(), Fault>(()),
        ),
        load_a_high(m) == (
            m.with_registers(
                m.registers.with_pc((m.registers.pc + 1) as u16).with_reg8(
                    Reg8::A,
                    m.memory[0xFF00 + n],
                ),
            ),
            Ok::<(), Fault>(()),
        ),
{
}

/// LD (a16), A stores A at the operand address; LD A, (a16) loads A from it.
pub proof fn law_direct_address(m: Machine, lo: u8, hi: u8)
    requires
        m.wf(),
        m.registers.pc < 0xFFFE,
        bus_read(m, m.registers.pc) == Ok::<u8, Fault>(lo),
        bus_read(m, (m.registers.pc + 1) as u16) == Ok::<u8, Fault>(hi),
        plain_memory(lo + 256 * hi),
    ensures
        store_a_a16(m) == (
            Machine { memory: m.memory.update(lo + 256 * hi, m.registers.a), ..advanced(m, 2) },
            Ok::<(), Fault>(()),
        ),
        load_a_a16(m) == (
            m.with_registers(
                m.registers.with_pc((m.registers.pc + 2) as u16).with_reg8(
                    Reg8::A,
                    m.memory[lo + 256 * hi],
                ),
            ),
            Ok::<(), Fault>(()),
        ),
{
}

/// AND d8 and CP d8 operate with the byte after the opcode.
pub proof fn law_alu_immediate(m: Machine, v: u8)
    requires
        m.registers.pc < 0xFFFF,
        bus_read(m, m.registers.pc) == Ok::<u8, Fault>(v),
    ensures
        alu_d8(m, 4) == set_regs(
            advanced(m, 1),
            alu_and(m.registers.with_pc((m.registers.pc + 1) as u16), v),
        ),
        alu_d8(m, 7) == set_regs(
            advanced(m, 1),
            alu_cp(m.registers.with_pc((m.registers.pc + 1) as u16), v),
        ),
{
}

// ---Stack and control flow---

/// PUSH stores the high byte at SP - 1 and the low byte at SP - 2, and SP
/// goes down by two.
pub proof fn law_push(m: Machine, v: u16)
    requires
        plain_memory(m.registers.sp - 1),
        plain_memory(m.registers.sp - 2),
    ensures
        push(m, v) == (pushed(m, v), Ok::<(), Fault>(())),
{
}

/// POP reads the low byte at SP and the high byte at SP + 1, and SP goes up
/// by two.
pub proof fn law_pop(m: Machine, lo: u8, hi: u8)
    requires
        m.registers.sp < 0xFFFE,
        bus_read(m, m.registers.sp) == Ok::<u8, Fault>(lo),
        bus_read(m, (m.registers.sp + 1) as u16) == Ok::<u8, Fault>(hi),
    ensures
        pop(m) == (
            m.with_registers(m.registers.with_reg16(Reg16::SP, (m.registers.sp + 2) as u16)),
            Ok::<u16, Fault>((lo + 256 * hi) as u16),
        ),
        pop_into(m, Reg16::BC).0.registers.reg16(Reg16::BC) == lo + 256 * hi,
        pop_into(m, Reg16::DE).0.registers.reg16(Reg16::DE) == lo + 256 * hi,
        pop_into(m, Reg16::HL).0.registers.reg16(Reg16::HL) == lo + 256 * hi,
        pop_into(m, Reg16::AF).0.registers.reg16(Reg16::AF) == lo + 256 * hi,
{
    crate::laws::law_word_bytes((lo + 256 * hi) as u16);
}

/// JR cond, e8: the offset after the opcode is always consumed; when the
/// condition holds PC moves by the signed offset from the next instruction,
/// and a target outside the signed 16-bit range is a fault.
pub proof fn law_jr(m: Machine, cond: bool, offset: u8)
    requires
        m.registers.pc < 0xFFFF,
        bus_read(m, m.registers.pc) == Ok::<u8, Fault>(offset),
    ensures
        ({
            let next = m.registers.pc + 1;
            let target = signed16(next) + signed8(offset);
            &&& !cond ==> jr(m, cond) == (advanced(m, 1), Ok::<(), Fault>(()))
            &&& cond && -0x8000 <= target <= 0x7FFF ==> jr(m, cond) == (
                m.with_registers(m.registers.with_pc(((target + 0x10000) % 0x10000) as u16)),
                Ok::<(), Fault>(()),
            )
            &&& cond && !(-0x8000 <= target <= 0x7FFF) ==> jr(m, cond) == (
                advanced(m, 1),
                Err::<(), Fault>(Fault::AddOverflow),
            )
        }),
{
}

/// JP cond, a16: the address is always consumed; PC takes it when the
/// condition holds.
pub proof fn law_jp(m: Machine, cond: bool, lo: u8, hi: u8)
    requires
        m.registers.pc < 0xFFFE,
        bus_read(m, m.registers.pc) == Ok::<u8, Fault>(lo),
        bus_read(m, (m.registers.pc + 1) as u16) == Ok::<u8, Fault>(hi),
    ensures
        cond ==> jp(m, cond) == (
            m.with_registers(m.registers.with_pc((lo + 256 * hi) as u16)),
            Ok::<(), Fault>(()),
        ),
        !cond ==> jp(m, cond) == (advanced(m, 2), Ok::<(), Fault>(())),
{
}

/// CALL cond, a16: when the condition holds, the address of the next
/// instruction is pushed and PC takes the operand; otherwise the operand is
/// skipped.
pub proof fn law_call(m: Machine, cond: bool, lo: u8, hi: u8)
    requires
        m.registers.pc < 0xFFFE,
        bus_read(m, m.registers.pc) == Ok::<u8, Fault>(lo),
        bus_read(m, (m.registers.pc + 1) as u16) == Ok::<u8, Fault>(hi),
        plain_memory(m.registers.sp - 1),
        plain_memory(m.registers.sp - 2),
    ensures
        cond ==> call(m, cond) == (
            pushed(advanced(m, 2), (m.registers.pc + 2) as u16).with_registers(
                pushed(advanced(m, 2), (m.registers.pc + 2) as u16).registers.with_pc(
                    (lo + 256 * hi) as u16,
                ),
            ),
            Ok::<(), Fault>(()),
        ),
        !cond ==> call(m, cond) == (advanced(m, 2), Ok::<(), Fault>(())),
{
}

/// RET cond: when the condition holds PC takes the value popped from the
/// stack; otherwise nothing changes.
pub proof fn law_ret(m: Machine, cond: bool, lo: u8, hi: u8)
    requires
        m.registers.sp < 0xFFFE,
        bus_read(m, m.registers.sp) == Ok::<u8, Fault>(lo),
        bus_read(m, (m.registers.sp + 1) as u16) == Ok::<u8, Fault>(hi),
    ensures
        cond ==> ret(m, cond) == (
            m.with_registers(
                m.registers.with_reg16(Reg16::SP, (m.registers.sp + 2) as u16).with_pc(
                    (lo + 256 * hi) as u16,
                ),
            ),
            Ok::<(), Fault>(()),
        ),
        !cond ==> ret(m, cond) == (m, Ok::<(), Fault>(())),
{
}

/// RST t: PC is pushed and jumps to t.
pub proof fn law_rst(m: Machine, t: u8)
    requires
        plain_memory(m.registers.sp - 1),
        plain_memory(m.registers.sp - 2),
    ensures
        rst(m, t) == (
            pushed(m, m.registers.pc).with_registers(
                pushed(m, m.registers.pc).registers.with_pc(t as u16),
            ),
            Ok::<(), Fault>(()),
        ),
{
}

/// The 0xCB prefix consumes the next byte and runs the prefixed opcode it names.
pub proof fn law_prefixed(m: Machine, op: u8)
    requires
        m.registers.pc < 0xFFFF,
        bus_read(m, m.registers.pc) == Ok::<u8, Fault>(op),
    ensures
        prefixed(m) == block_prefixed(advanced(m, 1), op),
{
}

} // verus!
