//! Properties that hold across the operations of the console.
use vstd::prelude::*;

use crate::cartridge::{rom_loadable, rom_loaded};
use crate::cpu::{
    alu_d8, block0, block3, block_alu, block_load, block_prefixed, call, done, execute, fetch,
    fetch16, hl_step, jp, jr, ld_d16, ld_d8, load, load_a_a16, load_a_high, load_a_hl_step,
    pop, pop_into, prefixed, push, ret, rst, set_regs, step, store_a_a16, store_a_high,
    store_a_hl_step, store_d8_hl, store_sp,
};
use crate::isa::{alu_cpl, alu_dec16, alu_dec8, alu_inc16, alu_inc8, reset_bit, swap_nibbles};
use crate::machine::{bus_read, bus_write, Fault, Machine, Outcome};
use crate::registers::{high_byte, low_byte, word, Flag, Reg16, Reg8, Registers};
use crate::screen::background_pixel;

verus! {

/// An address whose byte lives in the console's own address space for both
/// reads and writes: at or above 0x8000, outside the cartridge RAM window.
pub open spec fn plain_memory(addr: int) -> bool {
    0x8000 <= addr <= 0xFFFF && !(0xA000 <= addr < 0xC000)
}

// ---Register file---

/// Writing an 8-bit register and reading it back gives the value written;
/// the other 8-bit registers, SP, PC and the flags are kept.
pub proof fn law_reg8_write_read(r: Registers, reg: Reg8, other: Reg8, v: u8)
    ensures
        r.with_reg8(reg, v).reg8(reg) == v,
        other != reg ==> r.with_reg8(reg, v).reg8(other) == r.reg8(other),
        r.with_reg8(reg, v).f == r.f,
        r.with_reg8(reg, v).sp == r.sp,
        r.with_reg8(reg, v).pc == r.pc,
{
}

/// Splitting a 16-bit value into its bytes and joining them gives it back.
pub proof fn law_word_bytes(v: u16)
    ensures
        word(high_byte(v), low_byte(v)) == v,
{
}

/// Writing a 16-bit register and reading it back gives the value written;
/// the other 16-bit registers and PC are kept.
pub proof fn law_reg16_write_read(r: Registers, reg: Reg16, other: Reg16, v: u16)
    ensures
        r.with_reg16(reg, v).reg16(reg) == v,
        other != reg ==> r.with_reg16(reg, v).reg16(other) == r.reg16(other),
        r.with_reg16(reg, v).pc == r.pc,
{
    law_word_bytes(v);
}

/// Setting or clearing a flag and reading it back gives the value written;
/// the other flags, and every register but F, are kept.
pub proof fn law_flag_write_read(r: Registers, flag: Flag, other: Flag, v: bool)
    ensures
        r.with_flag(flag, v).flag(flag) == v,
        other != flag ==> r.with_flag(flag, v).flag(other) == r.flag(other),
        r.with_flag(flag, v) == (Registers { f: r.with_flag(flag, v).f, ..r }),
{
    let f = r.f;
    let m = crate::registers::flag_mask(flag);
    let n = crate::registers::flag_mask(other);
    assert((m == 0x80u8 || m == 0x40u8 || m == 0x20u8 || m == 0x10u8) && (n == 0x80u8 || n
        == 0x40u8 || n == 0x20u8 || n == 0x10u8));
    assert({
        &&& (f | m) & m != 0
        &&& (f & !m) & m == 0
        &&& (m != n ==> (((f | m) & n != 0) == (f & n != 0)))
        &&& (m != n ==> (((f & !m) & n != 0) == (f & n != 0)))
    }) by (bit_vector)
        requires
            m == 0x80u8 || m == 0x40u8 || m == 0x20u8 || m == 0x10u8,
            n == 0x80u8 || n == 0x40u8 || n == 0x20u8 || n == 0x10u8,
    ;
}

// ---Instructions on registers---

/// SWAP undoes itself.
pub proof fn law_swap_involution(x: u8)
    ensures
        swap_nibbles(swap_nibbles(x)) == x,
{
    assert(((((x >> 4u8) | ((x & 0x0F) << 4u8)) >> 4u8) | ((((x >> 4u8) | ((x & 0x0F) << 4u8))
        & 0x0F) << 4u8)) == x) by (bit_vector);
}

/// CPL undoes itself on A.
pub proof fn law_cpl_involution(r: Registers)
    ensures
        alu_cpl(alu_cpl(r)).a == r.a,
{
    let a = r.a;
    assert(!(!a) == a) by (bit_vector);
}

/// INC followed by DEC on the same register, or DEC followed by INC, gives
/// the register its value back.
pub proof fn law_inc_dec_inverse(r: Registers, reg: Reg8)
    ensures
        alu_dec8(alu_inc8(r, reg), reg).reg8(reg) == r.reg8(reg),
        alu_inc8(alu_dec8(r, reg), reg).reg8(reg) == r.reg8(reg),
{
}

/// INC rr followed by DEC rr, or DEC rr followed by INC rr, gives the
/// register its value back; 0xFFFF and 0 wrap into each other.
pub proof fn law_inc16_dec16_inverse(r: Registers, reg: Reg16)
    ensures
        alu_dec16(alu_inc16(r, reg), reg).reg16(reg) == r.reg16(reg),
        alu_inc16(alu_dec16(r, reg), reg).reg16(reg) == r.reg16(reg),
        alu_inc16(r, reg).reg16(reg) == (if r.reg16(reg) == 0xFFFF { 0 } else { r.reg16(reg) + 1 }),
        alu_dec16(r, reg).reg16(reg) == (if r.reg16(reg) == 0 { 0xFFFF } else { r.reg16(reg) - 1 }),
{
    let v = r.reg16(reg);
    let up = ((v + 1) % 0x10000) as u16;
    let down = ((v + 0xFFFF) % 0x10000) as u16;
    law_reg16_write_read(r, reg, reg, up);
    law_reg16_write_read(r, reg, reg, down);
    law_reg16_write_read(alu_inc16(r, reg), reg, reg, ((up + 0xFFFF) % 0x10000) as u16);
    law_reg16_write_read(alu_dec16(r, reg), reg, reg, ((down + 1) % 0x10000) as u16);
}

/// RES b clears bit b and keeps every other bit.
pub proof fn law_reset_bit(x: u8, b: u8, k: u8)
    requires
        b < 8,
        k < 8,
    ensures
        (reset_bit(x, b) >> b) & 1 == 0,
        k != b ==> (reset_bit(x, b) >> k) & 1 == (x >> k) & 1,
{
    assert((x & !(1u8 << b)) >> b & 1 == 0) by (bit_vector)
        requires
            b < 8,
    ;
    assert(k != b ==> ((x & !(1u8 << b)) >> k) & 1 == (x >> k) & 1) by (bit_vector)
        requires
            b < 8,
            k < 8,
    ;
}

// ---Memory bus---

/// A write to the console's own memory is never refused, leaves the bank
/// controller and the cartridge banks as they were, and a read of the same
/// address gives the byte back.
pub proof fn law_read_after_write(m: Machine, addr: u16, v: u8)
    requires
        m.wf(),
        plain_memory(addr as int),
    ensures
        bus_write(m, addr, v).1 is Ok,
        bus_write(m, addr, v).0 == (Machine { memory: m.memory.update(addr as int, v), ..m }),
        bus_read(bus_write(m, addr, v).0, addr) == Ok::<u8, Fault>(v),
{
}

/// No write changes the cartridge's ROM or RAM banks, nor the registers.
pub proof fn law_write_keeps_banks(m: Machine, addr: u16, v: u8)
    ensures
        bus_write(m, addr, v).0.rom_banks == m.rom_banks,
        bus_write(m, addr, v).0.ram_banks == m.ram_banks,
        bus_write(m, addr, v).0.registers == m.registers,
{
}

/// The ROM cannot be written through the bus: after any write, every
/// address below 0x4000 (ROM bank 0) reads as it did before.
pub proof fn law_rom_bank0_read_only(m: Machine, addr: u16, v: u8, at: u16)
    requires
        at < 0x4000,
    ensures
        bus_read(bus_write(m, addr, v).0, at) == bus_read(m, at),
{
}

/// A write to 0x2000..0x3FFF never selects a ROM bank whose low five bits
/// are zero: those take the written value's low five bits, 0 becoming 1.
pub proof fn law_rom_bank_low_bits(m: Machine, addr: u16, v: u8)
    requires
        0x2000 <= addr < 0x4000,
    ensures
        bus_write(m, addr, v).0.selected_rom_bank % 32 == (if v % 32 == 0 {
            1
        } else {
            v % 32
        }),
{
    let old_bank = m.selected_rom_bank as u8;
    let low: u8 = if v & 0x1F == 0 {
        1
    } else {
        v & 0x1F
    };
    assert(v & 0x1F == v % 32) by (bit_vector);
    assert(((low | (old_bank & !0x1Fu8)) as usize) % 32 == low as usize) by (bit_vector)
        requires
            low <= 0x1F,
    ;
}

// ---Stack---

/// Pushing a value and popping right after gives the value back and
/// restores SP, when both stack bytes lie in the console's own memory.
pub proof fn law_push_pop(m: Machine, v: u16)
    requires
        m.wf(),
        plain_memory(m.registers.sp - 1),
        plain_memory(m.registers.sp - 2),
    ensures
        push(m, v).1 is Ok,
        pop(push(m, v).0).1 == Ok::<u16, Fault>(v),
        pop(push(m, v).0).0.registers == m.registers,
{
    law_word_bytes(v);
}

/// A CALL that completes, followed by a RET, resumes right after the
/// CALL's 16-bit operand with SP restored, when the stack bytes lie in the
/// console's own memory (`m` is the state once the CALL opcode is fetched).
pub proof fn law_call_ret(m: Machine)
    requires
        m.wf(),
        call(m, true).1 is Ok,
        plain_memory(m.registers.sp - 1),
        plain_memory(m.registers.sp - 2),
    ensures
        ret(call(m, true).0, true).1 is Ok,
        ret(call(m, true).0, true).0.registers.pc == m.registers.pc + 2,
        ret(call(m, true).0, true).0.registers.sp == m.registers.sp,
{
    let m2 = fetch(fetch(m).0).0;
    law_push_pop(m2, m2.registers.pc);
}

// ---The program cannot change the cartridge---

/// The cartridge banks of two states are the same.
pub open spec fn same_cartridge(a: Machine, b: Machine) -> bool {
    a.rom_banks == b.rom_banks && a.ram_banks == b.ram_banks
}

broadcast proof fn lemma_write_cartridge(m: Machine, addr: u16, v: u8)
    ensures
        same_cartridge(#[trigger] bus_write(m, addr, v).0, m),
{
}

broadcast proof fn lemma_fetch_cartridge(m: Machine)
    ensures
        same_cartridge(#[trigger] fetch(m).0, m),
{
}

broadcast proof fn lemma_fetch16_cartridge(m: Machine)
    ensures
        same_cartridge(#[trigger] fetch16(m).0, m),
{
    lemma_fetch_cartridge(m);
    lemma_fetch_cartridge(fetch(m).0);
}

broadcast proof fn lemma_push_cartridge(m: Machine, v: u16)
    ensures
        same_cartridge(#[trigger] push(m, v).0, m),
{
    broadcast use lemma_write_cartridge;

}

broadcast proof fn lemma_pop_cartridge(m: Machine)
    ensures
        same_cartridge(#[trigger] pop(m).0, m),
{
}

broadcast proof fn lemma_done_cartridge(o: Outcome<()>)
    ensures
        (#[trigger] done(o)).0 == o.0,
{
}

broadcast proof fn lemma_set_regs_cartridge(m: Machine, r: Registers)
    ensures
        same_cartridge(#[trigger] set_regs(m, r).0, m),
{
}

broadcast proof fn lemma_forms_cartridge(m: Machine, reg16: Reg16, reg8: Reg8, addr: u16, b: bool, t: u8)
    ensures
        same_cartridge(#[trigger] ld_d16(m, reg16).0, m),
        same_cartridge(#[trigger] ld_d8(m, reg8).0, m),
        same_cartridge(#[trigger] load(m, reg8, addr).0, m),
        same_cartridge(#[trigger] hl_step(m, addr, b).0, m),
        same_cartridge(#[trigger] store_a_hl_step(m, b).0, m),
        same_cartridge(#[trigger] load_a_hl_step(m, b).0, m),
        same_cartridge(#[trigger] store_sp(m).0, m),
        same_cartridge(#[trigger] store_d8_hl(m).0, m),
        same_cartridge(#[trigger] jr(m, b).0, m),
        same_cartridge(#[trigger] jp(m, b).0, m),
        same_cartridge(#[trigger] call(m, b).0, m),
        same_cartridge(#[trigger] ret(m, b).0, m),
        same_cartridge(#[trigger] rst(m, t).0, m),
        same_cartridge(#[trigger] pop_into(m, reg16).0, m),
        same_cartridge(#[trigger] store_a_high(m).0, m),
        same_cartridge(#[trigger] load_a_high(m).0, m),
        same_cartridge(#[trigger] store_a_a16(m).0, m),
        same_cartridge(#[trigger] load_a_a16(m).0, m),
        same_cartridge(#[trigger] alu_d8(m, t).0, m),
{
    broadcast use {
        lemma_write_cartridge,
        lemma_fetch_cartridge,
        lemma_fetch16_cartridge,
        lemma_push_cartridge,
        lemma_pop_cartridge,
    };

}

broadcast group group_cartridge_kept {
    lemma_write_cartridge,
    lemma_fetch_cartridge,
    lemma_fetch16_cartridge,
    lemma_push_cartridge,
    lemma_pop_cartridge,
    lemma_done_cartridge,
    lemma_set_regs_cartridge,
    lemma_forms_cartridge,
}

proof fn lemma_block0_low_cartridge(m: Machine, op: u8)
    requires
        op < 0x20,
    ensures
        same_cartridge(block0(m, op).0, m),
{
    broadcast use group_cartridge_kept;

}

proof fn lemma_block0_high_cartridge(m: Machine, op: u8)
    requires
        op >= 0x20,
    ensures
        same_cartridge(block0(m, op).0, m),
{
    broadcast use group_cartridge_kept;

}

proof fn lemma_block0_cartridge(m: Machine, op: u8)
    ensures
        same_cartridge(block0(m, op).0, m),
{
    if op < 0x20 {
        lemma_block0_low_cartridge(m, op);
    } else {
        lemma_block0_high_cartridge(m, op);
    }
}

proof fn lemma_block_load_cartridge(m: Machine, op: u8)
    ensures
        same_cartridge(block_load(m, op).0, m),
{
    broadcast use group_cartridge_kept;

}

proof fn lemma_block_alu_cartridge(m: Machine, op: u8)
    ensures
        same_cartridge(block_alu(m, op).0, m),
{
    broadcast use group_cartridge_kept;

}

proof fn lemma_block_prefixed_cartridge(m: Machine, op: u8)
    ensures
        same_cartridge(block_prefixed(m, op).0, m),
{
    broadcast use group_cartridge_kept;

}

broadcast proof fn lemma_prefixed_cartridge(m: Machine)
    ensures
        same_cartridge(#[trigger] prefixed(m).0, m),
{
    lemma_fetch_cartridge(m);
    if let Ok(op2) = fetch(m).1 {
        lemma_block_prefixed_cartridge(fetch(m).0, op2);
    }
}

proof fn lemma_block3_c_cartridge(m: Machine, op: u8)
    requires
        op < 0xd0,
    ensures
        same_cartridge(block3(m, op).0, m),
{
    broadcast use {group_cartridge_kept, lemma_prefixed_cartridge};

}

proof fn lemma_block3_d_cartridge(m: Machine, op: u8)
    requires
        0xd0 <= op < 0xe0,
    ensures
        same_cartridge(block3(m, op).0, m),
{
    broadcast use group_cartridge_kept;

}

proof fn lemma_block3_e_cartridge(m: Machine, op: u8)
    requires
        0xe0 <= op < 0xf0,
    ensures
        same_cartridge(block3(m, op).0, m),
{
    broadcast use group_cartridge_kept;

}

proof fn lemma_block3_f_cartridge(m: Machine, op: u8)
    requires
        0xf0 <= op,
    ensures
        same_cartridge(block3(m, op).0, m),
{
    broadcast use group_cartridge_kept;

}

proof fn lemma_block3_cartridge(m: Machine, op: u8)
    ensures
        same_cartridge(block3(m, op).0, m),
{
    if op < 0xd0 {
        lemma_block3_c_cartridge(m, op);
    } else if op < 0xe0 {
        lemma_block3_d_cartridge(m, op);
    } else if op < 0xf0 {
        lemma_block3_e_cartridge(m, op);
    } else {
        lemma_block3_f_cartridge(m, op);
    }
}

/// Executing an opcode never changes the cartridge's ROM or RAM banks.
proof fn lemma_execute_cartridge(m: Machine, op: u8)
    ensures
        same_cartridge(execute(m, op).0, m),
{
    if op < 0x40 {
        lemma_block0_cartridge(m, op);
    } else if op < 0x80 {
        lemma_block_load_cartridge(m, op);
    } else if op < 0xC0 {
        lemma_block_alu_cartridge(m, op);
    } else {
        lemma_block3_cartridge(m, op);
    }
}

/// A step of the processor never changes the cartridge's ROM or RAM banks:
/// the program can select banks but cannot write into them.
pub proof fn law_step_keeps_cartridge(m: Machine)
    ensures
        same_cartridge(step(m).0, m),
{
    lemma_fetch_cartridge(m);
    if let Ok(op) = fetch(m).1 {
        lemma_execute_cartridge(fetch(m).0, op);
    }
}

// ---Cartridge---

/// After a ROM image is loaded into a console that has ROM bank 1
/// selected and no ROM banks yet, every byte of the image below 0x8000
/// reads back through the bus at its own address.
pub proof fn law_load_then_read(before: Machine, after: Machine, bytes: Seq<u8>, addr: u16)
    requires
        rom_loadable(before, bytes),
        rom_loaded(before, after, bytes),
        before.rom_banks.len() == 0,
        before.selected_rom_bank == 1,
        addr < 0x8000,
        addr < bytes.len(),
    ensures
        bus_read(after, addr) == Ok::<u8, Fault>(bytes[addr as int]),
{
    if addr < 0x4000 {
        assert(after.rom_banks[0]@[addr as int] == bytes[addr as int]);
    } else {
        assert(after.rom_banks[1]@[addr - 0x4000] == bytes[addr as int]);
    }
}

// ---Screen---

/// Every pixel of the background picture is one of the four colours 0 to 3.
pub proof fn law_pixel_colour(memory: Seq<u8>, i: int)
    ensures
        0 <= background_pixel(memory, i) <= 3,
{
    let x = i % 256;
    let y = i / 256;
    let tile_number = memory[0x9800 + (y / 8) * 32 + x / 8];
    let start = 0x8000 + tile_number * 16;
    let row = (y % 8) * 2;
    let lsb = memory[start + row];
    let msb = memory[start + row + 1];
    let shift: u8 = (7 - ((x % 8) as u8)) as u8;
    assert(((lsb >> shift) & 1u8) <= 1 && (((msb >> shift) & 1u8) << 1u8) <= 2) by (bit_vector);
}

} // verus!
