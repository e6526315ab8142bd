//! What the bus returns and changes at each address range, what the
//! header codes declare, and where each pixel of the picture comes from.
use vstd::prelude::*;

use crate::cartridge::{
    ram_banks_declared, rom_banks_declared, rom_check, rom_image, rom_loadable, rom_loaded, RomError,
};
use crate::laws_alu::bit;
use crate::machine::{bus_read, bus_write, Fault, Machine};
use crate::screen::background_pixel;

verus! {

// ---Reads---

/// Below 0x4000 the bus reads ROM bank 0, from 0x4000 to 0x7FFF the
/// selected ROM bank, from 0xA000 to 0xBFFF the selected RAM bank when RAM
/// is enabled, and the address space everywhere else; a missing bank or
/// disabled RAM is a fault.
pub proof fn law_bus_read(m: Machine, addr: u16)
    ensures
        addr < 0x4000 && m.rom_banks.len() > 0 ==> bus_read(m, addr) == Ok::<u8, Fault>(
            m.rom_banks[0]@[addr as int],
        ),
        addr < 0x4000 && m.rom_banks.len() == 0 ==> bus_read(m, addr) == Err::<u8, Fault>(
            Fault::MissingRomBank { bank: 0, count: 0 },
        ),
        0x4000 <= addr < 0x8000 && m.selected_rom_bank < m.rom_banks.len() ==> bus_read(m, addr)
            == Ok::<u8, Fault>(m.rom_banks[m.selected_rom_bank as int]@[addr - 0x4000]),
        0x4000 <= addr < 0x8000 && m.selected_rom_bank >= m.rom_banks.len() ==> bus_read(m, addr)
            == Err::<u8, Fault>(
            Fault::MissingRomBank { bank: m.selected_rom_bank, count: m.rom_banks.len() as usize },
        ),
        (0x8000 <= addr < 0xA000 || 0xC000 <= addr) ==> bus_read(m, addr) == Ok::<u8, Fault>(
            m.memory[addr as int],
        ),
        0xA000 <= addr < 0xC000 && !m.ram_enabled ==> bus_read(m, addr) == Err::<u8, Fault>(
            Fault::RamDisabled,
        ),
        0xA000 <= addr < 0xC000 && m.ram_enabled && m.selected_ram_bank < m.ram_banks.len()
            ==> bus_read(m, addr) == Ok::<u8, Fault>(
            m.ram_banks[m.selected_ram_bank as int]@[addr - 0xA000],
        ),
        0xA000 <= addr < 0xC000 && m.ram_enabled && m.selected_ram_bank >= m.ram_banks.len()
            ==> bus_read(m, addr) == Err::<u8, Fault>(
            Fault::MissingRamBank { bank: m.selected_ram_bank, count: m.ram_banks.len() as usize },
        ),
{
}

// ---Writes---

/// A write is refused exactly at 0x6000..0x7FFF with a value above 1, and
/// then changes nothing; any other write stores the byte at its address in
/// the address space.
pub proof fn law_bus_write_stores(m: Machine, addr: u16, v: u8)
    ensures
        bus_write(m, addr, v).1 is Err <==> (0x6000 <= addr < 0x8000 && v > 1),
        (0x6000 <= addr < 0x8000 && v > 1) ==> bus_write(m, addr, v) == (
            m,
            Err::<(), Fault>(Fault::InvalidBankingMode(v)),
        ),
        !(0x6000 <= addr < 0x8000 && v > 1) ==> bus_write(m, addr, v).0.memory == m.memory.update(
            addr as int,
            v,
        ),
        bus_write(m, addr, v).0.registers == m.registers,
{
}

/// Writes at or above 0x8000 leave the bank controller as it was.
pub proof fn law_bus_write_high_keeps_controller(m: Machine, addr: u16, v: u8)
    requires
        addr >= 0x8000,
    ensures
        bus_write(m, addr, v).0.selected_rom_bank == m.selected_rom_bank,
        bus_write(m, addr, v).0.selected_ram_bank == m.selected_ram_bank,
        bus_write(m, addr, v).0.ram_enabled == m.ram_enabled,
        bus_write(m, addr, v).0.rxm_mode == m.rxm_mode,
{
}

/// A write below 0x2000 enables cartridge RAM exactly when the low nibble
/// of the value is 0xA, and changes no other controller register.
pub proof fn law_bus_write_ram_enable(m: Machine, addr: u16, v: u8)
    requires
        addr < 0x2000,
    ensures
        bus_write(m, addr, v).0.ram_enabled == (v % 16 == 10),
        bus_write(m, addr, v).0.selected_rom_bank == m.selected_rom_bank,
        bus_write(m, addr, v).0.selected_ram_bank == m.selected_ram_bank,
        bus_write(m, addr, v).0.rxm_mode == m.rxm_mode,
{
    assert(v & 0x0F == v % 16) by (bit_vector);
}

/// A write to 0x2000..0x3FFF sets the low five bits of the selected ROM
/// bank (0 becoming 1) and keeps its upper bits; nothing else changes.
pub proof fn law_bus_write_rom_bank_low(m: Machine, addr: u16, v: u8)
    requires
        0x2000 <= addr < 0x4000,
    ensures
        bus_write(m, addr, v).0.selected_rom_bank % 32 == (if v % 32 == 0 {
            1
        } else {
            v % 32
        }),
        bus_write(m, addr, v).0.selected_rom_bank / 32 == (m.selected_rom_bank as u8) / 32,
        bus_write(m, addr, v).0.selected_ram_bank == m.selected_ram_bank,
        bus_write(m, addr, v).0.ram_enabled == m.ram_enabled,
        bus_write(m, addr, v).0.rxm_mode == m.rxm_mode,
{
    let old_bank = m.selected_rom_bank as u8;
    let low: u8 = if v & 0x1F == 0 {
        1
    } else {
        v & 0x1F
    };
    assert(v & 0x1F == v % 32) by (bit_vector);
    assert(((low | (old_bank & !0x1Fu8)) as usize) % 32 == low as usize && ((low | (old_bank
        & !0x1Fu8)) as usize) / 32 == old_bank / 32) by (bit_vector)
        requires
            low <= 0x1F,
    ;
}

/// A write to 0x4000..0x5FFF takes the low two bits of the value: in ROM
/// banking mode they become bits 5 and 6 of the selected ROM bank, whose low
/// five bits are kept; in RAM banking mode they select the RAM bank.
pub proof fn law_bus_write_bank_high(m: Machine, addr: u16, v: u8)
    requires
        0x4000 <= addr < 0x6000,
    ensures
        m.rxm_mode == 0 ==> bus_write(m, addr, v).0.selected_rom_bank == (v % 4) * 32 + (
        m.selected_rom_bank as u8) % 32,
        m.rxm_mode == 0 ==> bus_write(m, addr, v).0.selected_ram_bank == m.selected_ram_bank,
        m.rxm_mode != 0 ==> bus_write(m, addr, v).0.selected_ram_bank == v % 4,
        m.rxm_mode != 0 ==> bus_write(m, addr, v).0.selected_rom_bank == m.selected_rom_bank,
        bus_write(m, addr, v).0.ram_enabled == m.ram_enabled,
        bus_write(m, addr, v).0.rxm_mode == m.rxm_mode,
{
    let old_bank = m.selected_rom_bank as u8;
    let bank: u8 = v & 0x03;
    assert(bank == v % 4) by (bit_vector)
        requires
            bank == v & 0x03,
    ;
    assert(((bank << 5u8) | (old_bank & 0x1F)) as usize == (v % 4) * 32 + old_bank % 32)
        by (bit_vector)
        requires
            bank == v & 0x03,
    ;
}

/// A write of 0 or 1 to 0x6000..0x7FFF selects the banking mode.
pub proof fn law_bus_write_mode(m: Machine, addr: u16, v: u8)
    requires
        0x6000 <= addr < 0x8000,
        v <= 1,
    ensures
        bus_write(m, addr, v).0.rxm_mode == v,
        bus_write(m, addr, v).0.selected_rom_bank == m.selected_rom_bank,
        bus_write(m, addr, v).0.selected_ram_bank == m.selected_ram_bank,
        bus_write(m, addr, v).0.ram_enabled == m.ram_enabled,
{
}

// ---Cartridge header---

/// ROM-size codes 0 to 7 declare 2, 4, 8, ... banks, each code doubling the
/// one before; 0x52, 0x53 and 0x54 declare 72, 80 and 96; no other code is known.
pub proof fn law_rom_size_codes(code: u8)
    ensures
        rom_banks_declared(0) == Some(2usize),
        1 <= code < 8 ==> rom_banks_declared(code) is Some && rom_banks_declared(code)->0 == 2
            * rom_banks_declared((code - 1) as u8)->0,
        rom_banks_declared(0x52) == Some(72usize),
        rom_banks_declared(0x53) == Some(80usize),
        rom_banks_declared(0x54) == Some(96usize),
        rom_banks_declared(code) is Some <==> (code < 8 || 0x52 <= code <= 0x54),
{
}

/// RAM-size codes 0 to 3 declare no RAM, 2 KiB, 8 KiB and 32 KiB, held in
/// the fewest 8 KiB banks that fit; no other code is known.
pub proof fn law_ram_size_codes(code: u8)
    ensures
        ram_banks_declared(code) is Some <==> code <= 3,
        code <= 3 ==> ram_banks_declared(code)->0 == ((if code == 0 {
            0int
        } else if code == 1 {
            2
        } else if code == 2 {
            8
        } else {
            32
        }) + 7) / 8,
{
}

/// Each character of a ROM text gives one byte, in order: the low eight
/// bits of its code point.
pub proof fn law_rom_image(text: Seq<char>)
    ensures
        rom_image(text).len() == text.len(),
        forall|i: int| 0 <= i < text.len() ==> #[trigger] rom_image(text)[i] == text[i] as u8,
{
}

/// A ROM image can be loaded when it holds the header byte at 0x0149, its
/// size codes are known, and it fits in 16 KiB times the banks the machine
/// will have; otherwise the check names the first of these that fails.
pub proof fn law_rom_check(m: Machine, bytes: Seq<u8>)
    ensures
        rom_loadable(m, bytes) <==> (bytes.len() >= 0x14A && rom_banks_declared(bytes[0x148])
            is Some && ram_banks_declared(bytes[0x149]) is Some && bytes.len() <= 0x4000 * (
        m.rom_banks.len() + rom_banks_declared(bytes[0x148])->0)),
        rom_check(m, bytes) is Ok <==> rom_loadable(m, bytes),
        bytes.len() < 0x14A ==> rom_check(m, bytes) == Err::<(), RomError>(
            RomError::MissingHeader { len: bytes.len() as usize },
        ),
        bytes.len() >= 0x14A && rom_banks_declared(bytes[0x148]) is None ==> rom_check(m, bytes)
            == Err::<(), RomError>(RomError::UnknownRomSize(bytes[0x148])),
        bytes.len() >= 0x14A && rom_banks_declared(bytes[0x148]) is Some && ram_banks_declared(
            bytes[0x149],
        ) is None ==> rom_check(m, bytes) == Err::<(), RomError>(
            RomError::UnknownRamSize(bytes[0x149]),
        ),
        bytes.len() >= 0x14A && rom_banks_declared(bytes[0x148]) is Some && ram_banks_declared(
            bytes[0x149],
        ) is Some && !rom_loadable(m, bytes) ==> rom_check(m, bytes) == Err::<(), RomError>(
            RomError::TooLarge { len: bytes.len() as usize },
        ),
{
}

/// Loading places byte i of the image at offset i % 0x4000 of ROM bank
/// i / 0x4000; it adds the declared banks, zeroed where the image does not
/// reach; it adds zeroed RAM banks and keeps the old ones; it changes nothing else.
pub proof fn law_load_placement(before: Machine, after: Machine, bytes: Seq<u8>, b: int, o: int)
    requires
        rom_loadable(before, bytes),
        rom_loaded(before, after, bytes),
        0 <= b,
        0 <= o < 0x4000,
    ensures
        after.rom_banks.len() == before.rom_banks.len() + rom_banks_declared(bytes[0x148])->0,
        after.ram_banks.len() == before.ram_banks.len() + ram_banks_declared(bytes[0x149])->0,
        b * 0x4000 + o < bytes.len() ==> after.rom_banks[b]@[o] == bytes[b * 0x4000 + o],
        b * 0x4000 + o >= bytes.len() && b < before.rom_banks.len() ==> after.rom_banks[b]@[o]
            == before.rom_banks[b]@[o],
        b * 0x4000 + o >= bytes.len() && before.rom_banks.len() <= b < after.rom_banks.len()
            ==> after.rom_banks[b]@[o] == 0,
        b < before.ram_banks.len() ==> after.ram_banks[b] == before.ram_banks[b],
        before.ram_banks.len() <= b < after.ram_banks.len() && o < 0x2000 ==> after.ram_banks[b]@[o]
            == 0,
        after.memory == before.memory && after.registers == before.registers,
        after.selected_rom_bank == before.selected_rom_bank && after.selected_ram_bank
            == before.selected_ram_bank,
        after.ram_enabled == before.ram_enabled && after.rxm_mode == before.rxm_mode,
{
    if b * 0x4000 + o < bytes.len() {
        assert(b < after.rom_banks.len()) by (nonlinear_arith)
            requires
                b * 0x4000 + o < bytes.len(),
                bytes.len() <= after.rom_banks.len() * 0x4000,
                0 <= o,
        ;
    }
}

/// A console when switched on: every byte of the address space 0,
/// registers as the boot program leaves them (PC 0x0100, SP 0xFFFE), no
/// cartridge banks, ROM bank 1 selected, RAM bank 0, RAM disabled, ROM
/// banking mode.
pub proof fn law_power_on()
    ensures
        Machine::power_on().wf(),
        forall|i: int| 0 <= i < 0x10000 ==> #[trigger] Machine::power_on().memory[i] == 0,
        Machine::power_on().registers.reg16(crate::registers::Reg16::AF) == 0x01B0,
        Machine::power_on().registers.reg16(crate::registers::Reg16::BC) == 0x0013,
        Machine::power_on().registers.reg16(crate::registers::Reg16::DE) == 0x00D8,
        Machine::power_on().registers.reg16(crate::registers::Reg16::HL) == 0x014D,
        Machine::power_on().registers.pc == 0x0100,
        Machine::power_on().registers.sp == 0xFFFE,
        Machine::power_on().rom_banks.len() == 0,
        Machine::power_on().ram_banks.len() == 0,
        Machine::power_on().selected_rom_bank == 1,
        Machine::power_on().selected_ram_bank == 0,
        !Machine::power_on().ram_enabled,
        Machine::power_on().rxm_mode == 0,
{
}

// ---Screen---

/// The pixel at column x and row y belongs to the tile whose number is the
/// map byte at 0x9800 + 32 * (y / 8) + x / 8; its colour takes bit 7 - x % 8
/// of the tile row's two bytes, at 0x8000 + 16 * tile + 2 * (y % 8) (low
/// bit of the colour) and the byte after it (high bit).
pub proof fn law_background_pixel(memory: Seq<u8>, x: int, y: int)
    requires
        0 <= x < 256,
        0 <= y < 256,
    ensures
        ({
            let tile: int = memory[0x9800 + 32 * (y / 8) + x / 8] as int;
            let low: u8 = memory[0x8000 + 16 * tile + 2 * (y % 8)];
            let high: u8 = memory[0x8000 + 16 * tile + 2 * (y % 8) + 1];
            let k: u8 = (7 - x % 8) as u8;
            background_pixel(memory, y * 256 + x) == (if bit(low, k) {
                1int
            } else {
                0
            }) + (if bit(high, k) {
                2int
            } else {
                0
            })
        }),
{
    let i = y * 256 + x;
    assert(i % 256 == x && i / 256 == y);
    let tile: int = memory[0x9800 + 32 * (y / 8) + x / 8] as int;
    let low: u8 = memory[0x8000 + 16 * tile + 2 * (y % 8)];
    let high: u8 = memory[0x8000 + 16 * tile + 2 * (y % 8) + 1];
    let k: u8 = (7 - x % 8) as u8;
    assert(((low >> k) & 1u8) == (if bit(low, k) {
        1u8
    } else {
        0u8
    }) && (((high >> k) & 1u8) << 1u8) == (if bit(high, k) {
        2u8
    } else {
        0u8
    })) by (bit_vector);
}

} // verus!
