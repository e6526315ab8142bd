//! The console: memory, registers and cartridge banks, with the bus, the
//! processor's instructions, ROM loading and background rendering.
use vstd::prelude::*;

use crate::cartridge::{
    ram_bank_count, rom_bank_count, rom_check, rom_image, rom_loadable, rom_loaded, RomError,
    RAM_SIZE_OFFSET, ROM_SIZE_OFFSET,
};
use crate::cpu;
use crate::isa::{
    alu_add, alu_add_hl, alu_and, alu_cp, alu_cpl, alu_dec16, alu_dec8, alu_inc16, alu_inc8,
    alu_ld,
    alu_or, alu_res, alu_rotate_right_a, alu_shift_left_a, alu_swap, alu_xor, reg_from_index,
};
use crate::machine::{bus_read, bus_write, Completion, Fault, Machine};
use crate::registers::{join_bytes, split_word, Flag, Reg16, Reg8, Registers};
use crate::screen::background_pixel;

verus! {

/// The console.
pub struct Gameboy {
    memory: [u8; 0x10000],
    pub registers: Registers,
    rom_banks: Vec<[u8; 0x4000]>,
    ram_banks: Vec<[u8; 0x2000]>,
    selected_rom_bank: usize,
    selected_ram_bank: usize,
    ram_enabled: bool,
    rxm_mode: u8,
}

impl View for Gameboy {
    type V = Machine;

    closed spec fn view(&self) -> Machine {
        Machine {
            memory: self.memory@,
            registers: self.registers,
            rom_banks: self.rom_banks@,
            ram_banks: self.ram_banks@,
            selected_rom_bank: self.selected_rom_bank,
            selected_ram_bank: self.selected_ram_bank,
            ram_enabled: self.ram_enabled,
            rxm_mode: self.rxm_mode,
        }
    }
}

/// Byte `o` of ROM bank `b` once the first `upto` bytes of an image have
/// been copied into the banks of `m`.
spec fn copied_byte(m: Machine, bytes: Seq<u8>, upto: int, b: int, o: int) -> u8 {
    if b * 0x4000 + o < upto {
        bytes[b * 0x4000 + o]
    } else {
        m.rom_banks[b]@[o]
    }
}

/// The bytes of a ROM image given as text: each character's code point
/// truncated to 8 bits.
fn rom_bytes(rom: &String) -> (bytes: Vec<u8>)
    ensures
        bytes@ == rom_image(rom@),
{
    let mut bytes: Vec<u8> = Vec::new();
    for c in it: rom.as_str().chars()
        invariant
            bytes@ == rom_image(it.seq().take(it.index() as int)),
    {
        bytes.push(c as u8);
        assert(rom_image(it.seq().take(it.index() as int + 1)) =~= bytes@);
    }
    bytes
}

/// The abstract state of a console always has the full address space.
pub proof fn lemma_view_wf(g: &Gameboy)
    ensures
        g@.wf(),
{
}

impl Gameboy {
    /// A console just switched on, with no cartridge.
    pub fn new() -> (g: Gameboy)
        ensures
            g@ =~= Machine::power_on(),
    {
        Gameboy {
            memory: [0u8; 0x10000],
            registers: Registers::new(),
            rom_banks: Vec::new(),
            ram_banks: Vec::new(),
            selected_rom_bank: 1,
            selected_ram_bank: 0,
            ram_enabled: false,
            rxm_mode: 0,
        }
    }

    /// The register file.
    pub fn registers(&self) -> (r: Registers)
        ensures
            r == self@.registers,
    {
        self.registers
    }

    /// Replaces the register file.
    pub fn set_registers(&mut self, r: Registers)
        ensures
            final(self)@ == old(self)@.with_registers(r),
    {
        self.registers = r;
    }

    /// Loads a ROM image given as text, one character per byte (its code
    /// point truncated to 8 bits): the header at 0x0148 and 0x0149 says how
    /// many ROM and RAM banks to add, and the image is copied into the ROM
    /// banks from bank 0 on.
    pub fn load_rom(&mut self, rom: String)
        requires
            rom_loadable(old(self)@, rom_image(rom@)),
        ensures
            rom_loaded(old(self)@, final(self)@, rom_image(rom@)),
    {
        let bytes: Vec<u8> = rom_bytes(&rom);
        let rom_size: u8 = bytes[ROM_SIZE_OFFSET];
        let ram_size: u8 = bytes[RAM_SIZE_OFFSET];
        let rom_banks: usize = rom_bank_count(rom_size).unwrap();
        let ram_banks: usize = ram_bank_count(ram_size).unwrap();
        self.add_banks(rom_banks, ram_banks);
        self.copy_image(&bytes);
    }

    /// Tells whether `load_rom` accepts a ROM image, and if not, why.
    pub fn check_rom(&self, rom: &String) -> (r: Result<(), RomError>)
        ensures
            r == rom_check(self@, rom_image(rom@)),
            r is Ok <==> rom_loadable(self@, rom_image(rom@)),
    {
        let bytes: Vec<u8> = rom_bytes(rom);
        if bytes.len() <= RAM_SIZE_OFFSET {
            return Err(RomError::MissingHeader { len: bytes.len() });
        }
        let rom_size: u8 = bytes[ROM_SIZE_OFFSET];
        let ram_size: u8 = bytes[RAM_SIZE_OFFSET];
        let declared: usize = match rom_bank_count(rom_size) {
            None => return Err(RomError::UnknownRomSize(rom_size)),
            Some(n) => n,
        };
        if ram_bank_count(ram_size).is_none() {
            return Err(RomError::UnknownRamSize(ram_size));
        }
        let capacity: u128 = (self.rom_banks.len() as u128 + declared as u128) * 0x4000;
        if (bytes.len() as u128) <= capacity {
            Ok(())
        } else {
            Err(RomError::TooLarge { len: bytes.len() })
        }
    }

    /// Appends zeroed ROM and RAM banks.
    fn add_banks(&mut self, rom_banks: usize, ram_banks: usize)
        ensures
            final(self)@ == (Machine {
                rom_banks: final(self)@.rom_banks,
                ram_banks: final(self)@.ram_banks,
                ..old(self)@
            }),
            final(self)@.rom_banks.len() == old(self)@.rom_banks.len() + rom_banks,
            forall|b: int|
                0 <= b < old(self)@.rom_banks.len() ==> #[trigger] final(self)@.rom_banks[b]
                    == old(self)@.rom_banks[b],
            forall|b: int, o: int|
                old(self)@.rom_banks.len() <= b < final(self)@.rom_banks.len() && 0 <= o < 0x4000
                    ==> #[trigger] final(self)@.rom_banks[b]@[o] == 0,
            final(self)@.ram_banks.len() == old(self)@.ram_banks.len() + ram_banks,
            forall|b: int|
                0 <= b < old(self)@.ram_banks.len() ==> #[trigger] final(self)@.ram_banks[b]
                    == old(self)@.ram_banks[b],
            forall|b: int, o: int|
                old(self)@.ram_banks.len() <= b < final(self)@.ram_banks.len() && 0 <= o < 0x2000
                    ==> #[trigger] final(self)@.ram_banks[b]@[o] == 0,
    {
        for k in 0..rom_banks
            invariant
                self@ == (Machine { rom_banks: self@.rom_banks, ..old(self)@ }),
                self@.rom_banks.len() == old(self)@.rom_banks.len() + k,
                forall|b: int|
                    0 <= b < old(self)@.rom_banks.len() ==> #[trigger] self@.rom_banks[b]
                        == old(self)@.rom_banks[b],
                forall|b: int, o: int|
                    old(self)@.rom_banks.len() <= b < self@.rom_banks.len() && 0 <= o < 0x4000
                        ==> #[trigger] self@.rom_banks[b]@[o] == 0,
        {
            self.rom_banks.push([0u8; 0x4000]);
        }
        let ghost mid = self@;
        for k in 0..ram_banks
            invariant
                self@ == (Machine { ram_banks: self@.ram_banks, ..mid }),
                self@.ram_banks.len() == mid.ram_banks.len() + k,
                forall|b: int|
                    0 <= b < mid.ram_banks.len() ==> #[trigger] self@.ram_banks[b]
                        == mid.ram_banks[b],
                forall|b: int, o: int|
                    mid.ram_banks.len() <= b < self@.ram_banks.len() && 0 <= o < 0x2000
                        ==> #[trigger] self@.ram_banks[b]@[o] == 0,
        {
            self.ram_banks.push([0u8; 0x2000]);
        }
    }

    /// Copies an image into the ROM banks, byte `i` to offset `i % 0x4000`
    /// of bank `i / 0x4000`.
    fn copy_image(&mut self, bytes: &Vec<u8>)
        requires
            bytes@.len() <= old(self)@.rom_banks.len() * 0x4000,
        ensures
            final(self)@ == (Machine { rom_banks: final(self)@.rom_banks, ..old(self)@ }),
            final(self)@.rom_banks.len() == old(self)@.rom_banks.len(),
            forall|b: int, o: int|
                0 <= b < final(self)@.rom_banks.len() && 0 <= o < 0x4000
                    ==> #[trigger] final(self)@.rom_banks[b]@[o] == copied_byte(
                    old(self)@,
                    bytes@,
                    bytes@.len() as int,
                    b,
                    o,
                ),
    {
        for i in 0..bytes.len()
            invariant
                bytes@.len() <= old(self)@.rom_banks.len() * 0x4000,
                self@ == (Machine { rom_banks: self@.rom_banks, ..old(self)@ }),
                self@.rom_banks.len() == old(self)@.rom_banks.len(),
                forall|b: int, o: int|
                    0 <= b < self@.rom_banks.len() && 0 <= o < 0x4000
                        ==> #[trigger] self@.rom_banks[b]@[o] == copied_byte(
                        old(self)@,
                        bytes@,
                        i as int,
                        b,
                        o,
                    ),
        {
            let bank: usize = i / 0x4000;
            let offset: usize = i % 0x4000;
            self.rom_banks[bank][offset] = bytes[i];
        }
    }

    /// The background layer as a 256 x 256 picture, row after row, one
    /// 2-bit colour per byte: tile map at 0x9800, tile data at 0x8000.
    pub fn frame(&self) -> (screen: Vec<u8>)
        ensures
            screen@.len() == 0x10000,
            forall|i: int| 0 <= i < 0x10000 ==> screen@[i] == background_pixel(self@.memory, i),
    {
        let mut screen_buffer: Vec<u8> = Vec::new();
        let mut i: usize = 0;
        while i < 0x10000
            invariant
                i <= 0x10000,
                screen_buffer@.len() == i,
                forall|j: int|
                    0 <= j < i ==> screen_buffer@[j] == background_pixel(self@.memory, j),
            decreases 0x10000 - i,
        {
            let x: usize = i % 256;
            let y: usize = i / 256;
            let tile_number: u8 = self.memory[0x9800 + (y / 8) * 32 + x / 8];
            let tile_start_addr: usize = 0x8000 + tile_number as usize * 16;
            let row: usize = (y % 8) * 2;
            let lsb: u8 = self.memory[tile_start_addr + row];
            let msb: u8 = self.memory[tile_start_addr + row + 1];
            let shift: u8 = 7 - (x % 8) as u8;
            let low: u8 = (lsb >> shift) & 0x01;
            let high: u8 = ((msb >> shift) & 0x01) << 1u8;
            assert(low <= 1 && high <= 2) by (bit_vector)
                requires
                    low == (lsb >> shift) & 0x01,
                    high == ((msb >> shift) & 0x01) << 1u8,
            ;
            let color: u8 = low + high;
            screen_buffer.push(color);
            i += 1;
        }
        screen_buffer
    }

    /// Reads a byte from the bus.
    pub fn read(&self, addr: u16) -> (r: Result<u8, Fault>)
        ensures
            r == bus_read(self@, addr),
    {
        if addr < 0x4000 {
            // ROM bank 0
            if self.rom_banks.len() == 0 {
                Err(Fault::MissingRomBank { bank: 0, count: 0 })
            } else {
                Ok(self.rom_banks[0][addr as usize])
            }
        } else if addr < 0x8000 {
            // ROM bank n
            let bank = self.selected_rom_bank;
            if bank >= self.rom_banks.len() {
                Err(Fault::MissingRomBank { bank: bank, count: self.rom_banks.len() })
            } else {
                Ok(self.rom_banks[bank][(addr - 0x4000) as usize])
            }
        } else if addr < 0xA000 {
            // VRAM
            Ok(self.memory[addr as usize])
        } else if addr < 0xC000 {
            // RAM bank n
            if self.ram_enabled {
                let bank = self.selected_ram_bank;
                if bank >= self.ram_banks.len() {
                    Err(Fault::MissingRamBank { bank: bank, count: self.ram_banks.len() })
                } else {
                    Ok(self.ram_banks[bank][(addr - 0xA000) as usize])
                }
            } else {
                Err(Fault::RamDisabled)
            }
        } else {
            Ok(self.memory[addr as usize])
        }
    }

    /// Writes a byte to the bus.
    pub fn write(&mut self, addr: u16, d8: u8) -> (r: Result<(), Fault>)
        ensures
            (final(self)@, r) == bus_write(old(self)@, addr, d8),
    {
        if addr < 0x2000 {
            // RAM enable
            self.ram_enabled = (d8 & 0x0F) == 0x0A;
        } else if addr < 0x4000 {
            // low five bits of the ROM bank
            let mut bank: u8 = d8 & 0x1F;
            if bank == 0x00 {
                bank = 0x01;
            }
            let bank: u8 = bank | (self.selected_rom_bank as u8 & (!0x1Fu8));
            self.selected_rom_bank = bank as usize;
        } else if addr < 0x6000 {
            // upper two bits of the ROM bank, or the RAM bank
            let bank: u8 = d8 & 0x03;
            if self.rxm_mode == 0x00 {
                let bank: u8 = (bank << 5u8) | (self.selected_rom_bank as u8 & 0x1F);
                self.selected_rom_bank = bank as usize;
            } else {
                self.selected_ram_bank = bank as usize;
            }
        } else if addr < 0x8000 {
            // ROM/RAM banking mode
            if d8 != 0x00 && d8 != 0x01 {
                return Err(Fault::InvalidBankingMode(d8));
            } else {
                self.rxm_mode = d8;
            }
        }
        self.memory[addr as usize] = d8;
        Ok(())
    }

    /// Reads the byte at PC and advances PC.
    pub fn get_at_pc_incr(&mut self) -> (r: Result<u8, Fault>)
        ensures
            (final(self)@, r) == cpu::fetch(old(self)@),
    {
        let pc: u16 = self.registers.get_pc();
        let value: u8 = self.read(pc)?;
        if pc == 0xFFFF {
            return Err(Fault::AddOverflow);
        }
        self.registers.set_pc(pc + 1);
        Ok(value)
    }

    /// Reads the little-endian 16-bit operand at PC.
    pub fn get_next_16(&mut self) -> (r: Result<u16, Fault>)
        ensures
            (final(self)@, r) == cpu::fetch16(old(self)@),
    {
        let lo: u8 = self.get_at_pc_incr()?;
        let hi: u8 = self.get_at_pc_incr()?;
        Ok(join_bytes(hi, lo))
    }

    // ---Generalized instruction implementations---

    /// A += n
    pub fn add_a(&mut self, n: u8)
        ensures
            final(self)@ == old(self)@.with_registers(alu_add(old(self)@.registers, n)),
    {
        let a: u8 = self.registers.get_a();
        let value: u8 = a.wrapping_add(n);
        let carry: bool = (a as u16) + (n as u16) > 0xFF;
        assert((a & 0x0F) + (n & 0x0F) <= 30) by (bit_vector);
        let low_sum: u8 = (a & 0x0F) + (n & 0x0F);
        let half: bool = low_sum & 0x10 == 0x10;
        assert(half == (low_sum > 0x0F)) by (bit_vector)
            requires
                half == (low_sum & 0x10 == 0x10),
                low_sum <= 30,
        ;
        self.registers.set_a(value);
        self.registers.set_flag(Flag::Z, value == 0);
        self.registers.set_flag(Flag::N, false);
        self.registers.set_flag(Flag::H, half);
        self.registers.set_flag(Flag::C, carry);
    }

    /// HL += rr
    pub fn add_hl(&mut self, reg: Reg16)
        ensures
            final(self)@ == old(self)@.with_registers(alu_add_hl(old(self)@.registers, reg)),
    {
        let n: u16 = self.registers.get_reg_16(reg);
        let hl: u16 = self.registers.get_hl();
        let value: u16 = hl.wrapping_add(n);
        let carry: bool = (hl as u32) + (n as u32) > 0xFFFF;
        assert((hl & 0x0fff) + (n & 0x0fff) <= 0x1ffe) by (bit_vector);
        let low_sum: u16 = (hl & 0x0fff) + (n & 0x0fff);
        let half: bool = low_sum & 0x1000 == 0x1000;
        assert(half == (low_sum > 0x0fff)) by (bit_vector)
            requires
                half == (low_sum & 0x1000 == 0x1000),
                low_sum <= 0x1ffe,
        ;
        self.registers.set_hl(value);
        self.registers.set_flag(Flag::N, false);
        self.registers.set_flag(Flag::H, half);
        self.registers.set_flag(Flag::C, carry);
    }

    /// A &= n
    pub fn and(&mut self, n: u8)
        ensures
            final(self)@ == old(self)@.with_registers(alu_and(old(self)@.registers, n)),
    {
        let value: u8 = self.registers.get_a() & n;
        self.registers.set_a(value);
        self.registers.set_flag(Flag::Z, value == 0);
        self.registers.set_flag(Flag::N, false);
        self.registers.set_flag(Flag::H, true);
        self.registers.set_flag(Flag::C, false);
    }

    /// CALL cond, a16
    pub fn call(&mut self, condition: bool) -> (r: Result<(), Fault>)
        ensures
            (final(self)@, r) == cpu::call(old(self)@, condition),
    {
        let a16: u16 = self.get_next_16()?;
        if condition {
            let pc: u16 = self.registers.get_pc();
            self.push_d16(pc)?;
            self.registers.set_pc(a16);
        }
        Ok(())
    }

    /// CP n
    pub fn cp(&mut self, n: u8)
        ensures
            final(self)@ == old(self)@.with_registers(alu_cp(old(self)@.registers, n)),
    {
        let a: u8 = self.registers.get_a();
        self.registers.set_flag(Flag::Z, a == n);
        self.registers.set_flag(Flag::N, true);
        self.registers.set_flag(Flag::H, (a & 0x0F) < (n & 0x0F));
        self.registers.set_flag(Flag::C, a < n);
    }

    /// A = !A
    pub fn cpl(&mut self)
        ensures
            final(self)@ == old(self)@.with_registers(alu_cpl(old(self)@.registers)),
    {
        let a: u8 = self.registers.get_a();
        self.registers.set_a(!a);
        self.registers.set_flag(Flag::N, true);
        self.registers.set_flag(Flag::H, true);
    }

    /// DEC rr
    pub fn dec_16(&mut self, reg: Reg16)
        ensures
            final(self)@ == old(self)@.with_registers(alu_dec16(old(self)@.registers, reg)),
    {
        let value: u16 = self.registers.get_reg_16(reg);
        self.registers.set_reg_16(reg, value.wrapping_sub(1));
    }

    /// DEC r
    pub fn dec_8(&mut self, reg: Reg8)
        ensures
            final(self)@ == old(self)@.with_registers(alu_dec8(old(self)@.registers, reg)),
    {
        let mut value: u8 = self.registers.get_reg_8(reg);
        self.registers.set_flag(Flag::H, (value & 0x0F) == 0);
        if value == 0x00 {
            value = 0xFF;
        } else {
            value -= 1;
        }
        self.registers.set_reg_8(reg, value);
        self.registers.set_flag(Flag::Z, value == 0);
        self.registers.set_flag(Flag::N, true);
    }

    /// INC rr
    pub fn inc_16(&mut self, reg: Reg16)
        ensures
            final(self)@ == old(self)@.with_registers(alu_inc16(old(self)@.registers, reg)),
    {
        let value: u16 = self.registers.get_reg_16(reg);
        self.registers.set_reg_16(reg, value.wrapping_add(1));
    }

    /// INC r
    pub fn inc_8(&mut self, reg: Reg8)
        ensures
            final(self)@ == old(self)@.with_registers(alu_inc8(old(self)@.registers, reg)),
    {
        let mut value: u8 = self.registers.get_reg_8(reg);
        assert((value & 0x0F) <= 0x0F) by (bit_vector);
        let low_next: u8 = (value & 0x0F) + 1;
        let half: bool = low_next & 0x10 == 0x10;
        assert(half == ((value & 0x0F) == 0x0F)) by (bit_vector)
            requires
                half == (low_next & 0x10 == 0x10),
                low_next == (value & 0x0F) + 1,
        ;
        self.registers.set_flag(Flag::H, half);
        if value == 0xFF {
            value = 0x00;
        } else {
            value += 1;
        }
        self.registers.set_reg_8(reg, value);
        self.registers.set_flag(Flag::Z, value == 0);
        self.registers.set_flag(Flag::N, false);
    }

    /// DI and EI: the interrupt-enable register at 0xFFFF takes 0 or 1.
    pub fn interrupts_enabled(&mut self, enabled: bool) -> (r: Result<(), Fault>)
        ensures
            (final(self)@, r) == bus_write(
                old(self)@,
                0xFFFF,
                if enabled {
                    1
                } else {
                    0
                },
            ),
    {
        let value: u8 = if enabled {
            1
        } else {
            0
        };
        self.write(0xFFFF, value)
    }

    /// JP cond, a16
    pub fn jmp(&mut self, condition: bool) -> (r: Result<(), Fault>)
        ensures
            (final(self)@, r) == cpu::jp(old(self)@, condition),
    {
        let addr: u16 = self.get_next_16()?;
        if condition {
            self.registers.set_pc(addr);
        }
        Ok(())
    }

    /// JR cond, e8
    pub fn jr(&mut self, condition: bool) -> (r: Result<(), Fault>)
        ensures
            (final(self)@, r) == cpu::jr(old(self)@, condition),
    {
        let offset: u8 = self.get_at_pc_incr()?;
        if condition {
            let pc: u16 = self.registers.get_pc();
            // PC and the offset taken as signed values
            let base: i32 = if pc < 0x8000 {
                pc as i32
            } else {
                pc as i32 - 0x10000
            };
            let delta: i32 = if offset < 0x80 {
                offset as i32
            } else {
                offset as i32 - 0x100
            };
            let target: i32 = base + delta;
            if target < -0x8000 || target > 0x7FFF {
                return Err(Fault::AddOverflow);
            }
            let t: u16 = if target < 0 {
                (target + 0x10000) as u16
            } else {
                target as u16
            };
            self.registers.set_pc(t);
        }
        Ok(())
    }

    /// LD rr, d16
    pub fn ld_d16(&mut self, reg: Reg16) -> (r: Result<(), Fault>)
        ensures
            (final(self)@, r) == cpu::ld_d16(old(self)@, reg),
    {
        let d16: u16 = self.get_next_16()?;
        self.registers.set_reg_16(reg, d16);
        Ok(())
    }

    /// LD r, d8
    pub fn ld_d8(&mut self, reg: Reg8) -> (r: Result<(), Fault>)
        ensures
            (final(self)@, r) == cpu::ld_d8(old(self)@, reg),
    {
        let d8: u8 = self.get_at_pc_incr()?;
        self.registers.set_reg_8(reg, d8);
        Ok(())
    }

    /// LD dst, src
    pub fn ld_reg8(&mut self, dst: Reg8, src: Reg8)
        ensures
            final(self)@ == old(self)@.with_registers(alu_ld(old(self)@.registers, dst, src)),
    {
        let d8: u8 = self.registers.get_reg_8(src);
        self.registers.set_reg_8(dst, d8);
    }

    /// A |= n
    pub fn or(&mut self, n: u8)
        ensures
            final(self)@ == old(self)@.with_registers(alu_or(old(self)@.registers, n)),
    {
        let value: u8 = self.registers.get_a() | n;
        self.registers.set_a(value);
        self.registers.set_flag(Flag::Z, value == 0);
        self.registers.set_flag(Flag::N, false);
        self.registers.set_flag(Flag::H, false);
        self.registers.set_flag(Flag::C, false);
    }

    /// Pushes a 16-bit value on the stack.
    pub fn push_d16(&mut self, d16: u16) -> (r: Result<(), Fault>)
        ensures
            (final(self)@, r) == cpu::push(old(self)@, d16),
    {
        let sp: u16 = self.registers.get_sp();
        let (hi, lo) = split_word(d16);
        if sp == 0 {
            return Err(Fault::SubtractOverflow);
        }
        self.write(sp - 1, hi)?;
        if sp == 1 {
            return Err(Fault::SubtractOverflow);
        }
        self.write(sp - 2, lo)?;
        self.registers.set_sp(sp - 2);
        Ok(())
    }

    /// Pops a 16-bit value from the stack.
    pub fn pop_d16(&mut self) -> (r: Result<u16, Fault>)
        ensures
            (final(self)@, r) == cpu::pop(old(self)@),
    {
        let sp: u16 = self.registers.get_sp();
        let lo: u8 = self.read(sp)?;
        if sp == 0xFFFF {
            return Err(Fault::AddOverflow);
        }
        let hi: u8 = self.read(sp + 1)?;
        if sp == 0xFFFE {
            return Err(Fault::AddOverflow);
        }
        let d16: u16 = join_bytes(hi, lo);
        self.registers.set_sp(sp + 2);
        Ok(d16)
    }

    /// POP rr
    pub fn pop_d16_into(&mut self, reg: Reg16) -> (r: Result<(), Fault>)
        ensures
            (final(self)@, r) == cpu::pop_into(old(self)@, reg),
    {
        let d16: u16 = self.pop_d16()?;
        self.registers.set_reg_16(reg, d16);
        Ok(())
    }

    /// RES b, r
    pub fn res(&mut self, b: u8, reg: Reg8)
        requires
            b < 8,
        ensures
            final(self)@ == old(self)@.with_registers(alu_res(old(self)@.registers, b, reg)),
    {
        let mask: u8 = !(1u8 << b);
        let r: u8 = self.registers.get_reg_8(reg);
        self.registers.set_reg_8(reg, r & mask);
    }

    /// RET cond
    pub fn ret(&mut self, condition: bool) -> (r: Result<(), Fault>)
        ensures
            (final(self)@, r) == cpu::ret(old(self)@, condition),
    {
        if condition {
            let a16: u16 = self.pop_d16()?;
            self.registers.set_pc(a16);
        }
        Ok(())
    }

    /// RST: call a fixed address.
    pub fn rst(&mut self, offset: u8) -> (r: Result<(), Fault>)
        ensures
            (final(self)@, r) == cpu::rst(old(self)@, offset),
    {
        let pc: u16 = self.registers.get_pc();
        self.push_d16(pc)?;
        self.registers.set_pc(offset as u16);
        Ok(())
    }

    /// STOP: the processor would wait for a button; nothing happens here.
    pub fn stop(&mut self)
        ensures
            final(self)@ == old(self)@,
    {
    }

    /// SWAP r
    pub fn swap(&mut self, reg: Reg8)
        ensures
            final(self)@ == old(self)@.with_registers(alu_swap(old(self)@.registers, reg)),
    {
        let mut r: u8 = self.registers.get_reg_8(reg);
        let r_bottom: u8 = r & 0x0F;
        r >>= 4u8;
        r |= r_bottom << 4u8;
        self.registers.set_reg_8(reg, r);
    }

    /// A ^= n
    pub fn xor(&mut self, n: u8)
        ensures
            final(self)@ == old(self)@.with_registers(alu_xor(old(self)@.registers, n)),
    {
        let value: u8 = self.registers.get_a() ^ n;
        self.registers.set_a(value);
        self.registers.set_flag(Flag::Z, value == 0);
        self.registers.set_flag(Flag::N, false);
        self.registers.set_flag(Flag::H, false);
        self.registers.set_flag(Flag::C, false);
    }

    // ---Instruction forms used by `step`---

    /// LD r, (addr)
    fn load_reg(&mut self, reg: Reg8, addr: u16) -> (r: Result<(), Fault>)
        ensures
            (final(self)@, r) == cpu::load(old(self)@, reg, addr),
    {
        let d8: u8 = self.read(addr)?;
        self.registers.set_reg_8(reg, d8);
        Ok(())
    }

    /// HL + 1 or HL - 1 after an (HL+) or (HL-) access.
    fn step_hl(&mut self, hl: u16, increment: bool) -> (r: Result<(), Fault>)
        ensures
            (final(self)@, r) == cpu::hl_step(old(self)@, hl, increment),
    {
        if increment {
            if hl == 0xFFFF {
                return Err(Fault::AddOverflow);
            }
            self.registers.set_hl(hl + 1);
        } else {
            if hl == 0 {
                return Err(Fault::SubtractOverflow);
            }
            self.registers.set_hl(hl - 1);
        }
        Ok(())
    }

    /// LD (HL+), A and LD (HL-), A
    fn store_a_hl_step(&mut self, increment: bool) -> (r: Result<(), Fault>)
        ensures
            (final(self)@, r) == cpu::store_a_hl_step(old(self)@, increment),
    {
        let a: u8 = self.registers.get_a();
        let hl: u16 = self.registers.get_hl();
        self.write(hl, a)?;
        self.step_hl(hl, increment)
    }

    /// LD A, (HL+) and LD A, (HL-)
    fn load_a_hl_step(&mut self, increment: bool) -> (r: Result<(), Fault>)
        ensures
            (final(self)@, r) == cpu::load_a_hl_step(old(self)@, increment),
    {
        let hl: u16 = self.registers.get_hl();
        let d8: u8 = self.read(hl)?;
        self.registers.set_a(d8);
        self.step_hl(hl, increment)
    }

    /// LD (a16), SP: high byte first.
    fn store_sp(&mut self) -> (r: Result<(), Fault>)
        ensures
            (final(self)@, r) == cpu::store_sp(old(self)@),
    {
        let sp: u16 = self.registers.get_sp();
        let a16: u16 = self.get_next_16()?;
        let (hi, lo) = split_word(sp);
        self.write(a16, hi)?;
        if a16 == 0xFFFF {
            return Err(Fault::AddOverflow);
        }
        self.write(a16 + 1, lo)
    }

    /// LD (HL), d8
    fn store_d8_hl(&mut self) -> (r: Result<(), Fault>)
        ensures
            (final(self)@, r) == cpu::store_d8_hl(old(self)@),
    {
        let d8: u8 = self.get_at_pc_incr()?;
        let hl: u16 = self.registers.get_hl();
        self.write(hl, d8)
    }

    /// Opcode 0x07: C takes bit 7 of A, then A shifts left.
    fn shift_left_a(&mut self)
        ensures
            final(self)@ == old(self)@.with_registers(alu_shift_left_a(old(self)@.registers)),
    {
        let a: u8 = self.registers.get_a();
        self.registers.set_flag(Flag::C, a & 0x80 == 0x80);
        self.registers.set_a(a << 1u8);
    }

    /// Opcode 0x1F: A rotates right through the carry.
    fn rotate_right_a(&mut self)
        ensures
            final(self)@ == old(self)@.with_registers(alu_rotate_right_a(old(self)@.registers)),
    {
        let mut a: u8 = self.registers.get_a();
        let carry: bool = self.registers.get_flag(Flag::C);
        self.registers.set_flag(Flag::C, a & 0x01 == 0x01);
        let a0: u8 = a;
        a >>= 1u8;
        assert(a <= 0x7F) by (bit_vector)
            requires
                a == a0 >> 1u8,
        ;
        if carry {
            a += 0x80;
        }
        self.registers.set_a(a);
    }

    // ---Instruction decoding---

    /// Opcodes 0x00 to 0x3F.
    #[verifier::spinoff_prover]
    fn execute_block0(&mut self, instruction: u8) -> (r: Result<Completion, Fault>)
        requires
            instruction < 0x40,
        ensures
            (final(self)@, r) == cpu::block0(old(self)@, instruction),
    {
        match instruction {
            0x00 => {},
            0x01 => self.ld_d16(Reg16::BC)?,
            0x02 => {
                let bc: u16 = self.registers.get_bc();
                let a: u8 = self.registers.get_a();
                self.write(bc, a)?;
            },
            0x03 => self.inc_16(Reg16::BC),
            0x04 => self.inc_8(Reg8::B),
            0x05 => self.dec_8(Reg8::B),
            0x06 => self.ld_d8(Reg8::B)?,
            0x07 => self.shift_left_a(),
            0x08 => self.store_sp()?,
            0x09 => self.add_hl(Reg16::BC),
            0x0a => {
                let bc: u16 = self.registers.get_bc();
                self.load_reg(Reg8::A, bc)?;
            },
            0x0b => self.dec_16(Reg16::BC),
            0x0c => self.inc_8(Reg8::C),
            0x0d => self.dec_8(Reg8::C),
            0x0e => self.ld_d8(Reg8::C)?,
            0x10 => self.stop(),
            0x11 => self.ld_d16(Reg16::DE)?,
            0x12 => {
                let de: u16 = self.registers.get_de();
                let a: u8 = self.registers.get_a();
                self.write(de, a)?;
            },
            0x13 => self.inc_16(Reg16::DE),
            0x14 => self.inc_8(Reg8::D),
            0x15 => self.dec_8(Reg8::D),
            0x16 => self.ld_d8(Reg8::D)?,
            0x18 => self.jr(true)?,
            0x19 => self.add_hl(Reg16::DE),
            0x1a => {
                let de: u16 = self.registers.get_de();
                self.load_reg(Reg8::A, de)?;
            },
            0x1b => self.dec_16(Reg16::DE),
            0x1c => self.inc_8(Reg8::E),
            0x1d => self.dec_8(Reg8::E),
            0x1e => self.ld_d8(Reg8::E)?,
            0x1f => self.rotate_right_a(),
            0x20 => {
                let z: bool = self.registers.get_flag(Flag::Z);
                self.jr(!z)?;
            },
            0x21 => self.ld_d16(Reg16::HL)?,
            0x22 => self.store_a_hl_step(true)?,
            0x23 => self.inc_16(Reg16::HL),
            0x24 => self.inc_8(Reg8::H),
            0x25 => self.dec_8(Reg8::H),
            0x26 => self.ld_d8(Reg8::H)?,
            0x28 => {
                let z: bool = self.registers.get_flag(Flag::Z);
                self.jr(z)?;
            },
            0x29 => self.add_hl(Reg16::HL),
            0x2a => self.load_a_hl_step(true)?,
            0x2b => self.dec_16(Reg16::HL),
            0x2c => self.inc_8(Reg8::L),
            0x2d => self.inc_8(Reg8::L),
            0x2e => self.ld_d8(Reg8::L)?,
            0x2f => self.cpl(),
            0x30 => {
                let c: bool = self.registers.get_flag(Flag::C);
                self.jr(!c)?;
            },
            0x31 => self.ld_d16(Reg16::SP)?,
            0x32 => self.store_a_hl_step(false)?,
            0x33 => self.inc_16(Reg16::SP),
            0x36 => self.store_d8_hl()?,
            0x38 => {
                let c: bool = self.registers.get_flag(Flag::C);
                self.jr(c)?;
            },
            0x39 => self.add_hl(Reg16::SP),
            0x3a => self.load_a_hl_step(false)?,
            0x3b => self.dec_16(Reg16::SP),
            0x3c => self.inc_8(Reg8::A),
            0x3d => self.dec_8(Reg8::A),
            0x3e => self.ld_d8(Reg8::A)?,
            _ => return Ok(Completion::Unimplemented(instruction)),
        }
        Ok(Completion::Running)
    }

    /// Opcodes 0x40 to 0x7F: loads between registers and (HL), and HALT.
    fn execute_load(&mut self, instruction: u8) -> (r: Result<Completion, Fault>)
        requires
            0x40 <= instruction < 0x80,
        ensures
            (final(self)@, r) == cpu::block_load(old(self)@, instruction),
    {
        if instruction == 0x76 {
            return Ok(Completion::Halted);
        }
        let dst: u8 = (instruction - 0x40) / 8;
        let src: u8 = instruction % 8;
        if src == 6 {
            let hl: u16 = self.registers.get_hl();
            self.load_reg(reg_from_index(dst), hl)?;
        } else if dst == 6 {
            let value: u8 = self.registers.get_reg_8(reg_from_index(src));
            let hl: u16 = self.registers.get_hl();
            self.write(hl, value)?;
        } else {
            self.ld_reg8(reg_from_index(dst), reg_from_index(src));
        }
        Ok(Completion::Running)
    }

    /// Opcodes 0x80 to 0xBF: arithmetic and logic with A.
    fn execute_alu(&mut self, instruction: u8) -> (r: Result<Completion, Fault>)
        requires
            0x80 <= instruction < 0xC0,
        ensures
            (final(self)@, r) == cpu::block_alu(old(self)@, instruction),
    {
        let group: u8 = (instruction - 0x80) / 8;
        let src: u8 = instruction % 8;
        if group == 1 || group == 2 || group == 3 {
            return Ok(Completion::Unimplemented(instruction));
        }
        let n: u8 = if src == 6 {
            let hl: u16 = self.registers.get_hl();
            self.read(hl)?
        } else {
            self.registers.get_reg_8(reg_from_index(src))
        };
        match group {
            0 => self.add_a(n),
            4 => self.and(n),
            5 => self.xor(n),
            6 => self.or(n),
            _ => self.cp(n),
        }
        Ok(Completion::Running)
    }

    /// Opcodes after the 0xCB prefix.
    fn execute_prefixed(&mut self, instruction: u8) -> (r: Result<Completion, Fault>)
        ensures
            (final(self)@, r) == cpu::block_prefixed(old(self)@, instruction),
    {
        let src: u8 = instruction % 8;
        if 0x30 <= instruction && instruction < 0x38 {
            if src == 6 {
                let hl: u16 = self.registers.get_hl();
                let mut r: u8 = self.read(hl)?;
                let r_bottom: u8 = r & 0x0F;
                r >>= 4u8;
                r |= r_bottom << 4u8;
                self.write(hl, r)?;
            } else {
                self.swap(reg_from_index(src));
            }
        } else if 0x80 <= instruction && instruction < 0xC0 {
            let b: u8 = if instruction == 0x87 {
                1
            } else {
                (instruction - 0x80) / 8
            };
            if src == 6 {
                let hl: u16 = self.registers.get_hl();
                let d8: u8 = self.read(hl)?;
                let mask: u8 = !(1u8 << b);
                self.write(hl, d8 & mask)?;
            } else {
                self.res(b, reg_from_index(src));
            }
        } else {
            return Ok(Completion::UnimplementedPrefixed(instruction));
        }
        Ok(Completion::Running)
    }

    /// Opcodes 0xC0 to 0xFF.
    #[verifier::spinoff_prover]
    fn execute_block3(&mut self, instruction: u8) -> (r: Result<Completion, Fault>)
        requires
            0xC0 <= instruction,
        ensures
            (final(self)@, r) == cpu::block3(old(self)@, instruction),
    {
        match instruction {
            0xc0 => {
                let z: bool = self.registers.get_flag(Flag::Z);
                self.ret(!z)?;
            },
            0xc1 => self.pop_d16_into(Reg16::BC)?,
            0xc2 => {
                let z: bool = self.registers.get_flag(Flag::Z);
                self.jmp(!z)?;
            },
            0xc3 => self.jmp(true)?,
            0xc5 => {
                let bc: u16 = self.registers.get_bc();
                self.push_d16(bc)?;
            },
            0xc7 => self.rst(0x00)?,
            0xc8 => {
                let z: bool = self.registers.get_flag(Flag::Z);
                self.ret(z)?;
            },
            0xc9 => self.ret(true)?,
            0xca => {
                let z: bool = self.registers.get_flag(Flag::Z);
                self.jmp(z)?;
            },
            0xcb => {
                let prefixed_instruction: u8 = self.get_at_pc_incr()?;
                return self.execute_prefixed(prefixed_instruction);
            },
            0xcd => self.call(true)?,
            0xcf => self.rst(0x08)?,
            0xd0 => {
                let c: bool = self.registers.get_flag(Flag::C);
                self.ret(!c)?;
            },
            0xd1 => self.pop_d16_into(Reg16::DE)?,
            0xd2 => {
                let c: bool = self.registers.get_flag(Flag::C);
                self.jmp(!c)?;
            },
            0xd5 => {
                let de: u16 = self.registers.get_de();
                self.push_d16(de)?;
            },
            0xd7 => self.rst(0x10)?,
            0xd8 => {
                let c: bool = self.registers.get_flag(Flag::C);
                self.ret(c)?;
            },
            0xda => {
                let c: bool = self.registers.get_flag(Flag::C);
                self.jmp(c)?;
            },
            0xdf => self.rst(0x18)?,
            0xe0 => {
                // (0xFF00 + n) <- A
                let offset: u8 = self.get_at_pc_incr()?;
                let a: u8 = self.registers.get_a();
                self.write(0xFF00 + offset as u16, a)?;
            },
            0xe1 => self.pop_d16_into(Reg16::HL)?,
            0xe2 => {
                let c: u8 = self.registers.get_c();
                let a: u8 = self.registers.get_a();
                self.write(0xFF00 + c as u16, a)?;
            },
            0xe5 => {
                let hl: u16 = self.registers.get_hl();
                self.push_d16(hl)?;
            },
            0xe6 => {
                let d8: u8 = self.get_at_pc_incr()?;
                self.and(d8);
            },
            0xe7 => self.rst(0x20)?,
            0xe9 => {
                let hl: u16 = self.registers.get_hl();
                self.registers.set_pc(hl);
            },
            0xea => {
                // (a16) <- A
                let addr: u16 = self.get_next_16()?;
                let a: u8 = self.registers.get_a();
                self.write(addr, a)?;
            },
            0xef => self.rst(0x28)?,
            0xf0 => {
                let a8: u8 = self.get_at_pc_incr()?;
                self.load_reg(Reg8::A, 0xFF00 + a8 as u16)?;
            },
            0xf1 => self.pop_d16_into(Reg16::AF)?,
            0xf3 => self.interrupts_enabled(false)?,
            0xf5 => {
                let af: u16 = self.registers.get_af();
                self.push_d16(af)?;
            },
            0xf7 => self.rst(0x30)?,
            0xfa => {
                let a16: u16 = self.get_next_16()?;
                self.load_reg(Reg8::A, a16)?;
            },
            0xfb => self.interrupts_enabled(true)?,
            0xfe => {
                let d8: u8 = self.get_at_pc_incr()?;
                self.cp(d8);
            },
            0xff => self.rst(0x38)?,
            _ => return Ok(Completion::Unimplemented(instruction)),
        }
        Ok(Completion::Running)
    }

    /// Executes one instruction: the opcode at PC is fetched and run.
    /// The result says whether execution goes on (`Running`), stopped at
    /// HALT, or met an opcode that is not implemented; a `Fault` says why
    /// the hardware could not go on, and the machine is left as it was at
    /// that point.
    pub fn step(&mut self) -> (r: Result<Completion, Fault>)
        ensures
            (final(self)@, r) == cpu::step(old(self)@),
    {
        let instruction: u8 = self.get_at_pc_incr()?;
        if instruction < 0x40 {
            self.execute_block0(instruction)
        } else if instruction < 0x80 {
            self.execute_load(instruction)
        } else if instruction < 0xC0 {
            self.execute_alu(instruction)
        } else {
            self.execute_block3(instruction)
        }
    }
}

} // verus!
