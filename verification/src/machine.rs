//! The abstract state of the console and the behaviour of its memory bus:
//! what a read returns and what a write changes, bank controller included.
use vstd::prelude::*;

use crate::registers::Registers;

verus! {

/// Size of one switchable ROM bank.
pub const ROM_BANK_SIZE: usize = 0x4000;

/// Size of one switchable cartridge RAM bank.
pub const RAM_BANK_SIZE: usize = 0x2000;

/// Why the machine could not go on: every condition under which the
/// emulated hardware has no defined behaviour is reported as one of these.
#[derive(Clone, Copy, Debug, PartialEq, Eq, Structural)]
pub enum Fault {
    /// A read from a ROM bank the cartridge does not have.
    MissingRomBank { bank: usize, count: usize },
    /// A read from a RAM bank the cartridge does not have.
    MissingRamBank { bank: usize, count: usize },
    /// A read from cartridge RAM while it is disabled.
    RamDisabled,
    /// A write to the banking-mode register of a value other than 0 or 1.
    InvalidBankingMode(u8),
    /// A 16-bit address or register computation above its range.
    AddOverflow,
    /// A 16-bit address or register computation below zero.
    SubtractOverflow,
}

/// How an instruction ended when it did not fault.
#[derive(Clone, Copy, Debug, PartialEq, Eq, Structural)]
pub enum Completion {
    /// The instruction ran; execution goes on.
    Running,
    /// HALT was executed.
    Halted,
    /// The opcode is not implemented; it is given.
    Unimplemented(u8),
    /// The opcode after the 0xCB prefix is not implemented; it is given.
    UnimplementedPrefixed(u8),
}

impl Completion {
    /// Whether execution goes on after this instruction.
    pub fn keeps_running(&self) -> (r: bool)
        ensures
            r == (*self is Running),
    {
        match self {
            Completion::Running => true,
            _ => false,
        }
    }
}

/// The whole observable state of the console.
#[verifier::ext_equal]
pub struct Machine {
    /// The 64 KiB address space behind the bus (VRAM, work RAM, I/O, ...).
    pub memory: Seq<u8>,
    pub registers: Registers,
    pub rom_banks: Seq<[u8; 0x4000]>,
    pub ram_banks: Seq<[u8; 0x2000]>,
    pub selected_rom_bank: usize,
    pub selected_ram_bank: usize,
    pub ram_enabled: bool,
    /// Banking mode: 0 selects ROM banking, 1 RAM banking.
    pub rxm_mode: u8,
}

/// What a step of the machine leaves behind: the state reached, and the
/// result, or the fault that stopped it in that state.
pub type Outcome<T> = (Machine, Result<T, Fault>);

impl Machine {
    /// The address space has its full size.
    pub open spec fn wf(self) -> bool {
        self.memory.len() == 0x10000
    }

    /// The machine when it is switched on: zeroed memory, registers as the
    /// boot program leaves them, no cartridge banks, ROM bank 1 selected,
    /// cartridge RAM disabled, ROM banking mode.
    pub open spec fn power_on() -> Machine {
        Machine {
            memory: Seq::new(0x10000, |i: int| 0u8),
            registers: Registers::post_boot(),
            rom_banks: Seq::empty(),
            ram_banks: Seq::empty(),
            selected_rom_bank: 1,
            selected_ram_bank: 0,
            ram_enabled: false,
            rxm_mode: 0,
        }
    }

    pub open spec fn with_registers(self, registers: Registers) -> Machine {
        Machine { registers: registers, ..self }
    }
}

/// A byte of a ROM bank, if the cartridge has that bank.
pub open spec fn rom_byte(m: Machine, bank: usize, offset: int) -> Result<u8, Fault> {
    if bank < m.rom_banks.len() {
        Ok(m.rom_banks[bank as int]@[offset])
    } else {
        Err(Fault::MissingRomBank { bank: bank, count: m.rom_banks.len() as usize })
    }
}

/// A byte of a RAM bank, if the cartridge has that bank.
pub open spec fn ram_byte(m: Machine, bank: usize, offset: int) -> Result<u8, Fault> {
    if bank < m.ram_banks.len() {
        Ok(m.ram_banks[bank as int]@[offset])
    } else {
        Err(Fault::MissingRamBank { bank: bank, count: m.ram_banks.len() as usize })
    }
}

/// What a read of the bus returns: ROM bank 0 below 0x4000, the selected
/// ROM bank up to 0x8000, the selected RAM bank (when enabled) in
/// 0xA000..0xC000, and the address space everywhere else.
pub open spec fn bus_read(m: Machine, addr: u16) -> Result<u8, Fault> {
    if addr < 0x4000 {
        rom_byte(m, 0, addr as int)
    } else if addr < 0x8000 {
        rom_byte(m, m.selected_rom_bank, addr - 0x4000)
    } else if addr < 0xA000 {
        Ok(m.memory[addr as int])
    } else if addr < 0xC000 {
        if m.ram_enabled {
            ram_byte(m, m.selected_ram_bank, addr - 0xA000)
        } else {
            Err(Fault::RamDisabled)
        }
    } else {
        Ok(m.memory[addr as int])
    }
}

/// The effect of a write below 0x8000 on the bank controller registers.
pub open spec fn bank_control(m: Machine, addr: u16, d8: u8) -> Machine {
    if addr < 0x2000 {
        Machine { ram_enabled: (d8 & 0x0F) == 0x0A, ..m }
    } else if addr < 0x4000 {
        let low: u8 = if d8 & 0x1F == 0 {
            1
        } else {
            d8 & 0x1F
        };
        Machine { selected_rom_bank: (low | ((m.selected_rom_bank as u8) & !0x1Fu8)) as usize, ..m }
    } else if addr < 0x6000 {
        let bank: u8 = d8 & 0x03;
        if m.rxm_mode == 0 {
            Machine {
                selected_rom_bank: ((bank << 5u8) | ((m.selected_rom_bank as u8) & 0x1F)) as usize,
                ..m
            }
        } else {
            Machine { selected_ram_bank: bank as usize, ..m }
        }
    } else if addr < 0x8000 {
        Machine { rxm_mode: d8, ..m }
    } else {
        m
    }
}

/// Whether a write is refused: the banking-mode register takes only 0 and 1.
pub open spec fn write_refused(addr: u16, d8: u8) -> bool {
    0x6000 <= addr < 0x8000 && d8 != 0 && d8 != 1
}

/// What a write to the bus does: it drives the bank controller below
/// 0x8000 and stores the byte in the address space at every address.
pub open spec fn bus_write(m: Machine, addr: u16, d8: u8) -> Outcome<()> {
    if write_refused(addr, d8) {
        (m, Err(Fault::InvalidBankingMode(d8)))
    } else {
        let m1 = bank_control(m, addr, d8);
        (Machine { memory: m1.memory.update(addr as int, d8), ..m1 }, Ok(()))
    }
}

} // verus!
