//! The cartridge header: how many ROM and RAM banks a cartridge declares,
//! and what loading a ROM image does to the machine.
use vstd::prelude::*;

use crate::machine::Machine;

verus! {

/// Offset of the header byte that declares the ROM size.
pub const ROM_SIZE_OFFSET: usize = 0x0148;

/// Offset of the header byte that declares the RAM size.
pub const RAM_SIZE_OFFSET: usize = 0x0149;

/// The number of 16 KiB ROM banks that a ROM-size code declares.
pub open spec fn rom_banks_declared(code: u8) -> Option<usize> {
    match code {
        0x00 => Some(2),
        0x01 => Some(4),
        0x02 => Some(8),
        0x03 => Some(16),
        0x04 => Some(32),
        0x05 => Some(64),
        0x06 => Some(128),
        0x07 => Some(256),
        0x52 => Some(72),
        0x53 => Some(80),
        0x54 => Some(96),
        _ => None,
    }
}

/// The number of 8 KiB RAM banks that a RAM-size code declares.
pub open spec fn ram_banks_declared(code: u8) -> Option<usize> {
    match code {
        0x00 => Some(0),
        0x01 => Some(1),
        0x02 => Some(1),
        0x03 => Some(4),
        _ => None,
    }
}

/// Decodes the ROM-size byte of a cartridge header; `None` for an unknown code.
pub fn rom_bank_count(code: u8) -> (banks: Option<usize>)
    ensures
        banks == rom_banks_declared(code),
{
    match code {
        0x00 => Some(2),
        0x01 => Some(4),
        0x02 => Some(8),
        0x03 => Some(16),
        0x04 => Some(32),
        0x05 => Some(64),
        0x06 => Some(128),
        0x07 => Some(256),
        0x52 => Some(72),
        0x53 => Some(80),
        0x54 => Some(96),
        _ => None,
    }
}

/// Decodes the RAM-size byte of a cartridge header; `None` for an unknown code.
pub fn ram_bank_count(code: u8) -> (banks: Option<usize>)
    ensures
        banks == ram_banks_declared(code),
{
    match code {
        0x00 => Some(0),
        0x01 => Some(1),
        0x02 => Some(1),
        0x03 => Some(4),
        _ => None,
    }
}

/// Why a ROM image cannot be loaded.
#[derive(Clone, Copy, Debug, PartialEq, Eq, Structural)]
pub enum RomError {
    /// The image ends before the RAM-size byte of the header; its length is given.
    MissingHeader { len: usize },
    /// The ROM-size byte holds an unknown code.
    UnknownRomSize(u8),
    /// The RAM-size byte holds an unknown code.
    UnknownRamSize(u8),
    /// The image is longer than the ROM banks can hold; its length is given.
    TooLarge { len: usize },
}

/// A ROM image handed over as text: each character stands for one byte,
/// its code point truncated to 8 bits.
pub open spec fn rom_image(text: Seq<char>) -> Seq<u8> {
    text.map_values(|c: char| c as u8)
}

/// Whether a ROM image can be loaded into the machine: its header is
/// present, declares known sizes, and the image fits in the ROM banks the
/// machine has once the declared banks are added.
pub open spec fn rom_loadable(m: Machine, bytes: Seq<u8>) -> bool {
    &&& bytes.len() > RAM_SIZE_OFFSET
    &&& rom_banks_declared(bytes[ROM_SIZE_OFFSET as int]) is Some
    &&& ram_banks_declared(bytes[RAM_SIZE_OFFSET as int]) is Some
    &&& bytes.len() <= (m.rom_banks.len() + rom_banks_declared(
        bytes[ROM_SIZE_OFFSET as int],
    )->0) * 0x4000
}

/// The verdict on a ROM image, checks made in the order in which loading
/// meets them: header length, ROM size, RAM size, fit.
pub open spec fn rom_check(m: Machine, bytes: Seq<u8>) -> Result<(), RomError> {
    if bytes.len() <= RAM_SIZE_OFFSET {
        Err(RomError::MissingHeader { len: bytes.len() as usize })
    } else {
        match rom_banks_declared(bytes[ROM_SIZE_OFFSET as int]) {
            None => Err(RomError::UnknownRomSize(bytes[ROM_SIZE_OFFSET as int])),
            Some(n) => match ram_banks_declared(bytes[RAM_SIZE_OFFSET as int]) {
                None => Err(RomError::UnknownRamSize(bytes[RAM_SIZE_OFFSET as int])),
                Some(_) => if bytes.len() <= (m.rom_banks.len() + n) * 0x4000 {
                    Ok(())
                } else {
                    Err(RomError::TooLarge { len: bytes.len() as usize })
                },
            },
        }
    }
}

/// The byte at offset `o` of ROM bank `b` after loading: the image fills
/// the banks from bank 0 on; past its end the banks keep what they held,
/// and the added banks hold zeros.
pub open spec fn loaded_rom_byte(m: Machine, bytes: Seq<u8>, b: int, o: int) -> u8 {
    if b * 0x4000 + o < bytes.len() {
        bytes[b * 0x4000 + o]
    } else if b < m.rom_banks.len() {
        m.rom_banks[b]@[o]
    } else {
        0
    }
}

/// The machine after loading a ROM image: the banks that the header
/// declares are added, the image is copied in, and nothing else changes.
pub open spec fn rom_loaded(before: Machine, after: Machine, bytes: Seq<u8>) -> bool {
    let rom_added = rom_banks_declared(bytes[ROM_SIZE_OFFSET as int])->0;
    let ram_added = ram_banks_declared(bytes[RAM_SIZE_OFFSET as int])->0;
    &&& after == Machine { rom_banks: after.rom_banks, ram_banks: after.ram_banks, ..before }
    &&& after.rom_banks.len() == before.rom_banks.len() + rom_added
    &&& forall|b: int, o: int|
        0 <= b < after.rom_banks.len() && 0 <= o < 0x4000 ==> #[trigger] after.rom_banks[b]@[o]
            == loaded_rom_byte(before, bytes, b, o)
    &&& after.ram_banks.len() == before.ram_banks.len() + ram_added
    &&& forall|b: int| 0 <= b < before.ram_banks.len() ==> #[trigger] after.ram_banks[b] == before.ram_banks[b]
    &&& forall|b: int, o: int|
        before.ram_banks.len() <= b < after.ram_banks.len() && 0 <= o < 0x2000
            ==> #[trigger] after.ram_banks[b]@[o] == 0
}

} // verus!
