use gameboy::cartridge::{ram_bank_count, rom_bank_count, RomError};
use gameboy::machine::Fault;
use gameboy::Gameboy;

fn text(bytes: &[u8]) -> String {
    bytes.iter().map(|&b| b as char).collect()
}

fn image(len: usize, rom_code: u8, ram_code: u8) -> Vec<u8> {
    let mut bytes: Vec<u8> = (0..len).map(|i| (i % 251) as u8).collect();
    bytes[0x148] = rom_code;
    bytes[0x149] = ram_code;
    bytes
}

#[test]
fn rom_size_codes() {
    let table = [
        (0x00, 2), (0x01, 4), (0x02, 8), (0x03, 16), (0x04, 32), (0x05, 64), (0x06, 128),
        (0x07, 256), (0x52, 72), (0x53, 80), (0x54, 96),
    ];
    for (code, banks) in table {
        assert_eq!(rom_bank_count(code), Some(banks));
    }
    assert_eq!(rom_bank_count(0x08), None);
    assert_eq!(rom_bank_count(0x51), None);
    assert_eq!(rom_bank_count(0xFF), None);
}

#[test]
fn ram_size_codes() {
    assert_eq!(ram_bank_count(0x00), Some(0));
    assert_eq!(ram_bank_count(0x01), Some(1));
    assert_eq!(ram_bank_count(0x02), Some(1));
    assert_eq!(ram_bank_count(0x03), Some(4));
    assert_eq!(ram_bank_count(0x04), None);
}

#[test]
fn check_rom_reports_each_error() {
    let g = Gameboy::new();
    assert_eq!(g.check_rom(&text(&[0u8; 0x149])), Err(RomError::MissingHeader { len: 0x149 }));
    assert_eq!(g.check_rom(&text(&image(0x8000, 0x09, 0x00))), Err(RomError::UnknownRomSize(0x09)));
    assert_eq!(g.check_rom(&text(&image(0x8000, 0x00, 0x05))), Err(RomError::UnknownRamSize(0x05)));
    assert_eq!(g.check_rom(&text(&image(0x8001, 0x00, 0x00))), Err(RomError::TooLarge { len: 0x8001 }));
    assert_eq!(g.check_rom(&text(&image(0x8000, 0x00, 0x00))), Ok(()));
    assert_eq!(g.check_rom(&text(&image(0x150, 0x00, 0x00))), Ok(()));
}

#[test]
fn loaded_rom_reads_back_through_the_bus() {
    let bytes = image(0x8000, 0x00, 0x00);
    let mut g = Gameboy::new();
    g.load_rom(text(&bytes));
    for addr in [0x0000u16, 0x0100, 0x0148, 0x0149, 0x3FFF, 0x4000, 0x5555, 0x7FFF] {
        assert_eq!(g.read(addr), Ok(bytes[addr as usize]));
    }
}

#[test]
fn short_rom_leaves_zeros_after_its_end() {
    let bytes = image(0x200, 0x00, 0x00);
    let mut g = Gameboy::new();
    g.load_rom(text(&bytes));
    assert_eq!(g.read(0x01FF), Ok(bytes[0x1FF]));
    assert_eq!(g.read(0x0200), Ok(0));
    assert_eq!(g.read(0x4000), Ok(0));
}

#[test]
fn characters_are_truncated_to_bytes() {
    let mut s: String = text(&image(0x8000, 0x00, 0x00));
    s.replace_range(0..1, "\u{141}");
    let mut g = Gameboy::new();
    g.load_rom(s);
    assert_eq!(g.read(0x0000), Ok(0x41));
}

#[test]
fn rom_banks_are_switched_by_writes() {
    // four banks; byte 0 of bank n holds n
    let mut bytes = image(0x10000, 0x01, 0x00);
    for bank in 0..4 {
        bytes[bank * 0x4000] = bank as u8;
    }
    let mut g = Gameboy::new();
    g.load_rom(text(&bytes));
    assert_eq!(g.read(0x4000), Ok(1));
    assert_eq!(g.write(0x2000, 3), Ok(()));
    assert_eq!(g.read(0x4000), Ok(3));
    // bank 0 cannot be selected: it becomes bank 1
    assert_eq!(g.write(0x2000, 0), Ok(()));
    assert_eq!(g.read(0x4000), Ok(1));
    assert_eq!(g.write(0x3FFF, 0x22), Ok(()));
    assert_eq!(g.read(0x4000), Ok(2));
    // upper bits in ROM banking mode select bank 0x21, which this cartridge lacks
    assert_eq!(g.write(0x2000, 0x01), Ok(()));
    assert_eq!(g.write(0x4000, 0x01), Ok(()));
    assert_eq!(g.read(0x4000), Err(Fault::MissingRomBank { bank: 0x21, count: 4 }));
    // bank 0 stays at 0x0000
    assert_eq!(g.read(0x0000), Ok(0));
}

#[test]
fn ram_banks_are_added_and_selected() {
    let mut g = Gameboy::new();
    g.load_rom(text(&image(0x8000, 0x00, 0x03)));
    assert_eq!(g.read(0xA000), Err(Fault::RamDisabled));
    assert_eq!(g.write(0x0000, 0x0A), Ok(()));
    assert_eq!(g.read(0xA000), Ok(0));
    assert_eq!(g.write(0x6000, 0x01), Ok(()));
    assert_eq!(g.write(0x4000, 0x03), Ok(()));
    assert_eq!(g.read(0xBFFF), Ok(0));
    // a low nibble other than 0xA disables the RAM again
    assert_eq!(g.write(0x1FFF, 0x1B), Ok(()));
    assert_eq!(g.read(0xA000), Err(Fault::RamDisabled));
}

#[test]
fn missing_ram_bank_is_a_fault() {
    let mut g = Gameboy::new();
    g.load_rom(text(&image(0x8000, 0x00, 0x00)));
    assert_eq!(g.write(0x0000, 0x0A), Ok(()));
    assert_eq!(g.read(0xA000), Err(Fault::MissingRamBank { bank: 0, count: 0 }));
}

#[test]
fn loading_twice_appends_banks() {
    let first = image(0x8000, 0x00, 0x00);
    let mut second = image(0x4000, 0x00, 0x00);
    second[0] = 0xEE;
    let mut g = Gameboy::new();
    g.load_rom(text(&first));
    assert_eq!(g.check_rom(&text(&image(0x10000, 0x00, 0x00))), Ok(()));
    assert_eq!(g.check_rom(&text(&image(0x10001, 0x00, 0x00))), Err(RomError::TooLarge { len: 0x10001 }));
    g.load_rom(text(&second));
    assert_eq!(g.read(0x0000), Ok(0xEE));
    assert_eq!(g.read(0x4000), Ok(first[0x4000]));
}
