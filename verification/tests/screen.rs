use gameboy::Gameboy;

#[test]
fn blank_memory_renders_colour_zero() {
    let g = Gameboy::new();
    let screen = g.frame();
    assert_eq!(screen.len(), 0x10000);
    assert!(screen.iter().all(|&c| c == 0));
}

#[test]
fn tile_row_bits_give_colours() {
    let mut g = Gameboy::new();
    // tile 0, row 0: low bits 1010_0000, high bits 1100_0000
    g.write(0x8000, 0b1010_0000).unwrap();
    g.write(0x8001, 0b1100_0000).unwrap();
    let screen = g.frame();
    assert_eq!(&screen[0..4], &[3, 2, 1, 0]);
    // every map entry is tile 0, so the next tile repeats it
    assert_eq!(&screen[8..12], &[3, 2, 1, 0]);
    // row 1 of the tile is empty
    assert_eq!(screen[256], 0);
}

#[test]
fn tile_map_selects_tiles() {
    let mut g = Gameboy::new();
    // map entry (x=1, y=2) uses tile 1; tile 1 row 3 has all low bits set
    g.write(0x9800 + 2 * 32 + 1, 1).unwrap();
    g.write(0x8010 + 3 * 2, 0xFF).unwrap();
    let screen = g.frame();
    let y = 2 * 8 + 3;
    for x in 8..16 {
        assert_eq!(screen[y * 256 + x], 1);
    }
    assert_eq!(screen[y * 256 + 7], 0);
    assert_eq!(screen[y * 256 + 16], 0);
}

#[test]
fn every_pixel_is_one_of_four_colours() {
    let mut g = Gameboy::new();
    let mut seed: u32 = 12345;
    for addr in 0x8000u32..0xA000 {
        seed = seed.wrapping_mul(1103515245).wrapping_add(12345);
        g.write(addr as u16, (seed >> 16) as u8).unwrap();
    }
    let screen = g.frame();
    assert!(screen.iter().all(|&c| c <= 3));
}
