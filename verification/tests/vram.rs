use gb_core::debug::vram::{bg_map_lines, oam_entries, oam_lines, tile_pixel, SpriteEntry};
use gb_core::ppu::{Ppu, OAM_BASE};

#[test]
fn bg_map_lines_reads_32_tile_indices_per_row() {
    let mut ppu = Ppu::new();
    ppu.write_vram(0x9800, 0x11);
    ppu.write_vram(0x9800 + 31, 0x22);
    let lines = bg_map_lines(&ppu, 0x9800, 1);
    assert_eq!(lines.len(), 1);
    assert!(lines[0].starts_with("11 "));
    assert!(lines[0].trim_end().ends_with("22"));
}

#[test]
fn oam_entries_decodes_all_40_sprites() {
    let mut ppu = Ppu::new();
    ppu.write_oam(OAM_BASE, 16);
    ppu.write_oam(OAM_BASE + 1, 8);
    ppu.write_oam(OAM_BASE + 2, 0x05);
    ppu.write_oam(OAM_BASE + 3, 0x80);
    let entries = oam_entries(&ppu);
    assert_eq!(entries.len(), 40);
    assert_eq!(entries[0], SpriteEntry { index: 0, y: 16, x: 8, tile: 0x05, attrs: 0x80 });
}

#[test]
fn tile_pixel_decodes_known_pattern() {
    let mut ppu = Ppu::new();
    ppu.write_vram(0x8000, 0xFF); // row0 lo: all 1s
    ppu.write_vram(0x8001, 0x00); // row0 hi: all 0s -> color id 1 everywhere
    assert_eq!(tile_pixel(&ppu, 0, 0, 0), 1);
    assert_eq!(tile_pixel(&ppu, 0, 7, 0), 1);
}

#[test]
fn oam_lines_pad_columns() {
    let mut ppu = Ppu::new();
    ppu.write_oam(OAM_BASE + 4, 16);
    ppu.write_oam(OAM_BASE + 5, 108);
    ppu.write_oam(OAM_BASE + 6, 0x0A);
    let lines = oam_lines(&ppu);
    assert_eq!(lines.len(), 41);
    assert_eq!(lines[0], "## Y   X  Tile Attr");
    assert_eq!(lines[2], "01  16 108 0A   00");
    assert_eq!(bg_map_lines(&ppu, 0x9C00, 40).len(), 32);
}
