use gb_core::ppu::{
    Mode, Ppu, LCDC_BG_TILE_MAP, LCDC_BG_WINDOW_ENABLE, LCDC_ENABLE_BIT, LCDC_OBJ_ENABLE,
    LCDC_OBJ_SIZE, LCDC_TILE_DATA_SELECT, LCDC_WINDOW_ENABLE, LCDC_WINDOW_TILE_MAP, LINES_PER_FRAME,
    SCANLINE_DOTS, SCREEN_WIDTH, STAT_COINCIDENCE_BIT, STAT_LYC_INT_ENABLE,
};

fn enabled_ppu() -> Ppu {
    let mut p = Ppu::new();
    p.write_lcdc(LCDC_ENABLE_BIT);
    p
}

/// LCD-enabled `Ppu` with additional `LCDC` bits set, for rendering tests.
fn render_ppu(lcdc_extra: u8) -> Ppu {
    let mut p = Ppu::new();
    p.write_lcdc(LCDC_ENABLE_BIT | lcdc_extra);
    p
}

/// Steps `dots` T-cycles in <=255-sized chunks (`step` takes `u8`).
fn step_dots(p: &mut Ppu, mut dots: u32) {
    while dots > 0 {
        let chunk = dots.min(255) as u8;
        p.step(chunk);
        dots -= chunk as u32;
    }
}

#[test]
fn lcdc_round_trips_all_bits() {
    let mut p = Ppu::new();
    p.write_lcdc(0xA5);
    assert_eq!(p.read_lcdc(), 0xA5);
}

#[test]
fn stat_masks_unwritable_bits_and_forces_unused_bit_high() {
    let mut p = Ppu::new();
    p.write_stat(0xFF);
    // Bit 7 forced 1, bits 3-6 kept, bits 0-2 hardware-controlled (mode 0,
    // and LYC=LY happens to be true here since both default to 0).
    assert_eq!(p.read_stat(), 0b1111_1100);
}

#[test]
fn stat_coincidence_flag_tracks_ly_vs_lyc() {
    let mut p = Ppu::new();
    p.write_lyc(1);
    assert_eq!(p.read_stat() & STAT_COINCIDENCE_BIT, 0); // LY=0, LYC=1
    p.write_lyc(0);
    assert_eq!(p.read_stat() & STAT_COINCIDENCE_BIT, STAT_COINCIDENCE_BIT);
}

#[test]
fn ly_is_read_only() {
    let mut p = enabled_ppu();
    p.write_ly(99);
    assert_eq!(p.read_ly(), 0);
}

#[test]
fn scroll_and_window_registers_round_trip() {
    let mut p = Ppu::new();
    p.write_scy(1);
    p.write_scx(2);
    p.write_wy(3);
    p.write_wx(4);
    assert_eq!((p.read_scy(), p.read_scx(), p.read_wy(), p.read_wx()), (1, 2, 3, 4));
}

#[test]
fn palette_registers_round_trip() {
    let mut p = Ppu::new();
    p.write_bgp(0x1B);
    p.write_obp0(0x2C);
    p.write_obp1(0x3D);
    assert_eq!((p.read_bgp(), p.read_obp0(), p.read_obp1()), (0x1B, 0x2C, 0x3D));
}

#[test]
fn mode_sequence_advances_oam_drawing_hblank_within_a_line() {
    let mut p = enabled_ppu();
    assert_eq!(p.read_stat() & 0b11, Mode::OamScan as u8);
    p.step(79);
    assert_eq!(p.read_stat() & 0b11, Mode::OamScan as u8);
    p.step(1); // dot 80
    assert_eq!(p.read_stat() & 0b11, Mode::Drawing as u8);
    p.step(171); // dot 251, mode3_len == 172 with scx=0
    assert_eq!(p.read_stat() & 0b11, Mode::Drawing as u8);
    p.step(1); // dot 252
    assert_eq!(p.read_stat() & 0b11, Mode::HBlank as u8);
    p.step(204); // dot 456 -> wraps to next line, dot 0
    assert_eq!(p.read_ly(), 1);
    assert_eq!(p.read_stat() & 0b11, Mode::OamScan as u8);
}

#[test]
fn entering_vblank_at_line_144_requests_interrupt() {
    let mut p = enabled_ppu();
    for _ in 0..144 {
        p.step(255);
        p.step((SCANLINE_DOTS - 255) as u8);
    }
    assert_eq!(p.read_ly(), 144);
    assert_eq!(p.read_stat() & 0b11, Mode::VBlank as u8);
    assert!(p.take_vblank_interrupt());
    assert!(!p.take_vblank_interrupt());
}

#[test]
fn frame_wraps_after_154_lines() {
    let mut p = enabled_ppu();
    for _ in 0..LINES_PER_FRAME as u32 {
        p.step(255);
        p.step((SCANLINE_DOTS - 255) as u8);
    }
    assert_eq!(p.read_ly(), 0);
    assert_eq!(p.read_stat() & 0b11, Mode::OamScan as u8);
}

#[test]
fn lyc_interrupt_fires_once_on_coincidence_rising_edge() {
    let mut p = enabled_ppu();
    p.write_lyc(1); // LY=0 != LYC=1: no coincidence yet
    p.write_stat(STAT_LYC_INT_ENABLE); // enabling here is not itself an edge
    assert!(!p.take_stat_interrupt());
    p.step(255);
    p.step(200); // 455 dots total: not quite a full line yet
    assert!(!p.take_stat_interrupt());
    p.step(1); // 456th dot crosses into line 1 == LYC
    assert!(p.take_stat_interrupt());
    assert!(!p.take_stat_interrupt()); // consumed, no repeat mid-line
}

#[test]
fn disabling_lcd_freezes_ly_and_resets_mode() {
    let mut p = enabled_ppu();
    p.step(100); // into Mode 3 on line 0
    p.write_lcdc(0); // disable
    assert_eq!(p.read_ly(), 0);
    assert_eq!(p.read_stat() & 0b11, Mode::HBlank as u8);
    p.step(255); // stepping while disabled is a no-op
    assert_eq!(p.read_ly(), 0);
}

#[test]
fn bg_row_decodes_tile_pixels_with_unsigned_addressing_and_palette() {
    let mut p = render_ppu(LCDC_BG_WINDOW_ENABLE | LCDC_TILE_DATA_SELECT);
    p.write_vram(0x8000, 0x55); // lo bits: 0,1,0,1,0,1,0,1
    p.write_vram(0x8001, 0x33); // hi bits: 0,0,1,1,0,0,1,1
    p.write_bgp(0xE4); // identity mapping: id N -> shade N
    step_dots(&mut p, SCANLINE_DOTS);
    assert_eq!(&p.framebuffer()[0..8], &[0, 1, 2, 3, 0, 1, 2, 3]);
}

#[test]
fn bg_row_uses_signed_tile_addressing_when_lcdc_bit4_clear() {
    let mut p = render_ppu(LCDC_BG_WINDOW_ENABLE); // bit4 clear: signed mode
    p.write_vram(0x9800, 0xFF); // map(0,0) = tile index -1
    p.write_vram(0x8FF0, 0xFF); // 0x9000 + (-1 * 16) = 0x8FF0
    p.write_vram(0x8FF1, 0x00); // id = 1 for every column
    p.write_bgp(0xE4);
    step_dots(&mut p, SCANLINE_DOTS);
    assert_eq!(p.framebuffer()[0], 1);
}

#[test]
fn bg_tile_map_select_bit_chooses_0x9c00() {
    let mut p = render_ppu(LCDC_BG_WINDOW_ENABLE | LCDC_TILE_DATA_SELECT | LCDC_BG_TILE_MAP);
    p.write_vram(0x9C00, 1); // map(0,0) = tile index 1 in the 0x9C00 map
    p.write_vram(0x8010, 0xFF);
    p.write_vram(0x8011, 0x00); // id = 1 for every column
    p.write_bgp(0xE4);
    step_dots(&mut p, SCANLINE_DOTS);
    assert_eq!(p.framebuffer()[0], 1);
}

#[test]
fn window_row_overrides_bg_from_wx_minus_7_onward() {
    let mut p = render_ppu(
        LCDC_BG_WINDOW_ENABLE | LCDC_TILE_DATA_SELECT | LCDC_WINDOW_ENABLE | LCDC_WINDOW_TILE_MAP,
    );
    p.write_wy(0);
    p.write_wx(15); // window visible starting at screen x = 15 - 7 = 8
    p.write_bgp(0xE4);
    p.write_vram(0x9C00, 1);
    p.write_vram(0x8010, 0xFF);
    p.write_vram(0x8011, 0xFF);
    step_dots(&mut p, SCANLINE_DOTS);
    let fb = p.framebuffer();
    assert_eq!(fb[7], 0); // still BG, just before the window starts
    assert_eq!(fb[8], 3); // window pixel
}

#[test]
fn sprite_x_coordinate_priority_lower_x_wins_overlap() {
    let mut p = render_ppu(LCDC_OBJ_ENABLE); // BG/window off: bg color ids all 0
    p.write_bgp(0xE4);
    p.write_obp0(0xE4);
    p.write_vram(0x8000, 0xFF);
    p.write_vram(0x8001, 0x00); // tile 0: id 1 everywhere
    p.write_vram(0x8010, 0x00);
    p.write_vram(0x8011, 0xFF); // tile 1: id 2 everywhere
    p.write_oam(0xFE00, 16);
    p.write_oam(0xFE01, 8);
    p.write_oam(0xFE02, 0);
    p.write_oam(0xFE03, 0);
    p.write_oam(0xFE04, 16);
    p.write_oam(0xFE05, 12);
    p.write_oam(0xFE06, 1);
    p.write_oam(0xFE07, 0);
    step_dots(&mut p, SCANLINE_DOTS);
    let fb = p.framebuffer();
    assert_eq!(fb[4], 1); // overlap: lower-X sprite A wins
    assert_eq!(fb[10], 2); // outside overlap: sprite B only
}

#[test]
fn bg_over_obj_priority_flag_hides_sprite_when_bg_opaque() {
    let mut p = render_ppu(LCDC_BG_WINDOW_ENABLE | LCDC_TILE_DATA_SELECT | LCDC_OBJ_ENABLE);
    p.write_bgp(0xE4);
    p.write_obp0(0xE4);
    p.write_vram(0x8000, 0xFF);
    p.write_vram(0x8001, 0x00); // BG tile 0: id 1 everywhere (opaque)
    p.write_vram(0x8010, 0x00);
    p.write_vram(0x8011, 0xFF); // sprite tile 1: id 2 everywhere
    p.write_oam(0xFE00, 16);
    p.write_oam(0xFE01, 8);
    p.write_oam(0xFE02, 1);
    p.write_oam(0xFE03, 0x80); // BG-over-OBJ priority bit set
    step_dots(&mut p, SCANLINE_DOTS);
    assert_eq!(p.framebuffer()[0], 1); // BG (opaque, id 1) wins over the sprite
}

#[test]
fn tall_sprite_selects_top_and_bottom_tile_by_row() {
    let mut p = render_ppu(LCDC_OBJ_ENABLE | LCDC_OBJ_SIZE); // 8x16 sprites
    p.write_obp0(0xE4);
    p.write_vram(0x8000 + 2 * 16, 0xFF);
    p.write_vram(0x8000 + 2 * 16 + 1, 0x00); // top tile: id 1
    p.write_vram(0x8000 + 3 * 16, 0x00);
    p.write_vram(0x8000 + 3 * 16 + 1, 0xFF); // bottom tile: id 2
    p.write_oam(0xFE00, 16); // screen Y 0..15
    p.write_oam(0xFE01, 8);
    p.write_oam(0xFE02, 2);
    p.write_oam(0xFE03, 0);
    step_dots(&mut p, SCANLINE_DOTS); // renders line 0 (top tile)
    assert_eq!(p.framebuffer()[0], 1);
    for _ in 0..8 {
        step_dots(&mut p, SCANLINE_DOTS); // advances to line 8 (bottom tile)
    }
    assert_eq!(p.framebuffer()[8 * SCREEN_WIDTH], 2);
}
