//! PPU registers, dot-accurate mode sequencing, and BG/window/sprite
//! rendering.
//!
//! `LCDC`/`STAT`/`SCY`/`SCX`/`LY`/`LYC`/`WY`/`WX`/`BGP`/`OBP0`/`OBP1`
//! register storage with the read/write masking real hardware applies, and
//! the Mode 2 (OAM scan, 80 dots) -> Mode 3 (Drawing, variable) -> Mode 0
//! (HBlank, remainder to 456 dots/line) sequence, repeated for 144 visible
//! lines, followed by Mode 1 (VBlank) for 10 lines (154 lines/frame, 70224
//! dots/frame total).
//!
//! Rendering is a per-scanline renderer, not a cycle-accurate pixel FIFO: a
//! full scanline (BG, then window, then sprites) is composited in one shot
//! at the Mode 3 -> Mode 0 boundary, using whatever register/VRAM/OAM state
//! is live at that instant. `mode3_len` only accounts for the SCX
//! fine-scroll penalty. STAT interrupt blocking is not modeled.
use vstd::prelude::*;

verus! {

/// VBlank interrupt request bit (bit 0) in `IF`/`IE`.
pub const VBLANK_INT_BIT: u8 = 1 << 0;
/// STAT interrupt request bit (bit 1) in `IF`/`IE`.
pub const STAT_INT_BIT: u8 = 1 << 1;

/// Visible framebuffer dimensions.
pub const SCREEN_WIDTH: usize = 160;
pub const SCREEN_HEIGHT: usize = 144;
pub const FRAMEBUFFER_LEN: usize = 23040;

pub const VRAM_SIZE: usize = 0x2000;
pub const OAM_SIZE: usize = 0xA0;
/// First address of VRAM (0x8000-0x9FFF).
pub const VRAM_BASE: u16 = 0x8000;
/// First address of OAM (0xFE00-0xFE9F).
pub const OAM_BASE: u16 = 0xFE00;

pub const LCDC_ENABLE_BIT: u8 = 1 << 7;
pub const LCDC_WINDOW_TILE_MAP: u8 = 1 << 6;
pub const LCDC_WINDOW_ENABLE: u8 = 1 << 5;
pub const LCDC_TILE_DATA_SELECT: u8 = 1 << 4;
pub const LCDC_BG_TILE_MAP: u8 = 1 << 3;
pub const LCDC_OBJ_SIZE: u8 = 1 << 2;
pub const LCDC_OBJ_ENABLE: u8 = 1 << 1;
pub const LCDC_BG_WINDOW_ENABLE: u8 = 1 << 0;

pub const STAT_HBLANK_INT_ENABLE: u8 = 1 << 3;
pub const STAT_VBLANK_INT_ENABLE: u8 = 1 << 4;
pub const STAT_OAM_INT_ENABLE: u8 = 1 << 5;
pub const STAT_LYC_INT_ENABLE: u8 = 1 << 6;
pub const STAT_WRITABLE_MASK: u8 = 0b0111_1000;
pub const STAT_UNUSED_BIT: u8 = 0b1000_0000;
pub const STAT_COINCIDENCE_BIT: u8 = 0b0000_0100;

pub const MODE2_DOTS: u32 = 80;
pub const SCANLINE_DOTS: u32 = 456;
pub const LINES_PER_FRAME: u8 = 154;
/// `LY` value at which Mode 1 (VBlank) begins.
pub const VBLANK_START_LINE: u8 = 144;
/// Dots in one full frame.
pub const DOTS_PER_FRAME: u32 = 70224;

/// Sprites (OBJ) per scanline real hardware selects, in OAM order.
pub const MAX_SPRITES_PER_LINE: usize = 10;
pub const OAM_ENTRY_SIZE: usize = 4;
pub const OAM_ENTRY_COUNT: usize = 40;

/// PPU mode, in `STAT` bits 0-1 order (`HBlank` = 0 ... `Drawing` = 3).
#[derive(Debug, Clone, Copy, PartialEq, Eq, Structural)]
pub enum Mode {
    HBlank,
    VBlank,
    OamScan,
    Drawing,
}

/// The `STAT` bits 0-1 encoding of a mode.
pub open spec fn mode_bits_spec(m: Mode) -> u8 {
    match m {
        Mode::HBlank => 0,
        Mode::VBlank => 1,
        Mode::OamScan => 2,
        Mode::Drawing => 3,
    }
}

pub fn mode_bits(m: Mode) -> (b: u8)
    ensures
        b == mode_bits_spec(m),
{
    match m {
        Mode::HBlank => 0,
        Mode::VBlank => 1,
        Mode::OamScan => 2,
        Mode::Drawing => 3,
    }
}

/// Abstract PPU state.
pub struct PpuView {
    pub lcdc: u8,
    pub stat: u8,
    pub scy: u8,
    pub scx: u8,
    pub ly: u8,
    pub lyc: u8,
    pub wy: u8,
    pub wx: u8,
    pub bgp: u8,
    pub obp0: u8,
    pub obp1: u8,
    pub mode: Mode,
    pub dot: u32,
    pub stat_line: bool,
    pub vblank_interrupt_pending: bool,
    pub stat_interrupt_pending: bool,
    pub vram: Seq<u8>,
    pub oam: Seq<u8>,
    pub window_line: u8,
    pub framebuffer: Seq<u8>,
}

pub open spec fn lcd_on(p: PpuView) -> bool {
    p.lcdc & LCDC_ENABLE_BIT != 0
}

/// `STAT` as read: bit 7 set, interrupt enables, LYC=LY, mode.
pub open spec fn read_stat_spec(p: PpuView) -> u8 {
    STAT_UNUSED_BIT | (p.stat & STAT_WRITABLE_MASK) | (if p.ly == p.lyc {
        STAT_COINCIDENCE_BIT
    } else {
        0
    }) | mode_bits_spec(p.mode)
}

/// Level of the STAT interrupt OR-line.
pub open spec fn stat_line_level(p: PpuView) -> bool {
    (p.mode == Mode::HBlank && p.stat & STAT_HBLANK_INT_ENABLE != 0) || (p.mode == Mode::VBlank
        && p.stat & STAT_VBLANK_INT_ENABLE != 0) || (p.mode == Mode::OamScan && p.stat
        & STAT_OAM_INT_ENABLE != 0) || (p.ly == p.lyc && p.stat & STAT_LYC_INT_ENABLE != 0)
}

/// Recomputes the STAT line; a 0->1 edge requests the STAT interrupt.
pub open spec fn update_stat_spec(p: PpuView) -> PpuView {
    let line = stat_line_level(p);
    PpuView {
        stat_interrupt_pending: p.stat_interrupt_pending || (line && !p.stat_line),
        stat_line: line,
        ..p
    }
}

/// Mode 3's length in dots (SCX fine-scroll penalty only).
pub open spec fn mode3_len_spec(scx: u8) -> u32 {
    (172 + scx as int % 8) as u32
}

/// The mode implied by the current line and dot.
pub open spec fn mode_for(p: PpuView) -> Mode {
    if p.ly >= VBLANK_START_LINE {
        Mode::VBlank
    } else if p.dot < MODE2_DOTS {
        Mode::OamScan
    } else if p.dot < MODE2_DOTS + mode3_len_spec(p.scx) {
        Mode::Drawing
    } else {
        Mode::HBlank
    }
}

/// Enters the mode implied by `ly`/`dot`, rendering the line on the
/// Drawing -> HBlank transition.
pub open spec fn update_mode_spec(p: PpuView) -> PpuView {
    let m = mode_for(p);
    let p1 = if p.mode == Mode::Drawing && m == Mode::HBlank {
        render_spec(p)
    } else {
        p
    };
    update_stat_spec(PpuView { mode: m, ..p1 })
}

/// One dot: advance the dot/line counters (VBlank interrupt on entering
/// line 144, wrap after 154 lines), then update the mode.
pub open spec fn tick_spec(p: PpuView) -> PpuView {
    let d = p.dot.wrapping_add(1);
    let p1 = if d >= SCANLINE_DOTS {
        let ly = p.ly.wrapping_add(1);
        let (ly2, wl) = if ly >= LINES_PER_FRAME {
            (0u8, 0u8)
        } else {
            (ly, p.window_line)
        };
        PpuView {
            dot: 0,
            ly: ly2,
            window_line: wl,
            vblank_interrupt_pending: p.vblank_interrupt_pending || ly2 == VBLANK_START_LINE,
            ..p
        }
    } else {
        PpuView { dot: d, ..p }
    };
    update_mode_spec(p1)
}

/// The PPU after `n` dots with the LCD on.
pub open spec fn run_spec(p: PpuView, n: nat) -> PpuView
    decreases n,
{
    if n == 0 {
        p
    } else {
        tick_spec(run_spec(p, (n - 1) as nat))
    }
}

/// `LCDC` write: toggling bit 7 restarts (on) or freezes (off) the frame.
pub open spec fn write_lcdc_spec(p: PpuView, val: u8) -> PpuView {
    let p1 = PpuView { lcdc: val, ..p };
    if lcd_on(p1) != lcd_on(p) {
        let p2 = PpuView { dot: 0, ly: 0, window_line: 0, ..p1 };
        if lcd_on(p1) {
            update_mode_spec(p2)
        } else {
            PpuView { mode: Mode::HBlank, stat_line: false, ..p2 }
        }
    } else {
        p1
    }
}

// --- rendering ---
pub open spec fn vram_at(p: PpuView, addr: int) -> u8 {
    p.vram[addr - VRAM_BASE as int]
}

/// Tile data address for a BG/window tile index: unsigned 0x8000-based
/// when LCDC bit 4 is set, signed (index as `i8`) 0x9000-based otherwise.
pub open spec fn tile_data_addr_spec(lcdc: u8, tile_index: u8) -> int {
    if lcdc & LCDC_TILE_DATA_SELECT != 0 {
        0x8000 + tile_index as int * 16
    } else if tile_index < 128 {
        0x9000 + tile_index as int * 16
    } else {
        0x9000 + (tile_index as int - 256) * 16
    }
}

/// 2-bit color id of column `col` (0 = leftmost) from a tile row's two
/// bit planes.
pub open spec fn color_id_spec(lo: u8, hi: u8, col: u8) -> u8 {
    let bit = (7 - col) as u8;
    (((hi >> bit) & 1) << 1) | ((lo >> bit) & 1)
}

/// Shade (0-3) a palette register maps a color id to.
pub open spec fn palette_spec(palette: u8, color_id: u8) -> u8 {
    (palette >> (color_id * 2) as u8) & 0b11
}

/// Color id of pixel (`row`, `col`) of the tile at (`tile_row`,
/// `tile_col`) of the 32x32 map at `map_base`.
pub open spec fn map_pixel(p: PpuView, map_base: int, tile_row: int, tile_col: int, row: u8, col: u8) -> u8 {
    let idx = vram_at(p, map_base + tile_row * 32 + tile_col);
    let a = tile_data_addr_spec(p.lcdc, idx);
    color_id_spec(vram_at(p, a + row as int * 2), vram_at(p, a + row as int * 2 + 1), col)
}

pub open spec fn bg_map_base(lcdc: u8) -> int {
    if lcdc & LCDC_BG_TILE_MAP != 0 {
        0x9C00
    } else {
        0x9800
    }
}

pub open spec fn window_map_base(lcdc: u8) -> int {
    if lcdc & LCDC_WINDOW_TILE_MAP != 0 {
        0x9C00
    } else {
        0x9800
    }
}

/// Background color id at screen column `x` of the current line, with
/// scrolling wrapping around the 256x256 map.
pub open spec fn bg_id_spec(p: PpuView, x: int) -> u8 {
    let bg_y = (p.ly as int + p.scy as int) % 256;
    let bg_x = (x + p.scx as int) % 256;
    map_pixel(p, bg_map_base(p.lcdc), bg_y / 8, bg_x / 8, (bg_y % 8) as u8, (bg_x % 8) as u8)
}

/// First screen column covered by the window (`WX - 7`).
pub open spec fn window_start(p: PpuView) -> int {
    p.wx as int - 7
}

/// Window color id at screen column `x`, using the internal window line.
pub open spec fn window_id_spec(p: PpuView, x: int) -> u8 {
    let wx = x - window_start(p);
    map_pixel(
        p,
        window_map_base(p.lcdc),
        p.window_line as int / 8,
        wx / 8,
        (p.window_line % 8) as u8,
        (wx % 8) as u8,
    )
}

/// Whether the window is drawn on the current line at all.
pub open spec fn window_on_line(p: PpuView) -> bool {
    p.lcdc & LCDC_BG_WINDOW_ENABLE != 0 && p.lcdc & LCDC_WINDOW_ENABLE != 0 && p.wy <= p.ly
}

/// BG/window color id at column `x` (0 when BG/window is disabled).
pub open spec fn line_id_spec(p: PpuView, x: int) -> u8 {
    if p.lcdc & LCDC_BG_WINDOW_ENABLE == 0 {
        0
    } else if window_on_line(p) && x >= window_start(p) {
        window_id_spec(p, x)
    } else {
        bg_id_spec(p, x)
    }
}

pub open spec fn sprite_height(lcdc: u8) -> int {
    if lcdc & LCDC_OBJ_SIZE != 0 {
        16
    } else {
        8
    }
}

/// Screen Y of OAM entry `i`'s top row.
pub open spec fn sprite_y(p: PpuView, i: int) -> int {
    p.oam[i * 4] as int - 16
}

/// Screen X of OAM entry `i`'s leftmost column.
pub open spec fn sprite_x(p: PpuView, i: int) -> int {
    p.oam[i * 4 + 1] as int - 8
}

pub open spec fn sprite_on_line(p: PpuView, i: int) -> bool {
    p.ly as int >= sprite_y(p, i) && (p.ly as int) < sprite_y(p, i) + sprite_height(p.lcdc)
}

/// OAM indices (in OAM order) of the sprites on the current line among
/// entries `0..n`, at most ten.
pub open spec fn selected_upto(p: PpuView, n: nat) -> Seq<usize>
    decreases n,
{
    if n == 0 {
        Seq::empty()
    } else {
        let s = selected_upto(p, (n - 1) as nat);
        if s.len() < MAX_SPRITES_PER_LINE && sprite_on_line(p, n - 1) {
            s.push((n - 1) as usize)
        } else {
            s
        }
    }
}

pub open spec fn selected_sprites(p: PpuView) -> Seq<usize> {
    selected_upto(p, OAM_ENTRY_COUNT as nat)
}

/// Color id of OAM entry `i` at screen column `px` (0 outside it),
/// honoring X/Y flip and 8x16 tile pairing.
pub open spec fn sprite_id_spec(p: PpuView, i: int, px: int) -> u8 {
    let col = px - sprite_x(p, i);
    if col < 0 || col >= 8 {
        0
    } else {
        let attrs = p.oam[i * 4 + 3];
        let h = sprite_height(p.lcdc);
        let row0 = p.ly as int - sprite_y(p, i);
        let row = if attrs & 0x40 != 0 {
            h - 1 - row0
        } else {
            row0
        };
        let tile = p.oam[i * 4 + 2];
        let t = if h == 16 {
            if row < 8 {
                tile & 0xFE
            } else {
                tile | 0x01
            }
        } else {
            tile
        };
        let a = 0x8000 + t as int * 16 + (row % 8) * 2;
        let sample = if attrs & 0x20 != 0 {
            7 - col
        } else {
            col
        };
        color_id_spec(vram_at(p, a), vram_at(p, a + 1), sample as u8)
    }
}

/// Whether OAM entry `i` paints column `px`: opaque there, and not hidden
/// behind a nonzero BG/window pixel by its BG-over-OBJ attribute.
pub open spec fn sprite_paints(p: PpuView, i: int, px: int) -> bool {
    sprite_id_spec(p, i, px) != 0 && !(p.oam[i * 4 + 3] & 0x80 != 0 && line_id_spec(p, px) != 0)
}

/// The winning sprite at column `px` among the first `k` selected ones:
/// lowest X wins, ties go to the lower OAM index.
pub open spec fn best_sprite(p: PpuView, sel: Seq<usize>, k: nat, px: int) -> Option<usize>
    decreases k,
{
    if k == 0 {
        None
    } else {
        let prev = best_sprite(p, sel, (k - 1) as nat, px);
        let i = sel[k - 1];
        if sprite_paints(p, i as int, px) && (prev is None || sprite_x(p, i as int) < sprite_x(
            p,
            prev->0 as int,
        )) {
            Some(i)
        } else {
            prev
        }
    }
}

/// Final shade of column `px` of the current line.
pub open spec fn line_shade_spec(p: PpuView, px: int) -> u8 {
    let sel = selected_sprites(p);
    let sprite = if p.lcdc & LCDC_OBJ_ENABLE != 0 {
        best_sprite(p, sel, sel.len(), px)
    } else {
        None
    };
    match sprite {
        Some(i) => palette_spec(
            if p.oam[i * 4 + 3] & 0x10 != 0 {
                p.obp1
            } else {
                p.obp0
            },
            sprite_id_spec(p, i as int, px),
        ),
        None => palette_spec(p.bgp, line_id_spec(p, px)),
    }
}

/// Renders the current line into the framebuffer (visible lines only) and
/// advances the window line counter if the window was drawn.
pub open spec fn render_spec(p: PpuView) -> PpuView {
    if p.ly >= VBLANK_START_LINE {
        p
    } else {
        let row = p.ly as int * SCREEN_WIDTH;
        let fb = Seq::new(
            p.framebuffer.len(),
            |i: int|
                if row <= i < row + SCREEN_WIDTH {
                    line_shade_spec(p, i - row)
                } else {
                    p.framebuffer[i]
                },
        );
        let drawn = window_on_line(p) && window_start(p) < SCREEN_WIDTH;
        PpuView {
            framebuffer: fb,
            window_line: if drawn {
                p.window_line.wrapping_add(1)
            } else {
                p.window_line
            },
            ..p
        }
    }
}

#[derive(Debug, Clone)]
pub struct Ppu {
    lcdc: u8,
    stat: u8,
    scy: u8,
    scx: u8,
    ly: u8,
    lyc: u8,
    wy: u8,
    wx: u8,
    bgp: u8,
    obp0: u8,
    obp1: u8,
    mode: Mode,
    /// Dots elapsed within the current scanline (0..SCANLINE_DOTS).
    dot: u32,
    /// Level of the STAT interrupt OR-line as of the last update, so a
    /// request is only raised on a 0->1 transition.
    stat_line: bool,
    vblank_interrupt_pending: bool,
    stat_interrupt_pending: bool,
    vram: [u8; VRAM_SIZE],
    oam: [u8; OAM_SIZE],
    /// Internal window line counter: increments only on scanlines where
    /// the window was actually drawn, resets every frame.
    window_line: u8,
    /// One shade index (0-3, post-palette) per pixel, row-major,
    /// `SCREEN_WIDTH` x `SCREEN_HEIGHT`. Filled one scanline at a time.
    framebuffer: [u8; FRAMEBUFFER_LEN],
}

impl View for Ppu {
    type V = PpuView;

    closed spec fn view(&self) -> PpuView {
        PpuView {
            lcdc: self.lcdc,
            stat: self.stat,
            scy: self.scy,
            scx: self.scx,
            ly: self.ly,
            lyc: self.lyc,
            wy: self.wy,
            wx: self.wx,
            bgp: self.bgp,
            obp0: self.obp0,
            obp1: self.obp1,
            mode: self.mode,
            dot: self.dot,
            stat_line: self.stat_line,
            vblank_interrupt_pending: self.vblank_interrupt_pending,
            stat_interrupt_pending: self.stat_interrupt_pending,
            vram: self.vram@,
            oam: self.oam@,
            window_line: self.window_line,
            framebuffer: self.framebuffer@,
        }
    }
}

/// Power-on PPU state: LCD off, every register, VRAM, OAM and pixel zero.
pub open spec fn initial_ppu() -> PpuView {
    PpuView {
        lcdc: 0,
        stat: 0,
        scy: 0,
        scx: 0,
        ly: 0,
        lyc: 0,
        wy: 0,
        wx: 0,
        bgp: 0,
        obp0: 0,
        obp1: 0,
        mode: Mode::HBlank,
        dot: 0,
        stat_line: false,
        vblank_interrupt_pending: false,
        stat_interrupt_pending: false,
        vram: Seq::new(VRAM_SIZE as nat, |i: int| 0u8),
        oam: Seq::new(OAM_SIZE as nat, |i: int| 0u8),
        window_line: 0,
        framebuffer: Seq::new(FRAMEBUFFER_LEN as nat, |i: int| 0u8),
    }
}

impl Ppu {
    pub fn new() -> (p: Self)
        ensures
            p@ == initial_ppu(),
    {
        let p = Ppu {
            lcdc: 0,
            stat: 0,
            scy: 0,
            scx: 0,
            ly: 0,
            lyc: 0,
            wy: 0,
            wx: 0,
            bgp: 0,
            obp0: 0,
            obp1: 0,
            mode: Mode::HBlank,
            dot: 0,
            stat_line: false,
            vblank_interrupt_pending: false,
            stat_interrupt_pending: false,
            vram: [0u8; VRAM_SIZE],
            oam: [0u8; OAM_SIZE],
            window_line: 0,
            framebuffer: [0u8; FRAMEBUFFER_LEN],
        };
        assert(p.vram@ =~= Seq::new(VRAM_SIZE as nat, |i: int| 0u8));
        assert(p.oam@ =~= Seq::new(OAM_SIZE as nat, |i: int| 0u8));
        assert(p.framebuffer@ =~= Seq::new(FRAMEBUFFER_LEN as nat, |i: int| 0u8));
        p
    }

    pub fn read_lcdc(&self) -> (v: u8)
        ensures
            v == self@.lcdc,
    {
        self.lcdc
    }

    /// Turning the LCD off (bit 7 falling) freezes and resets `LY`/dot/mode
    /// to their power-on-equivalent state; turning it back on restarts the
    /// frame from line 0, dot 0, Mode 2 — matching real hardware.
    pub fn write_lcdc(&mut self, val: u8)
        ensures
            final(self)@ == write_lcdc_spec(old(self)@, val),
    {
        let was_enabled = self.enabled();
        self.lcdc = val;
        if self.enabled() != was_enabled {
            self.dot = 0;
            self.ly = 0;
            self.window_line = 0;
            if self.enabled() {
                self.update_mode();
            } else {
                self.mode = Mode::HBlank;
                self.stat_line = false;
            }
        }
    }

    fn enabled(&self) -> (b: bool)
        ensures
            b == lcd_on(self@),
    {
        self.lcdc & LCDC_ENABLE_BIT != 0
    }

    /// Whether the LCD is currently on (`LCDC` bit 7).
    pub fn lcd_enabled(&self) -> (b: bool)
        ensures
            b == lcd_on(self@),
    {
        self.enabled()
    }

    /// Bit 7 always reads 1 (unused). Bits 3-6 (interrupt-source enables)
    /// are the only CPU-writable bits; bits 0-2 (mode + LYC=LY coincidence)
    /// are hardware-controlled and computed here.
    pub fn read_stat(&self) -> (v: u8)
        ensures
            v == read_stat_spec(self@),
    {
        let coincidence = if self.ly == self.lyc {
            STAT_COINCIDENCE_BIT
        } else {
            0
        };
        STAT_UNUSED_BIT | (self.stat & STAT_WRITABLE_MASK) | coincidence | mode_bits(self.mode)
    }

    pub fn write_stat(&mut self, val: u8)
        ensures
            final(self)@ == update_stat_spec(PpuView { stat: val & STAT_WRITABLE_MASK, ..old(self)@ }),
    {
        self.stat = val & STAT_WRITABLE_MASK;
        self.update_stat_interrupt_line();
    }

    pub fn read_scy(&self) -> (v: u8)
        ensures
            v == self@.scy,
    {
        self.scy
    }

    pub fn write_scy(&mut self, val: u8)
        ensures
            final(self)@ == (PpuView { scy: val, ..old(self)@ }),
    {
        self.scy = val;
    }

    pub fn read_scx(&self) -> (v: u8)
        ensures
            v == self@.scx,
    {
        self.scx
    }

    pub fn write_scx(&mut self, val: u8)
        ensures
            final(self)@ == (PpuView { scx: val, ..old(self)@ }),
    {
        self.scx = val;
    }

    pub fn read_ly(&self) -> (v: u8)
        ensures
            v == self@.ly,
    {
        self.ly
    }

    /// No-op: writes to `LY` are ignored on real hardware.
    pub fn write_ly(&mut self, _val: u8)
        ensures
            final(self)@ == old(self)@,
    {
    }

    pub fn read_lyc(&self) -> (v: u8)
        ensures
            v == self@.lyc,
    {
        self.lyc
    }

    pub fn write_lyc(&mut self, val: u8)
        ensures
            final(self)@ == update_stat_spec(PpuView { lyc: val, ..old(self)@ }),
    {
        self.lyc = val;
        self.update_stat_interrupt_line();
    }

    pub fn read_wy(&self) -> (v: u8)
        ensures
            v == self@.wy,
    {
        self.wy
    }

    pub fn write_wy(&mut self, val: u8)
        ensures
            final(self)@ == (PpuView { wy: val, ..old(self)@ }),
    {
        self.wy = val;
    }

    pub fn read_wx(&self) -> (v: u8)
        ensures
            v == self@.wx,
    {
        self.wx
    }

    pub fn write_wx(&mut self, val: u8)
        ensures
            final(self)@ == (PpuView { wx: val, ..old(self)@ }),
    {
        self.wx = val;
    }

    pub fn read_bgp(&self) -> (v: u8)
        ensures
            v == self@.bgp,
    {
        self.bgp
    }

    pub fn write_bgp(&mut self, val: u8)
        ensures
            final(self)@ == (PpuView { bgp: val, ..old(self)@ }),
    {
        self.bgp = val;
    }

    pub fn read_obp0(&self) -> (v: u8)
        ensures
            v == self@.obp0,
    {
        self.obp0
    }

    pub fn write_obp0(&mut self, val: u8)
        ensures
            final(self)@ == (PpuView { obp0: val, ..old(self)@ }),
    {
        self.obp0 = val;
    }

    pub fn read_obp1(&self) -> (v: u8)
        ensures
            v == self@.obp1,
    {
        self.obp1
    }

    pub fn write_obp1(&mut self, val: u8)
        ensures
            final(self)@ == (PpuView { obp1: val, ..old(self)@ }),
    {
        self.obp1 = val;
    }

    /// Reads VRAM at a full bus address (0x8000-0x9FFF).
    pub fn read_vram(&self, addr: u16) -> (v: u8)
        requires
            VRAM_BASE <= addr < 0xA000,
        ensures
            v == self@.vram[addr - VRAM_BASE],
    {
        self.vram[(addr - VRAM_BASE) as usize]
    }

    pub fn write_vram(&mut self, addr: u16, val: u8)
        requires
            VRAM_BASE <= addr < 0xA000,
        ensures
            final(self)@ == (PpuView { vram: old(self)@.vram.update(addr - VRAM_BASE, val), ..old(self)@ }),
    {
        self.vram[(addr - VRAM_BASE) as usize] = val;
        assert(self@.vram =~= old(self)@.vram.update(addr - VRAM_BASE, val));
    }

    /// Reads OAM at a full bus address (0xFE00-0xFE9F).
    pub fn read_oam(&self, addr: u16) -> (v: u8)
        requires
            OAM_BASE <= addr < 0xFEA0,
        ensures
            v == self@.oam[addr - OAM_BASE],
    {
        self.oam[(addr - OAM_BASE) as usize]
    }

    pub fn write_oam(&mut self, addr: u16, val: u8)
        requires
            OAM_BASE <= addr < 0xFEA0,
        ensures
            final(self)@ == (PpuView { oam: old(self)@.oam.update(addr - OAM_BASE, val), ..old(self)@ }),
    {
        self.oam[(addr - OAM_BASE) as usize] = val;
        assert(self@.oam =~= old(self)@.oam.update(addr - OAM_BASE, val));
    }

    /// The rendered framebuffer: one shade index (0-3, post-palette) per
    /// pixel, row-major.
    pub fn framebuffer(&self) -> (fb: &[u8; FRAMEBUFFER_LEN])
        ensures
            fb@ == self@.framebuffer,
    {
        &self.framebuffer
    }

    /// Advances the mode sequencer by `t_cycles` T-cycles (== dots). No-op
    /// while the LCD is off.
    pub fn step(&mut self, t_cycles: u8)
        ensures
            final(self)@ == if lcd_on(old(self)@) {
                run_spec(old(self)@, t_cycles as nat)
            } else {
                old(self)@
            },
    {
        if !self.enabled() {
            return;
        }
        let mut i: u8 = 0;
        while i < t_cycles
            invariant
                i <= t_cycles,
                self@ == run_spec(old(self)@, i as nat),
            decreases t_cycles - i,
        {
            self.tick_dot();
            i = i + 1;
        }
    }

    /// Consumes and returns whether VBlank (line 144) was entered since the
    /// last call.
    pub fn take_vblank_interrupt(&mut self) -> (b: bool)
        ensures
            b == old(self)@.vblank_interrupt_pending,
            final(self)@ == (PpuView { vblank_interrupt_pending: false, ..old(self)@ }),
    {
        let b = self.vblank_interrupt_pending;
        self.vblank_interrupt_pending = false;
        b
    }

    /// Consumes and returns whether the STAT interrupt line had a rising
    /// edge since the last call.
    pub fn take_stat_interrupt(&mut self) -> (b: bool)
        ensures
            b == old(self)@.stat_interrupt_pending,
            final(self)@ == (PpuView { stat_interrupt_pending: false, ..old(self)@ }),
    {
        let b = self.stat_interrupt_pending;
        self.stat_interrupt_pending = false;
        b
    }

    fn tick_dot(&mut self)
        ensures
            final(self)@ == tick_spec(old(self)@),
    {
        self.dot = self.dot.wrapping_add(1);
        if self.dot >= SCANLINE_DOTS {
            self.dot = 0;
            self.ly = self.ly.wrapping_add(1);
            if self.ly >= LINES_PER_FRAME {
                self.ly = 0;
                self.window_line = 0;
            }
            if self.ly == VBLANK_START_LINE {
                self.vblank_interrupt_pending = true;
            }
        }
        self.update_mode();
    }

    /// Mode 3's length in dots: 172 plus the SCX fine-scroll penalty.
    fn mode3_len(&self) -> (n: u32)
        ensures
            n == mode3_len_spec(self.scx),
    {
        172 + (self.scx % 8) as u32
    }

    fn update_mode(&mut self)
        ensures
            final(self)@ == update_mode_spec(old(self)@),
    {
        let mode = if self.ly >= VBLANK_START_LINE {
            Mode::VBlank
        } else if self.dot < MODE2_DOTS {
            Mode::OamScan
        } else if self.dot < MODE2_DOTS + self.mode3_len() {
            Mode::Drawing
        } else {
            Mode::HBlank
        };
        if self.mode == Mode::Drawing && mode == Mode::HBlank {
            self.render_scanline();
        }
        self.mode = mode;
        self.update_stat_interrupt_line();
    }

    fn update_stat_interrupt_line(&mut self)
        ensures
            final(self)@ == update_stat_spec(old(self)@),
    {
        let coincidence = self.ly == self.lyc;
        let line = (self.mode == Mode::HBlank && self.stat & STAT_HBLANK_INT_ENABLE != 0) || (
        self.mode == Mode::VBlank && self.stat & STAT_VBLANK_INT_ENABLE != 0) || (self.mode
            == Mode::OamScan && self.stat & STAT_OAM_INT_ENABLE != 0) || (coincidence && self.stat
            & STAT_LYC_INT_ENABLE != 0);
        if line && !self.stat_line {
            self.stat_interrupt_pending = true;
        }
        self.stat_line = line;
    }
}

impl Default for Ppu {
    fn default() -> (p: Self)
        ensures
            p@ == initial_ppu(),
    {
        Ppu::new()
    }
}

/// A 2-bit color id is below 4, and masking/shifting identities used by
/// the renderer.
proof fn lemma_color_id_small(lo: u8, hi: u8, bit: u8)
    ensures
        (((hi >> bit) & 1) << 1) | ((lo >> bit) & 1) < 4,
{
    assert((((hi >> bit) & 1) << 1) | ((lo >> bit) & 1) < 4) by (bit_vector);
}

impl Ppu {
    /// Tile data base address for a BG/window tile index, honoring
    /// `LCDC` bit 4: unsigned 0x8000-based addressing when set, signed
    /// 0x9000-based (`tile_index` as `i8`) when clear.
    fn bg_tile_data_addr(&self, tile_index: u8) -> (a: u16)
        ensures
            a as int == tile_data_addr_spec(self.lcdc, tile_index),
            0x8000 <= a <= 0x97F0,
    {
        if self.lcdc & LCDC_TILE_DATA_SELECT != 0 {
            VRAM_BASE + (tile_index as u16) * 16
        } else if tile_index < 128 {
            0x9000 + (tile_index as u16) * 16
        } else {
            0x9000 - (256 - tile_index as u16) * 16
        }
    }

    fn tile_row_bytes(&self, tile_data_addr: u16, row_in_tile: u8) -> (r: (u8, u8))
        requires
            0x8000 <= tile_data_addr <= 0x97F0,
            row_in_tile < 8,
        ensures
            r == (
                vram_at(self@, tile_data_addr + row_in_tile as int * 2),
                vram_at(self@, tile_data_addr + row_in_tile as int * 2 + 1),
            ),
    {
        let addr = tile_data_addr + (row_in_tile as u16) * 2;
        (self.read_vram(addr), self.read_vram(addr + 1))
    }

    pub(crate) fn color_id_from_row(lo: u8, hi: u8, col_in_tile: u8) -> (id: u8)
        requires
            col_in_tile < 8,
        ensures
            id == color_id_spec(lo, hi, col_in_tile),
            id < 4,
    {
        let bit = 7 - col_in_tile;
        proof {
            lemma_color_id_small(lo, hi, bit);
        }
        (((hi >> bit) & 1) << 1) | ((lo >> bit) & 1)
    }

    fn apply_palette(palette: u8, color_id: u8) -> (shade: u8)
        requires
            color_id < 4,
        ensures
            shade == palette_spec(palette, color_id),
    {
        (palette >> (color_id * 2)) & 0b11
    }

    /// Color id at (`tile_row`, `tile_col`, `row`, `col`) of the tile map at
    /// `map_base`.
    fn map_pixel(&self, map_base: u16, tile_row: u16, tile_col: u16, row: u8, col: u8) -> (id: u8)
        requires
            map_base == 0x9800 || map_base == 0x9C00,
            tile_row < 32,
            tile_col < 32,
            row < 8,
            col < 8,
        ensures
            id == map_pixel(
                self@,
                map_base as int,
                tile_row as int,
                tile_col as int,
                row,
                col,
            ),
            id < 4,
    {
        let tile_index = self.read_vram(map_base + tile_row * 32 + tile_col);
        let data_addr = self.bg_tile_data_addr(tile_index);
        let (lo, hi) = self.tile_row_bytes(data_addr, row);
        Self::color_id_from_row(lo, hi, col)
    }

    /// Composites one full scanline (BG, then window, then sprites) into
    /// `framebuffer[LY]`.
    fn render_scanline(&mut self)
        ensures
            final(self)@ == render_spec(old(self)@),
    {
        let y = self.ly as usize;
        if y >= SCREEN_HEIGHT {
            return;
        }
        let ghost p0 = self@;
        let mut bg_color_ids = [0u8; SCREEN_WIDTH];
        let mut i: usize = 0;
        while i < SCREEN_WIDTH
            invariant
                i <= SCREEN_WIDTH,
                forall|j: int| 0 <= j < i ==> #[trigger] bg_color_ids@[j] == 0,
            decreases SCREEN_WIDTH - i,
        {
            bg_color_ids[i] = 0;
            i = i + 1;
        }
        assert(bg_color_ids@ =~= Seq::new(SCREEN_WIDTH as nat, |i: int| 0u8));
        let mut window_drawn = false;
        if self.lcdc & LCDC_BG_WINDOW_ENABLE != 0 {
            self.render_bg_row(&mut bg_color_ids);
            if self.lcdc & LCDC_WINDOW_ENABLE != 0 && self.wy <= self.ly {
                window_drawn = self.render_window_row(&mut bg_color_ids);
            }
        }
        assert forall|x: int| 0 <= x < SCREEN_WIDTH implies #[trigger] bg_color_ids@[x] == line_id_spec(p0, x)
            && bg_color_ids@[x] < 4 by {}

        let mut line_shades = [0u8; SCREEN_WIDTH];
        let mut x: usize = 0;
        while x < SCREEN_WIDTH
            invariant
                x <= SCREEN_WIDTH,
                self@ == p0,
                forall|i: int| 0 <= i < SCREEN_WIDTH ==> #[trigger] bg_color_ids@[i] == line_id_spec(p0, i) && bg_color_ids@[i] < 4,
                forall|i: int| 0 <= i < x ==> #[trigger] line_shades@[i] == palette_spec(p0.bgp, line_id_spec(p0, i)),
            decreases SCREEN_WIDTH - x,
        {
            assert(bg_color_ids@[x as int] < 4);
            line_shades[x] = Self::apply_palette(self.bgp, bg_color_ids[x]);
            x = x + 1;
        }

        if self.lcdc & LCDC_OBJ_ENABLE != 0 {
            self.render_sprite_row(&bg_color_ids, &mut line_shades);
        }
        assert forall|i: int| 0 <= i < SCREEN_WIDTH implies #[trigger] line_shades@[i] == line_shade_spec(p0, i) by {}

        assert(y * SCREEN_WIDTH + SCREEN_WIDTH <= FRAMEBUFFER_LEN) by (nonlinear_arith)
            requires
                y < SCREEN_HEIGHT,
        ;
        let row_start = y * SCREEN_WIDTH;
        let mut k: usize = 0;
        assert(self@.framebuffer =~= Seq::new(
            p0.framebuffer.len(),
            |i: int|
                if row_start <= i < row_start + k {
                    line_shade_spec(p0, i - row_start)
                } else {
                    p0.framebuffer[i]
                },
        ));
        while k < SCREEN_WIDTH
            invariant
                k <= SCREEN_WIDTH,
                row_start == p0.ly as int * SCREEN_WIDTH,
                row_start + SCREEN_WIDTH <= FRAMEBUFFER_LEN,
                y < SCREEN_HEIGHT,
                forall|i: int| 0 <= i < SCREEN_WIDTH ==> #[trigger] line_shades@[i] == line_shade_spec(p0, i),
                self@ == (PpuView {
                    framebuffer: Seq::new(
                        p0.framebuffer.len(),
                        |i: int|
                            if row_start <= i < row_start + k {
                                line_shade_spec(p0, i - row_start)
                            } else {
                                p0.framebuffer[i]
                            },
                    ),
                    ..p0
                }),
            decreases SCREEN_WIDTH - k,
        {
            self.framebuffer[row_start + k] = line_shades[k];
            k = k + 1;
            assert(self@.framebuffer =~= Seq::new(
                p0.framebuffer.len(),
                |i: int|
                    if row_start <= i < row_start + k {
                        line_shade_spec(p0, i - row_start)
                    } else {
                        p0.framebuffer[i]
                    },
            ));
        }
        if window_drawn {
            self.window_line = self.window_line.wrapping_add(1);
        }
    }

    fn render_bg_row(&self, bg_color_ids: &mut [u8; SCREEN_WIDTH])
        requires
            self@.lcdc & LCDC_BG_WINDOW_ENABLE != 0,
        ensures
            forall|x: int| 0 <= x < SCREEN_WIDTH ==> #[trigger] final(bg_color_ids)@[x] == bg_id_spec(self@, x)
                && final(bg_color_ids)@[x] < 4,
    {
        let map_base: u16 = if self.lcdc & LCDC_BG_TILE_MAP != 0 {
            0x9C00
        } else {
            0x9800
        };
        let bg_y = self.ly.wrapping_add(self.scy);
        let tile_row = (bg_y / 8) as u16;
        let row_in_tile = bg_y % 8;
        let mut x: usize = 0;
        while x < SCREEN_WIDTH
            invariant
                x <= SCREEN_WIDTH,
                map_base as int == bg_map_base(self@.lcdc),
                bg_y as int == (self@.ly as int + self@.scy as int) % 256,
                tile_row as int == bg_y as int / 8,
                row_in_tile as int == bg_y as int % 8,
                forall|i: int| 0 <= i < x ==> #[trigger] bg_color_ids@[i] == bg_id_spec(self@, i) && bg_color_ids@[i] < 4,
            decreases SCREEN_WIDTH - x,
        {
            let bg_x = (x as u8).wrapping_add(self.scx);
            let tile_col = (bg_x / 8) as u16;
            let col_in_tile = bg_x % 8;
            bg_color_ids[x] = self.map_pixel(map_base, tile_row, tile_col, row_in_tile, col_in_tile);
            x = x + 1;
        }
    }

    /// Overwrites `bg_color_ids` with window pixels wherever the window is
    /// visible on this row (`x >= WX-7`); returns whether any pixel was
    /// drawn.
    fn render_window_row(&self, bg_color_ids: &mut [u8; SCREEN_WIDTH]) -> (drawn: bool)
        requires
            window_on_line(self@),
            forall|x: int| 0 <= x < SCREEN_WIDTH ==> #[trigger] old(bg_color_ids)@[x] == bg_id_spec(self@, x) && old(bg_color_ids)@[x] < 4,
        ensures
            forall|x: int| 0 <= x < SCREEN_WIDTH ==> #[trigger] final(bg_color_ids)@[x] == line_id_spec(self@, x)
                && final(bg_color_ids)@[x] < 4,
            drawn == (window_start(self@) < SCREEN_WIDTH),
    {
        let map_base: u16 = if self.lcdc & LCDC_WINDOW_TILE_MAP != 0 {
            0x9C00
        } else {
            0x9800
        };
        let win_x_start: i16 = self.wx as i16 - 7;
        let tile_row = (self.window_line / 8) as u16;
        let row_in_tile = self.window_line % 8;
        let mut drawn = false;
        let mut x: usize = 0;
        while x < SCREEN_WIDTH
            invariant
                x <= SCREEN_WIDTH,
                window_on_line(self@),
                map_base as int == window_map_base(self@.lcdc),
                win_x_start as int == window_start(self@),
                tile_row as int == self@.window_line as int / 8,
                row_in_tile == self@.window_line % 8,
                drawn == (x > 0 && window_start(self@) < x),
                forall|i: int| 0 <= i < x ==> #[trigger] bg_color_ids@[i] == line_id_spec(self@, i) && bg_color_ids@[i] < 4,
                forall|i: int| x <= i < SCREEN_WIDTH ==> #[trigger] bg_color_ids@[i] == bg_id_spec(self@, i) && bg_color_ids@[i] < 4,
            decreases SCREEN_WIDTH - x,
        {
            let ghost before = bg_color_ids@;
            let win_x = x as i16 - win_x_start;
            if win_x >= 0 {
                let win_x = win_x as u16;
                let tile_col = win_x / 8;
                let col_in_tile = (win_x % 8) as u8;
                bg_color_ids[x] = self.map_pixel(map_base, tile_row, tile_col, row_in_tile, col_in_tile);
                drawn = true;
            }
            assert(bg_color_ids@[x as int] == line_id_spec(self@, x as int));
            assert forall|i: int| x + 1 <= i < SCREEN_WIDTH implies #[trigger] bg_color_ids@[i] == bg_id_spec(self@, i) && bg_color_ids@[i] < 4 by {
                assert(bg_color_ids@[i] == before[i]);
            }
            x = x + 1;
        }
        drawn
    }

    /// Whether OAM entry `i` intersects the current line.
    fn sprite_on_line(&self, i: usize, height: i16) -> (b: bool)
        requires
            i < OAM_ENTRY_COUNT,
            height == sprite_height(self@.lcdc),
        ensures
            b == sprite_on_line(self@, i as int),
    {
        let oam_y = self.oam[i * OAM_ENTRY_SIZE] as i16 - 16;
        let ly = self.ly as i16;
        ly >= oam_y && ly < oam_y + height
    }

    /// Color id of OAM entry `i` at screen column `px` (0 outside it).
    fn sprite_color_id(&self, i: usize, px: usize, height: i16) -> (id: u8)
        requires
            i < OAM_ENTRY_COUNT,
            px < SCREEN_WIDTH,
            height == sprite_height(self@.lcdc),
            sprite_on_line(self@, i as int),
        ensures
            id == sprite_id_spec(self@, i as int, px as int),
            id < 4,
    {
        let base = i * OAM_ENTRY_SIZE;
        let sx = self.oam[base + 1] as i16 - 8;
        let col = px as i16 - sx;
        if col < 0 || col >= 8 {
            return 0;
        }
        let oam_y = self.oam[base] as i16 - 16;
        let tile_index = self.oam[base + 2];
        let attrs = self.oam[base + 3];
        let y_flip = attrs & 0x40 != 0;
        let x_flip = attrs & 0x20 != 0;
        let mut row_in_sprite = (self.ly as i16 - oam_y) as u8;
        if y_flip {
            row_in_sprite = height as u8 - 1 - row_in_sprite;
        }
        let tile_idx = if height == 16 {
            if row_in_sprite < 8 {
                tile_index & 0xFE
            } else {
                tile_index | 0x01
            }
        } else {
            tile_index
        };
        let data_addr = VRAM_BASE + (tile_idx as u16) * 16;
        let (lo, hi) = self.tile_row_bytes(data_addr, row_in_sprite % 8);
        let sample_col = if x_flip {
            7 - col as u8
        } else {
            col as u8
        };
        Self::color_id_from_row(lo, hi, sample_col)
    }

    /// Draws the OBJs intersecting this scanline (up to
    /// [`MAX_SPRITES_PER_LINE`], in OAM order) into `line_shades`: at each
    /// column the painting sprite with the lowest X wins, ties going to
    /// the lower OAM index; a sprite's BG-over-OBJ attribute hides it
    /// behind nonzero BG/window pixels.
    fn render_sprite_row(&self, bg_color_ids: &[u8; SCREEN_WIDTH], line_shades: &mut [u8; SCREEN_WIDTH])
        requires
            self@.lcdc & LCDC_OBJ_ENABLE != 0,
            forall|i: int| 0 <= i < SCREEN_WIDTH ==> #[trigger] bg_color_ids@[i] == line_id_spec(self@, i) && bg_color_ids@[i] < 4,
            forall|i: int| 0 <= i < SCREEN_WIDTH ==> #[trigger] old(line_shades)@[i] == palette_spec(self@.bgp, line_id_spec(self@, i)),
        ensures
            forall|i: int| 0 <= i < SCREEN_WIDTH ==> #[trigger] final(line_shades)@[i] == line_shade_spec(self@, i),
    {
        let height: i16 = if self.lcdc & LCDC_OBJ_SIZE != 0 {
            16
        } else {
            8
        };
        // OAM indices of sprites intersecting this line, in OAM order,
        // hardware-limited to the first 10 found.
        let mut visible: Vec<usize> = Vec::new();
        let mut i: usize = 0;
        while i < OAM_ENTRY_COUNT
            invariant
                i <= OAM_ENTRY_COUNT,
                height == sprite_height(self@.lcdc),
                visible@ == selected_upto(self@, i as nat),
                visible@.len() <= MAX_SPRITES_PER_LINE,
                forall|k: int| 0 <= k < visible@.len() ==> visible@[k] < i && sprite_on_line(self@, visible@[k] as int),
            decreases OAM_ENTRY_COUNT - i,
        {
            if visible.len() < MAX_SPRITES_PER_LINE && self.sprite_on_line(i, height) {
                visible.push(i);
            }
            i = i + 1;
        }
        let ghost sel = selected_sprites(self@);
        let mut px: usize = 0;
        while px < SCREEN_WIDTH
            invariant
                px <= SCREEN_WIDTH,
                self@.lcdc & LCDC_OBJ_ENABLE != 0,
                height == sprite_height(self@.lcdc),
                visible@ == sel,
                sel == selected_sprites(self@),
                forall|k: int| 0 <= k < visible@.len() ==> visible@[k] < OAM_ENTRY_COUNT && sprite_on_line(self@, visible@[k] as int),
                forall|i: int| 0 <= i < SCREEN_WIDTH ==> #[trigger] bg_color_ids@[i] == line_id_spec(self@, i) && bg_color_ids@[i] < 4,
                forall|i: int| 0 <= i < px ==> #[trigger] line_shades@[i] == line_shade_spec(self@, i),
                forall|i: int| px <= i < SCREEN_WIDTH ==> #[trigger] line_shades@[i] == palette_spec(self@.bgp, line_id_spec(self@, i)),
            decreases SCREEN_WIDTH - px,
        {
            let mut best: Option<usize> = None;
            let mut best_x: i16 = 0;
            let mut k: usize = 0;
            while k < visible.len()
                invariant
                    k <= visible@.len(),
                    px < SCREEN_WIDTH,
                    height == sprite_height(self@.lcdc),
                    forall|j: int| 0 <= j < visible@.len() ==> visible@[j] < OAM_ENTRY_COUNT && sprite_on_line(self@, visible@[j] as int),
                    forall|i: int| 0 <= i < SCREEN_WIDTH ==> #[trigger] bg_color_ids@[i] == line_id_spec(self@, i) && bg_color_ids@[i] < 4,
                    best == best_sprite(self@, visible@, k as nat, px as int),
                    visible@ == sel,
                    sel == selected_sprites(self@),
                    forall|i: int| 0 <= i < px ==> #[trigger] line_shades@[i] == line_shade_spec(self@, i),
                    forall|i: int| px <= i < SCREEN_WIDTH ==> #[trigger] line_shades@[i] == palette_spec(self@.bgp, line_id_spec(self@, i)),
                    best matches Some(b) ==> best_x as int == sprite_x(self@, b as int) && b < OAM_ENTRY_COUNT,
                decreases visible@.len() - k,
            {
                let oi = visible[k];
                let base = oi * OAM_ENTRY_SIZE;
                let sx = self.oam[base + 1] as i16 - 8;
                let id = self.sprite_color_id(oi, px, height);
                let attrs = self.oam[base + 3];
                let paints = id != 0 && !(attrs & 0x80 != 0 && bg_color_ids[px] != 0);
                if paints && (best.is_none() || sx < best_x) {
                    best = Some(oi);
                    best_x = sx;
                }
                k = k + 1;
            }
            assert(best == best_sprite(self@, sel, sel.len(), px as int));
            if let Some(oi) = best {
                let attrs = self.oam[oi * OAM_ENTRY_SIZE + 3];
                let palette = if attrs & 0x10 != 0 {
                    self.obp1
                } else {
                    self.obp0
                };
                let sel_len = visible.len();
                assert(sprite_on_line(self@, oi as int)) by {
                    lemma_best_is_selected(self@, visible@, visible@.len() as nat, px as int);
                }
                let id = self.sprite_color_id(oi, px, height);
                line_shades[px] = Self::apply_palette(palette, id);
                assert(line_shades@[px as int] == palette_spec(palette, sprite_id_spec(self@, oi as int, px as int)));
            } else {
                assert(line_shades@[px as int] == palette_spec(self@.bgp, line_id_spec(self@, px as int)));
            }
            assert(line_shades@[px as int] == line_shade_spec(self@, px as int));
            px = px + 1;
        }
    }
}

/// The winning sprite is one of the candidates.
proof fn lemma_best_is_selected(p: PpuView, sel: Seq<usize>, k: nat, px: int)
    requires
        k <= sel.len(),
    ensures
        best_sprite(p, sel, k, px) matches Some(b) ==> exists|j: int| 0 <= j < k && sel[j] == b,
    decreases k,
{
    if k > 0 {
        lemma_best_is_selected(p, sel, (k - 1) as nat, px);
    }
}

} // verus!

verus! {

/// Where in the frame the PPU is: dots since the start of line 0.
pub open spec fn frame_position(p: PpuView) -> int {
    p.ly as int * SCANLINE_DOTS as int + p.dot as int
}

/// Line and dot counters within their ranges (154 lines of 456 dots).
pub open spec fn positioned(p: PpuView) -> bool {
    p.ly < LINES_PER_FRAME && p.dot < SCANLINE_DOTS
}

proof fn lemma_tick_position(p: PpuView)
    requires
        positioned(p),
    ensures
        positioned(tick_spec(p)),
        frame_position(tick_spec(p)) == (frame_position(p) + 1) % DOTS_PER_FRAME as int,
        tick_spec(p).mode == mode_for(tick_spec(p)),
        tick_spec(p).lcdc == p.lcdc,
{
}

/// With the LCD on the PPU is a counter over the 70224 dots of a frame:
/// `n` dots move it `n` dots on (wrapping after line 153), every dot
/// leaves it in the mode its line and dot call for, and so a whole frame
/// brings it back to the same line and dot.
pub proof fn lemma_run_position(p: PpuView, n: nat)
    requires
        positioned(p),
    ensures
        positioned(run_spec(p, n)),
        run_spec(p, n).lcdc == p.lcdc,
        frame_position(run_spec(p, n)) == (frame_position(p) + n) % DOTS_PER_FRAME as int,
        n > 0 ==> run_spec(p, n).mode == mode_for(run_spec(p, n)),
        n as int % DOTS_PER_FRAME as int == 0 ==> (run_spec(p, n).ly, run_spec(p, n).dot) == (p.ly, p.dot),
    decreases n,
{
    if n > 0 {
        let q = run_spec(p, (n - 1) as nat);
        lemma_run_position(p, (n - 1) as nat);
        lemma_tick_position(q);
        let a = frame_position(p);
        let f = DOTS_PER_FRAME as int;
        assert(((a + n - 1) % f + 1) % f == (a + n) % f) by {
            vstd::arithmetic::div_mod::lemma_add_mod_noop(a + n - 1, 1, f);
            vstd::arithmetic::div_mod::lemma_mod_twice(a + n - 1, f);
            vstd::arithmetic::div_mod::lemma_small_mod(1, f as nat);
        }
    }
    if n as int % DOTS_PER_FRAME as int == 0 {
        let a = frame_position(p);
        let f = DOTS_PER_FRAME as int;
        let r = run_spec(p, n);
        assert((a + n) % f == a) by {
            vstd::arithmetic::div_mod::lemma_add_mod_noop(a, n as int, f);
            vstd::arithmetic::div_mod::lemma_small_mod(a as nat, f as nat);
        }
        assert(r.ly as int * 456 + r.dot as int == p.ly as int * 456 + p.dot as int);
        assert(r.ly == p.ly && r.dot == p.dot) by (nonlinear_arith)
            requires
                r.ly as int * 456 + r.dot as int == p.ly as int * 456 + p.dot as int,
                r.dot < 456,
                p.dot < 456,
        ;
    }
}

/// Running the PPU from before line 144 to line 144 or later (within
/// the frame) requests the VBlank interrupt.
pub proof fn lemma_run_requests_vblank(p: PpuView, n: nat)
    requires
        positioned(p),
        frame_position(p) < VBLANK_START_LINE as int * SCANLINE_DOTS as int,
        VBLANK_START_LINE as int * SCANLINE_DOTS as int <= frame_position(p) + n < DOTS_PER_FRAME,
    ensures
        run_spec(p, n).vblank_interrupt_pending,
    decreases n,
{
    let v = VBLANK_START_LINE as int * SCANLINE_DOTS as int;
    let q = run_spec(p, (n - 1) as nat);
    lemma_run_position(p, (n - 1) as nat);
    if frame_position(p) + n - 1 >= v {
        lemma_run_requests_vblank(p, (n - 1) as nat);
    } else {
        assert(frame_position(q) == v - 1);
        assert(q.ly == 143 && q.dot == 455);
    }
}

/// Color id (0-3) of pixel `(r, c)` of an OBJ picture whose tile data
/// starts at VRAM offset `base`: row `r` is the byte pair at `base + 2r`
/// (low plane first), and column 0 is the most significant bit.
pub open spec fn obj_pixel(p: PpuView, base: int, r: int, c: int) -> int {
    let bit = (7 - c) as u8;
    ((p.vram[base + 2 * r + 1] >> bit) & 1) as int * 2 + ((p.vram[base + 2 * r] >> bit) & 1) as int
}

proof fn lemma_color_id_planes(lo: u8, hi: u8, bit: u8)
    ensures
        ((((hi >> bit) & 1) << 1) | ((lo >> bit) & 1)) as int == ((hi >> bit) & 1) as int * 2 + ((lo >> bit) & 1) as int,
{
    assert(((((hi >> bit) & 1) << 1) | ((lo >> bit) & 1)) == ((hi >> bit) & 1) * 2 + ((lo >> bit) & 1)) by (bit_vector);
}

/// How an OBJ on the current line draws its picture. Let `row0` be the
/// line's row within the OBJ (`LY - (Y - 16)`), `h` its height and `x0`
/// its left edge (`X - 8`). The picture is its tile (in 8x16 mode the tile
/// pair from the even index). With neither flip bit, column `c` of picture
/// row `row0` lands at `x0 + c`; attribute bit 5 alone mirrors columns (it
/// lands at `x0 + 7 - c`); bit 6 alone mirrors rows (row `h - 1 - row0` is
/// drawn, columns unmirrored); both bits do both.
pub proof fn lemma_sprite_flips(p: PpuView, i: int, c: int)
    requires
        sprite_on_line(p, i),
        0 <= c < 8,
    ensures
        ({
            let attrs = p.oam[i * 4 + 3];
            let h = sprite_height(p.lcdc);
            let row0 = p.ly as int - sprite_y(p, i);
            let x0 = sprite_x(p, i);
            let base = (if h == 16 { p.oam[i * 4 + 2] & 0xFE } else { p.oam[i * 4 + 2] }) as int * 16;
            &&& attrs & 0x60 == 0 ==> sprite_id_spec(p, i, x0 + c) as int == obj_pixel(p, base, row0, c)
            &&& attrs & 0x60 == 0x20 ==> sprite_id_spec(p, i, x0 + 7 - c) as int == obj_pixel(p, base, row0, c)
            &&& attrs & 0x60 == 0x40 ==> sprite_id_spec(p, i, x0 + c) as int == obj_pixel(p, base, h - 1 - row0, c)
            &&& attrs & 0x60 == 0x60 ==> sprite_id_spec(p, i, x0 + 7 - c) as int == obj_pixel(p, base, h - 1 - row0, c)
        }),
{
    let attrs = p.oam[i * 4 + 3];
    let tile = p.oam[i * 4 + 2];
    assert({
        &&& attrs & 0x60 == 0 ==> (attrs & 0x40 == 0 && attrs & 0x20 == 0)
        &&& attrs & 0x60 == 0x20 ==> (attrs & 0x40 == 0 && attrs & 0x20 != 0)
        &&& attrs & 0x60 == 0x40 ==> (attrs & 0x40 != 0 && attrs & 0x20 == 0)
        &&& attrs & 0x60 == 0x60 ==> (attrs & 0x40 != 0 && attrs & 0x20 != 0)
    }) by (bit_vector);
    assert((tile | 1) as int == (tile & 0xFE) as int + 1) by (bit_vector);
    let h = sprite_height(p.lcdc);
    let row0 = p.ly as int - sprite_y(p, i);
    let row = if attrs & 0x40 != 0 { h - 1 - row0 } else { row0 };
    let t = if h == 16 {
        if row < 8 { tile & 0xFE } else { tile | 0x01 }
    } else {
        tile
    };
    let a = 0x8000 + t as int * 16 + (row % 8) * 2;
    lemma_color_id_planes(vram_at(p, a), vram_at(p, a + 1), (7 - c) as u8);
}

/// A palette register holds four 2-bit shades: color id `k` (0-3) maps to
/// the shade in bits `2k` and `2k + 1`, that is `(palette / 4^k) mod 4`.
pub proof fn lemma_palette_fields(palette: u8)
    ensures
        palette_spec(palette, 0) as int == palette as int % 4,
        palette_spec(palette, 1) as int == (palette as int / 4) % 4,
        palette_spec(palette, 2) as int == (palette as int / 16) % 4,
        palette_spec(palette, 3) as int == (palette as int / 64) % 4,
{
    assert({
        &&& (palette >> 0u8) & 0b11 == palette % 4
        &&& (palette >> 2u8) & 0b11 == (palette / 4) % 4
        &&& (palette >> 4u8) & 0b11 == (palette / 16) % 4
        &&& (palette >> 6u8) & 0b11 == (palette / 64) % 4
    }) by (bit_vector);
}

proof fn lemma_mod_shift(a: int, b: int, d: int)
    ensures
        (a + (b + d) % 256) % 256 == (a + d + b) % 256,
        (a + (b + d) % 256) % 256 == ((a + d) % 256 + b) % 256,
{
    vstd::arithmetic::div_mod::lemma_add_mod_noop(a, b + d, 256);
    vstd::arithmetic::div_mod::lemma_mod_twice(b + d, 256);
    vstd::arithmetic::div_mod::lemma_add_mod_noop(a + d, b, 256);
    vstd::arithmetic::div_mod::lemma_mod_twice(a + d, 256);
    vstd::arithmetic::div_mod::lemma_add_mod_noop(a, (b + d) % 256, 256);
    vstd::arithmetic::div_mod::lemma_add_mod_noop(a, b + d, 256);
    vstd::arithmetic::div_mod::lemma_add_mod_noop((a + d) % 256, b, 256);
}

/// Scrolling moves the background under the screen: raising `SCX` by `d`
/// shows at column `x` what column `x + d` showed, and raising `SCY` by
/// `d` shows on the current line what line `LY + d` would show (both
/// wrapping around the 256x256 map).
pub proof fn lemma_scroll_shifts_background(p: PpuView, x: int, d: int)
    requires
        0 <= d < 256,
    ensures
        bg_id_spec(PpuView { scx: ((p.scx as int + d) % 256) as u8, ..p }, x) == bg_id_spec(p, x + d),
        bg_id_spec(PpuView { scy: ((p.scy as int + d) % 256) as u8, ..p }, x) == bg_id_spec(
            PpuView { ly: ((p.ly as int + d) % 256) as u8, ..p },
            x,
        ),
{
    lemma_mod_shift(x, p.scx as int, d);
    lemma_mod_shift(p.ly as int, p.scy as int, d);
    let q = PpuView { ly: ((p.ly as int + d) % 256) as u8, ..p };
    assert(q.ly as int == (p.ly as int + d) % 256);
}

/// A `STAT` read: bit 7 always reads 1, bits 3-6 are the interrupt
/// enables as written, bit 2 reads 1 exactly when `LY == LYC`, and bits
/// 0-1 hold the mode number (HBlank 0, VBlank 1, OAM scan 2, drawing 3).
pub proof fn lemma_stat_read_fields(p: PpuView)
    ensures
        read_stat_spec(p) & 0x80 == 0x80,
        read_stat_spec(p) & 0x78 == p.stat & 0x78,
        (read_stat_spec(p) & 0x04 != 0) == (p.ly == p.lyc),
        read_stat_spec(p) & 0x03 == match p.mode {
            Mode::HBlank => 0u8,
            Mode::VBlank => 1u8,
            Mode::OamScan => 2u8,
            Mode::Drawing => 3u8,
        },
{
    let m = mode_bits_spec(p.mode);
    let co: u8 = if p.ly == p.lyc { 4 } else { 0 };
    let st = p.stat;
    assert(m < 4 && (co == 4 || co == 0) ==> {
        let r = 0x80u8 | (st & 0x78u8) | co | m;
        &&& r & 0x80 == 0x80
        &&& r & 0x78 == st & 0x78
        &&& (r & 0x04 != 0) == (co == 4)
        &&& r & 0x03 == m
    }) by (bit_vector);
}

/// BG/window tile addressing: with `LCDC` bit 4 set, tile `t` is at
/// `0x8000 + 16 t`; with it clear, at `0x9000 + 16 t` with `t` read as
/// a signed byte. Either way a tile's 16 bytes lie in 0x8000-0x97FF, and
/// tiles 128-255 are the same bytes in both modes.
pub proof fn lemma_tile_addressing(lcdc: u8, t: u8)
    ensures
        lcdc & LCDC_TILE_DATA_SELECT != 0 ==> tile_data_addr_spec(lcdc, t) == 0x8000 + 16 * t as int,
        lcdc & LCDC_TILE_DATA_SELECT == 0 ==> tile_data_addr_spec(lcdc, t) == 0x9000 + 16 * (if t < 128 {
            t as int
        } else {
            t as int - 256
        }),
        0x8000 <= tile_data_addr_spec(lcdc, t) && tile_data_addr_spec(lcdc, t) + 16 <= 0x9800,
        t >= 128 ==> tile_data_addr_spec(lcdc, t) == tile_data_addr_spec(lcdc ^ LCDC_TILE_DATA_SELECT, t),
{
    assert((lcdc & 0x10 != 0) != ((lcdc ^ 0x10) & 0x10 != 0)) by (bit_vector);
}

} // verus!
