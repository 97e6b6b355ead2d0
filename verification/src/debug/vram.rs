//! VRAM viewer data: tile pixels, the BG tile map as hex rows, and the
//! OAM sprite list.
use vstd::prelude::*;
use vstd::string::StringExecFns;
use crate::ppu::{Ppu, PpuView, OAM_BASE, VRAM_BASE, color_id_spec};
use crate::text::{hex2, dec, padded, push_hex2, push_dec_padded};
use crate::ui::Palette;

verus! {

/// All of 0x8000-0x97FF, 16 bytes per tile.
pub const TILE_COUNT: usize = 384;
pub const TILES_PER_ROW: usize = 16;

/// Color id (0-3) of pixel (`x`, `y`) of tile `tile_index`, addressing
/// tiles unsigned from 0x8000 (the convention for browsing VRAM).
pub open spec fn tile_pixel_spec(p: PpuView, tile_index: int, x: u8, y: u8) -> u8 {
    let a = tile_index * 16 + y * 2;
    color_id_spec(p.vram[a], p.vram[a + 1], x)
}

pub fn tile_pixel(ppu: &Ppu, tile_index: usize, x: u8, y: u8) -> (id: u8)
    requires
        tile_index < TILE_COUNT,
        x < 8,
        y < 8,
    ensures
        id == tile_pixel_spec(ppu@, tile_index as int, x, y),
        id < 4,
{
    let base: u16 = VRAM_BASE + tile_index as u16 * 16;
    let addr = base + y as u16 * 2;
    let lo = ppu.read_vram(addr);
    let hi = ppu.read_vram(addr + 1);
    Ppu::color_id_from_row(lo, hi, x)
}

/// The tile-grid panel: every VRAM tile as pixels.
pub struct TileGridWidget<'a> {
    pub ppu: &'a Ppu,
    pub palette: Palette,
}

impl<'a> TileGridWidget<'a> {
    pub fn new(ppu: &'a Ppu, palette: Palette) -> (w: Self)
        ensures
            w.ppu@ == ppu@,
            w.palette == palette,
    {
        TileGridWidget { ppu, palette }
    }
}

/// One BG map row: its 32 tile indices in hex, each followed by a space.
pub open spec fn map_row_text(p: PpuView, map_base: u16, row: int, n: nat) -> Seq<char>
    decreases n,
{
    if n == 0 {
        Seq::empty()
    } else {
        map_row_text(p, map_base, row, (n - 1) as nat) + hex2(
            p.vram[map_base - VRAM_BASE + row * 32 + n - 1],
        ) + " "@
    }
}

/// Text rows for the BG tile map at `map_base` (0x9800 or 0x9C00): the
/// first `rows` (at most 32) map rows.
pub fn bg_map_lines(ppu: &Ppu, map_base: u16, rows: u16) -> (out: Vec<String>)
    requires
        VRAM_BASE <= map_base <= 0x9C00,
    ensures
        out@.len() == if rows < 32 {
            rows as int
        } else {
            32
        },
        forall|i: int|
            0 <= i < out@.len() ==> #[trigger] out@[i]@ == map_row_text(ppu@, map_base, i, 32),
{
    let n = if rows < 32 {
        rows
    } else {
        32
    };
    let mut out: Vec<String> = Vec::new();
    let mut row: u16 = 0;
    while row < n
        invariant
            row <= n <= 32,
            VRAM_BASE <= map_base <= 0x9C00,
            out@.len() == row,
            forall|i: int| 0 <= i < row ==> #[trigger] out@[i]@ == map_row_text(ppu@, map_base, i, 32),
        decreases n - row,
    {
        let mut line = String::new();
        let mut col: u16 = 0;
        while col < 32
            invariant
                col <= 32,
                row < 32,
                VRAM_BASE <= map_base <= 0x9C00,
                line@ == map_row_text(ppu@, map_base, row as int, col as nat),
            decreases 32 - col,
        {
            let addr = map_base + row * 32 + col;
            push_hex2(&mut line, ppu.read_vram(addr));
            line.append(" ");
            col = col + 1;
        }
        out.push(line);
        row = row + 1;
    }
    out
}

/// One OAM sprite entry, decoded for display.
#[derive(Debug, Clone, Copy, PartialEq, Eq, Structural)]
pub struct SpriteEntry {
    pub index: usize,
    pub y: u8,
    pub x: u8,
    pub tile: u8,
    pub attrs: u8,
}

pub open spec fn sprite_entry_spec(p: PpuView, i: int) -> SpriteEntry {
    SpriteEntry {
        index: i as usize,
        y: p.oam[i * 4],
        x: p.oam[i * 4 + 1],
        tile: p.oam[i * 4 + 2],
        attrs: p.oam[i * 4 + 3],
    }
}

/// All 40 OAM entries, in OAM order.
pub fn oam_entries(ppu: &Ppu) -> (out: Vec<SpriteEntry>)
    ensures
        out@.len() == 40,
        forall|i: int| 0 <= i < 40 ==> #[trigger] out@[i] == sprite_entry_spec(ppu@, i),
{
    let mut out: Vec<SpriteEntry> = Vec::new();
    let mut i: usize = 0;
    while i < 40
        invariant
            i <= 40,
            out@.len() == i,
            forall|j: int| 0 <= j < i ==> #[trigger] out@[j] == sprite_entry_spec(ppu@, j),
        decreases 40 - i,
    {
        let base = OAM_BASE + i as u16 * 4;
        out.push(
            SpriteEntry {
                index: i,
                y: ppu.read_oam(base),
                x: ppu.read_oam(base + 1),
                tile: ppu.read_oam(base + 2),
                attrs: ppu.read_oam(base + 3),
            },
        );
        i = i + 1;
    }
    out
}

/// A sprite's row in the OAM list: index (2 digits), Y and X (right-aligned
/// in 3 columns), tile and attributes in hex.
pub open spec fn sprite_line(s: SpriteEntry) -> Seq<char> {
    padded(dec(s.index as nat), 2, "0"@) + " "@ + padded(dec(s.y as nat), 3, " "@) + " "@ + padded(
        dec(s.x as nat),
        3,
        " "@,
    ) + " "@ + hex2(s.tile) + "   "@ + hex2(s.attrs)
}

/// The OAM list: a header row, then one row per sprite.
pub fn oam_lines(ppu: &Ppu) -> (out: Vec<String>)
    ensures
        out@.len() == 41,
        out@[0]@ == "## Y   X  Tile Attr"@,
        forall|i: int|
            0 <= i < 40 ==> #[trigger] out@[i + 1]@ == sprite_line(sprite_entry_spec(ppu@, i)),
{
    let entries = oam_entries(ppu);
    let mut out: Vec<String> = Vec::new();
    let mut header = String::new();
    header.append("## Y   X  Tile Attr");
    out.push(header);
    let mut i: usize = 0;
    while i < 40
        invariant
            i <= 40,
            entries@.len() == 40,
            forall|j: int| 0 <= j < 40 ==> #[trigger] entries@[j] == sprite_entry_spec(ppu@, j),
            out@.len() == i + 1,
            out@[0]@ == "## Y   X  Tile Attr"@,
            forall|j: int|
                0 <= j < i ==> #[trigger] out@[j + 1]@ == sprite_line(sprite_entry_spec(ppu@, j)),
        decreases 40 - i,
    {
        let s = entries[i];
        let mut line = String::new();
        push_dec_padded(&mut line, s.index as u64, 2, "0");
        line.append(" ");
        push_dec_padded(&mut line, s.y as u64, 3, " ");
        line.append(" ");
        push_dec_padded(&mut line, s.x as u64, 3, " ");
        line.append(" ");
        push_hex2(&mut line, s.tile);
        line.append("   ");
        push_hex2(&mut line, s.attrs);
        out.push(line);
        i = i + 1;
    }
    out
}

/// The OAM list panel.
pub struct OamWidget<'a> {
    pub ppu: &'a Ppu,
}

impl<'a> OamWidget<'a> {
    pub fn new(ppu: &'a Ppu) -> (w: Self)
        ensures
            w.ppu@ == ppu@,
    {
        OamWidget { ppu }
    }
}

} // verus!
