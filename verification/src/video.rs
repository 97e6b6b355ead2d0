//! The video widget's data: the framebuffer to draw and the palette to
//! draw it with. One terminal cell shows two vertically adjacent pixels.
use vstd::prelude::*;
use crate::ppu::{FRAMEBUFFER_LEN, SCREEN_WIDTH, SCREEN_HEIGHT};
use crate::ui::Palette;
use crate::debug::status::SIDEBAR_COLS;

verus! {

/// GB screen size in pixels.
pub const GB_WIDTH: u16 = 160;
pub const GB_HEIGHT: u16 = 144;
/// Terminal cells needed for the full screen (two pixels per cell, one
/// above the other).
pub const SCREEN_COLS: u16 = 160;
pub const SCREEN_ROWS: u16 = 72;

/// Minimum terminal size for the screen and the always-on status sidebar.
pub const MIN_COLS: u16 = SCREEN_COLS + SIDEBAR_COLS;
pub const MIN_ROWS: u16 = SCREEN_ROWS;
/// Rows the debug panel gets below the screen when the overlay is on.
pub const MIN_OVERLAY_ROWS: u16 = 15;
pub const MIN_ROWS_WITH_OVERLAY: u16 = SCREEN_ROWS + MIN_OVERLAY_ROWS;

/// Whether a `width` x `height` terminal can show the emulator (else a
/// resize prompt is shown); the debug overlay needs more rows.
pub fn fits(width: u16, height: u16, overlay: bool) -> (b: bool)
    ensures
        b == (width >= MIN_COLS && height >= if overlay {
            MIN_ROWS_WITH_OVERLAY
        } else {
            MIN_ROWS
        }),
{
    let min_rows = if overlay {
        MIN_ROWS_WITH_OVERLAY
    } else {
        MIN_ROWS
    };
    width >= MIN_COLS && height >= min_rows
}

/// Renders the framebuffer through a palette.
pub struct VideoWidget<'a> {
    pub framebuffer: &'a [u8; FRAMEBUFFER_LEN],
    pub palette: Palette,
}

impl<'a> VideoWidget<'a> {
    pub fn new(framebuffer: &'a [u8; FRAMEBUFFER_LEN], palette: Palette) -> (w: Self)
        ensures
            w.framebuffer@ == framebuffer@,
            w.palette == palette,
    {
        VideoWidget { framebuffer, palette }
    }

    /// The shade of pixel (`x`, `y`).
    pub fn shade_at(&self, x: usize, y: usize) -> (s: u8)
        requires
            x < SCREEN_WIDTH,
            y < SCREEN_HEIGHT,
        ensures
            s == self.framebuffer@[y * SCREEN_WIDTH + x],
    {
        self.framebuffer[y * SCREEN_WIDTH + x]
    }
}

} // verus!
