//! Frontend state that is plain data: the run mode, which debug panel and
//! VRAM tab are shown, and the display palette.
use vstd::prelude::*;

verus! {

/// Coarse run mode. `Paused` is also what a hit breakpoint or watchpoint
/// switches to.
#[derive(Debug, Clone, Copy, PartialEq, Eq, Structural)]
pub enum RunMode {
    Running,
    Paused,
}

/// Which debug panel has focus when the debug overlay is shown.
#[derive(Debug, Clone, Copy, PartialEq, Eq, Structural)]
pub enum DebugPanel {
    Disassembly,
    Memory,
    Vram,
    Log,
}

impl DebugPanel {
    /// The panel after this one, wrapping around.
    pub open spec fn next_spec(self) -> DebugPanel {
        match self {
            DebugPanel::Disassembly => DebugPanel::Memory,
            DebugPanel::Memory => DebugPanel::Vram,
            DebugPanel::Vram => DebugPanel::Log,
            DebugPanel::Log => DebugPanel::Disassembly,
        }
    }

    pub fn next(self) -> (p: DebugPanel)
        ensures
            p == self.next_spec(),
    {
        match self {
            DebugPanel::Disassembly => DebugPanel::Memory,
            DebugPanel::Memory => DebugPanel::Vram,
            DebugPanel::Vram => DebugPanel::Log,
            DebugPanel::Log => DebugPanel::Disassembly,
        }
    }
}

/// Which sub-tab the VRAM panel shows.
#[derive(Debug, Clone, Copy, PartialEq, Eq, Structural)]
pub enum VramTab {
    Tiles,
    BgMap,
    Oam,
}

impl VramTab {
    pub open spec fn next_spec(self) -> VramTab {
        match self {
            VramTab::Tiles => VramTab::BgMap,
            VramTab::BgMap => VramTab::Oam,
            VramTab::Oam => VramTab::Tiles,
        }
    }

    /// The tab after this one, wrapping around.
    pub fn next(self) -> (t: VramTab)
        ensures
            t == self.next_spec(),
    {
        match self {
            VramTab::Tiles => VramTab::BgMap,
            VramTab::BgMap => VramTab::Oam,
            VramTab::Oam => VramTab::Tiles,
        }
    }
}

/// Which four RGB triples the DMG's shade indices (0 = lightest .. 3 =
/// darkest) are shown as.
#[derive(Debug, Clone, Copy, PartialEq, Eq, Structural)]
pub enum Palette {
    /// Classic Game Boy green shades.
    Classic,
    /// Neutral grayscale shades.
    Grayscale,
}

impl Palette {
    pub open spec fn rgb_spec(self, shade: u8) -> (u8, u8, u8) {
        let s = shade % 4;
        match self {
            Palette::Classic => if s == 0 {
                (0x9B, 0xBC, 0x0F)
            } else if s == 1 {
                (0x8B, 0xAC, 0x0F)
            } else if s == 2 {
                (0x30, 0x62, 0x30)
            } else {
                (0x0F, 0x38, 0x0F)
            },
            Palette::Grayscale => if s == 0 {
                (0xFF, 0xFF, 0xFF)
            } else if s == 1 {
                (0xAA, 0xAA, 0xAA)
            } else if s == 2 {
                (0x55, 0x55, 0x55)
            } else {
                (0x00, 0x00, 0x00)
            },
        }
    }

    /// The RGB triple for a shade index; only its low two bits count,
    /// since the framebuffer holds 2-bit shades.
    pub fn rgb(self, shade: u8) -> (c: (u8, u8, u8))
        ensures
            c == self.rgb_spec(shade),
    {
        let s = shade % 4;
        match self {
            Palette::Classic => if s == 0 {
                (0x9B, 0xBC, 0x0F)
            } else if s == 1 {
                (0x8B, 0xAC, 0x0F)
            } else if s == 2 {
                (0x30, 0x62, 0x30)
            } else {
                (0x0F, 0x38, 0x0F)
            },
            Palette::Grayscale => if s == 0 {
                (0xFF, 0xFF, 0xFF)
            } else if s == 1 {
                (0xAA, 0xAA, 0xAA)
            } else if s == 2 {
                (0x55, 0x55, 0x55)
            } else {
                (0x00, 0x00, 0x00)
            },
        }
    }
}

impl Default for Palette {
    fn default() -> (p: Self)
        ensures
            p == Palette::Classic,
    {
        Palette::Classic
    }
}

/// Cycling the debug panels visits all four and returns to the start.
pub proof fn lemma_debug_panel_cycle(p: DebugPanel)
    ensures
        p.next_spec().next_spec().next_spec().next_spec() == p,
        p.next_spec() != p,
        p.next_spec().next_spec() != p,
        p.next_spec().next_spec().next_spec() != p,
{
}

/// Cycling the VRAM tabs visits all three and returns to the start.
pub proof fn lemma_vram_tab_cycle(t: VramTab)
    ensures
        t.next_spec().next_spec().next_spec() == t,
        t.next_spec() != t,
        t.next_spec().next_spec() != t,
{
}

/// A palette looks only at a shade's low two bits, and shows the four
/// shades as four different colours.
pub proof fn lemma_palette_shades(p: Palette, shade: u8, other: u8)
    ensures
        p.rgb_spec(shade) == p.rgb_spec(shade % 4),
        shade % 4 != other % 4 ==> p.rgb_spec(shade) != p.rgb_spec(other),
{
}

/// How often the frontend checks whether battery RAM needs writing out
/// (besides the write on exit), in nanoseconds.
pub const SAVE_CHECK_INTERVAL_NANOS: u64 = 5_000_000_000;

/// How long the frontend waits between checks of a full audio buffer, in
/// nanoseconds.
pub const AUDIO_BACKPRESSURE_POLL_NANOS: u64 = 2_000_000;

/// One DMG frame (70224 dots at 4.194304 MHz) in whole nanoseconds: the
/// wall-clock pacing used when no audio device drains the sample buffer.
pub const FRAME_NANOS: u64 = 16_742_706;

/// Whether the audio buffer (`Some((queued, capacity))` in stereo frames,
/// `None` without an audio device) has room for more samples.
pub open spec fn audio_has_room(audio: Option<(usize, usize)>) -> bool {
    match audio {
        Some((queued, capacity)) => queued < capacity,
        None => true,
    }
}

/// Whether the frontend emulates a frame this time round: while running,
/// and only when the audio buffer has room (emulation is paced by audio
/// backpressure).
pub fn frame_due(mode: RunMode, audio: Option<(usize, usize)>) -> (due: bool)
    ensures
        due == (mode == RunMode::Running && audio_has_room(audio)),
{
    let room = match audio {
        Some((queued, capacity)) => queued < capacity,
        None => true,
    };
    match mode {
        RunMode::Running => room,
        RunMode::Paused => false,
    }
}

/// What the frontend does after a frame has been shown and input handled.
#[derive(Debug, Clone, Copy, PartialEq, Eq, Structural)]
pub struct LoopStep {
    /// Write battery RAM out if it changed (a ROM is loaded and the check
    /// interval has passed).
    pub persist_battery: bool,
    /// Leave the loop.
    pub quit: bool,
    /// How long to sleep before the next round, in nanoseconds.
    pub sleep_nanos: u64,
}

/// The rest of one round of the frontend loop. `audio` is the buffer state
/// the round started with (see [`frame_due`]). With audio, the loop only
/// waits (a short poll) while the buffer was full; without it, it sleeps
/// out the rest of the frame's wall-clock time.
pub fn plan_loop_step(
    quit_requested: bool,
    audio: Option<(usize, usize)>,
    has_rom: bool,
    nanos_since_save_check: u64,
    frame_elapsed_nanos: u64,
) -> (s: LoopStep)
    ensures
        s.persist_battery == (has_rom && nanos_since_save_check >= SAVE_CHECK_INTERVAL_NANOS),
        s.quit == quit_requested,
        s.sleep_nanos == match audio {
            Some(_) => if audio_has_room(audio) {
                0
            } else {
                AUDIO_BACKPRESSURE_POLL_NANOS
            },
            None => if frame_elapsed_nanos < FRAME_NANOS {
                (FRAME_NANOS - frame_elapsed_nanos) as u64
            } else {
                0
            },
        },
{
    let sleep_nanos = match audio {
        Some((queued, capacity)) => if queued < capacity {
            0
        } else {
            AUDIO_BACKPRESSURE_POLL_NANOS
        },
        None => if frame_elapsed_nanos < FRAME_NANOS {
            FRAME_NANOS - frame_elapsed_nanos
        } else {
            0
        },
    };
    LoopStep {
        persist_battery: has_rom && nanos_since_save_check >= SAVE_CHECK_INTERVAL_NANOS,
        quit: quit_requested,
        sleep_nanos,
    }
}

} // verus!
