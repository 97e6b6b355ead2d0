use gb_core::debug::status::SIDEBAR_COLS;
use gb_core::ui::{
    frame_due, plan_loop_step, DebugPanel, Palette, RunMode, VramTab, AUDIO_BACKPRESSURE_POLL_NANOS,
    FRAME_NANOS, SAVE_CHECK_INTERVAL_NANOS,
};
use gb_core::video::{VideoWidget, MIN_COLS, SCREEN_COLS};

#[test]
fn cycle_debug_panel_wraps_around() {
    let mut panel = DebugPanel::Disassembly;
    for expected in [DebugPanel::Memory, DebugPanel::Vram, DebugPanel::Log, DebugPanel::Disassembly] {
        panel = panel.next();
        assert_eq!(panel, expected);
    }
}

#[test]
fn cycle_vram_tab_wraps_around() {
    let mut tab = VramTab::Tiles;
    tab = tab.next();
    assert_eq!(tab, VramTab::BgMap);
    tab = tab.next();
    assert_eq!(tab, VramTab::Oam);
    tab = tab.next();
    assert_eq!(tab, VramTab::Tiles);
}

#[test]
fn classic_and_grayscale_map_all_four_shades_distinctly() {
    for palette in [Palette::Classic, Palette::Grayscale] {
        let colors: Vec<(u8, u8, u8)> = (0..4).map(|s| palette.rgb(s)).collect();
        for i in 0..colors.len() {
            for j in (i + 1)..colors.len() {
                assert_ne!(colors[i], colors[j], "{palette:?} shades {i} and {j} collide");
            }
        }
    }
}

#[test]
fn shade_index_wraps_to_two_bits() {
    assert_eq!(Palette::Classic.rgb(0), Palette::Classic.rgb(4));
    assert_eq!(Palette::Classic.rgb(3), Palette::Classic.rgb(7));
}

#[test]
fn min_cols_covers_the_video_area_and_the_full_sidebar_width() {
    assert_eq!(MIN_COLS, SCREEN_COLS + SIDEBAR_COLS);
}

#[test]
fn video_widget_reads_pixels_row_major() {
    let mut fb = [0u8; 160 * 144];
    fb[160] = 3; // (0, 1)
    let w = VideoWidget::new(&fb, Palette::Grayscale);
    assert_eq!(w.shade_at(0, 1), 3);
    assert_eq!(w.shade_at(0, 0), 0);
    assert_eq!(Palette::Grayscale.rgb(3), (0, 0, 0));
    assert_eq!(Palette::default(), Palette::Classic);
}

#[test]
fn frames_run_only_while_running_and_the_audio_buffer_has_room() {
    assert!(frame_due(RunMode::Running, None));
    assert!(frame_due(RunMode::Running, Some((10, 16))));
    assert!(!frame_due(RunMode::Running, Some((16, 16))));
    assert!(!frame_due(RunMode::Paused, None));
}

#[test]
fn loop_step_paces_saves_and_quits() {
    let s = plan_loop_step(false, None, true, SAVE_CHECK_INTERVAL_NANOS, 2_742_706);
    assert!(s.persist_battery);
    assert!(!s.quit);
    assert_eq!(s.sleep_nanos, 14_000_000);
    let s = plan_loop_step(true, None, false, u64::MAX, FRAME_NANOS + 1);
    assert!(!s.persist_battery);
    assert!(s.quit);
    assert_eq!(s.sleep_nanos, 0);
    let s = plan_loop_step(false, Some((8192, 8192)), true, 1, 0);
    assert!(!s.persist_battery);
    assert_eq!(s.sleep_nanos, AUDIO_BACKPRESSURE_POLL_NANOS);
    let s = plan_loop_step(false, Some((10, 8192)), true, 1, 0);
    assert_eq!(s.sleep_nanos, 0);
}
