use gb_core::cpu::Bus;
use gb_core::debug::breakpoints::{run_frame_checking_breakpoints, Breakpoints};
use gb_core::mmu::Mmu;
use gb_core::system::System;

#[test]
fn toggle_pc_breakpoint_sets_then_clears() {
    let mut bp = Breakpoints::new();
    assert!(!bp.has_pc(0x100));
    bp.toggle_pc(0x100);
    assert!(bp.has_pc(0x100));
    bp.toggle_pc(0x100);
    assert!(!bp.has_pc(0x100));
}

#[test]
fn should_break_at_matches_only_set_breakpoints() {
    let mut bp = Breakpoints::new();
    bp.toggle_pc(0x150);
    assert!(bp.should_break_at(0x150));
    assert!(!bp.should_break_at(0x151));
}

#[test]
fn watchpoint_detects_value_change_across_checks() {
    let mut bp = Breakpoints::new();
    let mut mmu = Mmu::new();
    mmu.write(0xC000, 5);
    bp.toggle_watch(0xC000, mmu.read(0xC000));
    assert!(!bp.check_watchpoints(&mut mmu)); // unchanged since toggling
    mmu.write(0xC000, 6);
    assert!(bp.check_watchpoints(&mut mmu)); // changed
    assert!(!bp.check_watchpoints(&mut mmu)); // stable again after the check updates the stored value
}

#[test]
fn toggle_watch_clears_an_existing_watchpoint() {
    let mut bp = Breakpoints::new();
    bp.toggle_watch(0xC000, 0);
    assert!(bp.has_watch(0xC000));
    bp.toggle_watch(0xC000, 0);
    assert!(!bp.has_watch(0xC000));
}

#[test]
fn listing_breakpoints_and_watchpoints_gives_each_once() {
    let mut bp = Breakpoints::new();
    bp.toggle_pc(0x10);
    bp.toggle_pc(0x20);
    bp.toggle_pc(0x30);
    bp.toggle_pc(0x20);
    let mut pcs = bp.pc_breakpoints();
    pcs.sort();
    assert_eq!(pcs, vec![0x10, 0x30]);
    bp.toggle_watch(0xC000, 1);
    bp.toggle_watch(0xC001, 2);
    let mut w = bp.watchpoints();
    w.sort();
    assert_eq!(w, vec![0xC000, 0xC001]);
}

#[test]
fn run_frame_checking_breakpoints_stops_at_a_pc_breakpoint() {
    let mut system = System::new();
    let mut breakpoints = Breakpoints::new();
    system.load_rom(&[0xC3, 0x00, 0x00]); // JP 0x0000 (infinite loop)
    system.mmu.ppu.write_lcdc(0x80); // LCD on
    breakpoints.toggle_pc(0x0000);

    let hit = run_frame_checking_breakpoints(&mut system, &mut breakpoints);
    assert!(hit);
    assert_eq!(system.cpu.regs.pc, 0x0000); // stopped before executing it
}

#[test]
fn run_frame_checking_breakpoints_completes_a_full_frame_without_hits() {
    let mut system = System::new();
    let mut breakpoints = Breakpoints::new();
    system.load_rom(&[0xC3, 0x00, 0x00]); // JP 0x0000 (16 T-cycles/iter)
    system.mmu.ppu.write_lcdc(0x80);

    let hit = run_frame_checking_breakpoints(&mut system, &mut breakpoints);
    assert!(!hit);
    // DOTS_PER_FRAME is an exact multiple of this loop's 16 T-cycles per
    // iteration, so it lands back at the start of the next frame (LY=0).
    assert_eq!(system.mmu.ppu.read_ly(), 0);
}

#[test]
fn run_frame_checking_breakpoints_keeps_stepping_while_the_lcd_is_off() {
    let mut system = System::new();
    let mut breakpoints = Breakpoints::new();
    system.load_rom(&[0x3C, 0xC3, 0x00, 0x00]); // loop: INC A; JP 0x0000

    let hit = run_frame_checking_breakpoints(&mut system, &mut breakpoints);
    assert!(!hit);
    assert_ne!(system.cpu.regs.a, 0);
}

#[test]
fn run_frame_checking_breakpoints_stops_after_a_watched_byte_changes() {
    let mut system = System::new();
    let mut breakpoints = Breakpoints::new();
    // LD A,$5A; LD ($C000),A; JR -2
    system.load_rom(&[0x3E, 0x5A, 0xEA, 0x00, 0xC0, 0x18, 0xFE]);
    breakpoints.toggle_watch(0xC000, 0);
    let hit = run_frame_checking_breakpoints(&mut system, &mut breakpoints);
    assert!(hit);
    assert_eq!(system.cpu.regs.pc, 0x0005); // right after the store
}
