use gb_core::apu::{Apu, WAVE_RAM_START};
use gb_core::cpu::bus::FlatBus;
use gb_core::cpu::{Bus, Cpu};
use gb_core::debug::breakpoints::Breakpoints;
use gb_core::debug::disasm::disassemble_one;
use gb_core::joypad::{Button, Joypad};
use gb_core::mmu::Mmu;
use gb_core::ppu::{Ppu, DOTS_PER_FRAME};
use gb_core::ui::{DebugPanel, Palette, VramTab};

#[test]
fn interrupt_dispatch_jumps_to_the_highest_priority_vector() {
    let mut cpu = Cpu::new();
    let mut bus = FlatBus::new();
    cpu.regs.pc = 0x1234;
    cpu.regs.sp = 0xD000;
    cpu.ime = true;
    bus.mem[0xFFFF] = 0x1F; // IE: all five
    bus.mem[0xFF0F] = 0x14; // IF: timer (bit 2) and joypad (bit 4)
    let t = cpu.step(&mut bus);
    assert_eq!(t, 20);
    assert_eq!(cpu.regs.pc, 0x50); // timer vector, the lower bit wins
    assert!(!cpu.ime);
    assert_eq!(cpu.regs.sp, 0xCFFE);
    assert_eq!(bus.mem[0xCFFE], 0x34);
    assert_eq!(bus.mem[0xCFFF], 0x12);
    assert_eq!(bus.mem[0xFF0F], 0x10); // only the serviced bit cleared
}

#[test]
fn halted_cpu_without_pending_interrupt_changes_nothing() {
    let mut cpu = Cpu::new();
    let mut bus = FlatBus::new();
    cpu.halted = true;
    cpu.regs.pc = 0x0200;
    let t = cpu.step(&mut bus);
    assert_eq!(t, 4);
    assert!(cpu.halted);
    assert_eq!(cpu.regs.pc, 0x0200);
}

#[test]
fn ei_sets_ime_only_after_the_next_instruction() {
    let mut cpu = Cpu::new();
    let mut bus = FlatBus::new();
    bus.mem[0] = 0xFB; // EI
    bus.mem[1] = 0x00; // NOP
    cpu.regs.pc = 0;
    cpu.step(&mut bus);
    assert!(!cpu.ime);
    cpu.step(&mut bus);
    assert!(cpu.ime);
}

#[test]
fn push_then_pop_restores_sp_and_value() {
    let mut cpu = Cpu::new();
    let mut bus = FlatBus::new();
    bus.mem[0] = 0xC5; // PUSH BC
    bus.mem[1] = 0xD1; // POP DE
    cpu.regs.pc = 0;
    cpu.regs.sp = 0xC100;
    cpu.regs.set_bc(0xBEEF);
    cpu.step(&mut bus);
    cpu.step(&mut bus);
    assert_eq!(cpu.regs.de(), 0xBEEF);
    assert_eq!(cpu.regs.sp, 0xC100);
}

#[test]
fn work_ram_write_leaves_neighbours_alone() {
    let mut mmu = Mmu::new();
    mmu.write(0xC000, 0x11);
    mmu.write(0xC001, 0x22);
    mmu.write(0xFF80, 0x33);
    assert_eq!(mmu.read(0xC000), 0x11);
    assert_eq!(mmu.read(0xC001), 0x22);
    assert_eq!(mmu.read(0xFF80), 0x33);
}

#[test]
fn wave_ram_round_trips_while_powered_off() {
    let mut apu = Apu::new();
    apu.write_nr52(0x00);
    apu.write_wave_ram(WAVE_RAM_START + 3, 0xA5);
    assert_eq!(apu.read_wave_ram(WAVE_RAM_START + 3), 0xA5);
    apu.write_nr50(0x77);
    assert_eq!(apu.read_nr50(), 0x00);
}

#[test]
fn power_off_then_nr52_reads_0x70() {
    let mut apu = Apu::new();
    apu.write_nr52(0x80);
    apu.write_nr50(0x77);
    apu.write_nr52(0x00);
    assert_eq!(apu.read_nr52(), 0x70);
    assert_eq!(apu.read_nr50(), 0x00);
}

#[test]
fn a_whole_frame_returns_the_ppu_to_the_same_line_and_dot() {
    let mut ppu = Ppu::new();
    ppu.write_lcdc(0x80);
    ppu.step(200);
    let ly = ppu.read_ly();
    let mut left = DOTS_PER_FRAME;
    while left > 0 {
        let n = left.min(200);
        ppu.step(n as u8);
        left -= n;
    }
    assert_eq!(ppu.read_ly(), ly);
    ppu.step(255);
    ppu.step(1); // 256 more dots: still on line 0, 456 dots per line
    assert_eq!(ppu.read_ly(), 1);
}

#[test]
fn a_second_watch_check_against_unchanged_memory_is_quiet() {
    let mut mmu = Mmu::new();
    let mut bp = Breakpoints::new();
    bp.toggle_watch(0xC000, 0x00);
    mmu.write(0xC000, 0x42);
    assert!(bp.check_watchpoints(&mut mmu));
    assert!(!bp.check_watchpoints(&mut mmu));
    assert!(bp.has_watch(0xC000));
}

#[test]
fn toggling_a_watch_twice_removes_it() {
    let mut bp = Breakpoints::new();
    bp.toggle_watch(0xC123, 7);
    bp.toggle_watch(0xC123, 9);
    assert!(!bp.has_watch(0xC123));
    assert!(bp.watchpoints().is_empty());
}

#[test]
fn panels_and_tabs_cycle_back() {
    let p = DebugPanel::Vram;
    assert_eq!(p.next().next().next().next(), p);
    assert_ne!(p.next(), p);
    let t = VramTab::BgMap;
    assert_eq!(t.next().next().next(), t);
}

#[test]
fn palette_uses_only_the_low_two_bits() {
    assert_eq!(Palette::Grayscale.rgb(6), Palette::Grayscale.rgb(2));
    assert_eq!(Palette::Grayscale.rgb(2), (0x55, 0x55, 0x55));
    assert_ne!(Palette::Classic.rgb(1), Palette::Classic.rgb(2));
}

#[test]
fn pop_af_keeps_the_low_nibble_of_f_clear() {
    let mut cpu = Cpu::new();
    let mut bus = FlatBus::new();
    bus.mem[0] = 0xF1; // POP AF
    bus.mem[0xC000] = 0xFF;
    bus.mem[0xC001] = 0x12;
    cpu.regs.pc = 0;
    cpu.regs.sp = 0xC000;
    cpu.step(&mut bus);
    assert_eq!(cpu.regs.a, 0x12);
    assert_eq!(cpu.regs.f, 0xF0);
}

#[test]
fn pressing_a_selected_button_requests_the_joypad_interrupt() {
    let mut j = Joypad::new();
    j.write_joyp(0x20); // directions selected (bit 4 low)
    j.set_button(Button::Up, true);
    assert!(j.take_interrupt());
    j.set_button(Button::Start, true); // actions row not selected
    assert!(!j.take_interrupt());
}

#[test]
fn split_steps_yield_the_same_samples_as_one_step() {
    let mut a = Apu::new();
    a.write_nr52(0x80);
    a.set_sample_rate(48_000);
    let mut b = a;
    let split = a.step(100) + a.step(155);
    let whole = b.step(255);
    assert_eq!(split, whole);
    assert_eq!(whole, 2);
    assert_eq!(a.sample_accum, b.sample_accum);
}

#[test]
fn joyp_low_nibble_shows_exactly_the_selected_lines() {
    let mut j = Joypad::new();
    j.write_joyp(0xEF); // only directions selected; stray bits are dropped
    assert_eq!(j.read_joyp(), 0xEF);
    j.set_button(Button::Left, true);
    assert_eq!(j.read_joyp() & 0x0F, 0x0D);
    assert!(j.take_interrupt());
    j.set_button(Button::Left, false);
    assert_eq!(j.read_joyp() & 0x0F, 0x0F);
    assert!(!j.take_interrupt());
}

#[test]
fn disassembled_length_matches_how_far_pc_moves() {
    // LD BC,$1234; LD (HL),$55; STOP; unused 0xD3; LD A,B; CB SWAP A
    let prog = [0x01, 0x34, 0x12, 0x36, 0x55, 0x10, 0x00, 0xD3, 0x78, 0xCB, 0x37];
    let mut cpu = Cpu::new();
    let mut bus = FlatBus::new();
    bus.mem[..prog.len()].copy_from_slice(&prog);
    cpu.regs.pc = 0;
    cpu.regs.set_hl(0xC000);
    for _ in 0..6 {
        let pc = cpu.regs.pc as usize;
        let len = disassemble_one(&bus.mem[pc..pc + 3], pc as u16).len;
        cpu.stopped = false;
        cpu.step(&mut bus);
        assert_eq!(cpu.regs.pc as usize, pc + len as usize);
    }
}
