use gb_core::apu::Apu;
use gb_core::cpu::Cpu;
use gb_core::debug::breakpoints::Breakpoints;
use gb_core::debug::status::{
    apu_lines, cartridge_lines, cpu_lines, decode_lcdc, decode_stat, joypad_line, ppu_lines,
    run_state_line, timer_lines,
};
use gb_core::joypad::Button;
use gb_core::ppu::Ppu;
use gb_core::timer::Timer;
use gb_core::ui::RunMode;

#[test]
fn decode_lcdc_reports_all_subfields() {
    assert_eq!(decode_lcdc(0x91), "LCDC 91  LCD:ON BG:ON WIN:OFF OBJ:OFF MAP:9800 TILE:8000");
    let lcdc = 0x80 | 0x02 | 0x04 | 0x20 | 0x08;
    assert_eq!(decode_lcdc(lcdc), "LCDC AE  LCD:ON BG:OFF WIN:ON OBJ:ON(8x16) MAP:9C00 TILE:8800");
}

#[test]
fn decode_stat_reports_mode_lyc_and_enabled_interrupts() {
    let stat = 0b0101_0111;
    assert_eq!(decode_stat(stat), "STAT 57  Mode:3 LYC=LY:yes  IntEn: LYC VBL");
}

#[test]
fn decode_stat_reports_no_enabled_interrupts_as_a_dash() {
    assert_eq!(decode_stat(0x00), "STAT 00  Mode:0 LYC=LY:no  IntEn: -");
}

#[test]
fn cpu_lines_highlights_only_changed_registers() {
    let mut cpu = Cpu::new();
    cpu.regs.set_af(0x1200);
    cpu.regs.set_bc(0x0034);
    let prev = cpu.regs;

    cpu.regs.set_af(0x9900); // A/F changed
    let lines = cpu_lines(&cpu, &prev);

    assert!(lines[0].1); // AF line highlighted
    assert!(!lines[1].1); // BC line unchanged
    assert_eq!(lines[0].0, "AF: 9900  (A:99 F:00)");
}

#[test]
fn joypad_line_lists_held_buttons_in_dpad_then_button_order() {
    let held = vec![Button::Start, Button::Up];
    assert_eq!(joypad_line(&held), "Held: Up Start");
}

#[test]
fn joypad_line_reports_a_dash_when_nothing_is_held() {
    let held: Vec<Button> = Vec::new();
    assert_eq!(joypad_line(&held), "Held: -");
}

#[test]
fn cartridge_lines_reports_a_placeholder_with_no_cartridge() {
    let lines = cartridge_lines(None);
    assert_eq!(lines, vec!["No cartridge loaded".to_string()]);
}

#[test]
fn apu_lines_decodes_channel_power_from_nr52() {
    let mut apu = Apu::new();
    apu.write_nr52(0x80); // power on, all channels off
    let lines = apu_lines(&apu);
    assert!(lines[0].contains("Power:ON"));
    assert!(lines[0].contains("CH1:OFF"));
}

#[test]
fn ppu_and_timer_lines_show_registers() {
    let mut ppu = Ppu::new();
    ppu.write_scx(0x12);
    ppu.write_bgp(0xE4);
    let lines = ppu_lines(&ppu);
    assert_eq!(lines.len(), 5);
    assert_eq!(lines[3], "SCX:12 SCY:00 WX:00 WY:00");
    assert_eq!(lines[4], "BGP:E4 OBP0:00 OBP1:00");
    let mut timer = Timer::new();
    timer.write_tac(0b101);
    let tl = timer_lines(&timer);
    assert_eq!(tl[1], "TAC:FD RUN 262144Hz");
}

#[test]
fn cartridge_lines_for_a_loaded_cartridge() {
    let mut data = vec![0u8; 2 * 0x4000];
    data[0x0134..0x0138].copy_from_slice(b"DEMO");
    data[0x0147] = 0x13; // MBC3+RAM+BATTERY
    data[0x0149] = 0x03; // 4 RAM banks
    let (cart, _) = gb_core::cartridge::Cartridge::from_rom_bytes(&data);
    let lines = cartridge_lines(Some(&cart));
    assert_eq!(lines[0], "DEMO");
    assert_eq!(lines[1], "MBC:Mbc3 ROM:2banks RAM:4banks");
    assert_eq!(lines[2], "Battery:ON RTC:OFF Rumble:OFF");
}

#[test]
fn run_state_line_counts_breakpoints() {
    let mut bp = Breakpoints::new();
    bp.toggle_pc(1);
    bp.toggle_pc(2);
    bp.toggle_watch(0xC000, 0);
    assert_eq!(run_state_line(RunMode::Paused, &bp), "[PAUSED]  breakpoints:2 watchpoints:1");
}
