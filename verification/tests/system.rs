use gb_core::cpu::Bus;
use gb_core::ppu::VBLANK_START_LINE;
use gb_core::system::System;

#[test]
fn step_executes_one_instruction_via_mmu() {
    let mut sys = System::new();
    sys.load_rom(&[0x3E, 0x2A, 0x06, 0x10]); // LD A,0x2A; LD B,0x10
    let t1 = sys.step();
    assert_eq!(sys.cpu.regs.a, 0x2A);
    assert_eq!(t1, 8);
    let t2 = sys.step();
    assert_eq!(sys.cpu.regs.b, 0x10);
    assert_eq!(t2, 8);
    assert_eq!(sys.cpu.regs.pc, 4);
}

#[test]
fn run_frame_returns_immediately_when_lcd_is_off() {
    let mut sys = System::new();
    sys.load_rom(&[0xC3, 0x00, 0x00]); // JP 0x0000 (infinite loop)
    sys.run_frame();
    assert_eq!(sys.mmu.ppu.read_ly(), 0); // never ticked
}

#[test]
fn run_frame_stops_at_vblank_and_requests_the_interrupt() {
    let mut sys = System::new();
    sys.load_rom(&[0xC3, 0x00, 0x00]); // JP 0x0000 (infinite loop)
    sys.mmu.ppu.write_lcdc(0x80); // LCD on
    sys.run_frame();
    assert_eq!(sys.mmu.ppu.read_ly(), VBLANK_START_LINE);
    assert_eq!(sys.mmu.ppu.read_stat() & 0b11, 1); // Mode 1 (VBlank)
    assert_eq!(sys.mmu.read(0xFF0F) & 0x01, 0x01); // VBlank IF bit set
}

fn cartridge_image() -> Vec<u8> {
    let mut data = vec![0u8; 2 * 0x4000];
    data[0x0100] = 0x00; // NOP at the entry point
    let checksum = (0x0134..0x014D)
        .map(|a| data[a])
        .fold(0u8, |acc, b: u8| acc.wrapping_sub(b).wrapping_sub(1));
    data[0x014D] = checksum;
    data
}

#[test]
fn load_cartridge_hands_off_with_post_boot_registers() {
    let mut sys = System::new();
    let warnings = sys.load_cartridge(&cartridge_image());
    assert!(warnings.is_empty());
    assert_eq!(sys.cpu.regs.af(), 0x01B0);
    assert_eq!(sys.cpu.regs.bc(), 0x0013);
    assert_eq!(sys.cpu.regs.de(), 0x00D8);
    assert_eq!(sys.cpu.regs.hl(), 0x014D);
    assert_eq!(sys.cpu.regs.sp, 0xFFFE);
    assert_eq!(sys.cpu.regs.pc, 0x0100);
    assert_eq!(sys.mmu.ppu.read_lcdc(), 0x91);
    assert_eq!(sys.mmu.ppu.read_bgp(), 0xFC);
    assert_eq!(sys.mmu.apu.read_nr50(), 0x77);
    assert_eq!(sys.mmu.apu.read_nr51(), 0xF3);
    assert_eq!(sys.mmu.apu.read_nr52() & 0x80, 0x80);
}

#[test]
fn running_samples_are_queued_and_drained() {
    let mut sys = System::new();
    sys.load_cartridge(&cartridge_image()); // APU powered on
    let mut cycles = 0u32;
    while cycles < 70224 {
        cycles += sys.step() as u32;
    }
    let samples = sys.take_samples();
    // 70224 T-cycles at 44.1kHz is 738.4 samples.
    assert!(samples.len() == 738 || samples.len() == 739);
    assert!(sys.take_samples().is_empty());
}

#[test]
fn step_checked_reports_a_stalled_noise_timer() {
    let mut sys = System::new();
    // LD A,$FF; LDH ($26),A (APU on); LD A,$F0; LDH ($22),A (NR43 shift 15)
    sys.load_rom(&[0x3E, 0xFF, 0xE0, 0x26, 0x3E, 0xF0, 0xE0, 0x22]);
    assert_eq!(sys.step_checked(), Some(8));
    assert_eq!(sys.step_checked(), Some(12));
    assert_eq!(sys.step_checked(), Some(8));
    assert_eq!(sys.step_checked(), None);
    assert_eq!(sys.cpu.regs.pc, 8);
}
