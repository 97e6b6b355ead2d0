use gb_core::apu::{NR13_ADDR, NR50_ADDR, NR51_ADDR, NR52_ADDR, WAVE_RAM_START};
use gb_core::cartridge::ROM_BANK_SIZE;
use gb_core::cpu::{Bus, Cpu};
use gb_core::joypad::Button;
use gb_core::mmu::{Mmu, BGP_ADDR, DMA_ADDR, DMA_TRANSFER_BYTES, JOYP_ADDR, LCDC_ADDR, LY_ADDR, SCY_ADDR};
use gb_core::ppu::OAM_BASE;

#[test]
fn read_write_round_trip_across_full_address_space() {
    let mut mmu = Mmu::new();
    mmu.write(0x0000, 0x11);
    mmu.write(0x7FFF, 0x22);
    mmu.write(0x8000, 0x33);
    mmu.write(0xFFFF, 0x44);
    assert_eq!(mmu.read(0x0000), 0x11);
    assert_eq!(mmu.read(0x7FFF), 0x22);
    assert_eq!(mmu.read(0x8000), 0x33);
    assert_eq!(mmu.read(0xFFFF), 0x44);
}

#[test]
fn load_rom_copies_bytes_from_zero() {
    let mut mmu = Mmu::new();
    mmu.load_rom(&[0xAA, 0xBB, 0xCC]);
    assert_eq!(mmu.read(0x0000), 0xAA);
    assert_eq!(mmu.read(0x0001), 0xBB);
    assert_eq!(mmu.read(0x0002), 0xCC);
    assert_eq!(mmu.read(0x0003), 0x00);
}

#[test]
fn load_rom_truncates_oversized_data() {
    let mut mmu = Mmu::new();
    let data = vec![0x42u8; 0x20000]; // bigger than 64KB
    mmu.load_rom(&data);
    assert_eq!(mmu.read(0xFFFF), 0x42);
}

#[test]
fn ppu_registers_are_routed_to_the_ppu_not_flat_memory() {
    let mut mmu = Mmu::new();
    mmu.write(LCDC_ADDR, 0x91);
    mmu.write(SCY_ADDR, 7);
    mmu.write(BGP_ADDR, 0xE4);
    assert_eq!(mmu.read(LCDC_ADDR), 0x91);
    assert_eq!(mmu.read(SCY_ADDR), 7);
    assert_eq!(mmu.read(BGP_ADDR), 0xE4);
    // LY is read-only; writes through the bus are ignored.
    mmu.write(LY_ADDR, 42);
    assert_eq!(mmu.read(LY_ADDR), 0);
}

#[test]
fn load_cartridge_routes_rom_and_ram_through_the_cartridge() {
    // Minimal valid MBC1+RAM+BATTERY header: 4 ROM banks (64KB), 1 RAM bank
    // (8KB, code 0x02).
    let mut data = vec![0u8; 4 * ROM_BANK_SIZE];
    data[0x0147] = 0x03; // MBC1+RAM+BATTERY
    data[0x0148] = 0x01; // 4 banks
    data[0x0149] = 0x02; // 8KB RAM
    data[3 * ROM_BANK_SIZE] = 0xAB; // bank 3, offset 0
    let checksum = (0x0134..0x014D)
        .map(|a| data[a])
        .fold(0u8, |acc, b| acc.wrapping_sub(b).wrapping_sub(1));
    data[0x014D] = checksum;

    let mut mmu = Mmu::new();
    let warnings = mmu.load_cartridge(&data);
    assert!(warnings.is_empty());

    mmu.write(0x2000, 3); // select ROM bank 3
    assert_eq!(mmu.read(0x4000), 0xAB);

    mmu.write(0x0000, 0x0A); // enable RAM
    mmu.write(0xA000, 0x77);
    assert_eq!(mmu.read(0xA000), 0x77);
}

#[test]
fn cpu_can_execute_through_mmu_bus() {
    let mut mmu = Mmu::new();
    mmu.load_rom(&[0x3E, 0x2A]); // LD A, 0x2A
    let mut cpu = Cpu::new();
    let t = cpu.step(&mut mmu);
    assert_eq!(cpu.regs.a, 0x2A);
    assert_eq!(t, 8);
}

#[test]
fn joyp_is_routed_to_the_joypad_not_flat_memory() {
    let mut mmu = Mmu::new();
    mmu.write(JOYP_ADDR, 0x20); // select direction row
    mmu.joypad.set_button(Button::Up, true);
    assert_eq!(mmu.read(JOYP_ADDR) & 0x0F, 0b1011); // bit 2 (Up) low
}

#[test]
fn apu_registers_and_wave_ram_are_routed_to_the_apu() {
    let mut mmu = Mmu::new();
    mmu.write(NR52_ADDR, 0x80); // power on
    mmu.write(NR50_ADDR, 0x77);
    mmu.write(NR51_ADDR, 0xFF);
    mmu.write(WAVE_RAM_START, 0xAB);
    assert_eq!(mmu.read(NR50_ADDR), 0x77);
    assert_eq!(mmu.read(NR51_ADDR), 0xFF);
    assert_eq!(mmu.read(WAVE_RAM_START), 0xAB);
    // Write-only registers read back as open bus.
    mmu.write(NR13_ADDR, 0x42);
    assert_eq!(mmu.read(NR13_ADDR), 0xFF);
}

#[test]
fn oam_dma_copies_160_bytes_over_640_t_cycles() {
    let mut mmu = Mmu::new();
    for i in 0..DMA_TRANSFER_BYTES {
        mmu.mem[0xC000 + i as usize] = i as u8;
    }
    mmu.write(DMA_ADDR, 0xC0); // source = 0xC000

    // Not done yet partway through (600 of 640 T-cycles).
    mmu.step_dma(255);
    mmu.step_dma(255);
    mmu.step_dma(90);
    assert_ne!(mmu.ppu.read_oam(OAM_BASE + 159), 159);

    mmu.step_dma(40); // completes the remaining 40 T-cycles (10 bytes)
    for i in 0..DMA_TRANSFER_BYTES {
        assert_eq!(mmu.ppu.read_oam(OAM_BASE + i), i as u8);
    }
}

#[test]
fn oam_dma_blocks_cpu_access_to_everything_but_hram() {
    let mut mmu = Mmu::new();
    mmu.write(0xC000, 0x11); // before DMA: ordinary WRAM write works
    mmu.write(DMA_ADDR, 0xC0);

    mmu.write(0xC000, 0x22); // blocked: not HRAM
    assert_eq!(mmu.read(0xC000), 0xFF); // reads as open bus too
    mmu.write(0xFF80, 0x33); // HRAM stays accessible
    assert_eq!(mmu.read(0xFF80), 0x33);

    mmu.step_dma(255);
    mmu.step_dma(255);
    mmu.step_dma(130); // finish the transfer (640 T-cycles total)
    assert_eq!(mmu.read(0xC000), 0x11); // unblocked; the 0x22 write never landed
}

#[test]
fn serial_transfer_through_the_bus_requests_the_serial_interrupt() {
    let mut mmu = Mmu::new();
    mmu.write(0xFF01, b'Z');
    mmu.write(0xFF02, 0x81);
    assert_eq!(mmu.read(0xFF0F) & 0x08, 0x08);
    assert_eq!(mmu.serial.output_so_far(), "Z");
}

#[test]
fn timer_overflow_is_folded_into_if() {
    let mut mmu = Mmu::new();
    mmu.write(0xFF06, 0x20); // TMA
    mmu.write(0xFF07, 0b101); // enabled, bit 3
    mmu.write(0xFF05, 0xFF); // TIMA
    mmu.step_timer(16);
    assert_eq!(mmu.read(0xFF05), 0x20);
    assert_eq!(mmu.read(0xFF0F) & 0x04, 0x04);
}
