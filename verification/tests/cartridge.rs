use gb_core::cartridge::{
    tick_rtc_second, Cartridge, MbcType, RtcRegisters, CART_TYPE_ADDR, CYCLES_PER_SECOND,
    HEADER_CHECKSUM_ADDR, HEADER_CHECKSUM_END, HEADER_CHECKSUM_START, RAM_SIZE_ADDR, ROM_BANK_SIZE,
    ROM_SIZE_ADDR, TITLE_START,
};

/// Builds a minimal valid cartridge image: `rom_banks` * 16KB of zeroed
/// data with a correct header for `cart_type`/size codes.
fn make_rom(cart_type: u8, rom_size_code: u8, ram_size_code: u8, rom_banks: usize) -> Vec<u8> {
    let mut data = vec![0u8; rom_banks * ROM_BANK_SIZE];
    data[CART_TYPE_ADDR] = cart_type;
    data[ROM_SIZE_ADDR] = rom_size_code;
    data[RAM_SIZE_ADDR] = ram_size_code;
    let title = b"TESTGAME";
    data[TITLE_START..TITLE_START + title.len()].copy_from_slice(title);
    let checksum = (HEADER_CHECKSUM_START..HEADER_CHECKSUM_END)
        .map(|a| data[a])
        .fold(0u8, |acc, b| acc.wrapping_sub(b).wrapping_sub(1));
    data[HEADER_CHECKSUM_ADDR] = checksum;
    data
}

#[test]
fn header_parses_title_type_sizes_and_valid_checksum() {
    let data = make_rom(0x00, 0x00, 0x00, 2);
    let (cart, warnings) = Cartridge::from_rom_bytes(&data);
    assert_eq!(cart.header().title, "TESTGAME");
    assert_eq!(cart.header().mbc, MbcType::RomOnly);
    assert_eq!(cart.header().rom_banks, 2);
    assert!(cart.header().header_checksum_valid);
    assert!(warnings.is_empty());
}

#[test]
fn bad_checksum_and_unsupported_type_produce_warnings_but_still_load() {
    let mut data = make_rom(0xFF, 0x00, 0x00, 2); // 0xFF: no assigned MBC
    data[HEADER_CHECKSUM_ADDR] ^= 0xFF; // corrupt it
    let (cart, warnings) = Cartridge::from_rom_bytes(&data);
    assert_eq!(cart.header().mbc, MbcType::Unsupported);
    assert!(!cart.header().header_checksum_valid);
    assert_eq!(warnings.len(), 2);
}

#[test]
fn mbc0_reads_fixed_bank0_and_bank1_with_no_switching() {
    let mut data = make_rom(0x00, 0x00, 0x00, 2);
    data[0x0000] = 0x11;
    data[0x4000] = 0x22;
    let (cart, _) = Cartridge::from_rom_bytes(&data);
    assert_eq!(cart.read_rom(0x0000), 0x11);
    assert_eq!(cart.read_rom(0x4000), 0x22);
}

#[test]
fn mbc1_switches_rom_bank_and_treats_bank0_write_as_bank1() {
    let mut data = make_rom(0x01, 0x02, 0x00, 8); // 128KB, 8 banks
    data[3 * ROM_BANK_SIZE] = 0xAB; // bank 3, offset 0
    data[1 * ROM_BANK_SIZE] = 0xCD; // bank 1 (the 0->1 quirk target)
    let (mut cart, _) = Cartridge::from_rom_bytes(&data);
    cart.write_rom_register(0x2000, 3);
    assert_eq!(cart.read_rom(0x4000), 0xAB);
    cart.write_rom_register(0x2000, 0); // quirk: 0 behaves as 1
    assert_eq!(cart.read_rom(0x4000), 0xCD);
}

#[test]
fn mbc1_ram_requires_enable_and_banks_in_mode1() {
    let data = make_rom(0x03, 0x00, 0x03, 2); // MBC1+RAM+BATTERY, 32KB RAM
    let (mut cart, _) = Cartridge::from_rom_bytes(&data);
    assert_eq!(cart.read_ram(0xA000), 0xFF); // disabled
    cart.write_rom_register(0x0000, 0x0A); // enable
    cart.write_ram(0xA000, 0x42);
    assert_eq!(cart.read_ram(0xA000), 0x42);
    assert!(cart.is_battery_dirty());

    cart.write_rom_register(0x6000, 1); // mode 1: bank2 selects RAM bank
    cart.write_rom_register(0x4000, 1); // RAM bank 1
    cart.write_ram(0xA000, 0x99);
    assert_eq!(cart.read_ram(0xA000), 0x99);
    cart.write_rom_register(0x4000, 0); // back to bank 0
    assert_eq!(cart.read_ram(0xA000), 0x42); // bank 0's byte, untouched
}

#[test]
fn mbc2_rom_bank_quirk_and_nibble_ram() {
    let mut data = make_rom(0x05, 0x00, 0x00, 4);
    data[1 * ROM_BANK_SIZE] = 0x77;
    let (mut cart, _) = Cartridge::from_rom_bytes(&data);
    cart.write_rom_register(0x2100, 0); // bit8 set -> ROM bank select; 0 -> quirk to 1
    assert_eq!(cart.read_rom(0x4000), 0x77);

    cart.write_rom_register(0x0000, 0x0A); // bit8 clear -> RAM enable
    cart.write_ram(0xA000, 0xFE); // only the low nibble is stored
    assert_eq!(cart.read_ram(0xA000), 0xFE); // upper nibble already 0xF
    cart.write_ram(0xA001, 0x03);
    assert_eq!(cart.read_ram(0xA001), 0xF3);
}

#[test]
fn mbc3_rom_bank_quirk_and_ram_vs_rtc_register_select() {
    let mut data = make_rom(0x10, 0x01, 0x02, 4); // MBC3+RTC+RAM+BATTERY
    data[2 * ROM_BANK_SIZE] = 0x55;
    let (mut cart, _) = Cartridge::from_rom_bytes(&data);
    cart.write_rom_register(0x2000, 2);
    assert_eq!(cart.read_rom(0x4000), 0x55);

    cart.write_rom_register(0x0000, 0x0A); // enable RAM/RTC access
    cart.write_rom_register(0x4000, 0x00); // select RAM bank 0
    cart.write_ram(0xA000, 0x10);
    assert_eq!(cart.read_ram(0xA000), 0x10);

    cart.write_rom_register(0x4000, 0x08); // select RTC seconds register
    cart.write_ram(0xA000, 30);
    assert_eq!(cart.read_ram(0xA000), 0); // not latched yet
    cart.write_rom_register(0x6000, 0x00);
    cart.write_rom_register(0x6000, 0x01); // latch
    assert_eq!(cart.read_ram(0xA000), 30);
}

/// Steps a cartridge's RTC by `cycles` T-cycles, chunked to fit `step`'s
/// `u8` parameter.
fn step_cart(cart: &mut Cartridge, mut cycles: u32) {
    while cycles > 0 {
        let chunk = cycles.min(255);
        cart.step(chunk as u8);
        cycles -= chunk;
    }
}

#[test]
fn rtc_second_tick_rolls_over_through_minutes_hours_and_days() {
    let mut rtc = RtcRegisters { seconds: 59, minutes: 59, hours: 23, day_low: 0, day_high: 0 };
    tick_rtc_second(&mut rtc);
    assert_eq!((rtc.seconds, rtc.minutes, rtc.hours, rtc.day_low), (0, 0, 0, 1));
}

#[test]
fn rtc_day_counter_overflow_sets_carry_flag() {
    // day = 511 (day_high bit0 set, day_low = 0xFF)
    let mut rtc = RtcRegisters { seconds: 59, minutes: 59, hours: 23, day_low: 0xFF, day_high: 0x01 };
    tick_rtc_second(&mut rtc);
    assert_eq!(rtc.day_low, 0);
    assert_eq!(rtc.day_high & 0x01, 0); // day counter wrapped to 0
    assert_eq!(rtc.day_high & 0x80, 0x80); // carry flag set
}

#[test]
fn mbc3_step_accumulates_elapsed_cycles_into_rtc_seconds() {
    let data = make_rom(0x10, 0x00, 0x00, 2);
    let (mut cart, _) = Cartridge::from_rom_bytes(&data);
    step_cart(&mut cart, CYCLES_PER_SECOND);

    cart.write_rom_register(0x0000, 0x0A); // enable RAM/RTC access
    cart.write_rom_register(0x4000, 0x08); // select RTC seconds register
    cart.write_rom_register(0x6000, 0x00);
    cart.write_rom_register(0x6000, 0x01); // latch
    assert_eq!(cart.read_ram(0xA000), 1);
}

#[test]
fn mbc3_rtc_halt_flag_stops_ticking() {
    let data = make_rom(0x10, 0x00, 0x00, 2);
    let (mut cart, _) = Cartridge::from_rom_bytes(&data);
    cart.write_rom_register(0x0000, 0x0A);
    cart.write_rom_register(0x4000, 0x0C); // select DH register
    cart.write_ram(0xA000, 0x40); // set halt bit
    step_cart(&mut cart, CYCLES_PER_SECOND);

    cart.write_rom_register(0x4000, 0x08); // select seconds register
    cart.write_rom_register(0x6000, 0x00);
    cart.write_rom_register(0x6000, 0x01); // latch
    assert_eq!(cart.read_ram(0xA000), 0); // still 0: RTC was halted
}

#[test]
fn mbc5_uses_full_9_bit_bank_number_with_no_zero_quirk() {
    let mut data = make_rom(0x19, 0x08, 0x00, 512); // 8MB, 512 banks
    data[0 * ROM_BANK_SIZE] = 0x01; // bank 0 IS directly selectable
    data[256 * ROM_BANK_SIZE] = 0x02;
    let (mut cart, _) = Cartridge::from_rom_bytes(&data);
    cart.write_rom_register(0x2000, 0x00);
    cart.write_rom_register(0x3000, 0x00);
    assert_eq!(cart.read_rom(0x4000), 0x01); // no 0->1 substitution
    cart.write_rom_register(0x2000, 0x00);
    cart.write_rom_register(0x3000, 0x01); // bit 8 set -> bank 256
    assert_eq!(cart.read_rom(0x4000), 0x02);
}

#[test]
fn battery_ram_round_trips_through_save_and_load() {
    let data = make_rom(0x03, 0x00, 0x02, 2);
    let (mut cart, _) = Cartridge::from_rom_bytes(&data);
    cart.write_rom_register(0x0000, 0x0A);
    cart.write_ram(0xA000, 0x7E);
    cart.clear_battery_dirty();
    let saved = cart.battery_ram();

    let (mut fresh, _) = Cartridge::from_rom_bytes(&data);
    fresh.load_battery_ram(&saved);
    fresh.write_rom_register(0x0000, 0x0A);
    assert_eq!(fresh.read_ram(0xA000), 0x7E);
    assert!(!fresh.is_battery_dirty());
}

#[test]
fn battery_save_holds_the_latched_clock_not_the_live_one() {
    let data = make_rom(0x0F, 0x00, 0x00, 2); // MBC3+TIMER+BATTERY, no RAM
    let (mut cart, _) = Cartridge::from_rom_bytes(&data);
    cart.write_rom_register(0x0000, 0x0A);
    cart.write_rom_register(0x4000, 0x08); // RTC seconds
    cart.write_ram(0xA000, 30); // live seconds = 30, never latched
    assert_eq!(cart.battery_ram(), vec![0, 0, 0, 0, 0]);
    cart.write_rom_register(0x6000, 0x00);
    cart.write_rom_register(0x6000, 0x01); // latch
    assert_eq!(cart.battery_ram(), vec![30, 0, 0, 0, 0]);
}

#[test]
fn clock_ticks_once_per_second_of_cycles_in_odd_sized_steps() {
    let data = make_rom(0x10, 0x00, 0x00, 2);
    let (mut cart, _) = Cartridge::from_rom_bytes(&data);
    let mut left = 3 * CYCLES_PER_SECOND - 1;
    let mut k: u32 = 0;
    while left > 0 {
        let n = (97 + k % 150).min(left);
        cart.step(n as u8);
        left -= n;
        k += 1;
    }
    cart.write_rom_register(0x0000, 0x0A);
    cart.write_rom_register(0x4000, 0x08);
    cart.write_rom_register(0x6000, 0x00);
    cart.write_rom_register(0x6000, 0x01);
    assert_eq!(cart.read_ram(0xA000), 2); // one cycle short of the third second
    cart.step(1);
    cart.write_rom_register(0x6000, 0x00);
    cart.write_rom_register(0x6000, 0x01);
    assert_eq!(cart.read_ram(0xA000), 3);
}

#[test]
fn clone_copies_rom_ram_and_bank_state() {
    let mut data = make_rom(0x03, 0x01, 0x02, 4); // MBC1+RAM+BATTERY
    data[3 * ROM_BANK_SIZE] = 0xAB;
    let (mut cart, _) = Cartridge::from_rom_bytes(&data);
    cart.write_rom_register(0x0000, 0x0A);
    cart.write_rom_register(0x2000, 3);
    cart.write_ram(0xA123, 0x5C);
    let copy = cart.clone();
    assert_eq!(copy.read_rom(0x4000), 0xAB);
    assert_eq!(copy.read_rom(0x0000), cart.read_rom(0x0000));
    assert_eq!(copy.read_ram(0xA123), 0x5C);
    assert_eq!(copy.battery_ram(), cart.battery_ram());
    assert_eq!(copy.is_battery_dirty(), cart.is_battery_dirty());
}
