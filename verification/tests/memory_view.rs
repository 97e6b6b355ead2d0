use gb_core::cpu::Bus;
use gb_core::debug::breakpoints::Breakpoints;
use gb_core::debug::memory::lines;
use gb_core::mmu::{Mmu, DMA_ADDR};

#[test]
fn rows_are_16_byte_aligned_and_show_hex_plus_ascii() {
    let mut mmu = Mmu::new();
    mmu.write(0xC000, b'H');
    mmu.write(0xC001, b'i');
    mmu.write(0xC002, 0x00); // non-printable -> '.'
    let bp = Breakpoints::new();
    let out = lines(&mut mmu, 0xC000, 1, &bp);
    assert_eq!(out.len(), 1);
    assert!(out[0].starts_with("C000:"));
    assert!(out[0].contains("48 69 00"));
    assert!(out[0].contains("|Hi."));
}

#[test]
fn start_address_rounds_down_to_row_boundary() {
    let mut mmu = Mmu::new();
    let bp = Breakpoints::new();
    let out = lines(&mut mmu, 0xC005, 1, &bp);
    assert!(out[0].starts_with("C000:")); // 0xC005 rounds down to 0xC000
}

#[test]
fn row_count_controls_number_of_lines() {
    let mut mmu = Mmu::new();
    let bp = Breakpoints::new();
    let out = lines(&mut mmu, 0xC000, 4, &bp);
    assert_eq!(out.len(), 4);
    assert_eq!(out[1].split(':').next().unwrap(), "C010");
}

#[test]
fn watched_byte_is_marked_with_an_asterisk() {
    let mut mmu = Mmu::new();
    let mut bp = Breakpoints::new();
    bp.toggle_watch(0xC001, mmu.read(0xC001));
    let out = lines(&mut mmu, 0xC000, 1, &bp);
    assert!(out[0].contains("00 00*00 ")); // byte at C001 marked, neighbors aren't
}

#[test]
fn full_row_text_is_exact() {
    let mut mmu = Mmu::new();
    for i in 0..16u16 {
        mmu.write(0xC010 + i, 0x41 + i as u8);
    }
    mmu.write(0xC01F, 0x7F);
    let bp = Breakpoints::new();
    let out = lines(&mut mmu, 0xC01A, 1, &bp);
    assert_eq!(
        out[0],
        "C010: 41 42 43 44 45 46 47 48 49 4A 4B 4C 4D 4E 4F 7F  |ABCDEFGHIJKLMNO.|"
    );
}

#[test]
fn rows_wrap_at_the_top_of_the_address_space() {
    let mut mmu = Mmu::new();
    let bp = Breakpoints::new();
    let out = lines(&mut mmu, 0xFFF0, 2, &bp);
    assert!(out[0].starts_with("FFF0:"));
    assert!(out[1].starts_with("0000:"));
}

#[test]
fn dump_shows_the_cpu_view_during_dma() {
    let mut mmu = Mmu::new();
    mmu.write(0xC000, 0x12);
    mmu.write(DMA_ADDR, 0xC0);
    let bp = Breakpoints::new();
    let out = lines(&mut mmu, 0xC000, 1, &bp);
    assert!(out[0].starts_with("C000: FF "));
}
