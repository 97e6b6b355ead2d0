use gb_core::debug::breakpoints::Breakpoints;
use gb_core::debug::overlay::disassembly_lines;
use gb_core::system::System;

#[test]
fn disassembly_lines_walks_forward_and_marks_pc() {
    let mut sys = System::new();
    sys.load_rom(&[0x00, 0x00, 0xC3, 0x00, 0x01]); // NOP; NOP; JP $0100
    let breakpoints = Breakpoints::new();
    let lines = disassembly_lines(&mut sys.mmu, 0, 3, &breakpoints);
    assert_eq!(lines.len(), 3);
    assert!(lines[0].starts_with("->"));
    assert!(lines[0].contains("0000: NOP"));
    assert!(lines[1].contains("0001: NOP"));
    assert!(lines[2].contains("0002: JP $0100"));
}

#[test]
fn disassembly_lines_marks_breakpoint_addresses() {
    let mut sys = System::new();
    sys.load_rom(&[0x00, 0x00]);
    let mut breakpoints = Breakpoints::new();
    breakpoints.toggle_pc(0x0001);
    let lines = disassembly_lines(&mut sys.mmu, 0, 2, &breakpoints);
    assert!(!lines[0].contains('*'));
    assert!(lines[1].contains('*'));
}

#[test]
fn disassembly_lines_exact_text_with_multi_byte_instructions() {
    let mut sys = System::new();
    sys.load_rom(&[0x3E, 0x2A, 0x21, 0x34, 0x12, 0x76]); // LD A,$2A; LD HL,$1234; HALT
    let mut breakpoints = Breakpoints::new();
    breakpoints.toggle_pc(0x0002);
    let lines = disassembly_lines(&mut sys.mmu, 0, 3, &breakpoints);
    assert_eq!(lines[0], "-> 0000: LD A,$2A");
    assert_eq!(lines[1], "  *0002: LD HL,$1234");
    assert_eq!(lines[2], "   0005: HALT");
}
