use gb_core::cpu::Cpu;
use gb_core::debug::registers::{lines, RegistersWidget};

#[test]
fn lines_report_register_pairs_and_flags() {
    let mut cpu = Cpu::new();
    cpu.regs.set_af(0x1230); // F's low nibble is always masked to 0
    cpu.regs.pc = 0x0150;
    cpu.ime = true;
    let out = lines(&cpu);
    assert!(out[0].contains("1230"));
    assert!(out.iter().any(|l| l.contains("0150")));
    assert!(out.iter().any(|l| l.contains("IME: 1")));
}

#[test]
fn flags_render_as_zero_or_one() {
    let mut cpu = Cpu::new();
    cpu.regs.set_af(0x00F0); // all flags set (Z N H C)
    let out = lines(&cpu);
    let flags_line = out.iter().find(|l| l.starts_with("Flags")).unwrap();
    assert_eq!(flags_line, "Flags: Z:1 N:1 H:1 C:1");
}

#[test]
fn register_lines_have_the_exact_layout() {
    let mut cpu = Cpu::new();
    cpu.regs.set_bc(0xBEEF);
    cpu.regs.sp = 0xFFFE;
    let out = lines(&cpu);
    assert_eq!(out.len(), 10);
    assert_eq!(out[1], "BC: BEEF  (B:BE C:EF)");
    assert_eq!(out[4], "SP: FFFE");
    assert_eq!(out[6], "");
    assert_eq!(out[9], "HALT: 0");
    let w = RegistersWidget::new(&cpu);
    assert_eq!(w.cpu.regs.sp, 0xFFFE);
}
