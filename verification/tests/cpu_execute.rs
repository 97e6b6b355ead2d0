use gb_core::cpu::bus::FlatBus;
use gb_core::cpu::{Cpu, FLAG_Z};

fn run(prog: &[u8]) -> (Cpu, FlatBus) {
    let mut cpu = Cpu::new();
    let mut bus = FlatBus::new();
    bus.mem[..prog.len()].copy_from_slice(prog);
    cpu.regs.pc = 0;
    cpu.step(&mut bus);
    (cpu, bus)
}

#[test]
fn nop_advances_pc_and_takes_4_cycles() {
    let mut cpu = Cpu::new();
    let mut bus = FlatBus::new();
    let t = cpu.step(&mut bus);
    assert_eq!(t, 4);
    assert_eq!(cpu.regs.pc, 1);
}

#[test]
fn ld_bc_d16() {
    let (cpu, _) = run(&[0x01, 0xEF, 0xBE]); // LD BC, 0xBEEF
    assert_eq!(cpu.regs.bc(), 0xBEEF);
    assert_eq!(cpu.regs.pc, 3);
}

#[test]
fn ld_a_b_register_to_register() {
    let mut cpu = Cpu::new();
    let mut bus = FlatBus::new();
    cpu.regs.b = 0x42;
    bus.mem[0] = 0x78; // LD A, B
    let t = cpu.step(&mut bus);
    assert_eq!(cpu.regs.a, 0x42);
    assert_eq!(t, 4);
}

#[test]
fn ld_a_hl_indirect_costs_8() {
    let mut cpu = Cpu::new();
    let mut bus = FlatBus::new();
    cpu.regs.set_hl(0x1000);
    bus.mem[0x1000] = 0x99;
    bus.mem[0] = 0x7E; // LD A, (HL)
    let t = cpu.step(&mut bus);
    assert_eq!(cpu.regs.a, 0x99);
    assert_eq!(t, 8);
}

#[test]
fn inc_b_sets_zero_and_half_carry() {
    let mut cpu = Cpu::new();
    let mut bus = FlatBus::new();
    cpu.regs.b = 0xFF;
    bus.mem[0] = 0x04; // INC B
    cpu.step(&mut bus);
    assert_eq!(cpu.regs.b, 0x00);
    assert!(cpu.regs.zero());
    assert!(cpu.regs.half_carry());
    assert!(!cpu.regs.subtract());
}

#[test]
fn dec_b_sets_subtract_flag() {
    let mut cpu = Cpu::new();
    let mut bus = FlatBus::new();
    cpu.regs.b = 0x01;
    bus.mem[0] = 0x05; // DEC B
    cpu.step(&mut bus);
    assert_eq!(cpu.regs.b, 0x00);
    assert!(cpu.regs.zero());
    assert!(cpu.regs.subtract());
}

#[test]
fn add_a_b_sets_carry_and_half_carry() {
    let mut cpu = Cpu::new();
    let mut bus = FlatBus::new();
    cpu.regs.a = 0xFF;
    cpu.regs.b = 0x01;
    bus.mem[0] = 0x80; // ADD A, B
    cpu.step(&mut bus);
    assert_eq!(cpu.regs.a, 0x00);
    assert!(cpu.regs.zero());
    assert!(cpu.regs.carry());
    assert!(cpu.regs.half_carry());
    assert!(!cpu.regs.subtract());
}

#[test]
fn sub_a_b_sets_subtract_and_no_borrow() {
    let mut cpu = Cpu::new();
    let mut bus = FlatBus::new();
    cpu.regs.a = 0x10;
    cpu.regs.b = 0x01;
    bus.mem[0] = 0x90; // SUB B
    cpu.step(&mut bus);
    assert_eq!(cpu.regs.a, 0x0F);
    assert!(cpu.regs.subtract());
    assert!(cpu.regs.half_carry()); // 0x0 < 0x1 nibble borrow
    assert!(!cpu.regs.carry());
}

#[test]
fn cp_does_not_modify_a() {
    let mut cpu = Cpu::new();
    let mut bus = FlatBus::new();
    cpu.regs.a = 0x10;
    cpu.regs.b = 0x10;
    bus.mem[0] = 0xB8; // CP B
    cpu.step(&mut bus);
    assert_eq!(cpu.regs.a, 0x10);
    assert!(cpu.regs.zero());
}

#[test]
fn and_sets_half_carry_always() {
    let mut cpu = Cpu::new();
    let mut bus = FlatBus::new();
    cpu.regs.a = 0xF0;
    cpu.regs.b = 0x0F;
    bus.mem[0] = 0xA0; // AND B
    cpu.step(&mut bus);
    assert_eq!(cpu.regs.a, 0x00);
    assert!(cpu.regs.zero());
    assert!(cpu.regs.half_carry());
    assert!(!cpu.regs.carry());
}

#[test]
fn jp_unconditional() {
    let mut cpu = Cpu::new();
    let mut bus = FlatBus::new();
    bus.mem[0] = 0xC3; // JP 0x1234
    bus.mem[1] = 0x34;
    bus.mem[2] = 0x12;
    let t = cpu.step(&mut bus);
    assert_eq!(cpu.regs.pc, 0x1234);
    assert_eq!(t, 16);
}

#[test]
fn jr_z_not_taken_when_zero_clear() {
    let mut cpu = Cpu::new();
    let mut bus = FlatBus::new();
    cpu.regs.set_flag(FLAG_Z, false);
    bus.mem[0] = 0x28; // JR Z, +5
    bus.mem[1] = 0x05;
    let t = cpu.step(&mut bus);
    assert_eq!(cpu.regs.pc, 2);
    assert_eq!(t, 8);
}

#[test]
fn jr_z_taken_when_zero_set() {
    let mut cpu = Cpu::new();
    let mut bus = FlatBus::new();
    cpu.regs.set_flag(FLAG_Z, true);
    bus.mem[0] = 0x28; // JR Z, +5
    bus.mem[1] = 0x05;
    let t = cpu.step(&mut bus);
    assert_eq!(cpu.regs.pc, 7); // 2 (after operand) + 5
    assert_eq!(t, 12);
}

#[test]
fn call_and_ret_round_trip() {
    let mut cpu = Cpu::new();
    let mut bus = FlatBus::new();
    cpu.regs.sp = 0xFFFE;
    bus.mem[0] = 0xCD; // CALL 0x0010
    bus.mem[1] = 0x10;
    bus.mem[2] = 0x00;
    bus.mem[0x0010] = 0xC9; // RET
    let t1 = cpu.step(&mut bus);
    assert_eq!(cpu.regs.pc, 0x0010);
    assert_eq!(t1, 24);
    let t2 = cpu.step(&mut bus);
    assert_eq!(cpu.regs.pc, 0x0003);
    assert_eq!(t2, 16);
}

#[test]
fn push_pop_round_trip() {
    let mut cpu = Cpu::new();
    let mut bus = FlatBus::new();
    cpu.regs.sp = 0xFFFE;
    cpu.regs.set_bc(0xBEEF);
    bus.mem[0] = 0xC5; // PUSH BC
    bus.mem[1] = 0xD1; // POP DE
    cpu.step(&mut bus);
    assert_eq!(cpu.regs.sp, 0xFFFC);
    cpu.step(&mut bus);
    assert_eq!(cpu.regs.de(), 0xBEEF);
    assert_eq!(cpu.regs.sp, 0xFFFE);
}

#[test]
fn halt_sets_flag_and_stalls() {
    let mut cpu = Cpu::new();
    let mut bus = FlatBus::new();
    bus.mem[0] = 0x76; // HALT
    cpu.step(&mut bus);
    assert!(cpu.halted);
    assert_eq!(cpu.regs.pc, 1);
    let t = cpu.step(&mut bus); // second step: no-op while halted
    assert_eq!(t, 4);
    assert_eq!(cpu.regs.pc, 1); // PC doesn't advance while halted
}

#[test]
fn di_is_immediate_ei_is_delayed_by_one_instruction() {
    let mut cpu = Cpu::new();
    let mut bus = FlatBus::new();
    bus.mem[0] = 0xF3; // DI
    bus.mem[1] = 0xFB; // EI
    bus.mem[2] = 0x00; // NOP - EI's effect lands after this executes
    cpu.step(&mut bus); // DI
    assert!(!cpu.ime);
    cpu.step(&mut bus); // EI: not yet enabled
    assert!(!cpu.ime);
    cpu.step(&mut bus); // NOP: now enabled
    assert!(cpu.ime);
}

#[test]
fn rlca_rotates_and_sets_carry() {
    let mut cpu = Cpu::new();
    let mut bus = FlatBus::new();
    cpu.regs.a = 0x85; // 1000_0101
    bus.mem[0] = 0x07; // RLCA
    cpu.step(&mut bus);
    assert_eq!(cpu.regs.a, 0x0B); // 0000_1011
    assert!(cpu.regs.carry());
}

#[test]
fn cb_bit_sets_zero_when_bit_clear() {
    let mut cpu = Cpu::new();
    let mut bus = FlatBus::new();
    cpu.regs.b = 0x00;
    bus.mem[0] = 0xCB;
    bus.mem[1] = 0x40; // BIT 0, B
    let t = cpu.step(&mut bus);
    assert!(cpu.regs.zero());
    assert_eq!(t, 8);
}

#[test]
fn cb_bit_clear_when_bit_set() {
    let mut cpu = Cpu::new();
    let mut bus = FlatBus::new();
    cpu.regs.b = 0x01;
    bus.mem[0] = 0xCB;
    bus.mem[1] = 0x40; // BIT 0, B
    cpu.step(&mut bus);
    assert!(!cpu.regs.zero());
}

#[test]
fn cb_set_and_res_bit() {
    let mut cpu = Cpu::new();
    let mut bus = FlatBus::new();
    cpu.regs.b = 0x00;
    bus.mem[0] = 0xCB;
    bus.mem[1] = 0xC0; // SET 0, B
    cpu.step(&mut bus);
    assert_eq!(cpu.regs.b, 0x01);

    bus.mem[2] = 0xCB;
    bus.mem[3] = 0x80; // RES 0, B
    cpu.step(&mut bus);
    assert_eq!(cpu.regs.b, 0x00);
}

#[test]
fn cb_swap_nibbles() {
    let mut cpu = Cpu::new();
    let mut bus = FlatBus::new();
    cpu.regs.a = 0x12;
    bus.mem[0] = 0xCB;
    bus.mem[1] = 0x37; // SWAP A
    cpu.step(&mut bus);
    assert_eq!(cpu.regs.a, 0x21);
}

#[test]
fn cb_rlc_hl_costs_16_cycles() {
    let mut cpu = Cpu::new();
    let mut bus = FlatBus::new();
    cpu.regs.set_hl(0x1000);
    bus.mem[0x1000] = 0x80;
    bus.mem[0] = 0xCB;
    bus.mem[1] = 0x06; // RLC (HL)
    let t = cpu.step(&mut bus);
    assert_eq!(t, 16);
    assert_eq!(bus.mem[0x1000], 0x01);
    assert!(cpu.regs.carry());
}

#[test]
fn daa_after_bcd_addition() {
    let mut cpu = Cpu::new();
    let mut bus = FlatBus::new();
    cpu.regs.a = 0x45;
    cpu.regs.b = 0x38;
    bus.mem[0] = 0x80; // ADD A, B -> 0x7D
    bus.mem[1] = 0x27; // DAA -> should become 0x83 (BCD 45+38=83)
    cpu.step(&mut bus);
    assert_eq!(cpu.regs.a, 0x7D);
    assert_eq!(cpu.regs.a, 0x7D);
    cpu.step(&mut bus);
    assert_eq!(cpu.regs.a, 0x83);
}
