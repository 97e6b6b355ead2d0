use gb_core::debug::disasm::disassemble_one;

fn mnem(bytes: &[u8]) -> String {
    disassemble_one(bytes, 0x0100).mnemonic
}
fn len(bytes: &[u8]) -> u16 {
    disassemble_one(bytes, 0x0100).len
}

#[test]
fn decodes_nop_and_simple_loads() {
    assert_eq!(mnem(&[0x00]), "NOP");
    assert_eq!(mnem(&[0x06, 0x42]), "LD B,$42");
    assert_eq!(mnem(&[0x21, 0x34, 0x12]), "LD HL,$1234");
    assert_eq!(len(&[0x21, 0x34, 0x12]), 3);
}

#[test]
fn decodes_register_to_register_loads_and_halt() {
    assert_eq!(mnem(&[0x78]), "LD A,B"); // x=1,y=7,z=0
    assert_eq!(mnem(&[0x76]), "HALT"); // the one x=1 slot that isn't LD (HL),(HL)
}

#[test]
fn decodes_alu_ops_against_registers_and_immediates() {
    assert_eq!(mnem(&[0x80]), "ADD A,B");
    assert_eq!(mnem(&[0xA8]), "XOR B");
    assert_eq!(mnem(&[0xFE, 0x10]), "CP $10");
}

#[test]
fn decodes_jr_with_absolute_target_and_conditions() {
    // JR $05 at PC=0x0100: target = 0x0100 + 2 + 5 = 0x0107
    assert_eq!(mnem(&[0x18, 0x05]), "JR $0107");
    // JR NZ, -2 (0xFE as i8 = -2): target = 0x0100+2-2 = 0x0100
    assert_eq!(mnem(&[0x20, 0xFE]), "JR NZ,$0100");
}

#[test]
fn decodes_calls_jumps_rst_push_pop() {
    assert_eq!(mnem(&[0xCD, 0x00, 0x40]), "CALL $4000");
    assert_eq!(mnem(&[0xC4, 0x00, 0x40]), "CALL NZ,$4000");
    assert_eq!(mnem(&[0xC3, 0xAD, 0xDE]), "JP $DEAD");
    assert_eq!(mnem(&[0xFF]), "RST $38");
    assert_eq!(mnem(&[0xC5]), "PUSH BC");
    assert_eq!(mnem(&[0xF1]), "POP AF");
}

#[test]
fn decodes_gb_specific_opcodes() {
    assert_eq!(mnem(&[0xE0, 0x44]), "LDH ($44),A");
    assert_eq!(mnem(&[0xF0, 0x44]), "LDH A,($44)");
    assert_eq!(mnem(&[0xE2]), "LD (C),A");
    assert_eq!(mnem(&[0x22]), "LD (HL+),A");
    assert_eq!(mnem(&[0x3A]), "LD A,(HL-)");
    assert_eq!(mnem(&[0x10, 0x00]), "STOP");
    assert_eq!(len(&[0x10, 0x00]), 2);
}

#[test]
fn decodes_cb_prefixed_rotate_bit_res_set() {
    assert_eq!(mnem(&[0xCB, 0x00]), "RLC B");
    assert_eq!(mnem(&[0xCB, 0x7F]), "BIT 7,A");
    assert_eq!(mnem(&[0xCB, 0x86]), "RES 0,(HL)");
    assert_eq!(mnem(&[0xCB, 0xFF]), "SET 7,A");
    assert_eq!(len(&[0xCB, 0x00]), 2);
}

#[test]
fn decodes_illegal_opcodes_as_db() {
    assert_eq!(mnem(&[0xD3]), "DB $D3");
    assert_eq!(mnem(&[0xFD]), "DB $FD");
}

#[test]
fn all_256_base_and_cb_opcodes_decode_without_panicking() {
    for op in 0u16..256 {
        let _ = disassemble_one(&[op as u8, 0, 0], 0);
    }
    for op2 in 0u16..256 {
        let _ = disassemble_one(&[0xCB, op2 as u8], 0);
    }
}

#[test]
fn decodes_signed_sp_offsets_and_short_input() {
    assert_eq!(mnem(&[0xE8, 0xFE]), "ADD SP,-2");
    assert_eq!(mnem(&[0xF8, 0x05]), "LD HL,SP+5");
    assert_eq!(mnem(&[0xF8, 0x80]), "LD HL,SP-128");
    assert_eq!(mnem(&[0x01]), "LD BC,$0000"); // missing operands read as 0
    assert_eq!(mnem(&[]), "??");
    assert_eq!(len(&[]), 1);
}
