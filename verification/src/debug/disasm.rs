//! SM83 disassembler for the debugger's disassembly panel. Display-only:
//! decodes a byte sequence into a mnemonic and instruction length, using
//! the same `x`/`y`/`z`/`p`/`q` bit-field decomposition of the opcode that
//! the CPU core dispatches on.
use vstd::prelude::*;
use vstd::string::StringExecFns;
use crate::cpu::{BusModel, Cpu, Registers};
use crate::cpu::semantics::{cond_spec, execute_spec, fetch8, pending_spec, step_spec};
use crate::text::{hex2, hex4, dec, signed_dec, plus_signed_dec, push_hex2, push_hex4, push_dec,
    push_signed_dec, push_plus_signed_dec};

verus! {

/// One decoded instruction: its mnemonic text and length in bytes (1-3).
#[derive(Debug, Clone, PartialEq, Eq)]
pub struct Instruction {
    pub mnemonic: String,
    pub len: u16,
}

// ---------------------------------------------------------------------------
// Operand name tables
// ---------------------------------------------------------------------------

/// 8-bit operand `i` (0-7): B C D E H L (HL) A.
pub open spec fn r_name(i: int) -> Seq<char> {
    if i == 0 {
        "B"@
    } else if i == 1 {
        "C"@
    } else if i == 2 {
        "D"@
    } else if i == 3 {
        "E"@
    } else if i == 4 {
        "H"@
    } else if i == 5 {
        "L"@
    } else if i == 6 {
        "(HL)"@
    } else {
        "A"@
    }
}

/// 16-bit pair `p` (0-3) for loads/arithmetic: BC DE HL SP.
pub open spec fn rp_name(p: int) -> Seq<char> {
    if p == 0 {
        "BC"@
    } else if p == 1 {
        "DE"@
    } else if p == 2 {
        "HL"@
    } else {
        "SP"@
    }
}

/// 16-bit pair `p` (0-3) for PUSH/POP: BC DE HL AF.
pub open spec fn rp2_name(p: int) -> Seq<char> {
    if p == 0 {
        "BC"@
    } else if p == 1 {
        "DE"@
    } else if p == 2 {
        "HL"@
    } else {
        "AF"@
    }
}

/// Branch condition `c` (0-3): NZ Z NC C.
pub open spec fn cc_name(c: int) -> Seq<char> {
    if c == 0 {
        "NZ"@
    } else if c == 1 {
        "Z"@
    } else if c == 2 {
        "NC"@
    } else {
        "C"@
    }
}

/// ALU operation prefix `y` (0-7), including its separator.
pub open spec fn alu_name(y: int) -> Seq<char> {
    if y == 0 {
        "ADD A,"@
    } else if y == 1 {
        "ADC A,"@
    } else if y == 2 {
        "SUB "@
    } else if y == 3 {
        "SBC A,"@
    } else if y == 4 {
        "AND "@
    } else if y == 5 {
        "XOR "@
    } else if y == 6 {
        "OR "@
    } else {
        "CP "@
    }
}

/// CB-prefixed rotate/shift `y` (0-7).
pub open spec fn rot_name(y: int) -> Seq<char> {
    if y == 0 {
        "RLC"@
    } else if y == 1 {
        "RRC"@
    } else if y == 2 {
        "RL"@
    } else if y == 3 {
        "RR"@
    } else if y == 4 {
        "SLA"@
    } else if y == 5 {
        "SRA"@
    } else if y == 6 {
        "SWAP"@
    } else {
        "SRL"@
    }
}

/// Accumulator/flag operation `y` (0-7) of the x=0, z=7 column.
pub open spec fn acc_op_name(y: int) -> Seq<char> {
    if y == 0 {
        "RLCA"@
    } else if y == 1 {
        "RRCA"@
    } else if y == 2 {
        "RLA"@
    } else if y == 3 {
        "RRA"@
    } else if y == 4 {
        "DAA"@
    } else if y == 5 {
        "CPL"@
    } else if y == 6 {
        "SCF"@
    } else {
        "CCF"@
    }
}

/// `LD` through a 16-bit pointer, x=0 z=2: `q` selects direction, `p` the
/// pointer (BC, DE, HL+, HL-).
pub open spec fn ind_load_name(q: int, p: int) -> Seq<char> {
    if q == 0 {
        if p == 0 {
            "LD (BC),A"@
        } else if p == 1 {
            "LD (DE),A"@
        } else if p == 2 {
            "LD (HL+),A"@
        } else {
            "LD (HL-),A"@
        }
    } else {
        if p == 0 {
            "LD A,(BC)"@
        } else if p == 1 {
            "LD A,(DE)"@
        } else if p == 2 {
            "LD A,(HL+)"@
        } else {
            "LD A,(HL-)"@
        }
    }
}

// ---------------------------------------------------------------------------
// Decoding, as a mathematical function of the bytes
// ---------------------------------------------------------------------------

/// First operand byte (0 when missing).
pub open spec fn imm8_spec(bytes: Seq<u8>) -> u8 {
    if bytes.len() > 1 {
        bytes[1]
    } else {
        0
    }
}

/// Little-endian 16-bit operand (missing bytes read as 0).
pub open spec fn imm16_spec(bytes: Seq<u8>) -> u16 {
    let hi: u8 = if bytes.len() > 2 {
        bytes[2]
    } else {
        0
    };
    (hi as int * 256 + imm8_spec(bytes) as int) as u16
}

/// A signed 8-bit operand's value.
pub open spec fn signed8(b: u8) -> int {
    if b < 128 {
        b as int
    } else {
        b as int - 256
    }
}

/// Absolute target of a `JR` at `pc` with displacement `offset`.
pub open spec fn jr_target_spec(pc: u16, offset: u8) -> u16 {
    ((pc as int + 2 + signed8(offset)) % 0x10000) as u16
}

/// Opcodes with no instruction on the SM83.
pub open spec fn is_illegal_op(op: u8) -> bool {
    op == 0xD3 || op == 0xDB || op == 0xDD || op == 0xE3 || op == 0xE4 || op == 0xEB || op
        == 0xEC || op == 0xED || op == 0xF4 || op == 0xFC || op == 0xFD
}

/// Mnemonic of a CB-prefixed opcode.
pub open spec fn cb_text(op2: u8) -> Seq<char> {
    let r = r_name((op2 % 8) as int);
    let y = (op2 / 8) % 8;
    let x = op2 / 64;
    if x == 0 {
        rot_name(y as int) + " "@ + r
    } else if x == 1 {
        "BIT "@ + dec(y as nat) + ","@ + r
    } else if x == 2 {
        "RES "@ + dec(y as nat) + ","@ + r
    } else {
        "SET "@ + dec(y as nat) + ","@ + r
    }
}

/// The opcodes whose encoding does not follow the generic table (GB
/// specifics, deviations from the base Z80 encoding, and the unused
/// opcodes), decoded.
pub open spec fn irregular_spec(bytes: Seq<u8>) -> Option<(Seq<char>, u16)> {
    let op = bytes[0];
    let n = imm8_spec(bytes);
    let nn = imm16_spec(bytes);
    if op == 0x00 {
        Some(("NOP"@, 1))
    } else if op == 0x08 {
        Some(("LD ($"@ + hex4(nn) + "),SP"@, 3))
    } else if op == 0x10 {
        Some(("STOP"@, 2))
    } else if op == 0x76 {
        Some(("HALT"@, 1))
    } else if op == 0xC3 {
        Some(("JP $"@ + hex4(nn), 3))
    } else if op == 0xC9 {
        Some(("RET"@, 1))
    } else if op == 0xD9 {
        Some(("RETI"@, 1))
    } else if op == 0xE9 {
        Some(("JP HL"@, 1))
    } else if op == 0xF9 {
        Some(("LD SP,HL"@, 1))
    } else if op == 0xCD {
        Some(("CALL $"@ + hex4(nn), 3))
    } else if op == 0xF3 {
        Some(("DI"@, 1))
    } else if op == 0xFB {
        Some(("EI"@, 1))
    } else if op == 0xE0 {
        Some(("LDH ($"@ + hex2(n) + "),A"@, 2))
    } else if op == 0xF0 {
        Some(("LDH A,($"@ + hex2(n) + ")"@, 2))
    } else if op == 0xE2 {
        Some(("LD (C),A"@, 1))
    } else if op == 0xF2 {
        Some(("LD A,(C)"@, 1))
    } else if op == 0xE8 {
        Some(("ADD SP,"@ + signed_dec(signed8(n)), 2))
    } else if op == 0xF8 {
        Some(("LD HL,SP"@ + plus_signed_dec(signed8(n)), 2))
    } else if op == 0xEA {
        Some(("LD ($"@ + hex4(nn) + "),A"@, 3))
    } else if op == 0xFA {
        Some(("LD A,($"@ + hex4(nn) + ")"@, 3))
    } else if is_illegal_op(op) {
        Some(("DB $"@ + hex2(op), 1))
    } else {
        None
    }
}

/// Decoding of the opcodes that follow the x/y/z table (x = 0).
pub open spec fn block0_spec(bytes: Seq<u8>, pc: u16) -> (Seq<char>, u16) {
    let op = bytes[0];
    let y = (op / 8) % 8;
    let z = op % 8;
    let p = y / 2;
    let q = y % 2;
    let n = imm8_spec(bytes);
    let nn = imm16_spec(bytes);
    if z == 0 {
        if y == 3 {
            ("JR $"@ + hex4(jr_target_spec(pc, n)), 2)
        } else {
            ("JR "@ + cc_name(y - 4) + ",$"@ + hex4(jr_target_spec(pc, n)), 2)
        }
    } else if z == 1 {
        if q == 0 {
            ("LD "@ + rp_name(p as int) + ",$"@ + hex4(nn), 3)
        } else {
            ("ADD HL,"@ + rp_name(p as int), 1)
        }
    } else if z == 2 {
        (ind_load_name(q as int, p as int), 1)
    } else if z == 3 {
        if q == 0 {
            ("INC "@ + rp_name(p as int), 1)
        } else {
            ("DEC "@ + rp_name(p as int), 1)
        }
    } else if z == 4 {
        ("INC "@ + r_name(y as int), 1)
    } else if z == 5 {
        ("DEC "@ + r_name(y as int), 1)
    } else if z == 6 {
        ("LD "@ + r_name(y as int) + ",$"@ + hex2(n), 2)
    } else {
        (acc_op_name(y as int), 1)
    }
}

/// Decoding of the opcodes that follow the x/y/z table (x = 3).
pub open spec fn block3_spec(bytes: Seq<u8>) -> (Seq<char>, u16) {
    let op = bytes[0];
    let y = (op / 8) % 8;
    let z = op % 8;
    let p = y / 2;
    let n = imm8_spec(bytes);
    let nn = imm16_spec(bytes);
    if z == 0 {
        ("RET "@ + cc_name(y as int), 1)
    } else if z == 1 {
        ("POP "@ + rp2_name(p as int), 1)
    } else if z == 2 {
        ("JP "@ + cc_name(y as int) + ",$"@ + hex4(nn), 3)
    } else if z == 4 {
        ("CALL "@ + cc_name(y as int) + ",$"@ + hex4(nn), 3)
    } else if z == 5 {
        ("PUSH "@ + rp2_name(p as int), 1)
    } else if z == 6 {
        (alu_name(y as int) + "$"@ + hex2(n), 2)
    } else {
        ("RST $"@ + hex2((y * 8) as u8), 1)
    }
}

/// Mnemonic and length of the instruction at the start of `bytes`, located
/// at address `pc` (`JR` targets are shown absolute).
pub open spec fn decode_spec(bytes: Seq<u8>, pc: u16) -> (Seq<char>, u16) {
    if bytes.len() == 0 {
        ("??"@, 1)
    } else {
        let op = bytes[0];
        let y = (op / 8) % 8;
        let z = op % 8;
        if op == 0xCB {
            (cb_text(imm8_spec(bytes)), 2)
        } else if irregular_spec(bytes) is Some {
            irregular_spec(bytes)->0
        } else if op / 64 == 0 {
            block0_spec(bytes, pc)
        } else if op / 64 == 1 {
            ("LD "@ + r_name(y as int) + ","@ + r_name(z as int), 1)
        } else if op / 64 == 2 {
            (alu_name(y as int) + r_name(z as int), 1)
        } else {
            block3_spec(bytes)
        }
    }
}

// ---------------------------------------------------------------------------
// Executable decoder
// ---------------------------------------------------------------------------

fn r_str(i: u8) -> (s: &'static str)
    ensures
        s@ == r_name(i as int),
{
    match i {
        0 => "B",
        1 => "C",
        2 => "D",
        3 => "E",
        4 => "H",
        5 => "L",
        6 => "(HL)",
        _ => "A",
    }
}

fn rp_str(p: u8) -> (s: &'static str)
    ensures
        s@ == rp_name(p as int),
{
    match p {
        0 => "BC",
        1 => "DE",
        2 => "HL",
        _ => "SP",
    }
}

fn rp2_str(p: u8) -> (s: &'static str)
    ensures
        s@ == rp2_name(p as int),
{
    match p {
        0 => "BC",
        1 => "DE",
        2 => "HL",
        _ => "AF",
    }
}

fn cc_str(c: u8) -> (s: &'static str)
    ensures
        s@ == cc_name(c as int),
{
    match c {
        0 => "NZ",
        1 => "Z",
        2 => "NC",
        _ => "C",
    }
}

fn alu_str(y: u8) -> (s: &'static str)
    ensures
        s@ == alu_name(y as int),
{
    match y {
        0 => "ADD A,",
        1 => "ADC A,",
        2 => "SUB ",
        3 => "SBC A,",
        4 => "AND ",
        5 => "XOR ",
        6 => "OR ",
        _ => "CP ",
    }
}

fn rot_str(y: u8) -> (s: &'static str)
    ensures
        s@ == rot_name(y as int),
{
    match y {
        0 => "RLC",
        1 => "RRC",
        2 => "RL",
        3 => "RR",
        4 => "SLA",
        5 => "SRA",
        6 => "SWAP",
        _ => "SRL",
    }
}

fn acc_op_str(y: u8) -> (s: &'static str)
    ensures
        s@ == acc_op_name(y as int),
{
    match y {
        0 => "RLCA",
        1 => "RRCA",
        2 => "RLA",
        3 => "RRA",
        4 => "DAA",
        5 => "CPL",
        6 => "SCF",
        _ => "CCF",
    }
}

fn ind_load_str(q: u8, p: u8) -> (s: &'static str)
    ensures
        s@ == ind_load_name(q as int, p as int),
{
    match (q, p) {
        (0, 0) => "LD (BC),A",
        (0, 1) => "LD (DE),A",
        (0, 2) => "LD (HL+),A",
        (0, _) => "LD (HL-),A",
        (_, 0) => "LD A,(BC)",
        (_, 1) => "LD A,(DE)",
        (_, 2) => "LD A,(HL+)",
        (_, _) => "LD A,(HL-)",
    }
}

fn imm8(bytes: &[u8]) -> (b: u8)
    ensures
        b == imm8_spec(bytes@),
{
    if bytes.len() > 1 {
        bytes[1]
    } else {
        0
    }
}

fn imm16(bytes: &[u8]) -> (w: u16)
    ensures
        w == imm16_spec(bytes@),
{
    let lo = imm8(bytes);
    let hi: u8 = if bytes.len() > 2 {
        bytes[2]
    } else {
        0
    };
    hi as u16 * 256 + lo as u16
}

fn jr_target(pc: u16, offset: u8) -> (t: u16)
    ensures
        t == jr_target_spec(pc, offset),
{
    let base: u32 = pc as u32 + 2;
    let sum: u32 = if offset < 128 {
        base + offset as u32
    } else {
        base + offset as u32 + 0xFF00
    };
    (sum % 0x10000) as u16
}

fn string_of(lit: &str) -> (s: String)
    ensures
        s@ == lit@,
{
    let mut s = String::new();
    s.append(lit);
    s
}

fn cb_mnemonic(op2: u8) -> (s: String)
    ensures
        s@ == cb_text(op2),
{
    let r = r_str(op2 % 8);
    let y = (op2 / 8) % 8;
    let x = op2 / 64;
    let mut s = String::new();
    if x == 0 {
        s.append(rot_str(y));
        s.append(" ");
    } else {
        if x == 1 {
            s.append("BIT ");
        } else if x == 2 {
            s.append("RES ");
        } else {
            s.append("SET ");
        }
        push_dec(&mut s, y as u64);
        s.append(",");
    }
    s.append(r);
    s
}

/// Decodes one of the irregular opcodes, or returns `None`.
fn decode_irregular(bytes: &[u8]) -> (r: Option<Instruction>)
    requires
        bytes@.len() > 0,
    ensures
        match irregular_spec(bytes@) {
            Some(d) => r matches Some(i) && i.mnemonic@ == d.0 && i.len == d.1,
            None => r is None,
        },
{
    let op = bytes[0];
    let n = imm8(bytes);
    let nn = imm16(bytes);
    let mut s = String::new();
    let len: u16;
    if op == 0x00 {
        s.append("NOP");
        len = 1;
    } else if op == 0x08 {
        s.append("LD ($");
        push_hex4(&mut s, nn);
        s.append("),SP");
        len = 3;
    } else if op == 0x10 {
        s.append("STOP");
        len = 2;
    } else if op == 0x76 {
        s.append("HALT");
        len = 1;
    } else if op == 0xC3 {
        s.append("JP $");
        push_hex4(&mut s, nn);
        len = 3;
    } else if op == 0xC9 {
        s.append("RET");
        len = 1;
    } else if op == 0xD9 {
        s.append("RETI");
        len = 1;
    } else if op == 0xE9 {
        s.append("JP HL");
        len = 1;
    } else if op == 0xF9 {
        s.append("LD SP,HL");
        len = 1;
    } else if op == 0xCD {
        s.append("CALL $");
        push_hex4(&mut s, nn);
        len = 3;
    } else if op == 0xF3 {
        s.append("DI");
        len = 1;
    } else if op == 0xFB {
        s.append("EI");
        len = 1;
    } else if op == 0xE0 {
        s.append("LDH ($");
        push_hex2(&mut s, n);
        s.append("),A");
        len = 2;
    } else if op == 0xF0 {
        s.append("LDH A,($");
        push_hex2(&mut s, n);
        s.append(")");
        len = 2;
    } else if op == 0xE2 {
        s.append("LD (C),A");
        len = 1;
    } else if op == 0xF2 {
        s.append("LD A,(C)");
        len = 1;
    } else if op == 0xE8 {
        s.append("ADD SP,");
        let v: i64 = if n < 128 {
            n as i64
        } else {
            n as i64 - 256
        };
        push_signed_dec(&mut s, v);
        len = 2;
    } else if op == 0xF8 {
        s.append("LD HL,SP");
        let v: i64 = if n < 128 {
            n as i64
        } else {
            n as i64 - 256
        };
        push_plus_signed_dec(&mut s, v);
        len = 2;
    } else if op == 0xEA {
        s.append("LD ($");
        push_hex4(&mut s, nn);
        s.append("),A");
        len = 3;
    } else if op == 0xFA {
        s.append("LD A,($");
        push_hex4(&mut s, nn);
        s.append(")");
        len = 3;
    } else if op == 0xD3 || op == 0xDB || op == 0xDD || op == 0xE3 || op == 0xE4 || op == 0xEB
        || op == 0xEC || op == 0xED || op == 0xF4 || op == 0xFC || op == 0xFD {
        s.append("DB $");
        push_hex2(&mut s, op);
        len = 1;
    } else {
        return None;
    }
    Some(Instruction { mnemonic: s, len })
}

fn decode_block0(bytes: &[u8], pc: u16) -> (i: Instruction)
    requires
        bytes@.len() > 0,
        bytes@[0] / 64 == 0,
        irregular_spec(bytes@) is None,
    ensures
        (i.mnemonic@, i.len) == block0_spec(bytes@, pc),
{
    let op = bytes[0];
    let y = (op / 8) % 8;
    let z = op % 8;
    let p = y / 2;
    let q = y % 2;
    let mut s = String::new();
    let len: u16;
    if z == 0 {
        let n = imm8(bytes);
        if y == 3 {
            s.append("JR $");
        } else {
            s.append("JR ");
            s.append(cc_str(y - 4));
            s.append(",$");
        }
        push_hex4(&mut s, jr_target(pc, n));
        len = 2;
    } else if z == 1 {
        if q == 0 {
            s.append("LD ");
            s.append(rp_str(p));
            s.append(",$");
            push_hex4(&mut s, imm16(bytes));
            len = 3;
        } else {
            s.append("ADD HL,");
            s.append(rp_str(p));
            len = 1;
        }
    } else if z == 2 {
        s.append(ind_load_str(q, p));
        len = 1;
    } else if z == 3 {
        if q == 0 {
            s.append("INC ");
        } else {
            s.append("DEC ");
        }
        s.append(rp_str(p));
        len = 1;
    } else if z == 4 {
        s.append("INC ");
        s.append(r_str(y));
        len = 1;
    } else if z == 5 {
        s.append("DEC ");
        s.append(r_str(y));
        len = 1;
    } else if z == 6 {
        s.append("LD ");
        s.append(r_str(y));
        s.append(",$");
        push_hex2(&mut s, imm8(bytes));
        len = 2;
    } else {
        s.append(acc_op_str(y));
        len = 1;
    }
    Instruction { mnemonic: s, len }
}

fn decode_block3(bytes: &[u8]) -> (i: Instruction)
    requires
        bytes@.len() > 0,
    ensures
        (i.mnemonic@, i.len) == block3_spec(bytes@),
{
    let op = bytes[0];
    let y = (op / 8) % 8;
    let z = op % 8;
    let p = y / 2;
    let mut s = String::new();
    let len: u16;
    if z == 0 {
        s.append("RET ");
        s.append(cc_str(y));
        len = 1;
    } else if z == 1 {
        s.append("POP ");
        s.append(rp2_str(p));
        len = 1;
    } else if z == 2 || z == 4 {
        if z == 2 {
            s.append("JP ");
        } else {
            s.append("CALL ");
        }
        s.append(cc_str(y));
        s.append(",$");
        push_hex4(&mut s, imm16(bytes));
        len = 3;
    } else if z == 5 {
        s.append("PUSH ");
        s.append(rp2_str(p));
        len = 1;
    } else if z == 6 {
        s.append(alu_str(y));
        s.append("$");
        push_hex2(&mut s, imm8(bytes));
        len = 2;
    } else {
        s.append("RST $");
        push_hex2(&mut s, y * 8);
        len = 1;
    }
    Instruction { mnemonic: s, len }
}

/// Decodes the instruction at `bytes[0..]` (operand bytes past the end
/// read as 0; an empty slice decodes as `??`). `pc` is the address of
/// `bytes[0]`, used to show `JR`'s absolute jump target.
pub fn disassemble_one(bytes: &[u8], pc: u16) -> (i: Instruction)
    ensures
        (i.mnemonic@, i.len) == decode_spec(bytes@, pc),
        1 <= i.len <= 3,
{
    if bytes.len() == 0 {
        return Instruction { mnemonic: string_of("??"), len: 1 };
    }
    let op = bytes[0];
    if op == 0xCB {
        return Instruction { mnemonic: cb_mnemonic(imm8(bytes)), len: 2 };
    }
    if let Some(i) = decode_irregular(bytes) {
        return i;
    }
    let y = (op / 8) % 8;
    let z = op % 8;
    if op / 64 == 0 {
        decode_block0(bytes, pc)
    } else if op / 64 == 1 {
        let mut s = String::new();
        s.append("LD ");
        s.append(r_str(y));
        s.append(",");
        s.append(r_str(z));
        Instruction { mnemonic: s, len: 1 }
    } else if op / 64 == 2 {
        let mut s = String::new();
        s.append(alu_str(y));
        s.append(r_str(z));
        Instruction { mnemonic: s, len: 1 }
    } else {
        decode_block3(bytes)
    }
}

} // verus!

verus! {

/// The three bytes at `pc` as the CPU reads them.
pub open spec fn window<B: BusModel>(bus: B, pc: u16) -> Seq<u8> {
    seq![bus.spec_read(pc), bus.spec_read(pc.wrapping_add(1)), bus.spec_read(pc.wrapping_add(2))]
}

/// Whether opcode `op` moves `PC` somewhere other than past its operands
/// with these registers: `JR`/`JP`/`CALL`/`RET` whose condition holds (or
/// that have none), `RETI`, `JP HL` and `RST`.
pub open spec fn branches(regs: Registers, op: u8) -> bool {
    let y = (op / 8) % 8;
    let z = op % 8;
    if op == 0x18 || op == 0xC3 || op == 0xE9 || op == 0xCD || op == 0xC9 || op == 0xD9 {
        true
    } else if op < 0x40 && z == 0 && y >= 4 {
        cond_spec(regs, (y - 4) as u8)
    } else if op >= 0xC0 && y < 4 && (z == 0 || z == 2 || z == 4) {
        cond_spec(regs, y)
    } else {
        op >= 0xC0 && z == 7
    }
}

#[verifier::rlimit(20)]
proof fn lemma_block0_length<B: BusModel>(cpu: Cpu, bus: B, op: u8)
    requires
        op < 0x40,
        op != 0x10,
        !branches(cpu.regs, op),
    ensures
        execute_spec(cpu, bus, op).0.regs.pc == cpu.regs.pc.wrapping_add(
            (decode_spec(seq![op, 0, 0], 0).1 - 1) as u16,
        ),
{
}

proof fn lemma_block3_length_z0<B: BusModel>(cpu: Cpu, bus: B, op: u8)
    requires
        op >= 0xC0,
        op != 0xCB,
        op % 8 == 0,
        !branches(cpu.regs, op),
    ensures
        execute_spec(cpu, bus, op).0.regs.pc == cpu.regs.pc.wrapping_add(
            (decode_spec(seq![op, 0, 0], 0).1 - 1) as u16,
        ),
{
}

proof fn lemma_block3_length_z1<B: BusModel>(cpu: Cpu, bus: B, op: u8)
    requires
        op >= 0xC0,
        op != 0xCB,
        op % 8 == 1,
        !branches(cpu.regs, op),
    ensures
        execute_spec(cpu, bus, op).0.regs.pc == cpu.regs.pc.wrapping_add(
            (decode_spec(seq![op, 0, 0], 0).1 - 1) as u16,
        ),
{
}

proof fn lemma_block3_length_z2<B: BusModel>(cpu: Cpu, bus: B, op: u8)
    requires
        op >= 0xC0,
        op != 0xCB,
        op % 8 == 2,
        !branches(cpu.regs, op),
    ensures
        execute_spec(cpu, bus, op).0.regs.pc == cpu.regs.pc.wrapping_add(
            (decode_spec(seq![op, 0, 0], 0).1 - 1) as u16,
        ),
{
}

proof fn lemma_block3_length_z3<B: BusModel>(cpu: Cpu, bus: B, op: u8)
    requires
        op >= 0xC0,
        op != 0xCB,
        op % 8 == 3,
        !branches(cpu.regs, op),
    ensures
        execute_spec(cpu, bus, op).0.regs.pc == cpu.regs.pc.wrapping_add(
            (decode_spec(seq![op, 0, 0], 0).1 - 1) as u16,
        ),
{
}

proof fn lemma_block3_length_z4<B: BusModel>(cpu: Cpu, bus: B, op: u8)
    requires
        op >= 0xC0,
        op != 0xCB,
        op % 8 == 4,
        !branches(cpu.regs, op),
    ensures
        execute_spec(cpu, bus, op).0.regs.pc == cpu.regs.pc.wrapping_add(
            (decode_spec(seq![op, 0, 0], 0).1 - 1) as u16,
        ),
{
}

proof fn lemma_block3_length_z5<B: BusModel>(cpu: Cpu, bus: B, op: u8)
    requires
        op >= 0xC0,
        op != 0xCB,
        op % 8 == 5,
        !branches(cpu.regs, op),
    ensures
        execute_spec(cpu, bus, op).0.regs.pc == cpu.regs.pc.wrapping_add(
            (decode_spec(seq![op, 0, 0], 0).1 - 1) as u16,
        ),
{
}

proof fn lemma_block3_length_z6<B: BusModel>(cpu: Cpu, bus: B, op: u8)
    requires
        op >= 0xC0,
        op != 0xCB,
        op % 8 == 6,
        !branches(cpu.regs, op),
    ensures
        execute_spec(cpu, bus, op).0.regs.pc == cpu.regs.pc.wrapping_add(
            (decode_spec(seq![op, 0, 0], 0).1 - 1) as u16,
        ),
{
}

proof fn lemma_block3_length_z7<B: BusModel>(cpu: Cpu, bus: B, op: u8)
    requires
        op >= 0xC0,
        op != 0xCB,
        op % 8 == 7,
        !branches(cpu.regs, op),
    ensures
        execute_spec(cpu, bus, op).0.regs.pc == cpu.regs.pc.wrapping_add(
            (decode_spec(seq![op, 0, 0], 0).1 - 1) as u16,
        ),
{
}

/// Block 3 (0xC0-0xFF), one opcode column at a time.
proof fn lemma_block3_length<B: BusModel>(cpu: Cpu, bus: B, op: u8)
    requires
        op >= 0xC0,
        op != 0xCB,
        !branches(cpu.regs, op),
    ensures
        execute_spec(cpu, bus, op).0.regs.pc == cpu.regs.pc.wrapping_add(
            (decode_spec(seq![op, 0, 0], 0).1 - 1) as u16,
        ),
{
    if op % 8 == 0 {
        lemma_block3_length_z0(cpu, bus, op);
    } else if op % 8 == 1 {
        lemma_block3_length_z1(cpu, bus, op);
    } else if op % 8 == 2 {
        lemma_block3_length_z2(cpu, bus, op);
    } else if op % 8 == 3 {
        lemma_block3_length_z3(cpu, bus, op);
    } else if op % 8 == 4 {
        lemma_block3_length_z4(cpu, bus, op);
    } else if op % 8 == 5 {
        lemma_block3_length_z5(cpu, bus, op);
    } else if op % 8 == 6 {
        lemma_block3_length_z6(cpu, bus, op);
    } else {
        lemma_block3_length_z7(cpu, bus, op);
    }
}

#[verifier::rlimit(20)]
proof fn lemma_middle_length<B: BusModel>(cpu: Cpu, bus: B, op: u8)
    requires
        0x40 <= op < 0xC0,
    ensures
        execute_spec(cpu, bus, op).0.regs.pc == cpu.regs.pc.wrapping_add(
            (decode_spec(seq![op, 0, 0], 0).1 - 1) as u16,
        ),
{
}

/// The length the disassembler reports for the instruction at `PC` is how
/// far the CPU moves `PC` executing it, whenever the instruction does not
/// branch (a taken jump, call, return or `RST`) and no interrupt is
/// serviced instead.
pub proof fn lemma_length_matches_fetch<B: BusModel>(cpu: Cpu, bus: B)
    requires
        !cpu.halted,
        !cpu.halt_bug,
        !(cpu.ime && pending_spec(bus) != 0),
        !branches(cpu.regs, bus.spec_read(cpu.regs.pc)),
    ensures
        step_spec(cpu, bus).0.regs.pc == cpu.regs.pc.wrapping_add(
            decode_spec(window(bus, cpu.regs.pc), cpu.regs.pc).1,
        ),
{
    let pc = cpu.regs.pc;
    let op = bus.spec_read(pc);
    let w = window(bus, pc);
    assert(decode_spec(w, pc).1 == decode_spec(seq![op, 0, 0], 0).1);
    let c2 = Cpu { ime_pending: false, halted: false, ..cpu };
    let (c3, o) = fetch8(c2, bus);
    assert(o == op);
    if op == 0x10 {
    } else if op < 0x40 {
        lemma_block0_length(c3, bus, op);
    } else if op < 0xC0 {
        lemma_middle_length(c3, bus, op);
    } else if op == 0xCB {
    } else {
        lemma_block3_length(c3, bus, op);
    }
}

} // verus!
