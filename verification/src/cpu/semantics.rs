//! Mathematical model of SM83 instruction semantics: what each operation
//! does to the register file and the bus, and how many T-cycles it takes.
//! `Cpu::step` and the opcode dispatch are proved against these.
use vstd::prelude::*;
use crate::cpu::Cpu;
use crate::cpu::bus::{BusModel, read16_spec, write16_spec};
use crate::cpu::registers::{Registers, word, pack_flags};

verus! {

/// `IE` (interrupt enable) register address.
pub const IE_ADDR: u16 = 0xFFFF;
/// `IF` (interrupt flag) register address.
pub const IF_ADDR: u16 = 0xFF0F;

pub open spec fn with_regs(cpu: Cpu, r: Registers) -> Cpu {
    Cpu { regs: r, ..cpu }
}

pub open spec fn with_pc(cpu: Cpu, pc: u16) -> Cpu {
    Cpu { regs: Registers { pc: pc, ..cpu.regs }, ..cpu }
}

pub open spec fn with_sp(cpu: Cpu, sp: u16) -> Cpu {
    Cpu { regs: Registers { sp: sp, ..cpu.regs }, ..cpu }
}

/// Reads the byte at `PC` and advances `PC` by one (wrapping).
pub open spec fn fetch8<B: BusModel>(cpu: Cpu, bus: B) -> (Cpu, u8) {
    (with_pc(cpu, cpu.regs.pc.wrapping_add(1)), bus.spec_read(cpu.regs.pc))
}

/// Reads a little-endian word at `PC` (two byte fetches).
pub open spec fn fetch16<B: BusModel>(cpu: Cpu, bus: B) -> (Cpu, u16) {
    let (c1, lo) = fetch8(cpu, bus);
    let (c2, hi) = fetch8(c1, bus);
    (c2, word(hi, lo))
}

/// Sign-extends an 8-bit two's-complement offset to 16 bits.
pub open spec fn sext8(b: u8) -> u16 {
    if b < 128 {
        b as u16
    } else {
        (b as int + 0xFF00) as u16
    }
}

// --- 8-bit ALU ---
pub open spec fn add8_spec(r: Registers, v: u8) -> Registers {
    let sum = r.a as int + v as int;
    let res = (sum % 256) as u8;
    Registers {
        a: res,
        f: pack_flags(res == 0, false, r.a as int % 16 + v as int % 16 > 15, sum > 255),
        ..r
    }
}

pub open spec fn carry_in(r: Registers) -> int {
    if r.carry_spec() {
        1
    } else {
        0
    }
}

pub open spec fn adc8_spec(r: Registers, v: u8) -> Registers {
    let c = carry_in(r);
    let sum = r.a as int + v as int + c;
    let res = (sum % 256) as u8;
    Registers {
        a: res,
        f: pack_flags(res == 0, false, r.a as int % 16 + v as int % 16 + c > 15, sum > 255),
        ..r
    }
}

pub open spec fn sub8_spec(r: Registers, v: u8) -> Registers {
    let diff = r.a as int - v as int;
    let res = ((diff + 256) % 256) as u8;
    Registers {
        a: res,
        f: pack_flags(res == 0, true, r.a as int % 16 < v as int % 16, diff < 0),
        ..r
    }
}

pub open spec fn sbc8_spec(r: Registers, v: u8) -> Registers {
    let c = carry_in(r);
    let diff = r.a as int - v as int - c;
    let res = ((diff + 512) % 256) as u8;
    Registers {
        a: res,
        f: pack_flags(res == 0, true, r.a as int % 16 - v as int % 16 - c < 0, diff < 0),
        ..r
    }
}

pub open spec fn and8_spec(r: Registers, v: u8) -> Registers {
    let res = r.a & v;
    Registers { a: res, f: pack_flags(res == 0, false, true, false), ..r }
}

pub open spec fn xor8_spec(r: Registers, v: u8) -> Registers {
    let res = r.a ^ v;
    Registers { a: res, f: pack_flags(res == 0, false, false, false), ..r }
}

pub open spec fn or8_spec(r: Registers, v: u8) -> Registers {
    let res = r.a | v;
    Registers { a: res, f: pack_flags(res == 0, false, false, false), ..r }
}

/// `CP`: the flags of `SUB` without storing the difference.
pub open spec fn cp8_spec(r: Registers, v: u8) -> Registers {
    Registers { f: sub8_spec(r, v).f, ..r }
}

/// The eight `ALU A,x` operations, indexed as encoded in opcode bits 3-5.
pub open spec fn alu_spec(r: Registers, op: u8, v: u8) -> Registers {
    if op == 0 {
        add8_spec(r, v)
    } else if op == 1 {
        adc8_spec(r, v)
    } else if op == 2 {
        sub8_spec(r, v)
    } else if op == 3 {
        sbc8_spec(r, v)
    } else if op == 4 {
        and8_spec(r, v)
    } else if op == 5 {
        xor8_spec(r, v)
    } else if op == 6 {
        or8_spec(r, v)
    } else {
        cp8_spec(r, v)
    }
}

pub open spec fn inc8_value(v: u8) -> u8 {
    ((v as int + 1) % 256) as u8
}

pub open spec fn dec8_value(v: u8) -> u8 {
    ((v as int + 255) % 256) as u8
}

/// Flags after `INC` of `v` (carry untouched).
pub open spec fn inc8_flags(r: Registers, v: u8) -> Registers {
    Registers {
        f: pack_flags(inc8_value(v) == 0, false, v as int % 16 == 15, r.carry_spec()),
        ..r
    }
}

/// Flags after `DEC` of `v` (carry untouched).
pub open spec fn dec8_flags(r: Registers, v: u8) -> Registers {
    Registers {
        f: pack_flags(dec8_value(v) == 0, true, v as int % 16 == 0, r.carry_spec()),
        ..r
    }
}

/// `DAA`'s correction of `a` given the N/H/C flags: the adjusted value
/// and the new carry.
pub open spec fn daa_value(a: u8, n: bool, h: bool, c: bool) -> (u8, bool) {
    let a = a as int;
    if !n {
        let adjust_hi = c || a > 0x99;
        let a1 = if adjust_hi {
            (a + 0x60) % 256
        } else {
            a
        };
        let a2 = if h || a1 % 16 > 9 {
            (a1 + 6) % 256
        } else {
            a1
        };
        (a2 as u8, adjust_hi)
    } else {
        let a1 = if c {
            (a + 256 - 0x60) % 256
        } else {
            a
        };
        let a2 = if h {
            (a1 + 256 - 6) % 256
        } else {
            a1
        };
        (a2 as u8, c)
    }
}

/// `DAA`: decimal-adjusts `A` after a BCD addition or subtraction.
pub open spec fn daa_spec(r: Registers) -> Registers {
    let (a, carry) = daa_value(r.a, r.subtract_spec(), r.half_carry_spec(), r.carry_spec());
    Registers { a: a, f: pack_flags(a == 0, r.subtract_spec(), false, carry), ..r }
}

// --- 16-bit arithmetic ---
pub open spec fn add16_spec(r: Registers, v: u16) -> Registers {
    let hl = r.hl_spec() as int;
    let sum = hl + v as int;
    Registers {
        f: pack_flags(r.zero_spec(), false, hl % 4096 + v as int % 4096 > 4095, sum > 65535),
        ..r.with_hl((sum % 65536) as u16)
    }
}

/// `SP + e8` and its flags (half-carry/carry out of bits 3 and 7).
pub open spec fn sp_offset_sum(sp: u16, b: u8) -> u16 {
    ((sp as int + sext8(b) as int) % 65536) as u16
}

pub open spec fn sp_offset_flags(sp: u16, b: u8) -> u8 {
    let off = sext8(b) as int;
    pack_flags(false, false, sp as int % 16 + off % 16 > 15, sp as int % 256 + off % 256 > 255)
}

pub open spec fn add_sp_spec(r: Registers, b: u8) -> Registers {
    Registers { sp: sp_offset_sum(r.sp, b), f: sp_offset_flags(r.sp, b), ..r }
}

pub open spec fn ld_hl_sp_spec(r: Registers, b: u8) -> Registers {
    Registers { f: sp_offset_flags(r.sp, b), ..r.with_hl(sp_offset_sum(r.sp, b)) }
}

// --- rotates and shifts ---
/// Rotate left: bit 7 goes to bit 0.
pub open spec fn rotl(v: u8) -> u8 {
    ((v as int * 2) % 256 + v as int / 128) as u8
}

/// Rotate right: bit 0 goes to bit 7.
pub open spec fn rotr(v: u8) -> u8 {
    (v as int / 2 + (v as int % 2) * 128) as u8
}

pub open spec fn bit7(v: u8) -> bool {
    v >= 128
}

pub open spec fn bit0(v: u8) -> bool {
    v % 2 == 1
}

/// Accumulator rotates: `RLCA`/`RRCA`/`RLA`/`RRA` (Z always cleared).
pub open spec fn rot_a_spec(r: Registers, kind: u8) -> Registers {
    let a = r.a;
    let c = carry_in(r);
    let (res, carry) = if kind == 0 {
        (rotl(a), bit7(a))
    } else if kind == 1 {
        (rotr(a), bit0(a))
    } else if kind == 2 {
        (((a as int * 2) % 256 + c) as u8, bit7(a))
    } else {
        ((a as int / 2 + c * 128) as u8, bit0(a))
    };
    Registers { a: res, f: pack_flags(false, false, false, carry), ..r }
}

/// The CB-prefixed rotate/shift group: result value and carry out, for
/// sub-operation `sub` (RLC, RRC, RL, RR, SLA, SRA, SWAP, SRL).
pub open spec fn shift_value(sub: u8, v: u8, carry_in: bool) -> (u8, bool) {
    let c = if carry_in {
        1int
    } else {
        0
    };
    if sub == 0 {
        (rotl(v), bit7(v))
    } else if sub == 1 {
        (rotr(v), bit0(v))
    } else if sub == 2 {
        (((v as int * 2) % 256 + c) as u8, bit7(v))
    } else if sub == 3 {
        ((v as int / 2 + c * 128) as u8, bit0(v))
    } else if sub == 4 {
        (((v as int * 2) % 256) as u8, bit7(v))
    } else if sub == 5 {
        ((v as int / 2 + (v as int / 128) * 128) as u8, bit0(v))
    } else if sub == 6 {
        (((v as int % 16) * 16 + v as int / 16) as u8, false)
    } else {
        ((v as int / 2) as u8, bit0(v))
    }
}

pub open spec fn shift_spec(r: Registers, sub: u8, v: u8) -> (Registers, u8) {
    let (res, carry) = shift_value(sub, v, r.carry_spec());
    (Registers { f: pack_flags(res == 0, false, false, carry), ..r }, res)
}

/// `BIT b,x`: Z set when the bit is clear; carry untouched.
pub open spec fn bit_test_spec(r: Registers, v: u8, bit: u8) -> Registers {
    Registers { f: pack_flags(v & (1u8 << bit) == 0, false, true, r.carry_spec()), ..r }
}

// --- operand access: 0=B 1=C 2=D 3=E 4=H 5=L 6=(HL) 7=A ---
pub open spec fn read_r8_spec<B: BusModel>(cpu: Cpu, bus: B, idx: u8) -> u8 {
    let r = cpu.regs;
    if idx == 0 {
        r.b
    } else if idx == 1 {
        r.c
    } else if idx == 2 {
        r.d
    } else if idx == 3 {
        r.e
    } else if idx == 4 {
        r.h
    } else if idx == 5 {
        r.l
    } else if idx == 6 {
        bus.spec_read(r.hl_spec())
    } else {
        r.a
    }
}

pub open spec fn write_r8_spec<B: BusModel>(cpu: Cpu, bus: B, idx: u8, val: u8) -> (Cpu, B) {
    let r = cpu.regs;
    if idx == 6 {
        (cpu, bus.spec_write(r.hl_spec(), val))
    } else {
        let r2 = if idx == 0 {
            Registers { b: val, ..r }
        } else if idx == 1 {
            Registers { c: val, ..r }
        } else if idx == 2 {
            Registers { d: val, ..r }
        } else if idx == 3 {
            Registers { e: val, ..r }
        } else if idx == 4 {
            Registers { h: val, ..r }
        } else if idx == 5 {
            Registers { l: val, ..r }
        } else {
            Registers { a: val, ..r }
        };
        (with_regs(cpu, r2), bus)
    }
}

/// `LD r,r'` (0x40-0x7F except HALT).
pub open spec fn ld_r_r_spec<B: BusModel>(cpu: Cpu, bus: B, opcode: u8) -> (Cpu, B, u8) {
    let dst = (opcode / 8) % 8;
    let src = opcode % 8;
    let v = read_r8_spec(cpu, bus, src);
    let (c1, b1) = write_r8_spec(cpu, bus, dst, v);
    (c1, b1, if dst == 6 || src == 6 {
        8
    } else {
        4
    })
}

/// `ALU A,r` (0x80-0xBF).
pub open spec fn alu_a_r_spec<B: BusModel>(cpu: Cpu, bus: B, opcode: u8) -> (Cpu, B, u8) {
    let op = (opcode / 8) % 8;
    let src = opcode % 8;
    let v = read_r8_spec(cpu, bus, src);
    (with_regs(cpu, alu_spec(cpu.regs, op, v)), bus, if src == 6 {
        8
    } else {
        4
    })
}

// --- stack ---
pub open spec fn push_spec<B: BusModel>(cpu: Cpu, bus: B, v: u16) -> (Cpu, B) {
    let sp = cpu.regs.sp.wrapping_sub(2);
    (with_sp(cpu, sp), write16_spec(bus, sp, v))
}

pub open spec fn pop_spec<B: BusModel>(cpu: Cpu, bus: B) -> (Cpu, u16) {
    (with_sp(cpu, cpu.regs.sp.wrapping_add(2)), read16_spec(bus, cpu.regs.sp))
}

/// Push `PC` and jump to `addr` (`RST`, `CALL`, interrupt dispatch).
pub open spec fn call_to<B: BusModel>(cpu: Cpu, bus: B, addr: u16) -> (Cpu, B) {
    let (c1, b1) = push_spec(cpu, bus, cpu.regs.pc);
    (with_pc(c1, addr), b1)
}

// --- control flow ---
pub open spec fn jr_cc_spec<B: BusModel>(cpu: Cpu, bus: B, cond: bool) -> (Cpu, B, u8) {
    let (c1, off) = fetch8(cpu, bus);
    if cond {
        (with_pc(c1, c1.regs.pc.wrapping_add(sext8(off))), bus, 12)
    } else {
        (c1, bus, 8)
    }
}

pub open spec fn jp_cc_spec<B: BusModel>(cpu: Cpu, bus: B, cond: bool) -> (Cpu, B, u8) {
    let (c1, addr) = fetch16(cpu, bus);
    if cond {
        (with_pc(c1, addr), bus, 16)
    } else {
        (c1, bus, 12)
    }
}

pub open spec fn call_cc_spec<B: BusModel>(cpu: Cpu, bus: B, cond: bool) -> (Cpu, B, u8) {
    let (c1, addr) = fetch16(cpu, bus);
    if cond {
        let (c2, b2) = call_to(c1, bus, addr);
        (c2, b2, 24)
    } else {
        (c1, bus, 12)
    }
}

pub open spec fn ret_cc_spec<B: BusModel>(cpu: Cpu, bus: B, cond: bool) -> (Cpu, B, u8) {
    if cond {
        let (c1, addr) = pop_spec(cpu, bus);
        (with_pc(c1, addr), bus, 20)
    } else {
        (cpu, bus, 8)
    }
}

/// Pending-and-enabled interrupt bits (`IE & IF`, low five bits).
pub open spec fn pending_spec<B: BusModel>(bus: B) -> u8 {
    bus.spec_read(IE_ADDR) & bus.spec_read(IF_ADDR) & 0x1F
}

/// `HALT`: with interrupts disabled and one already pending, the CPU does
/// not halt but triggers the HALT bug (next opcode byte read twice).
pub open spec fn halt_spec<B: BusModel>(cpu: Cpu, bus: B) -> Cpu {
    if !cpu.ime && pending_spec(bus) != 0 {
        Cpu { halt_bug: true, ..cpu }
    } else {
        Cpu { halted: true, ..cpu }
    }
}

// --- CB-prefixed opcodes ---
pub open spec fn execute_cb_spec<B: BusModel>(cpu: Cpu, bus: B, opcode: u8) -> (Cpu, B, u8) {
    let r = opcode % 8;
    let y = (opcode / 8) % 8;
    let v = read_r8_spec(cpu, bus, r);
    let is_hl = r == 6;
    if opcode < 0x40 {
        let (regs, res) = shift_spec(cpu.regs, y, v);
        let (c1, b1) = write_r8_spec(with_regs(cpu, regs), bus, r, res);
        (c1, b1, if is_hl {
            16
        } else {
            8
        })
    } else if opcode < 0x80 {
        (with_regs(cpu, bit_test_spec(cpu.regs, v, y)), bus, if is_hl {
            12
        } else {
            8
        })
    } else if opcode < 0xC0 {
        let (c1, b1) = write_r8_spec(cpu, bus, r, v & !(1u8 << y));
        (c1, b1, if is_hl {
            16
        } else {
            8
        })
    } else {
        let (c1, b1) = write_r8_spec(cpu, bus, r, v | (1u8 << y));
        (c1, b1, if is_hl {
            16
        } else {
            8
        })
    }
}

/// Condition codes, indexed as encoded: NZ, Z, NC, C.
pub open spec fn cond_spec(r: Registers, cc: u8) -> bool {
    if cc == 0 {
        !r.zero_spec()
    } else if cc == 1 {
        r.zero_spec()
    } else if cc == 2 {
        !r.carry_spec()
    } else {
        r.carry_spec()
    }
}

/// 16-bit register pairs as encoded in `LD rp,d16`/`INC rp`/...: BC, DE,
/// HL, SP.
pub open spec fn rp_spec(r: Registers, p: u8) -> u16 {
    if p == 0 {
        r.bc_spec()
    } else if p == 1 {
        r.de_spec()
    } else if p == 2 {
        r.hl_spec()
    } else {
        r.sp
    }
}

pub open spec fn with_rp(r: Registers, p: u8, v: u16) -> Registers {
    if p == 0 {
        r.with_bc(v)
    } else if p == 1 {
        r.with_de(v)
    } else if p == 2 {
        r.with_hl(v)
    } else {
        Registers { sp: v, ..r }
    }
}

/// Register pairs as encoded in `PUSH`/`POP`: BC, DE, HL, AF.
pub open spec fn rp2_spec(r: Registers, p: u8) -> u16 {
    if p == 3 {
        r.af_spec()
    } else {
        rp_spec(r, p)
    }
}

pub open spec fn with_rp2(r: Registers, p: u8, v: u16) -> Registers {
    if p == 3 {
        r.with_af(v)
    } else {
        with_rp(r, p, v)
    }
}

/// Opcodes with no instruction on the SM83; they execute as 4-cycle no-ops.
pub open spec fn is_unused_opcode(op: u8) -> bool {
    op == 0xD3 || op == 0xDB || op == 0xDD || op == 0xE3 || op == 0xE4 || op == 0xEB || op == 0xEC
        || op == 0xED || op == 0xF4 || op == 0xFC || op == 0xFD
}

/// Opcodes 0x00-0x3F.
pub open spec fn execute_block0_spec<B: BusModel>(cpu: Cpu, bus: B, opcode: u8) -> (Cpu, B, u8) {
    let rg = cpu.regs;
    let y = (opcode / 8) % 8;
    let z = opcode % 8;
    let p = y / 2;
    let q = y % 2;
    if z == 0 {
        if y == 0 {
            (cpu, bus, 4)
        } else if y == 1 {
            let (c1, addr) = fetch16(cpu, bus);
            (c1, write16_spec(bus, addr, rg.sp), 20)
        } else if y == 2 {
            let (c1, _operand) = fetch8(cpu, bus);
            (Cpu { stopped: true, ..c1 }, bus, 4)
        } else if y == 3 {
            jr_cc_spec(cpu, bus, true)
        } else {
            jr_cc_spec(cpu, bus, cond_spec(rg, (y - 4) as u8))
        }
    } else if z == 1 {
        if q == 0 {
            let (c1, v) = fetch16(cpu, bus);
            (with_regs(c1, with_rp(c1.regs, p, v)), bus, 12)
        } else {
            (with_regs(cpu, add16_spec(rg, rp_spec(rg, p))), bus, 8)
        }
    } else if z == 2 {
        let addr = if p == 0 {
            rg.bc_spec()
        } else if p == 1 {
            rg.de_spec()
        } else {
            rg.hl_spec()
        };
        let rg1 = if p == 2 {
            rg.with_hl(rg.hl_spec().wrapping_add(1))
        } else if p == 3 {
            rg.with_hl(rg.hl_spec().wrapping_sub(1))
        } else {
            rg
        };
        if q == 0 {
            (with_regs(cpu, rg1), bus.spec_write(addr, rg.a), 8)
        } else {
            (with_regs(cpu, Registers { a: bus.spec_read(addr), ..rg1 }), bus, 8)
        }
    } else if z == 3 {
        let v = rp_spec(rg, p);
        let nv = if q == 0 {
            v.wrapping_add(1)
        } else {
            v.wrapping_sub(1)
        };
        (with_regs(cpu, with_rp(rg, p, nv)), bus, 8)
    } else if z == 4 || z == 5 {
        let v = read_r8_spec(cpu, bus, y);
        let (flags, res) = if z == 4 {
            (inc8_flags(rg, v), inc8_value(v))
        } else {
            (dec8_flags(rg, v), dec8_value(v))
        };
        let (c1, b1) = write_r8_spec(with_regs(cpu, flags), bus, y, res);
        (c1, b1, if y == 6 {
            12
        } else {
            4
        })
    } else if z == 6 {
        let (c1, v) = fetch8(cpu, bus);
        let (c2, b2) = write_r8_spec(c1, bus, y, v);
        (c2, b2, if y == 6 {
            12
        } else {
            8
        })
    } else {
        let rg1 = if y < 4 {
            rot_a_spec(rg, y)
        } else if y == 4 {
            daa_spec(rg)
        } else if y == 5 {
            Registers { a: !rg.a, f: pack_flags(rg.zero_spec(), true, true, rg.carry_spec()), ..rg }
        } else if y == 6 {
            Registers { f: pack_flags(rg.zero_spec(), false, false, true), ..rg }
        } else {
            Registers { f: pack_flags(rg.zero_spec(), false, false, !rg.carry_spec()), ..rg }
        };
        (with_regs(cpu, rg1), bus, 4)
    }
}

/// Opcodes 0xC0-0xFF (except the 0xCB prefix, handled separately).
pub open spec fn execute_block3_spec<B: BusModel>(cpu: Cpu, bus: B, opcode: u8) -> (Cpu, B, u8) {
    let rg = cpu.regs;
    let y = (opcode / 8) % 8;
    let z = opcode % 8;
    let p = y / 2;
    if is_unused_opcode(opcode) {
        (cpu, bus, 4)
    } else if z == 0 {
        if y < 4 {
            ret_cc_spec(cpu, bus, cond_spec(rg, y))
        } else if y == 4 {
            let (c1, off) = fetch8(cpu, bus);
            (c1, bus.spec_write((0xFF00 + off as int) as u16, rg.a), 12)
        } else if y == 5 {
            let (c1, off) = fetch8(cpu, bus);
            (with_regs(c1, add_sp_spec(c1.regs, off)), bus, 16)
        } else if y == 6 {
            let (c1, off) = fetch8(cpu, bus);
            (with_regs(c1, Registers { a: bus.spec_read((0xFF00 + off as int) as u16), ..c1.regs }), bus, 12)
        } else {
            let (c1, off) = fetch8(cpu, bus);
            (with_regs(c1, ld_hl_sp_spec(c1.regs, off)), bus, 12)
        }
    } else if z == 1 {
        if y % 2 == 0 {
            let (c1, v) = pop_spec(cpu, bus);
            (with_regs(c1, with_rp2(c1.regs, p, v)), bus, 12)
        } else if y == 1 {
            let (c1, v) = pop_spec(cpu, bus);
            (with_pc(c1, v), bus, 16)
        } else if y == 3 {
            let (c1, v) = pop_spec(cpu, bus);
            (Cpu { ime: true, ..with_pc(c1, v) }, bus, 16)
        } else if y == 5 {
            (with_pc(cpu, rg.hl_spec()), bus, 4)
        } else {
            (with_sp(cpu, rg.hl_spec()), bus, 8)
        }
    } else if z == 2 {
        if y < 4 {
            jp_cc_spec(cpu, bus, cond_spec(rg, y))
        } else if y == 4 {
            (cpu, bus.spec_write((0xFF00 + rg.c as int) as u16, rg.a), 8)
        } else if y == 5 {
            let (c1, addr) = fetch16(cpu, bus);
            (c1, bus.spec_write(addr, rg.a), 16)
        } else if y == 6 {
            (with_regs(cpu, Registers { a: bus.spec_read((0xFF00 + rg.c as int) as u16), ..rg }), bus, 8)
        } else {
            let (c1, addr) = fetch16(cpu, bus);
            (with_regs(c1, Registers { a: bus.spec_read(addr), ..c1.regs }), bus, 16)
        }
    } else if z == 3 {
        if y == 0 {
            jp_cc_spec(cpu, bus, true)
        } else if y == 6 {
            (Cpu { ime: false, ..cpu }, bus, 4)
        } else {
            (Cpu { ime_pending: true, ..cpu }, bus, 4)
        }
    } else if z == 4 {
        call_cc_spec(cpu, bus, cond_spec(rg, y))
    } else if z == 5 {
        if y % 2 == 0 {
            let (c1, b1) = push_spec(cpu, bus, rp2_spec(rg, p));
            (c1, b1, 16)
        } else {
            call_cc_spec(cpu, bus, true)
        }
    } else if z == 6 {
        let (c1, v) = fetch8(cpu, bus);
        (with_regs(c1, alu_spec(c1.regs, y, v)), bus, 8)
    } else {
        let (c1, b1) = call_to(cpu, bus, (y as int * 8) as u16);
        (c1, b1, 16)
    }
}

/// One already-fetched base opcode (`PC` points just past it).
pub open spec fn execute_spec<B: BusModel>(cpu: Cpu, bus: B, opcode: u8) -> (Cpu, B, u8) {
    if opcode < 0x40 {
        execute_block0_spec(cpu, bus, opcode)
    } else if opcode == 0x76 {
        (halt_spec(cpu, bus), bus, 4)
    } else if opcode < 0x80 {
        ld_r_r_spec(cpu, bus, opcode)
    } else if opcode < 0xC0 {
        alu_a_r_spec(cpu, bus, opcode)
    } else if opcode == 0xCB {
        let (c1, cb) = fetch8(cpu, bus);
        execute_cb_spec(c1, bus, cb)
    } else {
        execute_block3_spec(cpu, bus, opcode)
    }
}

/// Index (0-4) of the highest-priority pending interrupt: the lowest set
/// bit of `pending` (`pending` must be nonzero in its low five bits).
pub open spec fn lowest_bit(pending: u8) -> u8
    recommends
        pending & 0x1F != 0,
{
    if pending & 1 != 0 {
        0
    } else if pending & 2 != 0 {
        1
    } else if pending & 4 != 0 {
        2
    } else if pending & 8 != 0 {
        3
    } else {
        4
    }
}

/// Interrupt dispatch: clear the request bit in `IF`, disable `IME`, push
/// `PC` and jump to the vector `0x40 + 8*bit`. Takes 20 T-cycles.
pub open spec fn dispatch_spec<B: BusModel>(cpu: Cpu, bus: B, bit: u8) -> (Cpu, B, u8) {
    let iflag = bus.spec_read(IF_ADDR);
    let b1 = bus.spec_write(IF_ADDR, iflag & !(1u8 << bit));
    let (c2, b2) = call_to(Cpu { ime: false, ..cpu }, b1, (0x40 + 8 * bit as int) as u16);
    (c2, b2, 20)
}

/// One full `Cpu::step`: halt/wake handling, interrupt dispatch, the
/// delayed `EI`, the HALT-bug double fetch, then the instruction itself.
pub open spec fn step_spec<B: BusModel>(cpu: Cpu, bus: B) -> (Cpu, B, u8) {
    let pending = pending_spec(bus);
    if cpu.halted && pending == 0 {
        (cpu, bus, 4)
    } else {
        let c1 = Cpu { halted: false, ..cpu };
        if c1.ime && pending != 0 {
            dispatch_spec(c1, bus, lowest_bit(pending))
        } else {
            let enable_ime = c1.ime_pending;
            let c2 = Cpu { ime_pending: false, ..c1 };
            let (c3, opcode) = if c2.halt_bug {
                (Cpu { halt_bug: false, ..c2 }, bus.spec_read(c2.regs.pc))
            } else {
                fetch8(c2, bus)
            };
            let (c4, b4, cycles) = execute_spec(c3, bus, opcode);
            (if enable_ime {
                Cpu { ime: true, ..c4 }
            } else {
                c4
            }, b4, cycles)
        }
    }
}

} // verus!
