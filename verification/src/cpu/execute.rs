//! Match-based opcode dispatch: 256 base-opcode arms (the CB-prefixed ones
//! live in `cb.rs`).
//!
//! Cycle counts (T-cycles, 4 per M-cycle) and flag behavior follow the
//! standard SM83 opcode tables; each arm is proved against
//! `semantics::execute_spec`.
use vstd::prelude::*;
use super::{Bus, Cpu, FLAG_C, FLAG_H, FLAG_N, FLAG_Z};
use super::registers::{Registers, pack_flags};
use super::semantics::{with_regs, with_pc, with_sp, fetch8, fetch16, sext8, add8_spec, carry_in, adc8_spec, sub8_spec, sbc8_spec, and8_spec, xor8_spec, or8_spec, cp8_spec, alu_spec, inc8_value, dec8_value, inc8_flags, dec8_flags, daa_spec, add16_spec, sp_offset_sum, sp_offset_flags, add_sp_spec, ld_hl_sp_spec, rotl, rotr, bit7, bit0, rot_a_spec, shift_value, shift_spec, bit_test_spec, read_r8_spec, write_r8_spec, ld_r_r_spec, alu_a_r_spec, push_spec, pop_spec, call_to, jr_cc_spec, jp_cc_spec, call_cc_spec, ret_cc_spec, pending_spec, halt_spec, execute_cb_spec, cond_spec, rp_spec, with_rp, rp2_spec, with_rp2, is_unused_opcode, execute_block0_spec, execute_block3_spec, daa_value, execute_spec, lowest_bit, dispatch_spec, step_spec, IE_ADDR, IF_ADDR};

verus! {

/// Bit-level identities behind the rotate/shift instructions.
pub proof fn lemma_u8_shifts(a: u8, c1: u8, c8: u8)
    ensures
        (a & 0x80 != 0) == (a >= 128),
        (a & 0x01 != 0) == (a % 2 == 1),
        (a << 1) | (a >> 7) == rotl(a),
        (a >> 1) | (a << 7) == rotr(a),
        c1 <= 1 ==> (a << 1) | c1 == ((a as int * 2) % 256 + c1 as int) as u8,
        (c8 == 0 || c8 == 0x80) ==> (a >> 1) | c8 == (a as int / 2 + c8 as int) as u8,
        a << 1 == ((a as int * 2) % 256) as u8,
        a >> 1 == (a as int / 2) as u8,
        (a >> 1) | (a & 0x80) == (a as int / 2 + (a as int / 128) * 128) as u8,
        (a << 4) | (a >> 4) == ((a as int % 16) * 16 + a as int / 16) as u8,
        a & 0x0F == a % 16,
{
    assert((a & 0x80 != 0) == (a >= 128)) by (bit_vector);
    assert((a & 0x01 != 0) == (a % 2 == 1)) by (bit_vector);
    assert((a << 1) | (a >> 7) == ((a * 2) % 256 + a / 128) as u8) by (bit_vector);
    assert((a >> 1) | (a << 7) == (a / 2 + (a % 2) * 128) as u8) by (bit_vector);
    assert(c1 <= 1 ==> (a << 1) | c1 == ((a * 2) % 256 + c1) as u8) by (bit_vector);
    assert((c8 == 0 || c8 == 0x80) ==> (a >> 1) | c8 == (a / 2 + c8) as u8) by (bit_vector);
    assert(a << 1 == ((a * 2) % 256) as u8) by (bit_vector);
    assert(a >> 1 == (a / 2) as u8) by (bit_vector);
    assert((a >> 1) | (a & 0x80) == (a / 2 + (a / 128) * 128) as u8) by (bit_vector);
    assert((a << 4) | (a >> 4) == ((a % 16) * 16 + a / 16) as u8) by (bit_vector);
    assert(a & 0x0F == a % 16) by (bit_vector);
}

/// Sign-extends an 8-bit relative offset (`JR`, `ADD SP,e8`).
pub fn sign_extend(b: u8) -> (r: u16)
    ensures
        r == sext8(b),
{
    if b < 128 {
        b as u16
    } else {
        b as u16 + 0xFF00
    }
}

/// Execute one already-fetched base opcode. Returns elapsed T-cycles.
pub(super) fn execute<B: Bus>(cpu: &mut Cpu, bus: &mut B, opcode: u8) -> (cycles: u8)
    requires
        old(bus).inv(),
    ensures
        cycles >= 4,
        final(bus).inv(),
        (*final(cpu), final(bus).model(), cycles) == execute_spec(*old(cpu), old(bus).model(), opcode),
{
    if opcode < 0x40 {
        execute_block0(cpu, bus, opcode)
    } else if opcode == 0x76 {
        halt(cpu, bus);
        4
    } else if opcode < 0x80 {
        ld_r_r(cpu, bus, opcode)
    } else if opcode < 0xC0 {
        alu_a_r(cpu, bus, opcode)
    } else {
        execute_block3(cpu, bus, opcode)
    }
}

/// Opcodes 0x00-0x3F: loads, 8/16-bit inc/dec, relative jumps, rotates.
fn execute_block0<B: Bus>(cpu: &mut Cpu, bus: &mut B, opcode: u8) -> (cycles: u8)
    requires
        old(bus).inv(),
        opcode < 0x40,
    ensures
        cycles >= 4,
        final(bus).inv(),
        (*final(cpu), final(bus).model(), cycles) == execute_block0_spec(*old(cpu), old(bus).model(), opcode),
{
    if opcode < 0x10 {
        execute_row0(cpu, bus, opcode)
    } else if opcode < 0x20 {
        execute_row1(cpu, bus, opcode)
    } else if opcode < 0x30 {
        execute_row2(cpu, bus, opcode)
    } else {
        execute_row3(cpu, bus, opcode)
    }
}

#[verifier::rlimit(100)]
#[verifier::spinoff_prover]
fn execute_row0<B: Bus>(cpu: &mut Cpu, bus: &mut B, opcode: u8) -> (cycles: u8)
    requires
        old(bus).inv(),
        0x00 <= opcode < 0x10,
    ensures
        cycles >= 4,
        final(bus).inv(),
        (*final(cpu), final(bus).model(), cycles) == execute_block0_spec(*old(cpu), old(bus).model(), opcode),
{
    match opcode {
        // --- 0x00..0x3F ---
        0x00 => 4, // NOP
        0x01 => {
            let v = cpu.fetch_word(bus);
            cpu.regs.set_bc(v);
            12
        }
        0x02 => {
            bus.write(cpu.regs.bc(), cpu.regs.a);
            8
        }
        0x03 => {
            cpu.regs.set_bc(cpu.regs.bc().wrapping_add(1));
            8
        }
        0x04 => {
            cpu.regs.b = inc8(cpu, cpu.regs.b);
            4
        }
        0x05 => {
            cpu.regs.b = dec8(cpu, cpu.regs.b);
            4
        }
        0x06 => {
            cpu.regs.b = cpu.fetch_byte(bus);
            8
        }
        0x07 => {
            rlca(cpu);
            4
        }
        0x08 => {
            let addr = cpu.fetch_word(bus);
            bus.write16(addr, cpu.regs.sp);
            20
        }
        0x09 => {
            add16(cpu, cpu.regs.bc());
            8
        }
        0x0A => {
            cpu.regs.a = bus.read(cpu.regs.bc());
            8
        }
        0x0B => {
            cpu.regs.set_bc(cpu.regs.bc().wrapping_sub(1));
            8
        }
        0x0C => {
            cpu.regs.c = inc8(cpu, cpu.regs.c);
            4
        }
        0x0D => {
            cpu.regs.c = dec8(cpu, cpu.regs.c);
            4
        }
        0x0E => {
            cpu.regs.c = cpu.fetch_byte(bus);
            8
        }
        0x0F => {
            rrca(cpu);
            4
        }
        _ => 4,
    }
}

fn execute_row1<B: Bus>(cpu: &mut Cpu, bus: &mut B, opcode: u8) -> (cycles: u8)
    requires
        old(bus).inv(),
        0x10 <= opcode < 0x20,
    ensures
        cycles >= 4,
        final(bus).inv(),
        (*final(cpu), final(bus).model(), cycles) == execute_block0_spec(*old(cpu), old(bus).model(), opcode),
{
    if opcode < 0x18 {
        execute_row1_low(cpu, bus, opcode)
    } else {
        execute_row1_high(cpu, bus, opcode)
    }
}

#[verifier::rlimit(100)]
#[verifier::spinoff_prover]
fn execute_row1_low<B: Bus>(cpu: &mut Cpu, bus: &mut B, opcode: u8) -> (cycles: u8)
    requires
        old(bus).inv(),
        0x10 <= opcode < 0x18,
    ensures
        cycles >= 4,
        final(bus).inv(),
        (*final(cpu), final(bus).model(), cycles) == execute_block0_spec(*old(cpu), old(bus).model(), opcode),
{
    match opcode {
        0x10 => {
            // STOP: real low-power/DIV-reset behavior lands with interrupt
            // handling; consume the (ignored) operand byte per hardware
            // quirk and mark stopped.
            let _ = cpu.fetch_byte(bus);
            cpu.stopped = true;
            4
        }
        0x11 => {
            let v = cpu.fetch_word(bus);
            cpu.regs.set_de(v);
            12
        }
        0x12 => {
            bus.write(cpu.regs.de(), cpu.regs.a);
            8
        }
        0x13 => {
            cpu.regs.set_de(cpu.regs.de().wrapping_add(1));
            8
        }
        0x14 => {
            cpu.regs.d = inc8(cpu, cpu.regs.d);
            4
        }
        0x15 => {
            cpu.regs.d = dec8(cpu, cpu.regs.d);
            4
        }
        0x16 => {
            cpu.regs.d = cpu.fetch_byte(bus);
            8
        }
        _ => {
            rla(cpu);
            4
        }
    }
}

#[verifier::rlimit(100)]
#[verifier::spinoff_prover]
fn execute_row1_high<B: Bus>(cpu: &mut Cpu, bus: &mut B, opcode: u8) -> (cycles: u8)
    requires
        old(bus).inv(),
        0x18 <= opcode < 0x20,
    ensures
        cycles >= 4,
        final(bus).inv(),
        (*final(cpu), final(bus).model(), cycles) == execute_block0_spec(*old(cpu), old(bus).model(), opcode),
{
    match opcode {
        0x18 => {
            let off = cpu.fetch_byte(bus);
            cpu.regs.pc = cpu.regs.pc.wrapping_add(sign_extend(off));
            12
        }
        0x19 => {
            add16(cpu, cpu.regs.de());
            8
        }
        0x1A => {
            cpu.regs.a = bus.read(cpu.regs.de());
            8
        }
        0x1B => {
            cpu.regs.set_de(cpu.regs.de().wrapping_sub(1));
            8
        }
        0x1C => {
            cpu.regs.e = inc8(cpu, cpu.regs.e);
            4
        }
        0x1D => {
            cpu.regs.e = dec8(cpu, cpu.regs.e);
            4
        }
        0x1E => {
            cpu.regs.e = cpu.fetch_byte(bus);
            8
        }
        _ => {
            rra(cpu);
            4
        }
    }
}

#[verifier::rlimit(100)]
#[verifier::spinoff_prover]
fn execute_row2<B: Bus>(cpu: &mut Cpu, bus: &mut B, opcode: u8) -> (cycles: u8)
    requires
        old(bus).inv(),
        0x20 <= opcode < 0x30,
    ensures
        cycles >= 4,
        final(bus).inv(),
        (*final(cpu), final(bus).model(), cycles) == execute_block0_spec(*old(cpu), old(bus).model(), opcode),
{
    match opcode {
        0x20 => jr_cc(cpu, bus, !cpu.regs.zero()),
        0x21 => {
            let v = cpu.fetch_word(bus);
            cpu.regs.set_hl(v);
            12
        }
        0x22 => {
            bus.write(cpu.regs.hl(), cpu.regs.a);
            cpu.regs.set_hl(cpu.regs.hl().wrapping_add(1));
            8
        }
        0x23 => {
            cpu.regs.set_hl(cpu.regs.hl().wrapping_add(1));
            8
        }
        0x24 => {
            cpu.regs.h = inc8(cpu, cpu.regs.h);
            4
        }
        0x25 => {
            cpu.regs.h = dec8(cpu, cpu.regs.h);
            4
        }
        0x26 => {
            cpu.regs.h = cpu.fetch_byte(bus);
            8
        }
        0x27 => {
            daa(cpu);
            4
        }
        0x28 => jr_cc(cpu, bus, cpu.regs.zero()),
        0x29 => {
            add16(cpu, cpu.regs.hl());
            8
        }
        0x2A => {
            cpu.regs.a = bus.read(cpu.regs.hl());
            cpu.regs.set_hl(cpu.regs.hl().wrapping_add(1));
            8
        }
        0x2B => {
            cpu.regs.set_hl(cpu.regs.hl().wrapping_sub(1));
            8
        }
        0x2C => {
            cpu.regs.l = inc8(cpu, cpu.regs.l);
            4
        }
        0x2D => {
            cpu.regs.l = dec8(cpu, cpu.regs.l);
            4
        }
        0x2E => {
            cpu.regs.l = cpu.fetch_byte(bus);
            8
        }
        0x2F => {
            cpu.regs.a = !cpu.regs.a;
            cpu.regs.set_flag(FLAG_N, true);
            cpu.regs.set_flag(FLAG_H, true);
            4
        }
        _ => 4,
    }
}

#[verifier::rlimit(100)]
#[verifier::spinoff_prover]
fn execute_row3<B: Bus>(cpu: &mut Cpu, bus: &mut B, opcode: u8) -> (cycles: u8)
    requires
        old(bus).inv(),
        0x30 <= opcode < 0x40,
    ensures
        cycles >= 4,
        final(bus).inv(),
        (*final(cpu), final(bus).model(), cycles) == execute_block0_spec(*old(cpu), old(bus).model(), opcode),
{
    match opcode {
        0x30 => jr_cc(cpu, bus, !cpu.regs.carry()),
        0x31 => {
            let v = cpu.fetch_word(bus);
            cpu.regs.sp = v;
            12
        }
        0x32 => {
            bus.write(cpu.regs.hl(), cpu.regs.a);
            cpu.regs.set_hl(cpu.regs.hl().wrapping_sub(1));
            8
        }
        0x33 => {
            cpu.regs.sp = cpu.regs.sp.wrapping_add(1);
            8
        }
        0x34 => {
            let v = bus.read(cpu.regs.hl());
            let r = inc8(cpu, v);
            bus.write(cpu.regs.hl(), r);
            12
        }
        0x35 => {
            let v = bus.read(cpu.regs.hl());
            let r = dec8(cpu, v);
            bus.write(cpu.regs.hl(), r);
            12
        }
        0x36 => {
            let v = cpu.fetch_byte(bus);
            bus.write(cpu.regs.hl(), v);
            12
        }
        0x37 => {
            cpu.regs.set_flag(FLAG_N, false);
            cpu.regs.set_flag(FLAG_H, false);
            cpu.regs.set_flag(FLAG_C, true);
            4
        }
        0x38 => jr_cc(cpu, bus, cpu.regs.carry()),
        0x39 => {
            add16(cpu, cpu.regs.sp);
            8
        }
        0x3A => {
            cpu.regs.a = bus.read(cpu.regs.hl());
            cpu.regs.set_hl(cpu.regs.hl().wrapping_sub(1));
            8
        }
        0x3B => {
            cpu.regs.sp = cpu.regs.sp.wrapping_sub(1);
            8
        }
        0x3C => {
            cpu.regs.a = inc8(cpu, cpu.regs.a);
            4
        }
        0x3D => {
            cpu.regs.a = dec8(cpu, cpu.regs.a);
            4
        }
        0x3E => {
            cpu.regs.a = cpu.fetch_byte(bus);
            8
        }
        0x3F => {
            let c = cpu.regs.carry();
            cpu.regs.set_flag(FLAG_N, false);
            cpu.regs.set_flag(FLAG_H, false);
            cpu.regs.set_flag(FLAG_C, !c);
            4
        }
        _ => 4,
    }
}

/// Opcodes 0xC0-0xFF: control flow, stack, I/O-page loads, misc.
#[verifier::rlimit(100)]
#[verifier::spinoff_prover]
fn execute_block3<B: Bus>(cpu: &mut Cpu, bus: &mut B, opcode: u8) -> (cycles: u8)
    requires
        old(bus).inv(),
        opcode >= 0xC0,
    ensures
        cycles >= 4,
        final(bus).inv(),
        (*final(cpu), final(bus).model(), cycles) == (if opcode == 0xCB {
            let (c1, cb) = fetch8(*old(cpu), old(bus).model());
            execute_cb_spec(c1, old(bus).model(), cb)
        } else {
            execute_block3_spec(*old(cpu), old(bus).model(), opcode)
        }),
{
    match opcode {
        // --- 0xC0..0xFF: control flow, stack, misc ---
        0xC0 => ret_cc(cpu, bus, !cpu.regs.zero()),
        0xC1 => {
            let v = pop(cpu, bus);
            cpu.regs.set_bc(v);
            12
        }
        0xC2 => jp_cc(cpu, bus, !cpu.regs.zero()),
        0xC3 => {
            cpu.regs.pc = cpu.fetch_word(bus);
            16
        }
        0xC4 => call_cc(cpu, bus, !cpu.regs.zero()),
        0xC5 => {
            push(cpu, bus, cpu.regs.bc());
            16
        }
        0xC6 => {
            let v = cpu.fetch_byte(bus);
            add8(cpu, v);
            8
        }
        0xC7 => {
            rst(cpu, bus, 0x00);
            16
        }
        0xC8 => ret_cc(cpu, bus, cpu.regs.zero()),
        0xC9 => {
            cpu.regs.pc = pop(cpu, bus);
            16
        }
        0xCA => jp_cc(cpu, bus, cpu.regs.zero()),
        0xCB => {
            let cb_op = cpu.fetch_byte(bus);
            super::cb::execute_cb(cpu, bus, cb_op)
        }
        0xCC => call_cc(cpu, bus, cpu.regs.zero()),
        0xCD => {
            let addr = cpu.fetch_word(bus);
            push(cpu, bus, cpu.regs.pc);
            cpu.regs.pc = addr;
            24
        }
        0xCE => {
            let v = cpu.fetch_byte(bus);
            adc8(cpu, v);
            8
        }
        0xCF => {
            rst(cpu, bus, 0x08);
            16
        }

        0xD0 => ret_cc(cpu, bus, !cpu.regs.carry()),
        0xD1 => {
            let v = pop(cpu, bus);
            cpu.regs.set_de(v);
            12
        }
        0xD2 => jp_cc(cpu, bus, !cpu.regs.carry()),
        0xD3 => 4, // unused opcode; treated as NOP-with-length
        0xD4 => call_cc(cpu, bus, !cpu.regs.carry()),
        0xD5 => {
            push(cpu, bus, cpu.regs.de());
            16
        }
        0xD6 => {
            let v = cpu.fetch_byte(bus);
            sub8(cpu, v);
            8
        }
        0xD7 => {
            rst(cpu, bus, 0x10);
            16
        }
        0xD8 => ret_cc(cpu, bus, cpu.regs.carry()),
        0xD9 => {
            cpu.regs.pc = pop(cpu, bus);
            cpu.ime = true;
            16
        }
        0xDA => jp_cc(cpu, bus, cpu.regs.carry()),
        0xDB => 4, // unused opcode
        0xDC => call_cc(cpu, bus, cpu.regs.carry()),
        0xDD => 4, // unused opcode
        0xDE => {
            let v = cpu.fetch_byte(bus);
            sbc8(cpu, v);
            8
        }
        0xDF => {
            rst(cpu, bus, 0x18);
            16
        }

        0xE0 => {
            let off = cpu.fetch_byte(bus) as u16;
            bus.write(0xFF00 + off, cpu.regs.a);
            12
        }
        0xE1 => {
            let v = pop(cpu, bus);
            cpu.regs.set_hl(v);
            12
        }
        0xE2 => {
            bus.write(0xFF00 + cpu.regs.c as u16, cpu.regs.a);
            8
        }
        0xE3 => 4, // unused opcode
        0xE4 => 4, // unused opcode
        0xE5 => {
            push(cpu, bus, cpu.regs.hl());
            16
        }
        0xE6 => {
            let v = cpu.fetch_byte(bus);
            and8(cpu, v);
            8
        }
        0xE7 => {
            rst(cpu, bus, 0x20);
            16
        }
        0xE8 => {
            add_sp_i8(cpu, bus);
            16
        }
        0xE9 => {
            cpu.regs.pc = cpu.regs.hl();
            4
        }
        0xEA => {
            let addr = cpu.fetch_word(bus);
            bus.write(addr, cpu.regs.a);
            16
        }
        0xEB => 4, // unused opcode
        0xEC => 4, // unused opcode
        0xED => 4, // unused opcode
        0xEE => {
            let v = cpu.fetch_byte(bus);
            xor8(cpu, v);
            8
        }
        0xEF => {
            rst(cpu, bus, 0x28);
            16
        }

        0xF0 => {
            let off = cpu.fetch_byte(bus) as u16;
            cpu.regs.a = bus.read(0xFF00 + off);
            12
        }
        0xF1 => {
            let v = pop(cpu, bus);
            cpu.regs.set_af(v);
            12
        }
        0xF2 => {
            cpu.regs.a = bus.read(0xFF00 + cpu.regs.c as u16);
            8
        }
        0xF3 => {
            cpu.ime = false;
            4
        }
        0xF4 => 4, // unused opcode
        0xF5 => {
            push(cpu, bus, cpu.regs.af());
            16
        }
        0xF6 => {
            let v = cpu.fetch_byte(bus);
            or8(cpu, v);
            8
        }
        0xF7 => {
            rst(cpu, bus, 0x30);
            16
        }
        0xF8 => {
            ld_hl_sp_i8(cpu, bus);
            12
        }
        0xF9 => {
            cpu.regs.sp = cpu.regs.hl();
            8
        }
        0xFA => {
            let addr = cpu.fetch_word(bus);
            cpu.regs.a = bus.read(addr);
            16
        }
        0xFB => {
            cpu.ime_pending = true;
            4
        }
        0xFC => 4, // unused opcode
        0xFD => 4, // unused opcode
        0xFE => {
            let v = cpu.fetch_byte(bus);
            cp8(cpu, v);
            8
        }
        0xFF => {
            rst(cpu, bus, 0x38);
            16
        }
        _ => 4,
    }
}

// --- r8 helpers: standard SM83 encoding, 0=B 1=C 2=D 3=E 4=H 5=L 6=(HL) 7=A ---
pub(super) fn read_r8<B: Bus>(cpu: &mut Cpu, bus: &mut B, idx: u8) -> (v: u8)
    requires
        old(bus).inv(),
        idx < 8,
    ensures
        final(bus).inv(),
        v == read_r8_spec(*old(cpu), old(bus).model(), idx),
        *final(cpu) == *old(cpu),
        final(bus).model() == old(bus).model(),
{
    match idx {
        0 => cpu.regs.b,
        1 => cpu.regs.c,
        2 => cpu.regs.d,
        3 => cpu.regs.e,
        4 => cpu.regs.h,
        5 => cpu.regs.l,
        6 => bus.read(cpu.regs.hl()),
        _ => cpu.regs.a,
    }
}

pub(super) fn write_r8<B: Bus>(cpu: &mut Cpu, bus: &mut B, idx: u8, val: u8)
    requires
        old(bus).inv(),
        idx < 8,
    ensures
        final(bus).inv(),
        (*final(cpu), final(bus).model()) == write_r8_spec(*old(cpu), old(bus).model(), idx, val),
{
    match idx {
        0 => cpu.regs.b = val,
        1 => cpu.regs.c = val,
        2 => cpu.regs.d = val,
        3 => cpu.regs.e = val,
        4 => cpu.regs.h = val,
        5 => cpu.regs.l = val,
        6 => bus.write(cpu.regs.hl(), val),
        _ => cpu.regs.a = val,
    }
}

/// 0x40..=0x7F (excluding 0x76 HALT, handled by caller): `LD r, r'`.
fn ld_r_r<B: Bus>(cpu: &mut Cpu, bus: &mut B, opcode: u8) -> (cycles: u8)
    requires
        old(bus).inv(),
    ensures
        cycles >= 4,
        final(bus).inv(),
        (*final(cpu), final(bus).model(), cycles) == ld_r_r_spec(*old(cpu), old(bus).model(), opcode),
{
    let dst = (opcode / 8) % 8;
    let src = opcode % 8;
    let v = read_r8(cpu, bus, src);
    write_r8(cpu, bus, dst, v);
    if dst == 6 || src == 6 {
        8
    } else {
        4
    }
}

/// 0x80..=0xBF: `ALU A, r` (ADD/ADC/SUB/SBC/AND/XOR/OR/CP).
fn alu_a_r<B: Bus>(cpu: &mut Cpu, bus: &mut B, opcode: u8) -> (cycles: u8)
    requires
        old(bus).inv(),
    ensures
        cycles >= 4,
        final(bus).inv(),
        (*final(cpu), final(bus).model(), cycles) == alu_a_r_spec(*old(cpu), old(bus).model(), opcode),
{
    let op = (opcode / 8) % 8;
    let src = opcode % 8;
    let v = read_r8(cpu, bus, src);
    alu(cpu, op, v);
    if src == 6 {
        8
    } else {
        4
    }
}

/// Dispatches one of the eight ALU operations on `A`.
fn alu(cpu: &mut Cpu, op: u8, v: u8)
    requires
        op < 8,
    ensures
        *final(cpu) == with_regs(*old(cpu), alu_spec(old(cpu).regs, op, v)),
{
    match op {
        0 => add8(cpu, v),
        1 => adc8(cpu, v),
        2 => sub8(cpu, v),
        3 => sbc8(cpu, v),
        4 => and8(cpu, v),
        5 => xor8(cpu, v),
        6 => or8(cpu, v),
        _ => cp8(cpu, v),
    }
}

// --- 8-bit ALU ---
fn add8(cpu: &mut Cpu, v: u8)
    ensures
        *final(cpu) == with_regs(*old(cpu), add8_spec(old(cpu).regs, v)),
{
    let a = cpu.regs.a;
    let sum: u16 = a as u16 + v as u16;
    let r = (sum % 256) as u8;
    let carry = sum > 0xFF;
    let half = (a % 16) + (v % 16) > 0x0F;
    cpu.regs.a = r;
    cpu.regs.set_flag(FLAG_Z, r == 0);
    cpu.regs.set_flag(FLAG_N, false);
    cpu.regs.set_flag(FLAG_H, half);
    cpu.regs.set_flag(FLAG_C, carry);
}

fn adc8(cpu: &mut Cpu, v: u8)
    ensures
        *final(cpu) == with_regs(*old(cpu), adc8_spec(old(cpu).regs, v)),
{
    let a = cpu.regs.a;
    let c: u8 = if cpu.regs.carry() {
        1
    } else {
        0
    };
    let sum: u16 = a as u16 + v as u16 + c as u16;
    let r = (sum % 256) as u8;
    let carry = sum > 0xFF;
    let half = (a % 16) + (v % 16) + c > 0x0F;
    cpu.regs.a = r;
    cpu.regs.set_flag(FLAG_Z, r == 0);
    cpu.regs.set_flag(FLAG_N, false);
    cpu.regs.set_flag(FLAG_H, half);
    cpu.regs.set_flag(FLAG_C, carry);
}

fn sub8(cpu: &mut Cpu, v: u8)
    ensures
        *final(cpu) == with_regs(*old(cpu), sub8_spec(old(cpu).regs, v)),
{
    let a = cpu.regs.a;
    let r = a.wrapping_sub(v);
    let carry = a < v;
    let half = (a % 16) < (v % 16);
    cpu.regs.a = r;
    cpu.regs.set_flag(FLAG_Z, r == 0);
    cpu.regs.set_flag(FLAG_N, true);
    cpu.regs.set_flag(FLAG_H, half);
    cpu.regs.set_flag(FLAG_C, carry);
}

fn sbc8(cpu: &mut Cpu, v: u8)
    ensures
        *final(cpu) == with_regs(*old(cpu), sbc8_spec(old(cpu).regs, v)),
{
    let a = cpu.regs.a;
    let c: u8 = if cpu.regs.carry() {
        1
    } else {
        0
    };
    let r = a.wrapping_sub(v).wrapping_sub(c);
    let carry = (a as i16) - (v as i16) - (c as i16) < 0;
    let half = ((a % 16) as i16) - ((v % 16) as i16) - (c as i16) < 0;
    cpu.regs.a = r;
    cpu.regs.set_flag(FLAG_Z, r == 0);
    cpu.regs.set_flag(FLAG_N, true);
    cpu.regs.set_flag(FLAG_H, half);
    cpu.regs.set_flag(FLAG_C, carry);
}

fn and8(cpu: &mut Cpu, v: u8)
    ensures
        *final(cpu) == with_regs(*old(cpu), and8_spec(old(cpu).regs, v)),
{
    cpu.regs.a &= v;
    cpu.regs.set_flag(FLAG_Z, cpu.regs.a == 0);
    cpu.regs.set_flag(FLAG_N, false);
    cpu.regs.set_flag(FLAG_H, true);
    cpu.regs.set_flag(FLAG_C, false);
}

fn xor8(cpu: &mut Cpu, v: u8)
    ensures
        *final(cpu) == with_regs(*old(cpu), xor8_spec(old(cpu).regs, v)),
{
    cpu.regs.a ^= v;
    cpu.regs.set_flag(FLAG_Z, cpu.regs.a == 0);
    cpu.regs.set_flag(FLAG_N, false);
    cpu.regs.set_flag(FLAG_H, false);
    cpu.regs.set_flag(FLAG_C, false);
}

fn or8(cpu: &mut Cpu, v: u8)
    ensures
        *final(cpu) == with_regs(*old(cpu), or8_spec(old(cpu).regs, v)),
{
    cpu.regs.a |= v;
    cpu.regs.set_flag(FLAG_Z, cpu.regs.a == 0);
    cpu.regs.set_flag(FLAG_N, false);
    cpu.regs.set_flag(FLAG_H, false);
    cpu.regs.set_flag(FLAG_C, false);
}

fn cp8(cpu: &mut Cpu, v: u8)
    ensures
        *final(cpu) == with_regs(*old(cpu), cp8_spec(old(cpu).regs, v)),
{
    let a = cpu.regs.a;
    sub8(cpu, v);
    cpu.regs.a = a;  // CP doesn't store the result
}

fn inc8(cpu: &mut Cpu, v: u8) -> (r: u8)
    ensures
        r == inc8_value(v),
        *final(cpu) == with_regs(*old(cpu), inc8_flags(old(cpu).regs, v)),
{
    let r = v.wrapping_add(1);
    cpu.regs.set_flag(FLAG_Z, r == 0);
    cpu.regs.set_flag(FLAG_N, false);
    cpu.regs.set_flag(FLAG_H, (v % 16) == 0x0F);
    r
}

fn dec8(cpu: &mut Cpu, v: u8) -> (r: u8)
    ensures
        r == dec8_value(v),
        *final(cpu) == with_regs(*old(cpu), dec8_flags(old(cpu).regs, v)),
{
    let r = v.wrapping_sub(1);
    cpu.regs.set_flag(FLAG_Z, r == 0);
    cpu.regs.set_flag(FLAG_N, true);
    cpu.regs.set_flag(FLAG_H, (v % 16) == 0);
    r
}

fn daa(cpu: &mut Cpu)
    ensures
        *final(cpu) == with_regs(*old(cpu), daa_spec(old(cpu).regs)),
{
    let (a, carry) = daa_adjust(
        cpu.regs.a,
        cpu.regs.subtract(),
        cpu.regs.half_carry(),
        cpu.regs.carry(),
    );
    cpu.regs.a = a;
    cpu.regs.set_flag(FLAG_Z, a == 0);
    cpu.regs.set_flag(FLAG_H, false);
    cpu.regs.set_flag(FLAG_C, carry);
}

/// The BCD correction `DAA` applies to `A`, and the resulting carry.
fn daa_adjust(a: u8, subtract: bool, half: bool, carry: bool) -> (r: (u8, bool))
    ensures
        r == daa_value(a, subtract, half, carry),
{
    let mut a = a;
    let mut carry_out = carry;
    if !subtract {
        if carry || a > 0x99 {
            a = a.wrapping_add(0x60);
            carry_out = true;
        }
        if half || (a % 16) > 0x09 {
            a = a.wrapping_add(0x06);
        }
    } else {
        if carry {
            a = a.wrapping_sub(0x60);
        }
        if half {
            a = a.wrapping_sub(0x06);
        }
    }
    (a, carry_out)
}

// --- 16-bit arithmetic ---
fn add16(cpu: &mut Cpu, v: u16)
    ensures
        *final(cpu) == with_regs(*old(cpu), add16_spec(old(cpu).regs, v)),
{
    let hl = cpu.regs.hl();
    let r = hl.wrapping_add(v);
    let carry = (hl as u32) + (v as u32) > 0xFFFF;
    let half = (hl % 4096) + (v % 4096) > 0x0FFF;
    cpu.regs.set_hl(r);
    cpu.regs.set_flag(FLAG_N, false);
    cpu.regs.set_flag(FLAG_H, half);
    cpu.regs.set_flag(FLAG_C, carry);
}

/// Flags shared by `ADD SP,e8` and `LD HL,SP+e8`.
fn set_sp_offset_flags(cpu: &mut Cpu, sp: u16, off16: u16)
    ensures
        *final(cpu) == with_regs(
            *old(cpu),
            Registers {
                f: pack_flags(
                    false,
                    false,
                    sp as int % 16 + off16 as int % 16 > 15,
                    sp as int % 256 + off16 as int % 256 > 255,
                ),
                ..old(cpu).regs
            },
        ),
{
    let half = (sp % 16) + (off16 % 16) > 0x0F;
    let carry = (sp % 256) + (off16 % 256) > 0xFF;
    cpu.regs.set_flag(FLAG_Z, false);
    cpu.regs.set_flag(FLAG_N, false);
    cpu.regs.set_flag(FLAG_H, half);
    cpu.regs.set_flag(FLAG_C, carry);
}

fn add_sp_i8<B: Bus>(cpu: &mut Cpu, bus: &mut B)
    requires
        old(bus).inv(),
    ensures
        final(bus).inv(),
        ({
            let (c1, off) = fetch8(*old(cpu), old(bus).model());
            *final(cpu) == with_regs(c1, add_sp_spec(c1.regs, off))
        }),
        final(bus).model() == old(bus).model(),
{
    let off = cpu.fetch_byte(bus);
    let sp = cpu.regs.sp;
    let off16 = sign_extend(off);
    let r = sp.wrapping_add(off16);
    cpu.regs.sp = r;
    set_sp_offset_flags(cpu, sp, off16);
}

/// `LD HL,SP+e8` (0xF8): same offset-add flag semantics as `ADD SP,e8`
/// (`add_sp_i8`), but the result lands in `HL` — `SP` itself is
/// unaffected.
fn ld_hl_sp_i8<B: Bus>(cpu: &mut Cpu, bus: &mut B)
    requires
        old(bus).inv(),
    ensures
        final(bus).inv(),
        ({
            let (c1, off) = fetch8(*old(cpu), old(bus).model());
            *final(cpu) == with_regs(c1, ld_hl_sp_spec(c1.regs, off))
        }),
        final(bus).model() == old(bus).model(),
{
    let off = cpu.fetch_byte(bus);
    let sp = cpu.regs.sp;
    let off16 = sign_extend(off);
    let r = sp.wrapping_add(off16);
    cpu.regs.set_hl(r);
    set_sp_offset_flags(cpu, sp, off16);
}

// --- rotates (accumulator forms: RLCA/RRCA/RLA/RRA) ---
fn rlca(cpu: &mut Cpu)
    ensures
        *final(cpu) == with_regs(*old(cpu), rot_a_spec(old(cpu).regs, 0)),
{
    let a = cpu.regs.a;
    proof {
        lemma_u8_shifts(a, 0, 0);
    }
    let carry = a & 0x80 != 0;
    cpu.regs.a = (a << 1) | (a >> 7);
    cpu.regs.set_flag(FLAG_Z, false);
    cpu.regs.set_flag(FLAG_N, false);
    cpu.regs.set_flag(FLAG_H, false);
    cpu.regs.set_flag(FLAG_C, carry);
}

fn rrca(cpu: &mut Cpu)
    ensures
        *final(cpu) == with_regs(*old(cpu), rot_a_spec(old(cpu).regs, 1)),
{
    let a = cpu.regs.a;
    proof {
        lemma_u8_shifts(a, 0, 0);
    }
    let carry = a & 0x01 != 0;
    cpu.regs.a = (a >> 1) | (a << 7);
    cpu.regs.set_flag(FLAG_Z, false);
    cpu.regs.set_flag(FLAG_N, false);
    cpu.regs.set_flag(FLAG_H, false);
    cpu.regs.set_flag(FLAG_C, carry);
}

fn rla(cpu: &mut Cpu)
    ensures
        *final(cpu) == with_regs(*old(cpu), rot_a_spec(old(cpu).regs, 2)),
{
    let a = cpu.regs.a;
    let old_c: u8 = if cpu.regs.carry() {
        1
    } else {
        0
    };
    proof {
        lemma_u8_shifts(a, old_c, 0);
    }
    let carry = a & 0x80 != 0;
    cpu.regs.a = (a << 1) | old_c;
    cpu.regs.set_flag(FLAG_Z, false);
    cpu.regs.set_flag(FLAG_N, false);
    cpu.regs.set_flag(FLAG_H, false);
    cpu.regs.set_flag(FLAG_C, carry);
}

fn rra(cpu: &mut Cpu)
    ensures
        *final(cpu) == with_regs(*old(cpu), rot_a_spec(old(cpu).regs, 3)),
{
    let a = cpu.regs.a;
    let old_c: u8 = if cpu.regs.carry() {
        0x80
    } else {
        0
    };
    proof {
        lemma_u8_shifts(a, 0, old_c);
    }
    let carry = a & 0x01 != 0;
    cpu.regs.a = (a >> 1) | old_c;
    cpu.regs.set_flag(FLAG_Z, false);
    cpu.regs.set_flag(FLAG_N, false);
    cpu.regs.set_flag(FLAG_H, false);
    cpu.regs.set_flag(FLAG_C, carry);
}

// --- stack helpers ---
pub(super) fn push<B: Bus>(cpu: &mut Cpu, bus: &mut B, v: u16)
    requires
        old(bus).inv(),
    ensures
        final(bus).inv(),
        (*final(cpu), final(bus).model()) == push_spec(*old(cpu), old(bus).model(), v),
{
    cpu.regs.sp = cpu.regs.sp.wrapping_sub(2);
    bus.write16(cpu.regs.sp, v);
}

fn pop<B: Bus>(cpu: &mut Cpu, bus: &mut B) -> (v: u16)
    requires
        old(bus).inv(),
    ensures
        final(bus).inv(),
        (*final(cpu), v) == pop_spec(*old(cpu), old(bus).model()),
        final(bus).model() == old(bus).model(),
{
    let v = bus.read16(cpu.regs.sp);
    cpu.regs.sp = cpu.regs.sp.wrapping_add(2);
    v
}

fn rst<B: Bus>(cpu: &mut Cpu, bus: &mut B, addr: u16)
    requires
        old(bus).inv(),
    ensures
        final(bus).inv(),
        (*final(cpu), final(bus).model()) == call_to(*old(cpu), old(bus).model(), addr),
{
    push(cpu, bus, cpu.regs.pc);
    cpu.regs.pc = addr;
}

// --- HALT + HALT bug ---
/// HALT (0x76): halts CPU fetch/execute until an enabled interrupt wakes it
/// — *unless* IME=0 and an interrupt is already pending-and-enabled at the
/// moment HALT executes, in which case real hardware does not halt at all
/// and instead triggers the HALT bug (next opcode byte fetched twice).
fn halt<B: Bus>(cpu: &mut Cpu, bus: &mut B)
    requires
        old(bus).inv(),
    ensures
        final(bus).inv(),
        *final(cpu) == halt_spec(*old(cpu), old(bus).model()),
        final(bus).model() == old(bus).model(),
{
    if !cpu.ime && super::interrupt_pending(bus) {
        cpu.halt_bug = true;
    } else {
        cpu.halted = true;
    }
}

// --- control flow ---
fn jr_cc<B: Bus>(cpu: &mut Cpu, bus: &mut B, cond: bool) -> (cycles: u8)
    requires
        old(bus).inv(),
    ensures
        cycles >= 4,
        final(bus).inv(),
        (*final(cpu), final(bus).model(), cycles) == jr_cc_spec(*old(cpu), old(bus).model(), cond),
{
    let off = cpu.fetch_byte(bus);
    if cond {
        cpu.regs.pc = cpu.regs.pc.wrapping_add(sign_extend(off));
        12
    } else {
        8
    }
}

fn jp_cc<B: Bus>(cpu: &mut Cpu, bus: &mut B, cond: bool) -> (cycles: u8)
    requires
        old(bus).inv(),
    ensures
        cycles >= 4,
        final(bus).inv(),
        (*final(cpu), final(bus).model(), cycles) == jp_cc_spec(*old(cpu), old(bus).model(), cond),
{
    let addr = cpu.fetch_word(bus);
    if cond {
        cpu.regs.pc = addr;
        16
    } else {
        12
    }
}

fn call_cc<B: Bus>(cpu: &mut Cpu, bus: &mut B, cond: bool) -> (cycles: u8)
    requires
        old(bus).inv(),
    ensures
        cycles >= 4,
        final(bus).inv(),
        (*final(cpu), final(bus).model(), cycles) == call_cc_spec(*old(cpu), old(bus).model(), cond),
{
    let addr = cpu.fetch_word(bus);
    if cond {
        push(cpu, bus, cpu.regs.pc);
        cpu.regs.pc = addr;
        24
    } else {
        12
    }
}

fn ret_cc<B: Bus>(cpu: &mut Cpu, bus: &mut B, cond: bool) -> (cycles: u8)
    requires
        old(bus).inv(),
    ensures
        cycles >= 4,
        final(bus).inv(),
        (*final(cpu), final(bus).model(), cycles) == ret_cc_spec(*old(cpu), old(bus).model(), cond),
{
    if cond {
        cpu.regs.pc = pop(cpu, bus);
        20
    } else {
        8
    }
}

} // verus!
