//! CB-prefixed opcode dispatch: rotate/shift/bit ops on r8 (256 arms).
//!
//! Encoding: 0x00-0x3F rotate/shift variants (8 sub-ops via bits 3-5),
//! 0x40-0x7F = BIT b,r, 0x80-0xBF = RES b,r, 0xC0-0xFF = SET b,r.
//! `r = opcode & 7` selects the operand (0=B 1=C 2=D 3=E 4=H 5=L 6=(HL)
//! 7=A), matching `execute::read_r8`.
use vstd::prelude::*;
use super::{Bus, Cpu, FLAG_C, FLAG_H, FLAG_N, FLAG_Z};
use super::registers::{Registers, pack_flags};
use super::semantics::{with_regs, shift_spec, bit_test_spec, execute_cb_spec};
use super::execute::{read_r8, write_r8, lemma_u8_shifts};

verus! {

pub(super) fn execute_cb<B: Bus>(cpu: &mut Cpu, bus: &mut B, opcode: u8) -> (cycles: u8)
    requires
        old(bus).inv(),
    ensures
        cycles >= 4,
        final(bus).inv(),
        (*final(cpu), final(bus).model(), cycles) == execute_cb_spec(*old(cpu), old(bus).model(), opcode),
{
    let r = opcode % 8;
    let is_hl = r == 6;
    if opcode < 0x40 {
        let sub = (opcode / 8) % 8;
        let v = read_r8(cpu, bus, r);
        let res = match sub {
            0 => rlc(cpu, v),
            1 => rrc(cpu, v),
            2 => rl(cpu, v),
            3 => rr(cpu, v),
            4 => sla(cpu, v),
            5 => sra(cpu, v),
            6 => swap(cpu, v),
            _ => srl(cpu, v),
        };
        write_r8(cpu, bus, r, res);
        if is_hl {
            16
        } else {
            8
        }
    } else if opcode < 0x80 {
        let bit = (opcode / 8) % 8;
        let v = read_r8(cpu, bus, r);
        bit_test(cpu, v, bit);
        if is_hl {
            12
        } else {
            8
        }
    } else if opcode < 0xC0 {
        let bit = (opcode / 8) % 8;
        let v = read_r8(cpu, bus, r);
        write_r8(cpu, bus, r, v & !(1u8 << bit));
        if is_hl {
            16
        } else {
            8
        }
    } else {
        let bit = (opcode / 8) % 8;
        let v = read_r8(cpu, bus, r);
        write_r8(cpu, bus, r, v | (1u8 << bit));
        if is_hl {
            16
        } else {
            8
        }
    }
}

fn rlc(cpu: &mut Cpu, v: u8) -> (r: u8)
    ensures
        (*final(cpu), r) == ({
            let (regs, res) = shift_spec(old(cpu).regs, 0, v);
            (with_regs(*old(cpu), regs), res)
        }),
{
    proof {
        lemma_u8_shifts(v, 0, 0);
    }
    let carry = v & 0x80 != 0;
    let r = (v << 1) | (v >> 7);
    set_shift_flags(cpu, r, carry);
    r
}

fn rrc(cpu: &mut Cpu, v: u8) -> (r: u8)
    ensures
        (*final(cpu), r) == ({
            let (regs, res) = shift_spec(old(cpu).regs, 1, v);
            (with_regs(*old(cpu), regs), res)
        }),
{
    proof {
        lemma_u8_shifts(v, 0, 0);
    }
    let carry = v & 0x01 != 0;
    let r = (v >> 1) | (v << 7);
    set_shift_flags(cpu, r, carry);
    r
}

fn rl(cpu: &mut Cpu, v: u8) -> (r: u8)
    ensures
        (*final(cpu), r) == ({
            let (regs, res) = shift_spec(old(cpu).regs, 2, v);
            (with_regs(*old(cpu), regs), res)
        }),
{
    let old_c: u8 = if cpu.regs.carry() {
        1
    } else {
        0
    };
    proof {
        lemma_u8_shifts(v, old_c, 0);
    }
    let carry = v & 0x80 != 0;
    let r = (v << 1) | old_c;
    set_shift_flags(cpu, r, carry);
    r
}

fn rr(cpu: &mut Cpu, v: u8) -> (r: u8)
    ensures
        (*final(cpu), r) == ({
            let (regs, res) = shift_spec(old(cpu).regs, 3, v);
            (with_regs(*old(cpu), regs), res)
        }),
{
    let old_c: u8 = if cpu.regs.carry() {
        0x80
    } else {
        0
    };
    proof {
        lemma_u8_shifts(v, 0, old_c);
    }
    let carry = v & 0x01 != 0;
    let r = (v >> 1) | old_c;
    set_shift_flags(cpu, r, carry);
    r
}

fn sla(cpu: &mut Cpu, v: u8) -> (r: u8)
    ensures
        (*final(cpu), r) == ({
            let (regs, res) = shift_spec(old(cpu).regs, 4, v);
            (with_regs(*old(cpu), regs), res)
        }),
{
    proof {
        lemma_u8_shifts(v, 0, 0);
    }
    let carry = v & 0x80 != 0;
    let r = v << 1;
    set_shift_flags(cpu, r, carry);
    r
}

/// Arithmetic shift right: bit 7 is kept.
fn sra(cpu: &mut Cpu, v: u8) -> (r: u8)
    ensures
        (*final(cpu), r) == ({
            let (regs, res) = shift_spec(old(cpu).regs, 5, v);
            (with_regs(*old(cpu), regs), res)
        }),
{
    proof {
        lemma_u8_shifts(v, 0, 0);
    }
    let carry = v & 0x01 != 0;
    let r = (v >> 1) | (v & 0x80);
    set_shift_flags(cpu, r, carry);
    r
}

fn swap(cpu: &mut Cpu, v: u8) -> (r: u8)
    ensures
        (*final(cpu), r) == ({
            let (regs, res) = shift_spec(old(cpu).regs, 6, v);
            (with_regs(*old(cpu), regs), res)
        }),
{
    proof {
        lemma_u8_shifts(v, 0, 0);
    }
    let r = (v << 4) | (v >> 4);
    cpu.regs.set_flag(FLAG_Z, r == 0);
    cpu.regs.set_flag(FLAG_N, false);
    cpu.regs.set_flag(FLAG_H, false);
    cpu.regs.set_flag(FLAG_C, false);
    r
}

fn srl(cpu: &mut Cpu, v: u8) -> (r: u8)
    ensures
        (*final(cpu), r) == ({
            let (regs, res) = shift_spec(old(cpu).regs, 7, v);
            (with_regs(*old(cpu), regs), res)
        }),
{
    proof {
        lemma_u8_shifts(v, 0, 0);
    }
    let carry = v & 0x01 != 0;
    let r = v >> 1;
    set_shift_flags(cpu, r, carry);
    r
}

fn set_shift_flags(cpu: &mut Cpu, result: u8, carry: bool)
    ensures
        *final(cpu) == with_regs(
            *old(cpu),
            Registers { f: pack_flags(result == 0, false, false, carry), ..old(cpu).regs },
        ),
{
    cpu.regs.set_flag(FLAG_Z, result == 0);
    cpu.regs.set_flag(FLAG_N, false);
    cpu.regs.set_flag(FLAG_H, false);
    cpu.regs.set_flag(FLAG_C, carry);
}

fn bit_test(cpu: &mut Cpu, v: u8, bit: u8)
    requires
        bit < 8,
    ensures
        *final(cpu) == with_regs(*old(cpu), bit_test_spec(old(cpu).regs, v, bit)),
{
    let z = v & (1u8 << bit) == 0;
    cpu.regs.set_flag(FLAG_Z, z);
    cpu.regs.set_flag(FLAG_N, false);
    cpu.regs.set_flag(FLAG_H, true);
    // C unaffected.
}

} // verus!
