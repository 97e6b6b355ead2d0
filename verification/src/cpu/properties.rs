//! Properties of the instruction-level semantics that span several
//! instructions or steps.
use vstd::prelude::*;

use super::bus::{read16_spec, write16_spec, BusModel, FlatBus};
use super::registers::lemma_word_bytes;
use super::semantics::{
    daa_value, execute_spec, execute_block0_spec, execute_block3_spec, execute_cb_spec, write_r8_spec,
    ld_r_r_spec, fetch8, lowest_bit, pending_spec, pop_spec, push_spec, step_spec, IF_ADDR,
};
use super::Cpu;
use super::registers::Registers;

verus! {

/// Pushing a value and popping it again gives the value back and leaves
/// the CPU exactly as it was (on plain memory).
pub proof fn lemma_push_then_pop(cpu: Cpu, bus: FlatBus, v: u16)
    ensures
        ({
            let (c1, b1) = push_spec(cpu, bus, v);
            pop_spec(c1, b1)
        }) == (cpu, v),
{
    let sp = cpu.regs.sp.wrapping_sub(2);
    let b1 = push_spec(cpu, bus, v).1;
    lemma_word_bytes(0, 0, v);
    assert(sp.wrapping_add(1) != sp);
    assert(b1.spec_read(sp.wrapping_add(1)) == super::registers::hi_byte(v));
    assert(b1.spec_read(sp) == super::registers::lo_byte(v));
    assert(read16_spec(b1, sp) == v);
    assert(sp.wrapping_add(2) == cpu.regs.sp);
}

/// A halted CPU with no enabled interrupt pending stays halted: a step
/// changes nothing and takes 4 T-cycles.
pub proof fn lemma_halted_waits<B: BusModel>(cpu: Cpu, bus: B)
    requires
        cpu.halted,
        pending_spec(bus) == 0,
    ensures
        step_spec(cpu, bus) == (cpu, bus, 4u8),
{
}

/// With IME set and an enabled interrupt pending, a step (halted or not)
/// services the highest-priority one: IME is cleared, the CPU wakes, the
/// old `PC` is pushed, `PC` jumps to the interrupt's vector, and it takes
/// 20 T-cycles. Unless the new stack overlaps `IF`, the serviced request
/// bit is cleared there.
pub proof fn lemma_interrupt_dispatch(cpu: Cpu, bus: FlatBus)
    requires
        cpu.ime,
        pending_spec(bus) != 0,
    ensures
        ({
            let (c, b, cycles) = step_spec(cpu, bus);
            let bit = lowest_bit(pending_spec(bus));
            let sp = cpu.regs.sp.wrapping_sub(2);
            &&& cycles == 20
            &&& !c.ime
            &&& !c.halted
            &&& c.regs.pc == 0x40 + 8 * bit
            &&& c.regs.sp == sp
            &&& read16_spec(b, sp) == cpu.regs.pc
            &&& (sp != IF_ADDR && sp.wrapping_add(1) != IF_ADDR) ==> b.spec_read(IF_ADDR) == (bus.spec_read(IF_ADDR) & !(1u8 << bit))
        }),
{
    let bit = lowest_bit(pending_spec(bus));
    let sp = cpu.regs.sp.wrapping_sub(2);
    let b1 = bus.spec_write(IF_ADDR, bus.spec_read(IF_ADDR) & !(1u8 << bit));
    lemma_word_bytes(0, 0, cpu.regs.pc);
    assert(sp.wrapping_add(1) != sp);
    let b2 = b1.spec_write(sp, super::registers::lo_byte(cpu.regs.pc));
    let b3 = b2.spec_write(sp.wrapping_add(1), super::registers::hi_byte(cpu.regs.pc));
    assert(b3.spec_read(sp) == super::registers::lo_byte(cpu.regs.pc));
    assert(read16_spec(b3, sp) == cpu.regs.pc);
}

/// `EI` takes effect after the instruction that follows it: executing
/// `EI` leaves IME as it was, and once the next step has run, IME is set
/// (with interrupts disabled beforehand, no interrupt can intervene).
pub proof fn lemma_ei_delay<B: BusModel>(cpu: Cpu, bus: B)
    requires
        !cpu.ime,
        !cpu.halted,
        !cpu.halt_bug,
        !cpu.ime_pending,
        bus.spec_read(cpu.regs.pc) == 0xFB,
    ensures
        ({
            let (c1, b1, n1) = step_spec(cpu, bus);
            let (c2, b2, n2) = step_spec(c1, b1);
            &&& !c1.ime
            &&& c1.ime_pending
            &&& !c1.halted
            &&& c2.ime
        }),
{
    let c2 = Cpu { ime_pending: false, halted: false, ..cpu };
    let (c3, opcode) = fetch8(c2, bus);
    assert(opcode == 0xFB);
    assert(execute_spec(c3, bus, 0xFB) == (Cpu { ime_pending: true, ..c3 }, bus, 4u8));
}

/// The bus after an instruction is the bus before it with nothing
/// written, one byte written, or one 16-bit little-endian value written.
pub open spec fn at_most_one_store<B: BusModel>(before: B, after: B) -> bool {
    ||| after == before
    ||| exists|a: u16, v: u8| after == #[trigger] before.spec_write(a, v)
    ||| exists|a: u16, w: u16| after == #[trigger] write16_spec(before, a, w)
}

proof fn lemma_write_r8_store<B: BusModel>(cpu: Cpu, bus: B, idx: u8, val: u8)
    ensures
        at_most_one_store(bus, write_r8_spec(cpu, bus, idx, val).1),
{
    if idx == 6 {
        assert(write_r8_spec(cpu, bus, idx, val).1 == bus.spec_write(cpu.regs.hl_spec(), val));
    }
}

proof fn lemma_block0_store<B: BusModel>(cpu: Cpu, bus: B, opcode: u8)
    requires
        opcode < 0x40,
    ensures
        at_most_one_store(bus, execute_block0_spec(cpu, bus, opcode).1),
{
    let rg = cpu.regs;
    let y = (opcode / 8) % 8;
    let z = opcode % 8;
    let p = y / 2;
    let q = y % 2;
    let r = execute_block0_spec(cpu, bus, opcode).1;
    if z == 0 && y == 1 {
        let addr = super::semantics::fetch16(cpu, bus).1;
        assert(r == write16_spec(bus, addr, rg.sp));
    } else if z == 2 && q == 0 {
        let addr = if p == 0 {
            rg.bc_spec()
        } else if p == 1 {
            rg.de_spec()
        } else {
            rg.hl_spec()
        };
        assert(r == bus.spec_write(addr, rg.a));
    } else if z == 4 || z == 5 {
        let v = super::semantics::read_r8_spec(cpu, bus, y);
        let res = if z == 4 {
            super::semantics::inc8_value(v)
        } else {
            super::semantics::dec8_value(v)
        };
        let flags = if z == 4 {
            super::semantics::inc8_flags(rg, v)
        } else {
            super::semantics::dec8_flags(rg, v)
        };
        lemma_write_r8_store(super::semantics::with_regs(cpu, flags), bus, y, res);
    } else if z == 6 {
        let (c1, v) = fetch8(cpu, bus);
        lemma_write_r8_store(c1, bus, y, v);
    }
}

proof fn lemma_block3_store<B: BusModel>(cpu: Cpu, bus: B, opcode: u8)
    requires
        opcode >= 0xC0,
        opcode != 0xCB,
    ensures
        at_most_one_store(bus, execute_block3_spec(cpu, bus, opcode).1),
{
    let rg = cpu.regs;
    let y = (opcode / 8) % 8;
    let z = opcode % 8;
    let p = y / 2;
    let r = execute_block3_spec(cpu, bus, opcode).1;
    if super::semantics::is_unused_opcode(opcode) {
    } else if z == 0 && y == 4 {
        let (c1, off) = fetch8(cpu, bus);
        assert(r == bus.spec_write((0xFF00 + off as int) as u16, rg.a));
    } else if z == 2 && y == 4 {
        assert(r == bus.spec_write((0xFF00 + rg.c as int) as u16, rg.a));
    } else if z == 2 && y == 5 {
        let (c1, addr) = super::semantics::fetch16(cpu, bus);
        assert(r == bus.spec_write(addr, rg.a));
    } else if z == 4 || (z == 5 && y % 2 == 1) {
        let (c1, addr) = super::semantics::fetch16(cpu, bus);
        let cond = if z == 4 {
            super::semantics::cond_spec(rg, y)
        } else {
            true
        };
        if cond {
            assert(r == write16_spec(bus, c1.regs.sp.wrapping_sub(2), c1.regs.pc));
        }
    } else if z == 5 {
        assert(r == write16_spec(bus, rg.sp.wrapping_sub(2), super::semantics::rp2_spec(rg, p)));
    } else if z == 7 {
        assert(r == write16_spec(bus, rg.sp.wrapping_sub(2), rg.pc));
    }
}

proof fn lemma_cb_store<B: BusModel>(cpu: Cpu, bus: B, opcode: u8)
    ensures
        at_most_one_store(bus, execute_cb_spec(cpu, bus, opcode).1),
{
    let r = opcode % 8;
    let y = (opcode / 8) % 8;
    let v = super::semantics::read_r8_spec(cpu, bus, r);
    if opcode < 0x40 {
        let (regs, res) = super::semantics::shift_spec(cpu.regs, y, v);
        lemma_write_r8_store(super::semantics::with_regs(cpu, regs), bus, r, res);
    } else if opcode < 0x80 {
    } else if opcode < 0xC0 {
        lemma_write_r8_store(cpu, bus, r, v & !(1u8 << y));
    } else {
        lemma_write_r8_store(cpu, bus, r, v | (1u8 << y));
    }
}

/// Every instruction stores at most one byte or one 16-bit value.
pub proof fn lemma_execute_store<B: BusModel>(cpu: Cpu, bus: B, opcode: u8)
    ensures
        at_most_one_store(bus, execute_spec(cpu, bus, opcode).1),
{
    if opcode < 0x40 {
        lemma_block0_store(cpu, bus, opcode);
    } else if opcode == 0x76 {
    } else if opcode < 0x80 {
        let dst = (opcode / 8) % 8;
        let src = opcode % 8;
        let v = super::semantics::read_r8_spec(cpu, bus, src);
        lemma_write_r8_store(cpu, bus, dst, v);
        assert(ld_r_r_spec(cpu, bus, opcode).1 == write_r8_spec(cpu, bus, dst, v).1);
    } else if opcode < 0xC0 {
    } else if opcode == 0xCB {
        let (c1, cb) = fetch8(cpu, bus);
        lemma_cb_store(c1, bus, cb);
    } else {
        lemma_block3_store(cpu, bus, opcode);
    }
}

/// `F`'s low nibble is zero.
pub open spec fn flags_clean(cpu: Cpu) -> bool {
    cpu.regs.f % 16 == 0
}

proof fn lemma_masked_clean(x: u8)
    ensures
        (x & 0xF0) % 16 == 0,
{
    assert((x & 0xF0) % 16 == 0) by (bit_vector);
}

proof fn lemma_block0_clean<B: BusModel>(cpu: Cpu, bus: B, opcode: u8)
    requires
        opcode < 0x40,
        flags_clean(cpu),
    ensures
        flags_clean(execute_block0_spec(cpu, bus, opcode).0),
{
}

proof fn lemma_block3_clean<B: BusModel>(cpu: Cpu, bus: B, opcode: u8)
    requires
        opcode >= 0xC0,
        opcode != 0xCB,
        flags_clean(cpu),
    ensures
        flags_clean(execute_block3_spec(cpu, bus, opcode).0),
{
    let (c1, v) = pop_spec(cpu, bus);
    lemma_masked_clean(super::registers::lo_byte(v));
}

proof fn lemma_cb_clean<B: BusModel>(cpu: Cpu, bus: B, opcode: u8)
    requires
        flags_clean(cpu),
    ensures
        flags_clean(execute_cb_spec(cpu, bus, opcode).0),
{
}

/// Every step keeps `F`'s low nibble zero: no instruction, interrupt
/// dispatch or `POP AF` can set those bits.
pub proof fn lemma_flags_stay_clean<B: BusModel>(cpu: Cpu, bus: B)
    requires
        flags_clean(cpu),
    ensures
        flags_clean(step_spec(cpu, bus).0),
{
    let pending = pending_spec(bus);
    if !(cpu.halted && pending == 0) {
        let c1 = Cpu { halted: false, ..cpu };
        if !(c1.ime && pending != 0) {
            let c2 = Cpu { ime_pending: false, ..c1 };
            let (c3, opcode) = if c2.halt_bug {
                (Cpu { halt_bug: false, ..c2 }, bus.spec_read(c2.regs.pc))
            } else {
                fetch8(c2, bus)
            };
            if opcode < 0x40 {
                lemma_block0_clean(c3, bus, opcode);
            } else if opcode == 0xCB {
                let (c4, cb) = fetch8(c3, bus);
                lemma_cb_clean(c4, bus, cb);
            } else if opcode >= 0xC0 {
                lemma_block3_clean(c3, bus, opcode);
            }
        }
    }
}

/// Whether a byte is packed BCD (both nibbles 0-9).
pub open spec fn is_bcd(x: u8) -> bool {
    x % 16 <= 9 && x / 16 <= 9
}

/// The number 0-99 a packed BCD byte stands for.
pub open spec fn bcd_value(x: u8) -> int {
    (x / 16) * 10 + x % 16
}

/// The packed BCD byte for 0-99.
pub open spec fn to_bcd(n: int) -> u8 {
    ((n / 10) * 16 + n % 10) as u8
}

proof fn lemma_to_bcd_digits(hi: int, lo: int)
    requires
        0 <= hi <= 9,
        0 <= lo <= 9,
    ensures
        to_bcd(hi * 10 + lo) == (hi * 16 + lo) as u8,
{
    assert((hi * 10 + lo) / 10 == hi);
    assert((hi * 10 + lo) % 10 == lo);
}

proof fn lemma_daa_sub_value(x: u8, y: u8)
    requires
        is_bcd(x),
        is_bcd(y),
    ensures
        ({
            let res = ((x as int - y as int + 256) % 256) as u8;
            let diff = bcd_value(x) - bcd_value(y);
            daa_value(res, true, x % 16 < y % 16, x < y) == (
                to_bcd(if diff < 0 { diff + 100 } else { diff }),
                x < y,
            )
        }),
{
    let xh = (x / 16) as int;
    let xl = (x % 16) as int;
    let yh = (y / 16) as int;
    let yl = (y % 16) as int;
    assert(x == xh * 16 + xl && y == yh * 16 + yl);
    let diff = x as int - y as int;
    assert(bcd_value(x) == xh * 10 + xl && bcd_value(y) == yh * 10 + yl);
    let res = ((diff + 256) % 256) as u8;
    if diff >= 0 {
        assert((diff + 256) % 256 == diff);
        assert(res as int == diff);
        if xl >= yl {
            lemma_to_bcd_digits(xh - yh, xl - yl);
        } else {
            assert(res as int % 16 == xl - yl + 16);
            lemma_to_bcd_digits(xh - yh - 1, xl - yl + 10);
        }
    } else {
        assert((diff + 256) % 256 == diff + 256);
        assert(res as int == diff + 256);
        if xl >= yl {
            lemma_to_bcd_digits(xh - yh + 10, xl - yl);
        } else {
            lemma_to_bcd_digits(xh - yh + 9, xl - yl + 10);
        }
    }
}

/// Decimal adjust after adding two BCD bytes whose low digits sum below ten.
proof fn lemma_daa_add_low_small(xh: int, xl: int, yh: int, yl: int)
    requires
        0 <= xh <= 9,
        0 <= xl <= 9,
        0 <= yh <= 9,
        0 <= yl <= 9,
        xl + yl < 10,
    ensures
        ({
            let sum = (xh + yh) * 16 + xl + yl;
            let dec = (xh + yh) * 10 + xl + yl;
            daa_value((sum % 256) as u8, false, false, sum > 255) == (
                to_bcd(if dec >= 100 { dec - 100 } else { dec }),
                dec >= 100,
            )
        }),
{
    let sum = (xh + yh) * 16 + xl + yl;
    if sum > 255 {
        assert(sum % 256 == sum - 256);
    } else {
        assert(sum % 256 == sum);
    }
    if xh + yh < 10 {
        lemma_to_bcd_digits(xh + yh, xl + yl);
    } else {
        lemma_to_bcd_digits(xh + yh - 10, xl + yl);
    }
}

/// Decimal adjust after adding two BCD bytes whose low digits sum to ten
/// or more.
#[verifier::rlimit(30)]
proof fn lemma_daa_add_low_big(xh: int, xl: int, yh: int, yl: int)
    requires
        0 <= xh <= 9,
        0 <= xl <= 9,
        0 <= yh <= 9,
        0 <= yl <= 9,
        xl + yl >= 10,
    ensures
        ({
            let sum = (xh + yh) * 16 + xl + yl;
            let dec = (xh + yh) * 10 + xl + yl;
            daa_value((sum % 256) as u8, false, xl + yl > 15, sum > 255) == (
                to_bcd(if dec >= 100 { dec - 100 } else { dec }),
                dec >= 100,
            )
        }),
{
    let sum = (xh + yh) * 16 + xl + yl;
    if sum > 255 {
        assert(sum % 256 == sum - 256);
    } else {
        assert(sum % 256 == sum);
    }
    let res = sum % 256;
    if xh + yh + 1 < 10 {
        assert(res == sum);
        assert((sum + 6) % 256 == (xh + yh + 1) * 16 + xl + yl - 10);
        lemma_to_bcd_digits(xh + yh + 1, xl + yl - 10);
    } else if xh + yh == 9 {
        assert(res == sum);
        let a1 = (res + 0x60) % 256;
        if xl + yl < 16 {
            assert(a1 == sum + 0x60);
            assert(a1 == 240 + xl + yl);
        } else {
            assert(a1 == sum + 0x60 - 256);
        }
        assert((a1 + 6) % 256 == xl + yl - 10);
        lemma_to_bcd_digits(0, xl + yl - 10);
    } else {
        let a1 = (res + 0x60) % 256;
        assert(a1 == (xh + yh - 10) * 16 + xl + yl);
        assert((a1 + 6) % 256 == (xh + yh - 9) * 16 + xl + yl - 10);
        lemma_to_bcd_digits(xh + yh - 9, xl + yl - 10);
    }
}

proof fn lemma_daa_add_value(x: u8, y: u8)
    requires
        is_bcd(x),
        is_bcd(y),
    ensures
        ({
            let res = ((x as int + y as int) % 256) as u8;
            let sum = bcd_value(x) + bcd_value(y);
            daa_value(res, false, x % 16 + y % 16 > 15, x as int + y as int > 255) == (
                to_bcd(if sum >= 100 { sum - 100 } else { sum }),
                sum >= 100,
            )
        }),
{
    let xh = (x / 16) as int;
    let xl = (x % 16) as int;
    let yh = (y / 16) as int;
    let yl = (y % 16) as int;
    assert(x == xh * 16 + xl && y == yh * 16 + yl);
    assert(x as int + y as int == (xh + yh) * 16 + xl + yl);
    assert(bcd_value(x) + bcd_value(y) == (xh + yh) * 10 + xl + yl);
    if xl + yl < 10 {
        lemma_daa_add_low_small(xh, xl, yh, yl);
    } else {
        lemma_daa_add_low_big(xh, xl, yh, yl);
    }
}

/// `SUB` then `DAA` on packed BCD operands is decimal subtraction: `A`
/// becomes the BCD digits of `(x - y) mod 100`, with carry set exactly
/// when a borrow out of the tens was needed (`x < y`), zero exactly when
/// `x == y`, and half-carry cleared.
pub proof fn lemma_daa_after_sub(r: Registers, x: u8, y: u8)
    requires
        is_bcd(x),
        is_bcd(y),
    ensures
        ({
            let d = super::semantics::daa_spec(super::semantics::sub8_spec(Registers { a: x, ..r }, y));
            let diff = bcd_value(x) - bcd_value(y);
            &&& d.a == to_bcd(if diff < 0 { diff + 100 } else { diff })
            &&& d.carry_spec() == (diff < 0)
            &&& d.subtract_spec()
            &&& d.zero_spec() == (diff == 0)
            &&& !d.half_carry_spec()
        }),
{
    let r1 = super::semantics::sub8_spec(Registers { a: x, ..r }, y);
    super::registers::lemma_pack_flags(r1.a == 0, true, x % 16 < y % 16, x < y);
    lemma_daa_sub_value(x, y);
    let (a, c) = daa_value(r1.a, true, x % 16 < y % 16, x < y);
    super::registers::lemma_pack_flags(a == 0, true, false, c);
    assert((x < y) == (bcd_value(x) - bcd_value(y) < 0));
}

/// `ADD` then `DAA` on packed BCD operands is decimal addition: `A`
/// becomes the BCD digits of `(x + y) mod 100`, with carry set exactly
/// when the sum reaches 100, zero exactly when it is 0 or 100, and
/// half-carry cleared.
pub proof fn lemma_daa_after_add(r: Registers, x: u8, y: u8)
    requires
        is_bcd(x),
        is_bcd(y),
    ensures
        ({
            let d = super::semantics::daa_spec(super::semantics::add8_spec(Registers { a: x, ..r }, y));
            let sum = bcd_value(x) + bcd_value(y);
            &&& d.a == to_bcd(if sum >= 100 { sum - 100 } else { sum })
            &&& d.carry_spec() == (sum >= 100)
            &&& !d.subtract_spec()
            &&& d.zero_spec() == (sum % 100 == 0)
            &&& !d.half_carry_spec()
        }),
{
    let r1 = super::semantics::add8_spec(Registers { a: x, ..r }, y);
    super::registers::lemma_pack_flags(r1.a == 0, false, x % 16 + y % 16 > 15, x as int + y as int > 255);
    lemma_daa_add_value(x, y);
    let (a, c) = daa_value(r1.a, false, x % 16 + y % 16 > 15, x as int + y as int > 255);
    super::registers::lemma_pack_flags(a == 0, false, false, c);
}

/// 8-bit addition and subtraction as their flags describe them. `ADD`
/// stores `(A + v) mod 256`; carry is set exactly when that wrapped below
/// `A` (an unsigned overflow), half-carry exactly when its low nibble
/// wrapped below `A`'s (a carry out of bit 3), zero exactly when it is 0.
/// `SUB` stores `(A - v) mod 256`; carry is set exactly when `A < v` (a
/// borrow, so the result lies above `A`), half-carry exactly when its low
/// nibble lies above `A`'s (a borrow into bit 3), zero exactly when
/// `A == v`. Subtracting what was added gives `A` back; `CP` sets `SUB`'s
/// flags but keeps `A`; with carry clear, `ADC` and `SBC` are `ADD` and
/// `SUB`, and with carry set they add or subtract one more.
pub proof fn lemma_add_sub_flags(r: Registers, v: u8)
    ensures
        ({
            let s = super::semantics::add8_spec(r, v);
            &&& s.a as int == (r.a as int + v as int) % 256
            &&& s.carry_spec() == (s.a < r.a)
            &&& s.half_carry_spec() == (s.a % 16 < r.a % 16)
            &&& s.zero_spec() == (s.a == 0)
            &&& !s.subtract_spec()
            &&& super::semantics::sub8_spec(s, v).a == r.a
        }),
        ({
            let d = super::semantics::sub8_spec(r, v);
            &&& d.a as int == (r.a as int - v as int) % 256
            &&& d.carry_spec() == (r.a < v)
            &&& d.carry_spec() == (d.a > r.a)
            &&& d.half_carry_spec() == (d.a % 16 > r.a % 16)
            &&& d.zero_spec() == (r.a == v)
            &&& d.subtract_spec()
            &&& super::semantics::cp8_spec(r, v).a == r.a
            &&& super::semantics::cp8_spec(r, v).f == d.f
        }),
        !r.carry_spec() ==> super::semantics::adc8_spec(r, v) == super::semantics::add8_spec(r, v),
        !r.carry_spec() ==> super::semantics::sbc8_spec(r, v) == super::semantics::sub8_spec(r, v),
        r.carry_spec() ==> super::semantics::adc8_spec(r, v).a as int == (r.a as int + v as int + 1) % 256
            && super::semantics::adc8_spec(r, v).carry_spec() == (r.a as int + v as int + 1 > 255),
        r.carry_spec() ==> super::semantics::sbc8_spec(r, v).a as int == (r.a as int - v as int - 1) % 256
            && super::semantics::sbc8_spec(r, v).carry_spec() == (r.a as int <= v as int),
{
    lemma_add_flags(r, v);
    lemma_sub_flags(r, v);
    lemma_carry_in_variants(r, v);
}

proof fn lemma_add_nibbles(a: int, w: int)
    requires
        0 <= a < 256,
        0 <= w < 256,
    ensures
        ((a + w) % 256) % 16 == (a % 16 + w % 16) % 16,
        ((a + w) % 256 < a) == (a + w > 255),
        (((a + w) % 256) % 16 < a % 16) == (a % 16 + w % 16 > 15),
{
    if a + w > 255 {
        assert((a + w) % 256 == a + w - 256);
    } else {
        assert((a + w) % 256 == a + w);
    }
}

proof fn lemma_sub_nibbles(a: int, w: int)
    requires
        0 <= a < 256,
        0 <= w < 256,
    ensures
        ((a - w + 256) % 256) == (a - w) % 256,
        ((a - w + 256) % 256 > a) == (a < w),
        (((a - w + 256) % 256) % 16 > a % 16) == (a % 16 < w % 16),
{
    if a < w {
        assert((a - w + 256) % 256 == a - w + 256);
        assert((a - w) % 256 == a - w + 256);
    } else {
        assert((a - w + 256) % 256 == a - w);
        assert((a - w) % 256 == a - w);
    }
}

proof fn lemma_add_flags(r: Registers, v: u8)
    ensures
        ({
            let s = super::semantics::add8_spec(r, v);
            &&& s.a as int == (r.a as int + v as int) % 256
            &&& s.carry_spec() == (s.a < r.a)
            &&& s.half_carry_spec() == (s.a % 16 < r.a % 16)
            &&& s.zero_spec() == (s.a == 0)
            &&& !s.subtract_spec()
            &&& super::semantics::sub8_spec(s, v).a == r.a
        }),
{
    let a = r.a as int;
    let w = v as int;
    let s = super::semantics::add8_spec(r, v);
    super::registers::lemma_pack_flags(s.a == 0, false, a % 16 + w % 16 > 15, a + w > 255);
    lemma_add_nibbles(a, w);
    let t = s.a as int;
    if a + w > 255 {
        assert(t == a + w - 256);
        assert((t - w + 256) % 256 == a);
    } else {
        assert(t == a + w);
        assert((t - w + 256) % 256 == a);
    }
}

proof fn lemma_sub_flags(r: Registers, v: u8)
    ensures
        ({
            let d = super::semantics::sub8_spec(r, v);
            &&& d.a as int == (r.a as int - v as int) % 256
            &&& d.carry_spec() == (r.a < v)
            &&& d.carry_spec() == (d.a > r.a)
            &&& d.half_carry_spec() == (d.a % 16 > r.a % 16)
            &&& d.zero_spec() == (r.a == v)
            &&& d.subtract_spec()
            &&& super::semantics::cp8_spec(r, v).a == r.a
            &&& super::semantics::cp8_spec(r, v).f == d.f
        }),
{
    let a = r.a as int;
    let w = v as int;
    let d = super::semantics::sub8_spec(r, v);
    super::registers::lemma_pack_flags(d.a == 0, true, a % 16 < w % 16, a < w);
    lemma_sub_nibbles(a, w);
}

proof fn lemma_carry_in_variants(r: Registers, v: u8)
    ensures
        !r.carry_spec() ==> super::semantics::adc8_spec(r, v) == super::semantics::add8_spec(r, v),
        !r.carry_spec() ==> super::semantics::sbc8_spec(r, v) == super::semantics::sub8_spec(r, v),
        r.carry_spec() ==> super::semantics::adc8_spec(r, v).a as int == (r.a as int + v as int + 1) % 256
            && super::semantics::adc8_spec(r, v).carry_spec() == (r.a as int + v as int + 1 > 255),
        r.carry_spec() ==> super::semantics::sbc8_spec(r, v).a as int == (r.a as int - v as int - 1) % 256
            && super::semantics::sbc8_spec(r, v).carry_spec() == (r.a as int <= v as int),
{
    let a = r.a as int;
    let w = v as int;
    let c = super::semantics::carry_in(r);
    let ad = super::semantics::adc8_spec(r, v);
    let sb = super::semantics::sbc8_spec(r, v);
    super::registers::lemma_pack_flags(ad.a == 0, false, a % 16 + w % 16 + c > 15, a + w + c > 255);
    super::registers::lemma_pack_flags(sb.a == 0, true, a % 16 - w % 16 - c < 0, a - w - c < 0);
    if a - w - c < 0 {
        assert((a - w - c + 512) % 256 == a - w - c + 256);
        assert((a - w - c) % 256 == a - w - c + 256);
    } else {
        assert((a - w - c + 512) % 256 == a - w - c);
        assert((a - w - c + 512) % 256 == (a - w - c + 256) % 256);
    }
    if !r.carry_spec() {
        assert((a - w + 512) % 256 == (a - w + 256) % 256);
    }
}

/// The rotate and shift group, read as arithmetic on the byte `v`.
/// Rotating left then right (or right then left) gives `v` back, and so
/// does `RL` then `RR` through the carry, which also restores the carry.
/// `SLA` doubles (mod 256) and `SRL` halves, each shifting the lost bit
/// into the carry; `SRA` halves but keeps the sign bit; `SWAP` exchanges
/// the nibbles, so swapping twice is the identity.
pub proof fn lemma_shift_laws(v: u8, c: bool)
    ensures
        super::semantics::rotr(super::semantics::rotl(v)) == v,
        super::semantics::rotl(super::semantics::rotr(v)) == v,
        ({
            let (x, cx) = super::semantics::shift_value(2, v, c);
            super::semantics::shift_value(3, x, cx) == (v, c)
        }),
        super::semantics::shift_value(4, v, c) == (((v as int * 2) % 256) as u8, v >= 128),
        super::semantics::shift_value(7, v, c) == ((v / 2) as u8, v % 2 == 1),
        ({
            let (x, cx) = super::semantics::shift_value(5, v, c);
            &&& x as int / 128 == v as int / 128
            &&& x as int % 128 == v as int / 2
            &&& cx == (v % 2 == 1)
        }),
        ({
            let (x, cx) = super::semantics::shift_value(6, v, c);
            &&& x % 16 == v / 16 && x / 16 == v % 16 && !cx
            &&& super::semantics::shift_value(6, x, c).0 == v
        }),
{
    lemma_rotate_inverse(v);
    lemma_rotate_through_carry(v, c);
    lemma_shift_arith(v, c);
    lemma_swap_nibbles(v, c);
}

proof fn lemma_rotate_inverse(v: u8)
    ensures
        super::semantics::rotr(super::semantics::rotl(v)) == v,
        super::semantics::rotl(super::semantics::rotr(v)) == v,
{
    let x = v as int;
    if x >= 128 {
        assert((x * 2) % 256 == x * 2 - 256);
        assert(super::semantics::rotl(v) as int == x * 2 - 255);
    } else {
        assert((x * 2) % 256 == x * 2);
        assert(super::semantics::rotl(v) as int == x * 2);
    }
    if x % 2 == 1 {
        assert(super::semantics::rotr(v) as int == (x - 1) / 2 + 128);
    } else {
        assert(super::semantics::rotr(v) as int == x / 2);
    }
}

proof fn lemma_rotate_through_carry(v: u8, c: bool)
    ensures
        ({
            let (x, cx) = super::semantics::shift_value(2, v, c);
            super::semantics::shift_value(3, x, cx) == (v, c)
        }),
{
    let x = v as int;
    let ci: int = if c { 1 } else { 0 };
    let (y, cy) = super::semantics::shift_value(2, v, c);
    if x >= 128 {
        assert((x * 2) % 256 == x * 2 - 256);
        assert(y as int == x * 2 - 256 + ci);
    } else {
        assert((x * 2) % 256 == x * 2);
        assert(y as int == x * 2 + ci);
    }
    assert(cy == (x >= 128));
}

proof fn lemma_shift_arith(v: u8, c: bool)
    ensures
        super::semantics::shift_value(4, v, c) == (((v as int * 2) % 256) as u8, v >= 128),
        super::semantics::shift_value(7, v, c) == ((v / 2) as u8, v % 2 == 1),
        ({
            let (x, cx) = super::semantics::shift_value(5, v, c);
            &&& x as int / 128 == v as int / 128
            &&& x as int % 128 == v as int / 2
            &&& cx == (v % 2 == 1)
        }),
{
    let x = v as int;
    if x >= 128 {
        assert(x / 128 == 1);
        assert(super::semantics::shift_value(5, v, c).0 as int == x / 2 + 128);
    } else {
        assert(x / 128 == 0);
        assert(super::semantics::shift_value(5, v, c).0 as int == x / 2);
    }
}

proof fn lemma_swap_nibbles(v: u8, c: bool)
    ensures
        ({
            let (x, cx) = super::semantics::shift_value(6, v, c);
            &&& x % 16 == v / 16 && x / 16 == v % 16 && !cx
            &&& super::semantics::shift_value(6, x, c).0 == v
        }),
{
    let (x, cx) = super::semantics::shift_value(6, v, c);
    let hi = v as int / 16;
    let lo = v as int % 16;
    assert(x as int == lo * 16 + hi);
    assert((lo * 16 + hi) % 16 == hi);
    assert((lo * 16 + hi) / 16 == lo);
    assert(hi * 16 + lo == v as int);
}

} // verus!
