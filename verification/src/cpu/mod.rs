//! SM83 CPU core: registers, flags, match-based opcode dispatch, interrupt
//! dispatch, IME/HALT/STOP and the HALT bug.
pub mod bus;
pub mod registers;
pub mod semantics;
pub mod properties;

mod cb;
mod execute;

pub use bus::{Bus, BusModel};
pub use registers::{Registers, FLAG_C, FLAG_H, FLAG_N, FLAG_Z};
pub use semantics::{IE_ADDR, IF_ADDR};

use vstd::prelude::*;
use semantics::{step_spec, dispatch_spec, pending_spec, lowest_bit, fetch8, fetch16};

verus! {

/// SM83 CPU state: registers + IME/HALT/STOP flags.
#[derive(Debug, Clone, Copy)]
pub struct Cpu {
    pub regs: Registers,
    /// Interrupt Master Enable.
    pub ime: bool,
    /// Set by HALT (0x76); cleared when an enabled interrupt is pending.
    pub halted: bool,
    /// Set by STOP (0x10).
    pub stopped: bool,
    /// Set by EI (0xFB): IME turns on after the following instruction.
    pub ime_pending: bool,
    /// Set by the HALT bug: the next opcode fetch does not advance PC.
    pub halt_bug: bool,
}

impl Cpu {
    /// Power-on state: all registers zero, interrupts disabled, running.
    pub open spec fn initial() -> Cpu {
        Cpu {
            regs: Registers::new_spec(),
            ime: false,
            halted: false,
            stopped: false,
            ime_pending: false,
            halt_bug: false,
        }
    }

    pub fn new() -> (c: Self)
        ensures
            c == Cpu::initial(),
    {
        Cpu {
            regs: Registers::new(),
            ime: false,
            halted: false,
            stopped: false,
            ime_pending: false,
            halt_bug: false,
        }
    }

    /// Fetch, decode, and execute exactly one instruction (or the halted
    /// no-op, or an interrupt dispatch). Returns elapsed T-cycles (4 per
    /// M-cycle).
    pub fn step<B: Bus>(&mut self, bus: &mut B) -> (cycles: u8)
        requires
            old(bus).inv(),
        ensures
            cycles >= 4,
            final(bus).inv(),
            (*final(self), final(bus).model(), cycles) == step_spec(*old(self), old(bus).model()),
    {
        let pending = pending_interrupts(bus);
        if self.halted {
            if pending == 0 {
                return 4;
            }
            self.halted = false;
        }
        if self.ime && pending != 0 {
            return self.dispatch_interrupt(bus, pending);
        }
        let enable_ime = self.ime_pending;
        self.ime_pending = false;
        let opcode = if self.halt_bug {
            self.halt_bug = false;
            bus.read(self.regs.pc)
        } else {
            self.fetch_byte(bus)
        };
        let cycles = execute::execute(self, bus, opcode);
        if enable_ime {
            self.ime = true;
        }
        cycles
    }

    /// Services the highest-priority pending interrupt (lowest bit of
    /// `IE & IF`): acknowledges it in `IF`, disables IME, pushes `PC` and
    /// jumps to its vector.
    fn dispatch_interrupt<B: Bus>(&mut self, bus: &mut B, pending: u8) -> (cycles: u8)
        requires
            old(bus).inv(),
            pending == pending_spec(old(bus).model()),
            pending != 0,
        ensures
            cycles >= 4,
            final(bus).inv(),
            (*final(self), final(bus).model(), cycles) == dispatch_spec(
                *old(self),
                old(bus).model(),
                lowest_bit(pending),
            ),
    {
        let bit: u8 = if pending & 1 != 0 {
            0
        } else if pending & 2 != 0 {
            1
        } else if pending & 4 != 0 {
            2
        } else if pending & 8 != 0 {
            3
        } else {
            4
        };
        let iflag = bus.read(IF_ADDR);
        bus.write(IF_ADDR, iflag & !(1u8 << bit));
        self.ime = false;
        let pc = self.regs.pc;
        execute::push(self, bus, pc);
        self.regs.pc = 0x40 + 8 * bit as u16;
        20
    }

    pub(crate) fn fetch_byte<B: Bus>(&mut self, bus: &mut B) -> (b: u8)
        requires
            old(bus).inv(),
        ensures
            final(bus).inv(),
            (*final(self), b) == fetch8(*old(self), old(bus).model()),
            final(bus).model() == old(bus).model(),
    {
        let b = bus.read(self.regs.pc);
        self.regs.pc = self.regs.pc.wrapping_add(1);
        b
    }

    pub(crate) fn fetch_word<B: Bus>(&mut self, bus: &mut B) -> (w: u16)
        requires
            old(bus).inv(),
        ensures
            final(bus).inv(),
            (*final(self), w) == fetch16(*old(self), old(bus).model()),
            final(bus).model() == old(bus).model(),
    {
        let lo = self.fetch_byte(bus);
        let hi = self.fetch_byte(bus);
        proof {
            registers::lemma_word_bytes(hi, lo, 0);
        }
        ((hi as u16) << 8) | (lo as u16)
    }
}

impl Default for Cpu {
    fn default() -> (c: Self)
        ensures
            c == Cpu::initial(),
    {
        Cpu::new()
    }
}

/// Whether an enabled interrupt is pending (`IE & IF & 0x1F != 0`), as
/// the bits themselves.
pub fn pending_interrupts<B: Bus>(bus: &mut B) -> (p: u8)
    requires
        old(bus).inv(),
    ensures
        final(bus).inv(),
        p == pending_spec(old(bus).model()),
        final(bus).model() == old(bus).model(),
{
    let ie = bus.read(IE_ADDR);
    let iflag = bus.read(IF_ADDR);
    ie & iflag & 0x1F
}

/// Whether an enabled interrupt is pending (`IE & IF & 0x1F != 0`).
pub fn interrupt_pending<B: Bus>(bus: &mut B) -> (b: bool)
    requires
        old(bus).inv(),
    ensures
        final(bus).inv(),
        b == (pending_spec(old(bus).model()) != 0),
        final(bus).model() == old(bus).model(),
{
    pending_interrupts(bus) != 0
}

} // verus!
