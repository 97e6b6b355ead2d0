//! Bus trait: how the CPU reads/writes the 16-bit address space.
//!
//! Decouples CPU opcode dispatch from the memory map so the CPU can be
//! verified against any implementation (and unit tested against a trivial
//! flat-memory double).
use vstd::prelude::*;
use crate::cpu::registers::{word, hi_byte, lo_byte, lemma_word_bytes};

verus! {

/// The mathematical state of a bus as the CPU observes it: what a read of
/// each address returns, and the state after a write.
pub trait BusModel: Sized {
    /// The byte a read of `addr` returns.
    spec fn spec_read(&self, addr: u16) -> u8;

    /// The state after writing `val` to `addr`.
    spec fn spec_write(&self, addr: u16, val: u8) -> Self;
}

/// Anything the CPU can fetch instructions from and read/write memory
/// through. An implementation describes itself by a [`BusModel`]; reads
/// leave the model unchanged.
pub trait Bus: Sized {
    type Model: BusModel;

    spec fn model(&self) -> Self::Model;

    /// Internal consistency of the implementation, kept by every access.
    spec fn inv(&self) -> bool;

    fn read(&mut self, addr: u16) -> (val: u8)
        requires
            old(self).inv(),
        ensures
            final(self).inv(),
            val == old(self).model().spec_read(addr),
            final(self).model() == old(self).model(),
    ;

    fn write(&mut self, addr: u16, val: u8)
        requires
            old(self).inv(),
        ensures
            final(self).inv(),
            final(self).model() == old(self).model().spec_write(addr, val),
    ;

    /// Little-endian 16-bit read: low byte at `addr`, high byte at `addr+1`.
    fn read16(&mut self, addr: u16) -> (val: u16)
        requires
            old(self).inv(),
        ensures
            final(self).inv(),
            val == read16_spec(old(self).model(), addr),
            final(self).model() == old(self).model(),
    {
        let lo = self.read(addr);
        let hi = self.read(addr.wrapping_add(1));
        proof {
            lemma_word_bytes(hi, lo, 0);
        }
        ((hi as u16) << 8) | (lo as u16)
    }

    /// Little-endian 16-bit write: low byte to `addr`, then high byte to
    /// `addr+1`.
    fn write16(&mut self, addr: u16, val: u16)
        requires
            old(self).inv(),
        ensures
            final(self).inv(),
            final(self).model() == write16_spec(old(self).model(), addr, val),
    {
        proof {
            lemma_word_bytes(0, 0, val);
        }
        self.write(addr, val as u8);
        self.write(addr.wrapping_add(1), (val >> 8) as u8);
    }
}

/// The 16-bit little-endian value at `addr`.
pub open spec fn read16_spec<B: BusModel>(bus: B, addr: u16) -> u16 {
    word(bus.spec_read(addr.wrapping_add(1)), bus.spec_read(addr))
}

/// The bus after a 16-bit little-endian write of `val` at `addr`.
pub open spec fn write16_spec<B: BusModel>(bus: B, addr: u16, val: u16) -> B {
    bus.spec_write(addr, lo_byte(val)).spec_write(addr.wrapping_add(1), hi_byte(val))
}

/// Flat 64KB RAM bus. Used for CPU unit tests.
#[derive(Debug, Clone)]
pub struct FlatBus {
    pub mem: [u8; 0x10000],
}

impl FlatBus {
    pub fn new() -> (b: Self)
        ensures
            forall|i: int| 0 <= i < 0x10000 ==> #[trigger] b.mem@[i] == 0,
    {
        FlatBus { mem: [0u8; 0x10000] }
    }
}

impl Default for FlatBus {
    fn default() -> (b: Self)
        ensures
            forall|i: int| 0 <= i < 0x10000 ==> #[trigger] b.mem@[i] == 0,
    {
        FlatBus::new()
    }
}

impl BusModel for FlatBus {
    open spec fn spec_read(&self, addr: u16) -> u8 {
        self.mem@[addr as int]
    }

    open spec fn spec_write(&self, addr: u16, val: u8) -> FlatBus {
        FlatBus { mem: vstd::array::spec_array_update(self.mem, addr as int, val) }
    }
}

impl Bus for FlatBus {
    type Model = FlatBus;

    open spec fn model(&self) -> FlatBus {
        *self
    }

    open spec fn inv(&self) -> bool {
        true
    }

    fn read(&mut self, addr: u16) -> (val: u8) {
        assert(old(self).model().spec_read(addr) == old(self).mem@[addr as int]);
        self.mem[addr as usize]
    }

    fn write(&mut self, addr: u16, val: u8) {
        assert(old(self).model().spec_read(addr) == old(self).mem@[addr as int]);
        self.mem[addr as usize] = val;
        proof {
            let expect = vstd::array::spec_array_update(old(self).mem, addr as int, val);
            assert(self.mem@ =~= expect@);
        }
    }
}

/// On flat memory a read returns the last value written to that address,
/// and a write leaves every other address alone.
pub proof fn lemma_flat_read_after_write(bus: FlatBus, addr: u16, val: u8, other: u16)
    ensures
        bus.spec_write(addr, val).spec_read(addr) == val,
        other != addr ==> bus.spec_write(addr, val).spec_read(other) == bus.spec_read(other),
{
}

} // verus!
