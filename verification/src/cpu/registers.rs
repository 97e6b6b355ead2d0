//! SM83 register file: 8-bit registers (viewable as 16-bit pairs) + flags.
use vstd::prelude::*;

verus! {

/// Zero flag bit in `F`.
pub const FLAG_Z: u8 = 0b1000_0000;
/// Subtract/negative flag bit in `F`.
pub const FLAG_N: u8 = 0b0100_0000;
/// Half-carry flag bit in `F`.
pub const FLAG_H: u8 = 0b0010_0000;
/// Carry flag bit in `F`.
pub const FLAG_C: u8 = 0b0001_0000;

/// The 16-bit value whose high byte is `hi` and low byte is `lo`.
pub open spec fn word(hi: u8, lo: u8) -> u16 {
    (hi as int * 256 + lo as int) as u16
}

/// High byte of a 16-bit value.
pub open spec fn hi_byte(v: u16) -> u8 {
    (v as int / 256) as u8
}

/// Low byte of a 16-bit value.
pub open spec fn lo_byte(v: u16) -> u8 {
    (v as int % 256) as u8
}

/// Whether any bit of `mask` is set in the flags byte `f`.
pub open spec fn flag_of(f: u8, mask: u8) -> bool {
    f & mask != 0
}

/// The flags byte holding exactly the four given flags (low nibble zero).
pub open spec fn pack_flags(z: bool, n: bool, h: bool, c: bool) -> u8 {
    ((if z { 128int } else { 0 }) + (if n { 64int } else { 0 }) + (if h { 32int } else { 0 }) + (
    if c { 16int } else { 0 })) as u8
}

/// `F` after setting (or clearing) `mask`, low nibble forced to zero.
pub open spec fn set_flag_spec(f: u8, mask: u8, set: bool) -> u8 {
    if set {
        (f | mask) & 0xF0
    } else {
        (f & !mask) & 0xF0
    }
}

/// The four architectural flag masks.
pub open spec fn is_flag_mask(mask: u8) -> bool {
    mask == FLAG_Z || mask == FLAG_N || mask == FLAG_H || mask == FLAG_C
}

/// Reading the four flags back out of a packed flags byte.
pub proof fn lemma_pack_flags(z: bool, n: bool, h: bool, c: bool)
    ensures
        flag_of(pack_flags(z, n, h, c), FLAG_Z) == z,
        flag_of(pack_flags(z, n, h, c), FLAG_N) == n,
        flag_of(pack_flags(z, n, h, c), FLAG_H) == h,
        flag_of(pack_flags(z, n, h, c), FLAG_C) == c,
        pack_flags(z, n, h, c) & 0xF0 == pack_flags(z, n, h, c),
{
    let zb: u8 = if z { 128u8 } else { 0u8 };
    let nb: u8 = if n { 64u8 } else { 0u8 };
    let hb: u8 = if h { 32u8 } else { 0u8 };
    let cb: u8 = if c { 16u8 } else { 0u8 };
    assert(pack_flags(z, n, h, c) == (zb + nb + hb + cb) as u8);
    assert({
        let p2: u8 = (zb + nb + hb + cb) as u8;
        &&& (zb == 128u8 || zb == 0u8) && (nb == 64u8 || nb == 0u8)
        &&& (hb == 32u8 || hb == 0u8) && (cb == 16u8 || cb == 0u8)
    } ==> {
        let p2: u8 = (zb + nb + hb + cb) as u8;
        &&& (p2 & 0x80 != 0) == (zb == 128u8)
        &&& (p2 & 0x40 != 0) == (nb == 64u8)
        &&& (p2 & 0x20 != 0) == (hb == 32u8)
        &&& (p2 & 0x10 != 0) == (cb == 16u8)
        &&& p2 & 0xF0 == p2
    }) by (bit_vector);
}

/// Setting one of the four flags changes exactly that flag, and the result
/// is always a packed flags byte.
pub proof fn lemma_set_flag(f: u8, mask: u8, set: bool)
    requires
        is_flag_mask(mask),
    ensures
        flag_of(set_flag_spec(f, mask, set), FLAG_Z) == if mask == FLAG_Z {
            set
        } else {
            flag_of(f, FLAG_Z)
        },
        flag_of(set_flag_spec(f, mask, set), FLAG_N) == if mask == FLAG_N {
            set
        } else {
            flag_of(f, FLAG_N)
        },
        flag_of(set_flag_spec(f, mask, set), FLAG_H) == if mask == FLAG_H {
            set
        } else {
            flag_of(f, FLAG_H)
        },
        flag_of(set_flag_spec(f, mask, set), FLAG_C) == if mask == FLAG_C {
            set
        } else {
            flag_of(f, FLAG_C)
        },
        set_flag_spec(f, mask, set) & 0x0F == 0,
{
    assert(mask == 0x80u8 || mask == 0x40u8 || mask == 0x20u8 || mask == 0x10u8 ==> {
        let r: u8 = if set {
            (f | mask) & 0xF0
        } else {
            (f & !mask) & 0xF0
        };
        &&& (r & 0x80 != 0) == if mask == 0x80u8 {
            set
        } else {
            f & 0x80 != 0
        }
        &&& (r & 0x40 != 0) == if mask == 0x40u8 {
            set
        } else {
            f & 0x40 != 0
        }
        &&& (r & 0x20 != 0) == if mask == 0x20u8 {
            set
        } else {
            f & 0x20 != 0
        }
        &&& (r & 0x10 != 0) == if mask == 0x10u8 {
            set
        } else {
            f & 0x10 != 0
        }
        &&& r & 0x0F == 0
    }) by (bit_vector);
}

/// A flags byte with a zero low nibble is determined by its four flags.
pub proof fn lemma_flags_determined(f: u8)
    requires
        f & 0x0F == 0,
    ensures
        f == pack_flags(
            flag_of(f, FLAG_Z),
            flag_of(f, FLAG_N),
            flag_of(f, FLAG_H),
            flag_of(f, FLAG_C),
        ),
{
    let z = flag_of(f, FLAG_Z);
    let n = flag_of(f, FLAG_N);
    let h = flag_of(f, FLAG_H);
    let c = flag_of(f, FLAG_C);
    let zb: u8 = if f & 0x80 != 0 { 128u8 } else { 0u8 };
    let nb: u8 = if f & 0x40 != 0 { 64u8 } else { 0u8 };
    let hb: u8 = if f & 0x20 != 0 { 32u8 } else { 0u8 };
    let cb: u8 = if f & 0x10 != 0 { 16u8 } else { 0u8 };
    assert(pack_flags(z, n, h, c) == (zb + nb + hb + cb) as u8);
    assert(f & 0x0F == 0 && zb == (if f & 0x80 != 0 { 128u8 } else { 0u8 }) && nb == (if f & 0x40
        != 0 { 64u8 } else { 0u8 }) && hb == (if f & 0x20 != 0 { 32u8 } else { 0u8 }) && cb == (
    if f & 0x10 != 0 { 16u8 } else { 0u8 }) ==> f == (zb + nb + hb + cb) as u8) by (bit_vector);
}

/// Composing a 16-bit value from two bytes, and splitting it back.
pub proof fn lemma_word_bytes(hi: u8, lo: u8, v: u16)
    ensures
        ((hi as u16) << 8) | (lo as u16) == word(hi, lo),
        (v >> 8) as u8 == hi_byte(v),
        v as u8 == lo_byte(v),
        word(hi_byte(v), lo_byte(v)) == v,
        hi_byte(word(hi, lo)) == hi,
        lo_byte(word(hi, lo)) == lo,
{
    assert(((hi as u16) << 8) | (lo as u16) == (hi as u16) * 256 + (lo as u16)) by (bit_vector);
    assert((v >> 8) as u8 == v / 256 && v as u8 == v % 256) by (bit_vector);
}

/// SM83 register set: A/B/C/D/E/H/L + flags (F), SP, PC.
///
/// `F`'s low nibble is always zero when written through the setters.
#[derive(Debug, Clone, Copy, PartialEq, Eq, Structural)]
pub struct Registers {
    pub a: u8,
    pub f: u8,
    pub b: u8,
    pub c: u8,
    pub d: u8,
    pub e: u8,
    pub h: u8,
    pub l: u8,
    pub sp: u16,
    pub pc: u16,
}

impl Registers {
    /// `AF` as a 16-bit pair.
    pub open spec fn af_spec(self) -> u16 {
        word(self.a, self.f)
    }

    pub open spec fn bc_spec(self) -> u16 {
        word(self.b, self.c)
    }

    pub open spec fn de_spec(self) -> u16 {
        word(self.d, self.e)
    }

    pub open spec fn hl_spec(self) -> u16 {
        word(self.h, self.l)
    }

    pub open spec fn zero_spec(self) -> bool {
        flag_of(self.f, FLAG_Z)
    }

    pub open spec fn subtract_spec(self) -> bool {
        flag_of(self.f, FLAG_N)
    }

    pub open spec fn half_carry_spec(self) -> bool {
        flag_of(self.f, FLAG_H)
    }

    pub open spec fn carry_spec(self) -> bool {
        flag_of(self.f, FLAG_C)
    }

    /// The register file with `BC` replaced by `v`.
    pub open spec fn with_bc(self, v: u16) -> Registers {
        Registers { b: hi_byte(v), c: lo_byte(v), ..self }
    }

    pub open spec fn with_de(self, v: u16) -> Registers {
        Registers { d: hi_byte(v), e: lo_byte(v), ..self }
    }

    pub open spec fn with_hl(self, v: u16) -> Registers {
        Registers { h: hi_byte(v), l: lo_byte(v), ..self }
    }

    pub open spec fn with_af(self, v: u16) -> Registers {
        Registers { a: hi_byte(v), f: lo_byte(v) & 0xF0, ..self }
    }

    pub fn new() -> (r: Self)
        ensures
            r == (Registers { a: 0, f: 0, b: 0, c: 0, d: 0, e: 0, h: 0, l: 0, sp: 0, pc: 0 }),
    {
        Registers { a: 0, f: 0, b: 0, c: 0, d: 0, e: 0, h: 0, l: 0, sp: 0, pc: 0 }
    }

    pub fn af(&self) -> (r: u16)
        ensures
            r == self.af_spec(),
    {
        proof {
            lemma_word_bytes(self.a, self.f, 0);
        }
        (self.a as u16) << 8 | self.f as u16
    }

    pub fn set_af(&mut self, v: u16)
        ensures
            *final(self) == old(self).with_af(v),
    {
        proof {
            lemma_word_bytes(0, 0, v);
        }
        self.a = (v >> 8) as u8;
        self.f = (v as u8) & 0xF0;
    }

    pub fn bc(&self) -> (r: u16)
        ensures
            r == self.bc_spec(),
    {
        proof {
            lemma_word_bytes(self.b, self.c, 0);
        }
        (self.b as u16) << 8 | self.c as u16
    }

    pub fn set_bc(&mut self, v: u16)
        ensures
            *final(self) == old(self).with_bc(v),
    {
        proof {
            lemma_word_bytes(0, 0, v);
        }
        self.b = (v >> 8) as u8;
        self.c = v as u8;
    }

    pub fn de(&self) -> (r: u16)
        ensures
            r == self.de_spec(),
    {
        proof {
            lemma_word_bytes(self.d, self.e, 0);
        }
        (self.d as u16) << 8 | self.e as u16
    }

    pub fn set_de(&mut self, v: u16)
        ensures
            *final(self) == old(self).with_de(v),
    {
        proof {
            lemma_word_bytes(0, 0, v);
        }
        self.d = (v >> 8) as u8;
        self.e = v as u8;
    }

    pub fn hl(&self) -> (r: u16)
        ensures
            r == self.hl_spec(),
    {
        proof {
            lemma_word_bytes(self.h, self.l, 0);
        }
        (self.h as u16) << 8 | self.l as u16
    }

    pub fn set_hl(&mut self, v: u16)
        ensures
            *final(self) == old(self).with_hl(v),
    {
        proof {
            lemma_word_bytes(0, 0, v);
        }
        self.h = (v >> 8) as u8;
        self.l = v as u8;
    }

    pub fn set_f(&mut self, v: u8)
        ensures
            *final(self) == (Registers { f: v & 0xF0, ..*old(self) }),
    {
        self.f = v & 0xF0;
    }

    pub fn flag(&self, mask: u8) -> (r: bool)
        ensures
            r == flag_of(self.f, mask),
    {
        self.f & mask != 0
    }

    pub fn set_flag(&mut self, mask: u8, set: bool)
        ensures
            *final(self) == (Registers { f: set_flag_spec(old(self).f, mask, set), ..*old(self) }),
            is_flag_mask(mask) ==> {
                &&& final(self).zero_spec() == if mask == FLAG_Z {
                    set
                } else {
                    old(self).zero_spec()
                }
                &&& final(self).subtract_spec() == if mask == FLAG_N {
                    set
                } else {
                    old(self).subtract_spec()
                }
                &&& final(self).half_carry_spec() == if mask == FLAG_H {
                    set
                } else {
                    old(self).half_carry_spec()
                }
                &&& final(self).carry_spec() == if mask == FLAG_C {
                    set
                } else {
                    old(self).carry_spec()
                }
                &&& final(self).f == pack_flags(
                    final(self).zero_spec(),
                    final(self).subtract_spec(),
                    final(self).half_carry_spec(),
                    final(self).carry_spec(),
                )
            },
    {
        if set {
            self.f |= mask;
        } else {
            self.f &= !mask;
        }
        self.f &= 0xF0;
        proof {
            if is_flag_mask(mask) {
                lemma_set_flag(old(self).f, mask, set);
                lemma_flags_determined(self.f);
            }
        }
    }

    pub fn zero(&self) -> (r: bool)
        ensures
            r == self.zero_spec(),
    {
        self.flag(FLAG_Z)
    }

    pub fn subtract(&self) -> (r: bool)
        ensures
            r == self.subtract_spec(),
    {
        self.flag(FLAG_N)
    }

    pub fn half_carry(&self) -> (r: bool)
        ensures
            r == self.half_carry_spec(),
    {
        self.flag(FLAG_H)
    }

    pub fn carry(&self) -> (r: bool)
        ensures
            r == self.carry_spec(),
    {
        self.flag(FLAG_C)
    }
}

impl Default for Registers {
    fn default() -> (r: Self)
        ensures
            r == Registers::new_spec(),
    {
        Registers::new()
    }
}

impl Registers {
    /// The all-zero register file.
    pub open spec fn new_spec() -> Registers {
        Registers { a: 0, f: 0, b: 0, c: 0, d: 0, e: 0, h: 0, l: 0, sp: 0, pc: 0 }
    }
}

/// Writing a register pair and reading it back gives the written value
/// (for `AF`, with `F`'s low nibble cleared); the other pairs are untouched.
pub proof fn lemma_pair_round_trip(r: Registers, v: u16)
    ensures
        r.with_bc(v).bc_spec() == v,
        r.with_de(v).de_spec() == v,
        r.with_hl(v).hl_spec() == v,
        r.with_af(v).af_spec() == word(hi_byte(v), lo_byte(v) & 0xF0),
        r.with_bc(v).de_spec() == r.de_spec() && r.with_bc(v).hl_spec() == r.hl_spec(),
        r.with_de(v).bc_spec() == r.bc_spec() && r.with_de(v).hl_spec() == r.hl_spec(),
        r.with_hl(v).bc_spec() == r.bc_spec() && r.with_hl(v).de_spec() == r.de_spec(),
{
    lemma_word_bytes(0, 0, v);
}

} // verus!
