//! Registers/flags panel: the CPU's 8/16-bit registers and Z/N/H/C flags
//! as text.
use vstd::prelude::*;
use vstd::string::StringExecFns;
use crate::cpu::Cpu;
use crate::debug::status::{pair_line, flags_line};
use crate::text::{hex4, bit_char, push_hex2, push_hex4, bit_str};

verus! {

/// The registers panel, showing one CPU.
pub struct RegistersWidget<'a> {
    pub cpu: &'a Cpu,
}

impl<'a> RegistersWidget<'a> {
    pub fn new(cpu: &'a Cpu) -> (w: Self)
        ensures
            *w.cpu == *cpu,
    {
        RegistersWidget { cpu }
    }
}

/// The panel's lines.
pub open spec fn lines_spec(cpu: Cpu) -> Seq<Seq<char>> {
    let r = cpu.regs;
    seq![
        pair_line("AF"@, "A"@, r.a, "F"@, r.f, r.af_spec()),
        pair_line("BC"@, "B"@, r.b, "C"@, r.c, r.bc_spec()),
        pair_line("DE"@, "D"@, r.d, "E"@, r.e, r.de_spec()),
        pair_line("HL"@, "H"@, r.h, "L"@, r.l, r.hl_spec()),
        "SP: "@ + hex4(r.sp),
        "PC: "@ + hex4(r.pc),
        Seq::empty(),
        flags_line(r),
        "IME: "@ + bit_char(cpu.ime),
        "HALT: "@ + bit_char(cpu.halted),
    ]
}

fn pair_text(name: &str, hi_name: &str, hi: u8, lo_name: &str, lo: u8, pair: u16) -> (s: String)
    ensures
        s@ == pair_line(name@, hi_name@, hi, lo_name@, lo, pair),
{
    let mut s = String::new();
    s.append(name);
    s.append(": ");
    push_hex4(&mut s, pair);
    s.append("  (");
    s.append(hi_name);
    s.append(":");
    push_hex2(&mut s, hi);
    s.append(" ");
    s.append(lo_name);
    s.append(":");
    push_hex2(&mut s, lo);
    s.append(")");
    s
}

fn labeled(label: &str, value: &str) -> (s: String)
    ensures
        s@ == label@ + value@,
{
    let mut s = String::new();
    s.append(label);
    s.append(value);
    s
}

fn word_line(name: &str, v: u16) -> (s: String)
    ensures
        s@ == name@ + hex4(v),
{
    let mut s = String::new();
    s.append(name);
    push_hex4(&mut s, v);
    s
}

/// Builds the panel's lines.
#[verifier::rlimit(40)]
pub fn lines(cpu: &Cpu) -> (out: Vec<String>)
    ensures
        out.deep_view() == lines_spec(*cpu),
{
    let r = &cpu.regs;
    let mut flags = String::new();
    flags.append("Flags: Z:");
    flags.append(bit_str(r.zero()));
    flags.append(" N:");
    flags.append(bit_str(r.subtract()));
    flags.append(" H:");
    flags.append(bit_str(r.half_carry()));
    flags.append(" C:");
    flags.append(bit_str(r.carry()));
    let out = vec![
        pair_text("AF", "A", r.a, "F", r.f, r.af()),
        pair_text("BC", "B", r.b, "C", r.c, r.bc()),
        pair_text("DE", "D", r.d, "E", r.e, r.de()),
        pair_text("HL", "H", r.h, "L", r.l, r.hl()),
        word_line("SP: ", r.sp),
        word_line("PC: ", r.pc),
        String::new(),
        flags,
        labeled("IME: ", bit_str(cpu.ime)),
        labeled("HALT: ", bit_str(cpu.halted)),
    ];
    proof {
        assert(out.deep_view() =~= lines_spec(*cpu));
    }
    out
}

} // verus!
