//! The disassembly panel's lines: walk forward from `PC`, decoding each
//! instruction from the bytes the CPU would read.
use vstd::prelude::*;
use vstd::string::StringExecFns;
use crate::cpu::{Bus, BusModel};
use crate::debug::breakpoints::Breakpoints;
use crate::debug::disasm::{decode_spec, disassemble_one};
use crate::mmu::{Mmu, MmuView};
use crate::text::{hex4, push_hex4};

verus! {

/// The three bytes the CPU would read starting at `addr`.
pub open spec fn bytes_at(m: MmuView, addr: u16) -> Seq<u8> {
    seq![
        m.spec_read(addr),
        m.spec_read(addr.wrapping_add(1)),
        m.spec_read(addr.wrapping_add(2)),
    ]
}

/// Address of the `i`-th instruction when walking forward from `pc`.
pub open spec fn walk_address(m: MmuView, pc: u16, i: nat) -> u16
    decreases i,
{
    if i == 0 {
        pc
    } else {
        let a = walk_address(m, pc, (i - 1) as nat);
        a.wrapping_add(decode_spec(bytes_at(m, a), a).1)
    }
}

/// One disassembly line: `->` on the first (the current instruction),
/// `*` on a breakpoint address, then `AAAA: ` and the mnemonic.
pub open spec fn disassembly_line(m: MmuView, pcs: Set<u16>, pc: u16, i: nat) -> Seq<char> {
    let a = walk_address(m, pc, i);
    (if i == 0 {
        "->"@
    } else {
        "  "@
    }) + (if pcs.contains(a) {
        "*"@
    } else {
        " "@
    }) + hex4(a) + ": "@ + decode_spec(bytes_at(m, a), a).0
}

/// Disassembles `count` instructions starting at `pc`, marking the first
/// (the CPU's current instruction) with `->` and any address with a
/// breakpoint set with `*`. Only what follows `PC` is shown: walking
/// backward through variable-length instructions is ambiguous.
pub fn disassembly_lines(mmu: &mut Mmu, pc: u16, count: u16, breakpoints: &Breakpoints) -> (out: Vec<String>)
    requires
        old(mmu).wf(),
    ensures
        final(mmu).wf(),
        final(mmu)@ == old(mmu)@,
        out@.len() == count,
        forall|i: int|
            0 <= i < count ==> #[trigger] out@[i]@ == disassembly_line(
                old(mmu)@,
                breakpoints@.pcs,
                pc,
                i as nat,
            ),
{
    let ghost m = mmu@;
    let mut out: Vec<String> = Vec::new();
    let mut addr = pc;
    let mut i: u16 = 0;
    while i < count
        invariant
            i <= count,
            mmu.wf(),
            mmu@ == m,
            addr == walk_address(m, pc, i as nat),
            out@.len() == i,
            forall|k: int|
                0 <= k < i ==> #[trigger] out@[k]@ == disassembly_line(
                    m,
                    breakpoints@.pcs,
                    pc,
                    k as nat,
                ),
        decreases count - i,
    {
        let b0 = mmu.read(addr);
        let b1 = mmu.read(addr.wrapping_add(1));
        let b2 = mmu.read(addr.wrapping_add(2));
        let bytes = [b0, b1, b2];
        assert(bytes@ =~= bytes_at(m, addr));
        let instr = disassemble_one(&bytes, addr);
        let mut line = String::new();
        if i == 0 {
            line.append("->");
        } else {
            line.append("  ");
        }
        if breakpoints.has_pc(addr) {
            line.append("*");
        } else {
            line.append(" ");
        }
        push_hex4(&mut line, addr);
        line.append(": ");
        line.append(instr.mnemonic.as_str());
        proof {
            assert(line@ =~= disassembly_line(m, breakpoints@.pcs, pc, i as nat));
        }
        out.push(line);
        addr = addr.wrapping_add(instr.len);
        i = i + 1;
    }
    out
}

} // verus!
