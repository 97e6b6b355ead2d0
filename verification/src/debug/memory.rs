//! Memory viewer rows: a hex dump of 16 bytes per row with an ASCII
//! column, read through the CPU's view of the bus.
use vstd::prelude::*;
use vstd::string::StringExecFns;
use crate::cpu::{Bus, BusModel};
use crate::debug::breakpoints::Breakpoints;
use crate::mmu::{Mmu, MmuView};
use crate::text::{hex2, hex4, push_hex2, push_hex4, lossy_string};

verus! {

pub const BYTES_PER_ROW: u16 = 16;

/// The ASCII column's character for a byte: itself if printable, else `.`.
pub open spec fn ascii_char(b: u8) -> char {
    if 0x20 <= b < 0x7F {
        b as char
    } else {
        '.'
    }
}

/// The marker after a hex byte: `*` on a watched byte, else a space.
pub open spec fn watch_marker(watched: bool) -> Seq<char> {
    if watched {
        "*"@
    } else {
        " "@
    }
}

/// The first `n` hex cells of the row at `row_addr`.
pub open spec fn hex_cells(m: MmuView, watches: Set<u16>, row_addr: u16, n: nat) -> Seq<char>
    decreases n,
{
    if n == 0 {
        Seq::empty()
    } else {
        let a = row_addr.wrapping_add((n - 1) as u16);
        hex_cells(m, watches, row_addr, (n - 1) as nat) + hex2(m.spec_read(a)) + watch_marker(
            watches.contains(a),
        )
    }
}

/// The first `n` ASCII-column characters of the row at `row_addr`.
pub open spec fn ascii_cells(m: MmuView, row_addr: u16, n: nat) -> Seq<char>
    decreases n,
{
    if n == 0 {
        Seq::empty()
    } else {
        ascii_cells(m, row_addr, (n - 1) as nat).push(
            ascii_char(m.spec_read(row_addr.wrapping_add((n - 1) as u16))),
        )
    }
}

/// One hex-dump row: `AAAA: ` then 16 cells `HH` plus marker, then
/// ` |`, the ASCII column and `|`.
pub open spec fn row_text(m: MmuView, watches: Set<u16>, row_addr: u16) -> Seq<char> {
    hex4(row_addr) + ": "@ + hex_cells(m, watches, row_addr, BYTES_PER_ROW as nat) + " |"@
        + ascii_cells(m, row_addr, BYTES_PER_ROW as nat) + "|"@
}

/// Address of row `row` of a dump starting at `start_addr` rounded down to
/// a row boundary (wrapping at the top of the address space).
pub open spec fn row_address(start_addr: u16, row: int) -> u16 {
    (((start_addr - start_addr % 16) + row * 16) % 0x10000) as u16
}

fn ascii_byte(b: u8) -> (c: u8)
    ensures
        c < 128,
        c as char == ascii_char(b),
{
    if 0x20 <= b && b < 0x7F {
        b
    } else {
        0x2E
    }
}

fn row_line(mmu: &mut Mmu, row_addr: u16, breakpoints: &Breakpoints) -> (line: String)
    requires
        old(mmu).wf(),
    ensures
        final(mmu).wf(),
        final(mmu)@ == old(mmu)@,
        line@ == row_text(old(mmu)@, breakpoints@.watches.dom(), row_addr),
{
    let ghost m = mmu@;
    let ghost w = breakpoints@.watches.dom();
    let mut line = String::new();
    push_hex4(&mut line, row_addr);
    line.append(": ");
    let mut ascii: Vec<u8> = Vec::new();
    let mut col: u16 = 0;
    while col < BYTES_PER_ROW
        invariant
            col <= BYTES_PER_ROW,
            mmu.wf(),
            mmu@ == m,
            w == breakpoints@.watches.dom(),
            line@ == hex4(row_addr) + ": "@ + hex_cells(m, w, row_addr, col as nat),
            ascii@.len() == col,
            forall|i: int| 0 <= i < col ==> #[trigger] ascii@[i] < 128,
            ascii@.map_values(|b: u8| b as char) == ascii_cells(m, row_addr, col as nat),
        decreases BYTES_PER_ROW - col,
    {
        let addr = row_addr.wrapping_add(col);
        let byte = mmu.read(addr);
        push_hex2(&mut line, byte);
        if breakpoints.has_watch(addr) {
            line.append("*");
        } else {
            line.append(" ");
        }
        let ghost before = ascii@;
        ascii.push(ascii_byte(byte));
        proof {
            assert(ascii@.map_values(|b: u8| b as char) =~= before.map_values(|b: u8| b as char).push(
                ascii_char(byte),
            ));
        }
        col = col + 1;
    }
    line.append(" |");
    let text = lossy_string(ascii.as_slice());
    line.append(text.as_str());
    line.append("|");
    proof {
        assert(line@ =~= row_text(m, w, row_addr));
    }
    line
}

/// Builds `row_count` hex-dump rows of 16 bytes each, starting at
/// `start_addr` rounded down to a 16-byte boundary. Reads through the
/// CPU's view of the bus (so a running OAM DMA transfer shows as `FF`). A
/// watched byte is marked with a trailing `*` instead of a space.
pub fn lines(mmu: &mut Mmu, start_addr: u16, row_count: u16, breakpoints: &Breakpoints) -> (out: Vec<String>)
    requires
        old(mmu).wf(),
        row_count <= 4096,
    ensures
        final(mmu).wf(),
        final(mmu)@ == old(mmu)@,
        out@.len() == row_count,
        forall|i: int|
            0 <= i < row_count ==> #[trigger] out@[i]@ == row_text(
                old(mmu)@,
                breakpoints@.watches.dom(),
                row_address(start_addr, i),
            ),
{
    let ghost m = mmu@;
    let aligned_start = start_addr - (start_addr % BYTES_PER_ROW);
    let mut out: Vec<String> = Vec::new();
    let mut row: u16 = 0;
    while row < row_count
        invariant
            row <= row_count <= 4096,
            aligned_start == start_addr - start_addr % 16,
            mmu.wf(),
            mmu@ == m,
            out@.len() == row,
            forall|i: int|
                0 <= i < row ==> #[trigger] out@[i]@ == row_text(
                    m,
                    breakpoints@.watches.dom(),
                    row_address(start_addr, i),
                ),
        decreases row_count - row,
    {
        let row_addr = aligned_start.wrapping_add(row * BYTES_PER_ROW);
        assert(row_addr == row_address(start_addr, row as int));
        let line = row_line(mmu, row_addr, breakpoints);
        out.push(line);
        row = row + 1;
    }
    out
}

} // verus!
