//! The always-on status sidebar's text: a compact summary of CPU, PPU,
//! timer, joypad, cartridge and APU state and the run mode. Each section
//! is built as plain lines; laying them out is the frontend's job.
use vstd::prelude::*;
use vstd::string::StringExecFns;
use crate::apu::{Apu, NR52_ADDR, NR50_ADDR, NR51_ADDR};
use crate::cartridge::{Cartridge, MbcType};
use crate::cpu::Cpu;
use crate::cpu::registers::Registers;
use crate::debug::breakpoints::Breakpoints;
use crate::joypad::Button;
use crate::ppu::{Ppu, PpuView, read_stat_spec};
use crate::text::{hex2, hex4, dec, on_off, bit_char, push_hex2, push_hex4, push_dec, on_off_str,
    bit_str};
use crate::timer::{Timer, TimerView};
use crate::ui::RunMode;

verus! {

/// Order buttons are listed in on the joypad line: D-pad first, then the
/// face and menu buttons.
pub open spec fn button_at(i: int) -> Button {
    if i == 0 {
        Button::Up
    } else if i == 1 {
        Button::Down
    } else if i == 2 {
        Button::Left
    } else if i == 3 {
        Button::Right
    } else if i == 4 {
        Button::A
    } else if i == 5 {
        Button::B
    } else if i == 6 {
        Button::Select
    } else {
        Button::Start
    }
}

pub open spec fn button_name(b: Button) -> Seq<char> {
    match b {
        Button::Right => "Right"@,
        Button::Left => "Left"@,
        Button::Up => "Up"@,
        Button::Down => "Down"@,
        Button::A => "A"@,
        Button::B => "B"@,
        Button::Select => "Select"@,
        Button::Start => "Start"@,
    }
}

/// `acc` with `item` appended, space-separated.
pub open spec fn join_step(acc: Seq<char>, item: Seq<char>) -> Seq<char> {
    if acc.len() == 0 {
        item
    } else {
        acc + " "@ + item
    }
}

/// Names of the first `n` buttons (in display order) that are held,
/// space-separated.
pub open spec fn held_names(held: Seq<Button>, n: nat) -> Seq<char>
    decreases n,
{
    if n == 0 {
        Seq::empty()
    } else {
        let acc = held_names(held, (n - 1) as nat);
        if held.contains(button_at(n - 1)) {
            join_step(acc, button_name(button_at(n - 1)))
        } else {
            acc
        }
    }
}

pub open spec fn joypad_line_spec(held: Seq<Button>) -> Seq<char> {
    let names = held_names(held, 8);
    if names.len() == 0 {
        "Held: -"@
    } else {
        "Held: "@ + names
    }
}

pub open spec fn decode_lcdc_spec(lcdc: u8) -> Seq<char> {
    let obj = if lcdc & 0x02 != 0 {
        "ON("@ + (if lcdc & 0x04 != 0 {
            "8x16"@
        } else {
            "8x8"@
        }) + ")"@
    } else {
        "OFF"@
    };
    "LCDC "@ + hex2(lcdc) + "  LCD:"@ + on_off(lcdc & 0x80 != 0) + " BG:"@ + on_off(lcdc & 0x01 != 0)
        + " WIN:"@ + on_off(lcdc & 0x20 != 0) + " OBJ:"@ + obj + " MAP:"@ + (if lcdc & 0x08 != 0 {
        "9C00"@
    } else {
        "9800"@
    }) + " TILE:"@ + (if lcdc & 0x10 != 0 {
        "8000"@
    } else {
        "8800"@
    })
}

/// The enabled STAT interrupt sources, space-separated, `-` for none.
pub open spec fn stat_sources(stat: u8) -> Seq<char> {
    let a1 = if stat & 0x40 != 0 {
        join_step(Seq::empty(), "LYC"@)
    } else {
        Seq::empty()
    };
    let a2 = if stat & 0x20 != 0 {
        join_step(a1, "OAM"@)
    } else {
        a1
    };
    let a3 = if stat & 0x10 != 0 {
        join_step(a2, "VBL"@)
    } else {
        a2
    };
    let a4 = if stat & 0x08 != 0 {
        join_step(a3, "HBL"@)
    } else {
        a3
    };
    if a4.len() == 0 {
        "-"@
    } else {
        a4
    }
}

pub open spec fn decode_stat_spec(stat: u8) -> Seq<char> {
    "STAT "@ + hex2(stat) + "  Mode:"@ + dec((stat & 0b11) as nat) + " LYC=LY:"@ + (if stat & 0x04
        != 0 {
        "yes"@
    } else {
        "no"@
    }) + "  IntEn: "@ + stat_sources(stat)
}

pub open spec fn ppu_lines_spec(p: PpuView) -> Seq<Seq<char>> {
    seq![
        decode_lcdc_spec(p.lcdc),
        decode_stat_spec(read_stat_spec(p)),
        "LY:"@ + hex2(p.ly) + " LYC:"@ + hex2(p.lyc),
        "SCX:"@ + hex2(p.scx) + " SCY:"@ + hex2(p.scy) + " WX:"@ + hex2(p.wx) + " WY:"@ + hex2(p.wy),
        "BGP:"@ + hex2(p.bgp) + " OBP0:"@ + hex2(p.obp0) + " OBP1:"@ + hex2(p.obp1),
    ]
}

/// TAC's input clock frequency in Hz.
pub open spec fn tac_freq(tac: u8) -> nat {
    if tac & 0x03 == 0 {
        4096
    } else if tac & 0x03 == 1 {
        262144
    } else if tac & 0x03 == 2 {
        65536
    } else {
        16384
    }
}

pub open spec fn timer_lines_spec(t: TimerView) -> Seq<Seq<char>> {
    let tac = t.tac | 0b1111_1000;
    seq![
        "DIV:"@ + hex2((t.div_counter / 256) as u8) + " TIMA:"@ + hex2(t.tima) + " TMA:"@ + hex2(t.tma),
        "TAC:"@ + hex2(tac) + " "@ + (if tac & 0x04 != 0 {
            "RUN"@
        } else {
            "STOP"@
        }) + " "@ + dec(tac_freq(tac)) + "Hz"@,
    ]
}

/// How the sidebar names an MBC type.
pub open spec fn mbc_name(m: MbcType) -> Seq<char> {
    match m {
        MbcType::RomOnly => "None"@,
        MbcType::Mbc1 => "Mbc1"@,
        MbcType::Mbc2 => "Mbc2"@,
        MbcType::Mbc3 => "Mbc3"@,
        MbcType::Mbc5 => "Mbc5"@,
        MbcType::Unsupported => "Unsupported"@,
    }
}

pub open spec fn apu_lines_spec(a: Apu) -> Seq<Seq<char>> {
    let nr52 = a.read_spec(NR52_ADDR);
    let nr50 = a.nr50;
    seq![
        "Power:"@ + on_off(nr52 & 0x80 != 0) + " CH1:"@ + on_off(nr52 & 0x01 != 0) + " CH2:"@
            + on_off(nr52 & 0x02 != 0) + " CH3:"@ + on_off(nr52 & 0x04 != 0) + " CH4:"@ + on_off(
            nr52 & 0x08 != 0,
        ),
        "Vol L:"@ + dec(((nr50 >> 4u8) & 0x07) as nat) + " R:"@ + dec((nr50 & 0x07) as nat)
            + "  Pan:"@ + hex2(a.nr51),
    ]
}

/// One register-pair line: `AF: 1234  (A:12 F:34)`.
pub open spec fn pair_line(name: Seq<char>, hi_name: Seq<char>, hi: u8, lo_name: Seq<char>, lo: u8, pair: u16) -> Seq<char> {
    name + ": "@ + hex4(pair) + "  ("@ + hi_name + ":"@ + hex2(hi) + " "@ + lo_name + ":"@ + hex2(lo)
        + ")"@
}

pub open spec fn flags_line(r: Registers) -> Seq<char> {
    "Flags: Z:"@ + bit_char(r.zero_spec()) + " N:"@ + bit_char(r.subtract_spec()) + " H:"@
        + bit_char(r.half_carry_spec()) + " C:"@ + bit_char(r.carry_spec())
}

/// The sidebar's CPU lines and whether each shows a register that changed
/// since `prev`.
pub open spec fn cpu_lines_spec(cpu: Cpu, prev: Registers) -> Seq<(Seq<char>, bool)> {
    let r = cpu.regs;
    seq![
        (pair_line("AF"@, "A"@, r.a, "F"@, r.f, r.af_spec()), r.a != prev.a || r.f != prev.f),
        (pair_line("BC"@, "B"@, r.b, "C"@, r.c, r.bc_spec()), r.b != prev.b || r.c != prev.c),
        (pair_line("DE"@, "D"@, r.d, "E"@, r.e, r.de_spec()), r.d != prev.d || r.e != prev.e),
        (pair_line("HL"@, "H"@, r.h, "L"@, r.l, r.hl_spec()), r.h != prev.h || r.l != prev.l),
        ("SP: "@ + hex4(r.sp), r.sp != prev.sp),
        ("PC: "@ + hex4(r.pc), r.pc != prev.pc),
        (flags_line(r), r.f != prev.f),
        ("IME:"@ + bit_char(cpu.ime) + " HALT:"@ + bit_char(cpu.halted) + " STOP:"@ + bit_char(
            cpu.stopped,
        ), false),
    ]
}

pub open spec fn run_state_spec(mode: RunMode, bp: nat, wp: nat) -> Seq<char> {
    "["@ + (match mode {
        RunMode::Running => "RUNNING"@,
        RunMode::Paused => "PAUSED"@,
    }) + "]  breakpoints:"@ + dec(bp) + " watchpoints:"@ + dec(wp)
}

/// Total sidebar width, including borders: wide enough for the longest
/// decoded line (the LCDC line) plus a little room.
pub const SIDEBAR_COLS: u16 = 64;

fn string_of(lit: &str) -> (s: String)
    ensures
        s@ == lit@,
{
    let mut s = String::new();
    s.append(lit);
    s
}

fn button_str(b: Button) -> (s: &'static str)
    ensures
        s@ == button_name(b),
{
    match b {
        Button::Right => "Right",
        Button::Left => "Left",
        Button::Up => "Up",
        Button::Down => "Down",
        Button::A => "A",
        Button::B => "B",
        Button::Select => "Select",
        Button::Start => "Start",
    }
}

fn button_order(i: usize) -> (b: Button)
    requires
        i < 8,
    ensures
        b == button_at(i as int),
{
    match i {
        0 => Button::Up,
        1 => Button::Down,
        2 => Button::Left,
        3 => Button::Right,
        4 => Button::A,
        5 => Button::B,
        6 => Button::Select,
        _ => Button::Start,
    }
}

fn is_held(held: &[Button], b: Button) -> (r: bool)
    ensures
        r == held@.contains(b),
{
    let mut i: usize = 0;
    while i < held.len()
        invariant
            i <= held@.len(),
            forall|j: int| 0 <= j < i ==> held@[j] != b,
        decreases held@.len() - i,
    {
        if held[i] == b {
            assert(held@[i as int] == b);
            return true;
        }
        i = i + 1;
    }
    false
}

/// Appends `item` to the space-separated list being built in `s`.
fn push_item(s: &mut String, item: &str)
    ensures
        final(s)@ == join_step(old(s)@, item@),
{
    if s.as_str().is_empty() {
        s.append(item);
    } else {
        s.append(" ");
        s.append(item);
    }
}

/// Joypad section: the held buttons, in D-pad-then-buttons order.
pub fn joypad_line(held: &[Button]) -> (s: String)
    ensures
        s@ == joypad_line_spec(held@),
{
    let mut names = String::new();
    let mut i: usize = 0;
    while i < 8
        invariant
            i <= 8,
            names@ == held_names(held@, i as nat),
        decreases 8 - i,
    {
        let b = button_order(i);
        if is_held(held, b) {
            push_item(&mut names, button_str(b));
        }
        i = i + 1;
    }
    let mut s = String::new();
    if names.as_str().is_empty() {
        s.append("Held: -");
    } else {
        s.append("Held: ");
        s.append(names.as_str());
    }
    s
}

/// Decodes `LCDC` into its sub-fields beside the raw byte, e.g.
/// `LCDC F3  LCD:ON BG:ON WIN:OFF OBJ:ON(8x8) MAP:9800 TILE:8000`.
pub fn decode_lcdc(lcdc: u8) -> (s: String)
    ensures
        s@ == decode_lcdc_spec(lcdc),
{
    let mut s = String::new();
    s.append("LCDC ");
    push_hex2(&mut s, lcdc);
    s.append("  LCD:");
    s.append(on_off_str(lcdc & 0x80 != 0));
    s.append(" BG:");
    s.append(on_off_str(lcdc & 0x01 != 0));
    s.append(" WIN:");
    s.append(on_off_str(lcdc & 0x20 != 0));
    s.append(" OBJ:");
    if lcdc & 0x02 != 0 {
        s.append("ON(");
        if lcdc & 0x04 != 0 {
            s.append("8x16");
        } else {
            s.append("8x8");
        }
        s.append(")");
    } else {
        s.append("OFF");
    }
    s.append(" MAP:");
    if lcdc & 0x08 != 0 {
        s.append("9C00");
    } else {
        s.append("9800");
    }
    s.append(" TILE:");
    if lcdc & 0x10 != 0 {
        s.append("8000");
    } else {
        s.append("8800");
    }
    s
}

/// Decodes `STAT` into its mode, LYC=LY flag, and enabled interrupt
/// sources beside the raw byte, e.g.
/// `STAT 87  Mode:3 LYC=LY:no  IntEn: LYC OAM VBL HBL`.
pub fn decode_stat(stat: u8) -> (s: String)
    ensures
        s@ == decode_stat_spec(stat),
{
    let mut sources = String::new();
    if stat & 0x40 != 0 {
        push_item(&mut sources, "LYC");
    }
    if stat & 0x20 != 0 {
        push_item(&mut sources, "OAM");
    }
    if stat & 0x10 != 0 {
        push_item(&mut sources, "VBL");
    }
    if stat & 0x08 != 0 {
        push_item(&mut sources, "HBL");
    }
    let mut s = String::new();
    s.append("STAT ");
    push_hex2(&mut s, stat);
    s.append("  Mode:");
    push_dec(&mut s, (stat & 0b11) as u64);
    s.append(" LYC=LY:");
    if stat & 0x04 != 0 {
        s.append("yes");
    } else {
        s.append("no");
    }
    s.append("  IntEn: ");
    if sources.as_str().is_empty() {
        s.append("-");
    } else {
        s.append(sources.as_str());
    }
    s
}

fn two_regs(a_name: &str, a: u8, b_name: &str, b: u8) -> (s: String)
    ensures
        s@ == a_name@ + hex2(a) + b_name@ + hex2(b),
{
    let mut s = String::new();
    s.append(a_name);
    push_hex2(&mut s, a);
    s.append(b_name);
    push_hex2(&mut s, b);
    s
}

/// PPU section: decoded LCDC/STAT plus the scroll, window and palette
/// registers.
pub fn ppu_lines(ppu: &Ppu) -> (lines: Vec<String>)
    ensures
        lines.deep_view() == ppu_lines_spec(ppu@),
{
    let l0 = decode_lcdc(ppu.read_lcdc());
    let l1 = decode_stat(ppu.read_stat());
    let l2 = two_regs("LY:", ppu.read_ly(), " LYC:", ppu.read_lyc());
    let mut l3 = two_regs("SCX:", ppu.read_scx(), " SCY:", ppu.read_scy());
    l3.append(" WX:");
    push_hex2(&mut l3, ppu.read_wx());
    l3.append(" WY:");
    push_hex2(&mut l3, ppu.read_wy());
    let mut l4 = two_regs("BGP:", ppu.read_bgp(), " OBP0:", ppu.read_obp0());
    l4.append(" OBP1:");
    push_hex2(&mut l4, ppu.read_obp1());
    let lines = vec![l0, l1, l2, l3, l4];
    proof {
        assert(lines.deep_view() =~= ppu_lines_spec(ppu@));
    }
    lines
}

/// Timer section: DIV/TIMA/TMA, and TAC decoded into its run state and
/// input clock frequency.
pub fn timer_lines(timer: &Timer) -> (lines: Vec<String>)
    ensures
        lines.deep_view() == timer_lines_spec(timer@),
{
    let tac = timer.read_tac();
    let freq_hz: u64 = if tac & 0x03 == 0 {
        4096
    } else if tac & 0x03 == 1 {
        262144
    } else if tac & 0x03 == 2 {
        65536
    } else {
        16384
    };
    let mut l0 = two_regs("DIV:", timer.read_div(), " TIMA:", timer.read_tima());
    l0.append(" TMA:");
    push_hex2(&mut l0, timer.read_tma());
    let mut l1 = String::new();
    l1.append("TAC:");
    push_hex2(&mut l1, tac);
    l1.append(" ");
    if tac & 0x04 != 0 {
        l1.append("RUN");
    } else {
        l1.append("STOP");
    }
    l1.append(" ");
    push_dec(&mut l1, freq_hz);
    l1.append("Hz");
    let lines = vec![l0, l1];
    proof {
        assert(lines.deep_view() =~= timer_lines_spec(timer@));
    }
    lines
}

fn mbc_str(m: MbcType) -> (s: &'static str)
    ensures
        s@ == mbc_name(m),
{
    match m {
        MbcType::RomOnly => "None",
        MbcType::Mbc1 => "Mbc1",
        MbcType::Mbc2 => "Mbc2",
        MbcType::Mbc3 => "Mbc3",
        MbcType::Mbc5 => "Mbc5",
        MbcType::Unsupported => "Unsupported",
    }
}

/// Cartridge section: title, MBC type and ROM/RAM bank counts from the
/// header, or a placeholder when no cartridge is loaded.
pub fn cartridge_lines(cartridge: Option<&Cartridge>) -> (lines: Vec<String>)
    ensures
        lines.deep_view() == match cartridge {
            None => seq!["No cartridge loaded"@],
            Some(c) => {
                let h = c.header_view();
                seq![
                    if h.title@.len() == 0 {
                        "(untitled)"@
                    } else {
                        h.title@
                    },
                    "MBC:"@ + mbc_name(h.mbc) + " ROM:"@ + dec(h.rom_banks as nat) + "banks RAM:"@
                        + dec(h.ram_banks as nat) + "banks"@,
                    "Battery:"@ + on_off(h.has_battery) + " RTC:"@ + on_off(h.has_rtc)
                        + " Rumble:"@ + on_off(h.has_rumble),
                ]
            },
        },
{
    match cartridge {
        None => {
            let lines = vec![string_of("No cartridge loaded")];
            proof {
                assert(lines.deep_view() =~= seq!["No cartridge loaded"@]);
            }
            lines
        },
        Some(c) => {
            let h = c.header();
            let title = if h.title.as_str().is_empty() {
                string_of("(untitled)")
            } else {
                h.title.clone()
            };
            let mut l1 = String::new();
            l1.append("MBC:");
            l1.append(mbc_str(h.mbc));
            l1.append(" ROM:");
            push_dec(&mut l1, h.rom_banks as u64);
            l1.append("banks RAM:");
            push_dec(&mut l1, h.ram_banks as u64);
            l1.append("banks");
            let mut l2 = String::new();
            l2.append("Battery:");
            l2.append(on_off_str(h.has_battery));
            l2.append(" RTC:");
            l2.append(on_off_str(h.has_rtc));
            l2.append(" Rumble:");
            l2.append(on_off_str(h.has_rumble));
            let lines = vec![title, l1, l2];
            proof {
                let hv = c.header_view();
                assert(lines.deep_view() =~= seq![
                    if hv.title@.len() == 0 {
                        "(untitled)"@
                    } else {
                        hv.title@
                    },
                    "MBC:"@ + mbc_name(hv.mbc) + " ROM:"@ + dec(hv.rom_banks as nat) + "banks RAM:"@
                        + dec(hv.ram_banks as nat) + "banks"@,
                    "Battery:"@ + on_off(hv.has_battery) + " RTC:"@ + on_off(hv.has_rtc)
                        + " Rumble:"@ + on_off(hv.has_rumble),
                ]);
            }
            lines
        },
    }
}

/// APU section: power and per-channel status from `NR52`, and the
/// `NR50`/`NR51` master volume and panning.
pub fn apu_lines(apu: &Apu) -> (lines: Vec<String>)
    requires
        apu.wf(),
    ensures
        lines.deep_view() == apu_lines_spec(*apu),
{
    let nr52 = apu.read_nr52();
    let mut l0 = String::new();
    l0.append("Power:");
    l0.append(on_off_str(nr52 & 0x80 != 0));
    l0.append(" CH1:");
    l0.append(on_off_str(nr52 & 0x01 != 0));
    l0.append(" CH2:");
    l0.append(on_off_str(nr52 & 0x02 != 0));
    l0.append(" CH3:");
    l0.append(on_off_str(nr52 & 0x04 != 0));
    l0.append(" CH4:");
    l0.append(on_off_str(nr52 & 0x08 != 0));
    let nr50 = apu.read_nr50();
    let mut l1 = String::new();
    l1.append("Vol L:");
    push_dec(&mut l1, ((nr50 >> 4u8) & 0x07) as u64);
    l1.append(" R:");
    push_dec(&mut l1, (nr50 & 0x07) as u64);
    l1.append("  Pan:");
    push_hex2(&mut l1, apu.read_nr51());
    let lines = vec![l0, l1];
    proof {
        assert(lines.deep_view() =~= apu_lines_spec(*apu));
    }
    lines
}

fn pair_text(name: &str, hi_name: &str, hi: u8, lo_name: &str, lo: u8, pair: u16) -> (s: String)
    ensures
        s@ == pair_line(name@, hi_name@, hi, lo_name@, lo, pair),
{
    let mut s = String::new();
    s.append(name);
    s.append(": ");
    push_hex4(&mut s, pair);
    s.append("  (");
    s.append(hi_name);
    s.append(":");
    push_hex2(&mut s, hi);
    s.append(" ");
    s.append(lo_name);
    s.append(":");
    push_hex2(&mut s, lo);
    s.append(")");
    s
}

fn flags_text(r: &Registers) -> (s: String)
    ensures
        s@ == flags_line(*r),
{
    let mut s = String::new();
    s.append("Flags: Z:");
    s.append(bit_str(r.zero()));
    s.append(" N:");
    s.append(bit_str(r.subtract()));
    s.append(" H:");
    s.append(bit_str(r.half_carry()));
    s.append(" C:");
    s.append(bit_str(r.carry()));
    s
}

fn word_line(name: &str, v: u16) -> (s: String)
    ensures
        s@ == name@ + hex4(v),
{
    let mut s = String::new();
    s.append(name);
    push_hex4(&mut s, v);
    s
}

/// CPU section: registers, flags and IME/HALT/STOP, each line paired with
/// whether it shows a register that changed since `prev` (the previous
/// frame's snapshot), for highlighting.
#[verifier::rlimit(40)]
pub fn cpu_lines(cpu: &Cpu, prev: &Registers) -> (lines: Vec<(String, bool)>)
    ensures
        lines.deep_view() == cpu_lines_spec(*cpu, *prev),
{
    let r = &cpu.regs;
    let mut lines: Vec<(String, bool)> = Vec::new();
    lines.push((pair_text("AF", "A", r.a, "F", r.f, r.af()), r.a != prev.a || r.f != prev.f));
    lines.push((pair_text("BC", "B", r.b, "C", r.c, r.bc()), r.b != prev.b || r.c != prev.c));
    lines.push((pair_text("DE", "D", r.d, "E", r.e, r.de()), r.d != prev.d || r.e != prev.e));
    lines.push((pair_text("HL", "H", r.h, "L", r.l, r.hl()), r.h != prev.h || r.l != prev.l));
    lines.push((word_line("SP: ", r.sp), r.sp != prev.sp));
    lines.push((word_line("PC: ", r.pc), r.pc != prev.pc));
    lines.push((flags_text(r), r.f != prev.f));
    let mut last = String::new();
    last.append("IME:");
    last.append(bit_str(cpu.ime));
    last.append(" HALT:");
    last.append(bit_str(cpu.halted));
    last.append(" STOP:");
    last.append(bit_str(cpu.stopped));
    lines.push((last, false));
    proof {
        assert(lines.deep_view() =~= cpu_lines_spec(*cpu, *prev));
    }
    lines
}

/// Sidebar header: run state and breakpoint/watchpoint counts.
pub fn run_state_line(mode: RunMode, breakpoints: &Breakpoints) -> (s: String)
    ensures
        s@ == run_state_spec(mode, breakpoints@.pcs.len(), breakpoints@.watches.dom().len()),
{
    let bp = breakpoints.pc_breakpoints();
    let wp = breakpoints.watchpoints();
    proof {
        bp@.unique_seq_to_set();
        wp@.unique_seq_to_set();
    }
    let mut s = String::new();
    s.append("[");
    match mode {
        RunMode::Running => s.append("RUNNING"),
        RunMode::Paused => s.append("PAUSED"),
    }
    s.append("]  breakpoints:");
    push_dec(&mut s, bp.len() as u64);
    s.append(" watchpoints:");
    push_dec(&mut s, wp.len() as u64);
    s
}

} // verus!
