//! Ties the CPU and the memory map (with the timer, PPU, APU, joypad,
//! serial port and cartridge behind it) together and drives execution.
//!
//! [`System::step`] runs one CPU instruction against the MMU's bus
//! (including interrupt dispatch), then advances the timer, the PPU's mode
//! sequencer, the cartridge's clock, OAM DMA, the joypad's interrupt
//! request and the APU by the elapsed T-cycles. Each output sample that
//! comes due is queued in [`System::samples`] as the mixer's input, up to
//! [`SAMPLE_QUEUE_FRAMES`]; past that, samples are dropped until the
//! frontend drains the queue.
use vstd::prelude::*;
use crate::apu::MixInput;
use crate::cpu::Cpu;
use crate::cpu::registers::Registers;
use crate::cpu::semantics::step_spec;
use crate::mmu::{Mmu, MmuView, step_timer_spec, step_ppu_spec, step_cartridge_spec,
    step_dma_spec, step_joypad_spec, step_apu_spec, loaded_from};
use crate::cartridge::header_warnings;
use crate::ppu::{PpuView, VBLANK_START_LINE, DOTS_PER_FRAME, SCANLINE_DOTS, VBLANK_INT_BIT,
    write_lcdc_spec, lcd_on, positioned, frame_position, lemma_run_position,
    lemma_run_requests_vblank};
use crate::cpu::bus::write16_spec;
use crate::cpu::properties::{at_most_one_store, lemma_execute_store};
use crate::cpu::semantics::{pending_spec, lowest_bit, fetch8, execute_spec, IF_ADDR};
use crate::mmu::{lemma_write_keeps_clock, lemma_store_keeps_clock, lemma_dma_run_frame};
use crate::cpu::BusModel;

verus! {

/// Capacity of the sample queue, in stereo sample frames (~187ms at
/// 44.1kHz).
pub const SAMPLE_QUEUE_FRAMES: usize = 8192;

/// Top-level emulated system.
pub struct System {
    pub cpu: Cpu,
    pub mmu: Mmu,
    /// Output samples that came due and have not been taken yet.
    pub samples: Vec<MixInput>,
}

pub struct SystemView {
    pub cpu: Cpu,
    pub mmu: MmuView,
    pub samples: Seq<MixInput>,
}

impl View for System {
    type V = SystemView;

    open spec fn view(&self) -> SystemView {
        SystemView { cpu: self.cpu, mmu: self.mmu@, samples: self.samples@ }
    }
}

/// `queue` after `n` copies of `m` were offered to it: they are kept while
/// it has room.
pub open spec fn queue_samples(queue: Seq<MixInput>, m: MixInput, n: nat) -> Seq<MixInput> {
    let room: int = SAMPLE_QUEUE_FRAMES - queue.len();
    let k: int = if room <= 0 {
        0
    } else if n < room {
        n as int
    } else {
        room
    };
    queue + Seq::new(k as nat, |i: int| m)
}

/// Everything but the CPU advanced by `cycles` T-cycles.
pub open spec fn advance_spec(v: SystemView, cycles: u8) -> SystemView {
    let m = step_joypad_spec(
        step_dma_spec(
            step_cartridge_spec(step_ppu_spec(step_timer_spec(v.mmu, cycles), cycles), cycles),
            cycles,
        ),
    );
    let (m2, n) = step_apu_spec(m, cycles);
    SystemView { mmu: m2, samples: queue_samples(v.samples, m2.apu.mix_input_spec(), n as nat), ..v }
}

/// One instruction and everything advanced with it: the new state and the
/// elapsed T-cycles.
pub open spec fn system_step_spec(v: SystemView) -> (SystemView, u8) {
    let (cpu, m, cycles) = step_spec(v.cpu, v.mmu);
    (advance_spec(SystemView { cpu, mmu: m, ..v }, cycles), cycles)
}

/// Whether the step can complete: after the instruction, the APU must be
/// able to advance (see [`Apu::can_step`]).
pub open spec fn step_ok(v: SystemView) -> bool {
    let (cpu, m, cycles) = step_spec(v.cpu, v.mmu);
    m.apu.can_step_spec()
}

/// The post-boot register file of a DMG.
pub open spec fn post_boot_regs(r: Registers) -> Registers {
    Registers {
        sp: 0xFFFE,
        pc: 0x0100,
        ..r.with_af(0x01B0).with_bc(0x0013).with_de(0x00D8).with_hl(0x014D)
    }
}

/// The PPU after the boot ROM's register writes.
pub open spec fn post_boot_ppu(p: PpuView) -> PpuView {
    PpuView { bgp: 0xFC, ..write_lcdc_spec(p, 0x91) }
}

impl System {
    pub open spec fn wf(&self) -> bool {
        self.mmu.wf() && self.samples@.len() <= SAMPLE_QUEUE_FRAMES
    }

    pub fn new() -> (s: Self)
        ensures
            s.wf(),
            s.cpu == Cpu::initial(),
            Mmu::initial_view(s.mmu@),
            s.mmu@.ppu == crate::ppu::initial_ppu(),
            s.samples@.len() == 0,
    {
        System { cpu: Cpu::new(), mmu: Mmu::new(), samples: Vec::new() }
    }

    /// Loads raw ROM bytes straight into the MMU's flat address space, with
    /// no cartridge/MBC banking (for small synthetic programs); see
    /// [`System::load_cartridge`] for real ROM files.
    pub fn load_rom(&mut self, data: &[u8])
        requires
            old(self).wf(),
        ensures
            final(self).wf(),
            final(self).cpu == old(self).cpu,
            final(self).samples@ == old(self).samples@,
            final(self)@.mmu == (MmuView {
                cartridge: None,
                mem: Seq::new(
                    0x10000,
                    |i: int|
                        if i < data@.len() {
                            data@[i]
                        } else {
                            old(self)@.mmu.mem[i]
                        },
                ),
                ..old(self)@.mmu
            }),
    {
        self.mmu.load_rom(data);
    }

    /// Parses and installs `data` as a cartridge (header, MBC, banking),
    /// replacing any previous cartridge or flat-loaded ROM, and returns the
    /// header's non-fatal validation warnings.
    ///
    /// There is no boot ROM to run, so this hands off straight to the
    /// CPU/PPU/APU register state a DMG boot ROM leaves behind just before
    /// it jumps to the cartridge's entry point at 0x0100.
    pub fn load_cartridge(&mut self, data: &[u8]) -> (warnings: Vec<String>)
        requires
            old(self).wf(),
            data@.len() <= isize::MAX,
        ensures
            final(self).wf(),
            final(self)@.mmu.cartridge matches Some(c) && loaded_from(c, data@),
            warnings.deep_view() == header_warnings(data@),
            final(self).cpu == (Cpu { regs: post_boot_regs(old(self).cpu.regs), ..old(self).cpu }),
            final(self)@.mmu == (MmuView {
                cartridge: final(self)@.mmu.cartridge,
                ppu: post_boot_ppu(old(self)@.mmu.ppu),
                apu: old(self)@.mmu.apu.post_boot_spec(),
                ..old(self)@.mmu
            }),
            final(self).samples@ == old(self).samples@,
    {
        let warnings = self.mmu.load_cartridge(data);
        self.power_on_post_boot();
        warnings
    }

    /// Sets the CPU registers and the PPU/APU I/O registers to the DMG's
    /// documented post-boot values. The APU is powered on first, since its
    /// other registers ignore writes while it is off.
    fn power_on_post_boot(&mut self)
        requires
            old(self).wf(),
        ensures
            final(self).wf(),
            final(self).cpu == (Cpu { regs: post_boot_regs(old(self).cpu.regs), ..old(self).cpu }),
            final(self)@.mmu == (MmuView {
                ppu: post_boot_ppu(old(self)@.mmu.ppu),
                apu: old(self)@.mmu.apu.post_boot_spec(),
                ..old(self)@.mmu
            }),
            final(self).samples@ == old(self).samples@,
    {
        self.cpu.regs.set_af(0x01B0);
        self.cpu.regs.set_bc(0x0013);
        self.cpu.regs.set_de(0x00D8);
        self.cpu.regs.set_hl(0x014D);
        self.cpu.regs.sp = 0xFFFE;
        self.cpu.regs.pc = 0x0100;

        self.mmu.ppu.write_lcdc(0x91);
        self.mmu.ppu.write_bgp(0xFC);

        self.mmu.apu.power_on_post_boot();
    }

    /// Advances everything but the CPU by `cycles` T-cycles.
    fn advance(&mut self, cycles: u8)
        requires
            old(self).wf(),
            old(self).mmu.apu.can_step_spec(),
        ensures
            final(self).wf(),
            final(self)@ == advance_spec(old(self)@, cycles),
    {
        self.mmu.step_timer(cycles);
        self.mmu.step_ppu(cycles);
        self.mmu.step_cartridge(cycles);
        proof {
            crate::mmu::lemma_dma_run_frame(
                MmuView { dma_cycle_accum: (self@.mmu.dma_cycle_accum + cycles) as u32, ..self@.mmu },
            );
        }
        self.mmu.step_dma(cycles);
        self.mmu.step_joypad();
        let n = self.mmu.step_apu(cycles);
        let m = self.mmu.apu.mix_input();
        let ghost q0 = self.samples@;
        let ghost mid = self@;
        let mut k: u64 = 0;
        while k < n && self.samples.len() < SAMPLE_QUEUE_FRAMES
            invariant
                self.mmu.wf(),
                self.mmu@ == mid.mmu,
                self.cpu == mid.cpu,
                k <= n,
                q0.len() <= SAMPLE_QUEUE_FRAMES,
                self.samples@ == q0 + Seq::new(k as nat, |i: int| m),
                self.samples@.len() <= SAMPLE_QUEUE_FRAMES,
            decreases n - k,
        {
            self.samples.push(m);
            k = k + 1;
            proof {
                assert(self.samples@ =~= q0 + Seq::new(k as nat, |i: int| m));
            }
        }
        proof {
            assert(self.samples@ =~= queue_samples(q0, m, n as nat));
        }
    }

    /// Executes one CPU instruction (or interrupt dispatch, or halted
    /// cycle) and advances every other component by the elapsed T-cycles,
    /// which it returns.
    pub fn step(&mut self) -> (cycles: u8)
        requires
            old(self).wf(),
            step_ok(old(self)@),
        ensures
            final(self).wf(),
            (final(self)@, cycles) == system_step_spec(old(self)@),
            cycles >= 4,
    {
        let cycles = self.cpu.step(&mut self.mmu);
        self.advance(cycles);
        cycles
    }

    /// [`System::step`] for any state: when the instruction leaves the APU
    /// unable to advance (its noise timer's period shifted out of 16 bits),
    /// returns `None` with only the instruction executed.
    pub fn step_checked(&mut self) -> (r: Option<u8>)
        requires
            old(self).wf(),
        ensures
            final(self).wf(),
            r matches Some(c) ==> c >= 4,
            step_ok(old(self)@) ==> r == Some(system_step_spec(old(self)@).1) && final(self)@
                == system_step_spec(old(self)@).0,
            !step_ok(old(self)@) ==> r is None && ({
                let (cpu, m, c) = step_spec(old(self)@.cpu, old(self)@.mmu);
                final(self)@ == SystemView { cpu, mmu: m, ..old(self)@ }
            }),
    {
        let cycles = self.cpu.step(&mut self.mmu);
        if !self.mmu.apu.can_step() {
            return None;
        }
        self.advance(cycles);
        Some(cycles)
    }

    /// Runs until the PPU enters VBlank (`LY` becomes
    /// [`VBLANK_START_LINE`]), i.e. to the end of the frame's visible part.
    /// Returns at once when the LCD is off, and stops if the LCD is turned
    /// off meanwhile. Returns `false` if a step could not complete (see
    /// [`System::step_checked`]).
    pub fn run_frame(&mut self) -> (completed: bool)
        requires
            old(self).wf(),
        ensures
            final(self).wf(),
            (final(self)@, completed) == run_frame_spec(old(self)@),
            completed && lcd_on(final(self)@.mmu.ppu) ==> final(self)@.mmu.ppu.ly
                == VBLANK_START_LINE && final(self)@.mmu.mem[IF_ADDR as int] & VBLANK_INT_BIT
                != 0,
    {
        if !self.mmu.ppu.lcd_enabled() {
            return true;
        }
        loop
            invariant_except_break
                lcd_on(self@.mmu.ppu),
                vblank_run(self@) == run_frame_spec(old(self)@),
            invariant
                self.wf(),
                lcd_on(old(self)@.mmu.ppu),
            ensures
                self.wf(),
                (self@, true) == run_frame_spec(old(self)@),
                lcd_on(self@.mmu.ppu) ==> self@.mmu.ppu.ly == VBLANK_START_LINE
                    && self@.mmu.mem[IF_ADDR as int] & VBLANK_INT_BIT != 0,
            decreases frame_distance(self@.mmu.ppu),
        {
            let ghost before = self@;
            proof {
                lemma_next_state_clock(before);
            }
            let ly_before = self.mmu.ppu.read_ly();
            match self.step_folded() {
                Some(c) => {},
                None => {
                    return false;
                },
            };
            let ly_after = self.mmu.ppu.read_ly();
            if ly_before != VBLANK_START_LINE && ly_after == VBLANK_START_LINE {
                break;
            }
            if !self.mmu.ppu.lcd_enabled() {
                break;
            }
        }
        true
    }

    /// [`System::step_checked`], described through [`can_complete`],
    /// [`next_state`] and [`stalled`].
    pub(crate) fn step_folded(&mut self) -> (r: Option<u8>)
        requires
            old(self).wf(),
        ensures
            final(self).wf(),
            r matches Some(c) ==> c >= 4 && can_complete(old(self)@) && next_state(old(self)@) == (
            final(self)@, c),
            r is None ==> !can_complete(old(self)@) && final(self)@ == stalled(old(self)@),
    {
        let r = self.step_checked();
        proof {
            reveal(can_complete);
            reveal(next_state);
            reveal(stalled);
        }
        r
    }

    /// Removes and returns the queued output samples, oldest first.
    pub fn take_samples(&mut self) -> (out: Vec<MixInput>)
        requires
            old(self).wf(),
        ensures
            final(self).wf(),
            out@ == old(self).samples@,
            final(self)@ == (SystemView { samples: Seq::empty(), ..old(self)@ }),
    {
        let mut out: Vec<MixInput> = Vec::new();
        std::mem::swap(&mut out, &mut self.samples);
        out
    }
}

/// Dots until the PPU next starts line 144 (a whole frame when it is
/// there now).
pub open spec fn frame_distance(p: PpuView) -> int {
    let vblank = VBLANK_START_LINE as int * SCANLINE_DOTS as int;
    let pos = frame_position(p);
    if pos < vblank {
        vblank - pos
    } else {
        vblank - pos + DOTS_PER_FRAME as int
    }
}

/// A step of 1 to 255 dots that does not enter line 144 from
/// another line brings the PPU closer to the start of line 144.
pub proof fn lemma_distance_decreases(p0: PpuView, p1: PpuView, c: u8)
    requires
        positioned(p0),
        positioned(p1),
        c >= 1,
        frame_position(p1) == (frame_position(p0) + c) % DOTS_PER_FRAME as int,
        !(p0.ly != VBLANK_START_LINE && p1.ly == VBLANK_START_LINE),
    ensures
        0 <= frame_distance(p1) < frame_distance(p0),
{
    let a = frame_position(p0);
    let b = frame_position(p1);
    if a + c < DOTS_PER_FRAME as int {
        assert(b == a + c);
    } else {
        assert(b == a + c - DOTS_PER_FRAME as int);
    }
}

/// An instruction leaves the PPU's line and dot alone unless it leaves
/// the LCD off.
proof fn lemma_cpu_step_keeps_clock(cpu: Cpu, v: MmuView)
    requires
        v.mem.len() == crate::mmu::MEM_SIZE,
        lcd_on(v.ppu),
        lcd_on(step_spec(cpu, v).1.ppu),
    ensures
        (step_spec(cpu, v).1.ppu.ly, step_spec(cpu, v).1.ppu.dot) == (v.ppu.ly, v.ppu.dot),
        step_spec(cpu, v).1.mem.len() == v.mem.len(),
{
    let pending = pending_spec(v);
    if cpu.halted && pending == 0 {
    } else {
        let c1 = Cpu { halted: false, ..cpu };
        if c1.ime && pending != 0 {
            let bit = lowest_bit(pending);
            let val = v.spec_read(IF_ADDR) & !(1u8 << bit);
            let b1 = v.spec_write(IF_ADDR, val);
            lemma_write_keeps_clock(v, IF_ADDR, val);
            let c0 = Cpu { ime: false, ..c1 };
            let b2 = step_spec(cpu, v).1;
            assert(b2 == write16_spec(b1, c0.regs.sp.wrapping_sub(2), c0.regs.pc));
            assert(at_most_one_store(b1, b2));
            lemma_store_keeps_clock(b1, b2);
        } else {
            let c2 = Cpu { ime_pending: false, ..c1 };
            let (c3, opcode) = if c2.halt_bug {
                (Cpu { halt_bug: false, ..c2 }, v.spec_read(c2.regs.pc))
            } else {
                fetch8(c2, v)
            };
            lemma_execute_store(c3, v, opcode);
            lemma_store_keeps_clock(v, execute_spec(c3, v, opcode).1);
        }
    }
}

/// A VBlank request raised while the PPU advances reaches `IF` and stays
/// there through the rest of the step.
proof fn lemma_vblank_request_kept(m1: MmuView, c: u8)
    requires
        m1.mem.len() == crate::mmu::MEM_SIZE,
        crate::mmu::ppu_step_spec(m1.ppu, c).vblank_interrupt_pending,
    ensures
        ({
            let m2 = step_ppu_spec(m1, c);
            let m5 = step_joypad_spec(m2);
            &&& m2.mem[IF_ADDR as int] & VBLANK_INT_BIT != 0
            &&& m5.mem[IF_ADDR as int] & VBLANK_INT_BIT != 0
        }),
{
    let p = crate::mmu::ppu_step_spec(m1.ppu, c);
    let x = m1.mem[IF_ADDR as int];
    let m2 = step_ppu_spec(m1, c);
    assert((x | VBLANK_INT_BIT) & VBLANK_INT_BIT != 0) by (bit_vector);
    let y = (x | VBLANK_INT_BIT);
    assert((y | crate::ppu::STAT_INT_BIT) & VBLANK_INT_BIT != 0) by (bit_vector)
        requires
            y & VBLANK_INT_BIT != 0,
    ;
    let z = m2.mem[IF_ADDR as int];
    assert((z | crate::joypad::JOYPAD_INT_BIT) & VBLANK_INT_BIT != 0) by (bit_vector)
        requires
            z & VBLANK_INT_BIT != 0,
    ;
}

/// Advancing the machine across the start of line 144 leaves the VBlank
/// request in `IF`.
proof fn lemma_advance_requests_vblank(w: SystemView, c: u8)
    requires
        positioned(w.mmu.ppu),
        lcd_on(w.mmu.ppu),
        w.mmu.mem.len() == crate::mmu::MEM_SIZE,
        w.mmu.ppu.ly != VBLANK_START_LINE,
        advance_spec(w, c).mmu.ppu.ly == VBLANK_START_LINE,
    ensures
        advance_spec(w, c).mmu.mem[IF_ADDR as int] & VBLANK_INT_BIT != 0,
{
    let m = w.mmu;
    let m1 = step_timer_spec(m, c);
    let m2 = step_ppu_spec(m1, c);
    let m3 = step_cartridge_spec(m2, c);
    let m4 = step_dma_spec(m3, c);
    lemma_run_position(m.ppu, c as nat);
    if m3.dma_active {
        lemma_dma_run_frame(MmuView { dma_cycle_accum: (m3.dma_cycle_accum + c) as u32, ..m3 });
    }
    assert(m4.ppu.ly == m2.ppu.ly && m4.mem == m2.mem);
    let vb = VBLANK_START_LINE as int * SCANLINE_DOTS as int;
    let a = frame_position(m.ppu);
    assert(a < vb);
    assert(a + c < DOTS_PER_FRAME as int);
    lemma_run_requests_vblank(m.ppu, c as nat);
    lemma_vblank_request_kept(m1, c);
    assert(step_joypad_spec(m4).mem[IF_ADDR as int] & VBLANK_INT_BIT != 0);
}

/// One system step with the LCD on: if the instruction leaves the LCD on,
/// the PPU moves on by exactly the step's T-cycles (within the frame);
/// if it switches the LCD off, the LCD stays off.
proof fn lemma_step_advances_clock(v: SystemView)
    requires
        positioned(v.mmu.ppu),
        lcd_on(v.mmu.ppu),
        v.mmu.mem.len() == crate::mmu::MEM_SIZE,
    ensures
        ({
            let (cpu, m, c) = step_spec(v.cpu, v.mmu);
            let (v2, c2) = system_step_spec(v);
            &&& c2 == c
            &&& lcd_on(m.ppu) && v.mmu.ppu.ly != VBLANK_START_LINE && v2.mmu.ppu.ly
                == VBLANK_START_LINE ==> v2.mmu.mem[IF_ADDR as int] & VBLANK_INT_BIT != 0
            &&& lcd_on(m.ppu) ==> lcd_on(v2.mmu.ppu) && positioned(v2.mmu.ppu) && frame_position(
                v2.mmu.ppu,
            ) == (frame_position(v.mmu.ppu) + c) % DOTS_PER_FRAME as int
            &&& lcd_on(m.ppu) ==> v2.mmu.mem.len() == crate::mmu::MEM_SIZE
            &&& !lcd_on(m.ppu) ==> !lcd_on(v2.mmu.ppu)
        }),
{
    let (cpu, m, c) = step_spec(v.cpu, v.mmu);
    let m1 = step_timer_spec(m, c);
    let m2 = step_ppu_spec(m1, c);
    let m3 = step_cartridge_spec(m2, c);
    let m4 = step_dma_spec(m3, c);
    if lcd_on(m.ppu) {
        lemma_cpu_step_keeps_clock(v.cpu, v.mmu);
        lemma_run_position(m.ppu, c as nat);
    }
    if m3.dma_active {
        lemma_dma_run_frame(MmuView { dma_cycle_accum: (m3.dma_cycle_accum + c) as u32, ..m3 });
    }
    assert(m4.ppu.ly == m2.ppu.ly && m4.ppu.dot == m2.ppu.dot && m4.ppu.lcdc == m2.ppu.lcdc);
    assert(m4.mem == m2.mem);
    if lcd_on(m.ppu) {
        assert(m1.mem.len() == m.mem.len());
        assert(m2.mem.len() == m1.mem.len());
    }
    if lcd_on(m.ppu) && v.mmu.ppu.ly != VBLANK_START_LINE && m2.ppu.ly == VBLANK_START_LINE {
        lemma_advance_requests_vblank(SystemView { cpu, mmu: m, ..v }, c);
    }
}

/// Whether the next step can complete ([`step_ok`]).
#[verifier::opaque]
pub open spec fn can_complete(v: SystemView) -> bool {
    step_ok(v)
}

/// The state and T-cycles after one step ([`system_step_spec`]).
#[verifier::opaque]
pub open spec fn next_state(v: SystemView) -> (SystemView, u8) {
    system_step_spec(v)
}

/// The state after a step that cannot complete: only the instruction ran.
#[verifier::opaque]
pub open spec fn stalled(v: SystemView) -> SystemView {
    let (cpu, m, c) = step_spec(v.cpu, v.mmu);
    SystemView { cpu, mmu: m, ..v }
}

/// What one step does to the PPU's clock, through [`next_state`]: with
/// the LCD on before and after, the PPU moves on by exactly the step's
/// T-cycles, and entering line 144 leaves the VBlank request in `IF`.
pub proof fn lemma_next_state_clock(v: SystemView)
    requires
        positioned(v.mmu.ppu),
        lcd_on(v.mmu.ppu),
        v.mmu.mem.len() == crate::mmu::MEM_SIZE,
    ensures
        ({
            let (v2, c) = next_state(v);
            &&& lcd_on(v2.mmu.ppu) ==> positioned(v2.mmu.ppu) && v2.mmu.mem.len()
                == crate::mmu::MEM_SIZE && frame_position(v2.mmu.ppu) == (frame_position(v.mmu.ppu)
                + c) % DOTS_PER_FRAME as int
            &&& lcd_on(v2.mmu.ppu) && v.mmu.ppu.ly != VBLANK_START_LINE && v2.mmu.ppu.ly
                == VBLANK_START_LINE ==> v2.mmu.mem[IF_ADDR as int] & VBLANK_INT_BIT != 0
        }),
{
    reveal(next_state);
    lemma_step_advances_clock(v);
}

/// Where the VBlank loop of [`System::run_frame`] ends from `v`: it steps
/// until a step enters line 144, turns the LCD off, or cannot complete
/// (`false`).
pub open spec fn vblank_run(v: SystemView) -> (SystemView, bool)
    decreases frame_distance(v.mmu.ppu),
{
    if !(positioned(v.mmu.ppu) && lcd_on(v.mmu.ppu) && v.mmu.mem.len() == crate::mmu::MEM_SIZE) {
        (v, true)
    } else if !can_complete(v) {
        (stalled(v), false)
    } else {
        let (v2, c) = next_state(v);
        if v.mmu.ppu.ly != VBLANK_START_LINE && v2.mmu.ppu.ly == VBLANK_START_LINE {
            (v2, true)
        } else if !lcd_on(v2.mmu.ppu) || c == 0 {
            (v2, true)
        } else {
            proof {
                lemma_next_state_clock(v);
                lemma_distance_decreases(v.mmu.ppu, v2.mmu.ppu, c);
            }
            vblank_run(v2)
        }
    }
}

/// [`System::run_frame`] from `v`: nothing while the LCD is off, else the
/// VBlank loop.
pub open spec fn run_frame_spec(v: SystemView) -> (SystemView, bool) {
    if !lcd_on(v.mmu.ppu) {
        (v, true)
    } else {
        vblank_run(v)
    }
}

} // verus!
