//! Memory management unit: the bus, the memory map, I/O register dispatch
//! and OAM DMA.
//!
//! Addresses not routed elsewhere (WRAM, HRAM, echo RAM, `IF`, `IE`, the
//! unmapped I/O holes) hit one flat 64KB byte array. Real routing exists
//! for the regions with side effects or their own storage: the serial
//! port, timer, joypad, APU registers and wave RAM, PPU registers, VRAM
//! and OAM; ROM and cartridge RAM go to the installed [`Cartridge`] when
//! there is one (loaded with [`Mmu::load_cartridge`]), else to flat memory
//! ([`Mmu::load_rom`], used for synthetic test programs).
//!
//! Writing `DMA` (0xFF46) starts an OAM DMA transfer: 160 bytes copied from
//! `val * 0x100` into OAM, one every 4 T-cycles, paced by
//! [`Mmu::step_dma`]. While it runs, the CPU's view of the bus reaches only
//! HRAM (0xFF80-0xFFFF): every other address reads `0xFF` and ignores
//! writes. The DMA engine itself reads through the full dispatch.
use vstd::prelude::*;
use crate::apu::{self, Apu};
use crate::cartridge::{Cartridge, CartView, header_matches, padded_rom, ram_len_for,
    initial_mbc_state, ROM_BANK_SIZE, header_warnings, write_register_spec, rtc_step_spec};
use crate::cpu::{Bus, BusModel, IF_ADDR};
use crate::joypad::{Joypad, JoypadView, JOYPAD_INT_BIT, latch_edge, selected_lines_spec,
    UNUSED_BITS, SELECT_MASK};
use crate::ppu::{Ppu, PpuView, OAM_BASE, VRAM_BASE, STAT_INT_BIT, VBLANK_INT_BIT, read_stat_spec,
    write_lcdc_spec, update_stat_spec, STAT_WRITABLE_MASK, run_spec, lcd_on};
use crate::serial::{Serial, SerialView, SERIAL_INT_BIT, SC_UNUSED_MASK, write_sc_spec};
use crate::timer::{Timer, TimerView, TIMER_INT_BIT, set_counter_spec, write_tac_spec};

verus! {

pub const JOYP_ADDR: u16 = 0xFF00;
pub const SB_ADDR: u16 = 0xFF01;
pub const SC_ADDR: u16 = 0xFF02;
pub const DIV_ADDR: u16 = 0xFF04;
pub const TIMA_ADDR: u16 = 0xFF05;
pub const TMA_ADDR: u16 = 0xFF06;
pub const TAC_ADDR: u16 = 0xFF07;
pub const LCDC_ADDR: u16 = 0xFF40;
pub const STAT_ADDR: u16 = 0xFF41;
pub const SCY_ADDR: u16 = 0xFF42;
pub const SCX_ADDR: u16 = 0xFF43;
pub const LY_ADDR: u16 = 0xFF44;
pub const LYC_ADDR: u16 = 0xFF45;
pub const DMA_ADDR: u16 = 0xFF46;
pub const BGP_ADDR: u16 = 0xFF47;
pub const OBP0_ADDR: u16 = 0xFF48;
pub const OBP1_ADDR: u16 = 0xFF49;
pub const WY_ADDR: u16 = 0xFF4A;
pub const WX_ADDR: u16 = 0xFF4B;
pub const VRAM_END: u16 = 0x9FFF;
pub const OAM_END: u16 = 0xFE9F;
pub const ROM_END: u16 = 0x7FFF;
pub const CART_RAM_START: u16 = 0xA000;
pub const CART_RAM_END: u16 = 0xBFFF;
/// Accessible to the CPU even while an OAM DMA transfer is in progress.
pub const HRAM_START: u16 = 0xFF80;
pub const DMA_TRANSFER_BYTES: u16 = 160;
pub const DMA_T_CYCLES_PER_BYTE: u32 = 4;
pub const MEM_SIZE: usize = 0x10000;

/// Flat 64KB memory plus the serial port, timer, PPU, joypad, APU and (once
/// loaded) cartridge, and the OAM DMA engine's state.
pub struct Mmu {
    pub mem: Vec<u8>,
    pub serial: Serial,
    pub timer: Timer,
    pub ppu: Ppu,
    pub joypad: Joypad,
    pub apu: Apu,
    pub cartridge: Option<Cartridge>,
    pub dma_active: bool,
    pub dma_source_high: u8,
    pub dma_progress: u16,
    pub dma_cycle_accum: u32,
}

/// The memory map's state: each component by its view.
pub struct MmuView {
    pub mem: Seq<u8>,
    pub serial: SerialView,
    pub timer: TimerView,
    pub ppu: PpuView,
    pub joypad: JoypadView,
    pub apu: Apu,
    pub cartridge: Option<CartView>,
    pub dma_active: bool,
    pub dma_source_high: u8,
    pub dma_progress: u16,
    pub dma_cycle_accum: u32,
}

impl View for Mmu {
    type V = MmuView;

    open spec fn view(&self) -> MmuView {
        MmuView {
            mem: self.mem@,
            serial: self.serial@,
            timer: self.timer@,
            ppu: self.ppu@,
            joypad: self.joypad@,
            apu: self.apu,
            cartridge: match self.cartridge {
                Some(c) => Some(c@),
                None => None,
            },
            dma_active: self.dma_active,
            dma_source_high: self.dma_source_high,
            dma_progress: self.dma_progress,
            dma_cycle_accum: self.dma_cycle_accum,
        }
    }
}

/// `IF` with `bit` requested when `raise` holds.
pub open spec fn request(mem: Seq<u8>, raise: bool, bit: u8) -> Seq<u8> {
    if raise {
        mem.update(IF_ADDR as int, mem[IF_ADDR as int] | bit)
    } else {
        mem
    }
}

/// A cartridge image freshly parsed from `data`.
pub open spec fn loaded_from(c: CartView, data: Seq<u8>) -> bool {
    &&& header_matches(c.header, data)
    &&& c.rom == padded_rom(data, c.header.rom_banks * ROM_BANK_SIZE as int)
    &&& c.ram == Seq::new(ram_len_for(c.header) as nat, |i: int| 0u8)
    &&& c.mbc == initial_mbc_state(c.header.mbc)
    &&& !c.dirty
}

/// Whether `addr` is one of the APU's registers that read back (the
/// write-only frequency/length registers read as open bus).
pub open spec fn apu_readable(addr: u16) -> bool {
    addr == apu::NR10_ADDR || addr == apu::NR11_ADDR || addr == apu::NR12_ADDR || addr
        == apu::NR14_ADDR || addr == apu::NR21_ADDR || addr == apu::NR22_ADDR || addr
        == apu::NR24_ADDR || addr == apu::NR30_ADDR || addr == apu::NR32_ADDR || addr
        == apu::NR34_ADDR || addr == apu::NR42_ADDR || addr == apu::NR43_ADDR || addr
        == apu::NR44_ADDR || addr == apu::NR50_ADDR || addr == apu::NR51_ADDR || addr
        == apu::NR52_ADDR || (apu::WAVE_RAM_START <= addr <= apu::WAVE_RAM_END)
}

pub open spec fn apu_write_only(addr: u16) -> bool {
    addr == apu::NR13_ADDR || addr == apu::NR23_ADDR || addr == apu::NR31_ADDR || addr
        == apu::NR33_ADDR || addr == apu::NR41_ADDR
}

pub open spec fn apu_writable(addr: u16) -> bool {
    apu_readable(addr) || apu_write_only(addr)
}

/// Whether `addr` is a PPU register (the DMA register excepted).
pub open spec fn ppu_register(addr: u16) -> bool {
    LCDC_ADDR <= addr <= WX_ADDR && addr != DMA_ADDR
}

pub open spec fn ppu_read_spec(p: PpuView, addr: u16) -> u8 {
    if addr == LCDC_ADDR {
        p.lcdc
    } else if addr == STAT_ADDR {
        read_stat_spec(p)
    } else if addr == SCY_ADDR {
        p.scy
    } else if addr == SCX_ADDR {
        p.scx
    } else if addr == LY_ADDR {
        p.ly
    } else if addr == LYC_ADDR {
        p.lyc
    } else if addr == BGP_ADDR {
        p.bgp
    } else if addr == OBP0_ADDR {
        p.obp0
    } else if addr == OBP1_ADDR {
        p.obp1
    } else if addr == WY_ADDR {
        p.wy
    } else {
        p.wx
    }
}

/// PPU register writes; `LY` is read-only.
pub open spec fn ppu_write_spec(p: PpuView, addr: u16, val: u8) -> PpuView {
    if addr == LCDC_ADDR {
        write_lcdc_spec(p, val)
    } else if addr == STAT_ADDR {
        update_stat_spec(PpuView { stat: val & STAT_WRITABLE_MASK, ..p })
    } else if addr == SCY_ADDR {
        PpuView { scy: val, ..p }
    } else if addr == SCX_ADDR {
        PpuView { scx: val, ..p }
    } else if addr == LY_ADDR {
        p
    } else if addr == LYC_ADDR {
        update_stat_spec(PpuView { lyc: val, ..p })
    } else if addr == BGP_ADDR {
        PpuView { bgp: val, ..p }
    } else if addr == OBP0_ADDR {
        PpuView { obp0: val, ..p }
    } else if addr == OBP1_ADDR {
        PpuView { obp1: val, ..p }
    } else if addr == WY_ADDR {
        PpuView { wy: val, ..p }
    } else {
        PpuView { wx: val, ..p }
    }
}

/// What a read of `addr` returns, with full bus access (the DMA engine's
/// view).
pub open spec fn dispatch_read_spec(v: MmuView, addr: u16) -> u8 {
    if addr == JOYP_ADDR {
        UNUSED_BITS | v.joypad.select_bits | selected_lines_spec(v.joypad)
    } else if addr == SB_ADDR {
        v.serial.sb
    } else if addr == SC_ADDR {
        v.serial.sc | SC_UNUSED_MASK
    } else if addr == DIV_ADDR {
        (v.timer.div_counter / 256) as u8
    } else if addr == TIMA_ADDR {
        v.timer.tima
    } else if addr == TMA_ADDR {
        v.timer.tma
    } else if addr == TAC_ADDR {
        v.timer.tac | 0b1111_1000
    } else if apu_write_only(addr) {
        0xFF
    } else if apu_readable(addr) {
        v.apu.read_spec(addr)
    } else if addr == DMA_ADDR {
        v.dma_source_high
    } else if ppu_register(addr) {
        ppu_read_spec(v.ppu, addr)
    } else if VRAM_BASE <= addr <= VRAM_END {
        v.ppu.vram[addr - VRAM_BASE]
    } else if OAM_BASE <= addr <= OAM_END {
        v.ppu.oam[addr - OAM_BASE]
    } else if addr <= ROM_END && v.cartridge is Some {
        v.cartridge->0.read_rom_spec(addr)
    } else if CART_RAM_START <= addr <= CART_RAM_END && v.cartridge is Some {
        v.cartridge->0.read_ram_spec(addr)
    } else {
        v.mem[addr as int]
    }
}

/// The state after a write of `val` to `addr`, with full bus access.
pub open spec fn dispatch_write_spec(v: MmuView, addr: u16, val: u8) -> MmuView {
    if addr == JOYP_ADDR {
        MmuView {
            joypad: latch_edge(v.joypad, JoypadView { select_bits: val & SELECT_MASK, ..v.joypad }),
            ..v
        }
    } else if addr == SB_ADDR {
        MmuView { serial: SerialView { sb: val, ..v.serial }, ..v }
    } else if addr == SC_ADDR {
        let s = write_sc_spec(v.serial, val);
        MmuView {
            serial: SerialView { interrupt_pending: false, ..s },
            mem: request(v.mem, s.interrupt_pending, SERIAL_INT_BIT),
            ..v
        }
    } else if addr == DIV_ADDR {
        MmuView { timer: set_counter_spec(v.timer, 0), ..v }
    } else if addr == TIMA_ADDR {
        MmuView { timer: TimerView { tima: val, ..v.timer }, ..v }
    } else if addr == TMA_ADDR {
        MmuView { timer: TimerView { tma: val, ..v.timer }, ..v }
    } else if addr == TAC_ADDR {
        MmuView { timer: write_tac_spec(v.timer, val), ..v }
    } else if apu_writable(addr) {
        MmuView { apu: v.apu.write_spec(addr, val), ..v }
    } else if addr == DMA_ADDR {
        MmuView { dma_source_high: val, dma_progress: 0, dma_cycle_accum: 0, dma_active: true, ..v }
    } else if ppu_register(addr) {
        MmuView { ppu: ppu_write_spec(v.ppu, addr, val), ..v }
    } else if VRAM_BASE <= addr <= VRAM_END {
        MmuView { ppu: PpuView { vram: v.ppu.vram.update(addr - VRAM_BASE, val), ..v.ppu }, ..v }
    } else if OAM_BASE <= addr <= OAM_END {
        MmuView { ppu: PpuView { oam: v.ppu.oam.update(addr - OAM_BASE, val), ..v.ppu }, ..v }
    } else if addr <= ROM_END && v.cartridge is Some {
        let c = v.cartridge->0;
        MmuView {
            cartridge: Some(CartView { mbc: write_register_spec(c.mbc, addr, val), ..c }),
            ..v
        }
    } else if CART_RAM_START <= addr <= CART_RAM_END && v.cartridge is Some {
        let c = v.cartridge->0;
        let (ram, mbc, dirty) = c.write_ram_spec(addr, val);
        MmuView { cartridge: Some(CartView { ram, mbc, dirty, ..c }), ..v }
    } else {
        MmuView { mem: v.mem.update(addr as int, val), ..v }
    }
}

/// Whether the CPU is locked out of `addr` by a running DMA transfer.
pub open spec fn dma_blocks(v: MmuView, addr: u16) -> bool {
    v.dma_active && addr < HRAM_START
}

impl BusModel for MmuView {
    open spec fn spec_read(&self, addr: u16) -> u8 {
        if dma_blocks(*self, addr) {
            0xFF
        } else {
            dispatch_read_spec(*self, addr)
        }
    }

    open spec fn spec_write(&self, addr: u16, val: u8) -> MmuView {
        if dma_blocks(*self, addr) {
            *self
        } else {
            dispatch_write_spec(*self, addr, val)
        }
    }
}

/// One DMA byte: copy the next source byte into OAM and advance.
pub open spec fn dma_one(v: MmuView) -> MmuView {
    let src = (v.dma_source_high as int * 256 + v.dma_progress) as u16;
    let byte = dispatch_read_spec(v, src);
    let progress = (v.dma_progress + 1) as u16;
    MmuView {
        dma_cycle_accum: (v.dma_cycle_accum - DMA_T_CYCLES_PER_BYTE) as u32,
        ppu: PpuView { oam: v.ppu.oam.update(v.dma_progress as int, byte), ..v.ppu },
        dma_progress: progress,
        dma_active: progress < DMA_TRANSFER_BYTES,
        ..v
    }
}

/// Copies bytes while the transfer runs and a whole byte's cycles are
/// banked.
pub open spec fn dma_run(v: MmuView) -> MmuView
    decreases v.dma_cycle_accum,
{
    if v.dma_active && v.dma_cycle_accum >= DMA_T_CYCLES_PER_BYTE {
        dma_run(dma_one(v))
    } else {
        v
    }
}

/// A DMA run touches only OAM and the DMA engine's own state.
pub proof fn lemma_dma_run_frame(v: MmuView)
    ensures
        dma_run(v) == (MmuView {
            ppu: PpuView { oam: dma_run(v).ppu.oam, ..v.ppu },
            dma_active: dma_run(v).dma_active,
            dma_progress: dma_run(v).dma_progress,
            dma_cycle_accum: dma_run(v).dma_cycle_accum,
            ..v
        }),
    decreases v.dma_cycle_accum,
{
    if v.dma_active && v.dma_cycle_accum >= DMA_T_CYCLES_PER_BYTE {
        lemma_dma_run_frame(dma_one(v));
    }
}

/// The DMA engine after `t_cycles` more T-cycles.
pub open spec fn step_dma_spec(v: MmuView, t_cycles: u8) -> MmuView {
    if !v.dma_active {
        v
    } else {
        dma_run(MmuView { dma_cycle_accum: (v.dma_cycle_accum + t_cycles) as u32, ..v })
    }
}

impl Mmu {
    /// Internal consistency: 64KB of flat memory, consistent APU and
    /// cartridge, and a running transfer within its 160 bytes with less
    /// than a byte's cycles banked.
    pub open spec fn wf(&self) -> bool {
        &&& self.storage_ok()
        &&& (self.dma_active ==> self.dma_progress < DMA_TRANSFER_BYTES && self.dma_cycle_accum
            < DMA_T_CYCLES_PER_BYTE)
    }

    /// Flat memory spans the address space; the PPU's line and dot are
    /// within the frame; the APU and cartridge are consistent.
    pub open spec fn storage_ok(&self) -> bool {
        &&& self.mem@.len() == MEM_SIZE
        &&& crate::ppu::positioned(self.ppu@)
        &&& self.apu.wf()
        &&& (self.cartridge matches Some(c) ==> c.wf())
    }

    pub open spec fn initial_view(v: MmuView) -> bool {
        &&& v.mem == Seq::new(MEM_SIZE as nat, |i: int| 0u8)
        &&& v.cartridge is None
        &&& !v.dma_active
        &&& v.dma_source_high == 0
        &&& v.dma_progress == 0
        &&& v.dma_cycle_accum == 0
        &&& v.apu == Apu::powered_off(v.apu.ch3.ram)
    }

    pub fn new() -> (m: Self)
        ensures
            m.wf(),
            Mmu::initial_view(m@),
            m@.ppu == crate::ppu::initial_ppu(),
    {
        let mem = vec![0u8; MEM_SIZE];
        proof {
            assert(mem@ =~= Seq::new(MEM_SIZE as nat, |i: int| 0u8));
        }
        Mmu {
            mem,
            serial: Serial::new(),
            timer: Timer::new(),
            ppu: Ppu::new(),
            joypad: Joypad::new(),
            apu: Apu::new(),
            cartridge: None,
            dma_active: false,
            dma_source_high: 0,
            dma_progress: 0,
            dma_cycle_accum: 0,
        }
    }

    /// Loads ROM bytes at address 0x0000 into flat memory, truncated to the
    /// address space: no banking, and any installed cartridge is removed.
    /// This is the loading path for small synthetic programs with no real
    /// cartridge header; see [`Mmu::load_cartridge`] for ROM files.
    pub fn load_rom(&mut self, data: &[u8])
        requires
            old(self).wf(),
        ensures
            final(self).wf(),
            final(self)@ == (MmuView {
                cartridge: None,
                mem: Seq::new(
                    MEM_SIZE as nat,
                    |i: int|
                        if i < data@.len() {
                            data@[i]
                        } else {
                            old(self)@.mem[i]
                        },
                ),
                ..old(self)@
            }),
    {
        self.cartridge = None;
        let len = if data.len() < MEM_SIZE {
            data.len()
        } else {
            MEM_SIZE
        };
        let mut mem: Vec<u8> = Vec::new();
        std::mem::swap(&mut mem, &mut self.mem);
        let ghost old_mem = mem@;
        let mut i: usize = 0;
        while i < len
            invariant
                i <= len,
                len <= data@.len(),
                len <= MEM_SIZE,
                old_mem.len() == MEM_SIZE,
                mem@.len() == MEM_SIZE,
                forall|j: int|
                    0 <= j < MEM_SIZE ==> #[trigger] mem@[j] == if j < i {
                        data@[j]
                    } else {
                        old_mem[j]
                    },
            decreases len - i,
        {
            mem.set(i, data[i]);
            i = i + 1;
        }
        std::mem::swap(&mut mem, &mut self.mem);
        proof {
            assert(self.mem@ =~= Seq::new(
                MEM_SIZE as nat,
                |i: int|
                    if i < data@.len() {
                        data@[i]
                    } else {
                        old(self)@.mem[i]
                    },
            ));
        }
    }

    /// Parses `data` as a cartridge image (header, MBC, banking) and
    /// installs it, replacing any previous cartridge or flat-loaded ROM.
    /// Returns the header's non-fatal validation warnings.
    pub fn load_cartridge(&mut self, data: &[u8]) -> (warnings: Vec<String>)
        requires
            old(self).wf(),
            data@.len() <= isize::MAX,
        ensures
            final(self).wf(),
            final(self)@.cartridge matches Some(c) && loaded_from(c, data@),
            final(self)@ == (MmuView { cartridge: final(self)@.cartridge, ..old(self)@ }),
            warnings.deep_view() == header_warnings(data@),
    {
        let (cartridge, warnings) = Cartridge::from_rom_bytes(data);
        self.cartridge = Some(cartridge);
        warnings
    }

    /// Advances the timer by `t_cycles` T-cycles and folds a resulting
    /// overflow into `IF`.
    pub fn step_timer(&mut self, t_cycles: u8)
        requires
            old(self).wf(),
        ensures
            final(self).wf(),
            final(self)@ == step_timer_spec(old(self)@, t_cycles),
    {
        self.timer.step(t_cycles);
        if self.timer.take_interrupt() {
            self.mem.set(IF_ADDR as usize, self.mem[IF_ADDR as usize] | TIMER_INT_BIT);
        }
    }

    /// Advances the PPU by `t_cycles` T-cycles and folds any VBlank/STAT
    /// interrupt requests into `IF`.
    pub fn step_ppu(&mut self, t_cycles: u8)
        requires
            old(self).wf(),
        ensures
            final(self).wf(),
            final(self)@ == step_ppu_spec(old(self)@, t_cycles),
    {
        proof {
            crate::ppu::lemma_run_position(self.ppu@, t_cycles as nat);
        }
        self.ppu.step(t_cycles);
        if self.ppu.take_vblank_interrupt() {
            self.mem.set(IF_ADDR as usize, self.mem[IF_ADDR as usize] | VBLANK_INT_BIT);
        }
        if self.ppu.take_stat_interrupt() {
            self.mem.set(IF_ADDR as usize, self.mem[IF_ADDR as usize] | STAT_INT_BIT);
        }
    }

    /// Advances the installed cartridge's MBC3 clock (a no-op for every
    /// other MBC, or without a cartridge).
    pub fn step_cartridge(&mut self, t_cycles: u8)
        requires
            old(self).wf(),
        ensures
            final(self).wf(),
            final(self)@ == step_cartridge_spec(old(self)@, t_cycles),
    {
        if let Some(cart) = &mut self.cartridge {
            cart.step(t_cycles);
        }
    }

    /// Folds a pending joypad interrupt request into `IF`.
    pub fn step_joypad(&mut self)
        requires
            old(self).wf(),
        ensures
            final(self).wf(),
            final(self)@ == step_joypad_spec(old(self)@),
    {
        if self.joypad.take_interrupt() {
            self.mem.set(IF_ADDR as usize, self.mem[IF_ADDR as usize] | JOYPAD_INT_BIT);
        }
    }

    /// Advances the APU by `t_cycles` T-cycles; returns how many output
    /// samples came due.
    pub fn step_apu(&mut self, t_cycles: u8) -> (samples: u64)
        requires
            old(self).wf(),
            old(self).apu.can_step_spec(),
        ensures
            final(self).wf(),
            (final(self)@, samples) == step_apu_spec(old(self)@, t_cycles),
    {
        self.apu.step(t_cycles)
    }

    /// Advances a running OAM DMA transfer by `t_cycles` T-cycles, copying
    /// one byte every 4 T-cycles until all 160 are done.
    pub fn step_dma(&mut self, t_cycles: u8)
        requires
            old(self).wf(),
        ensures
            final(self).wf(),
            final(self)@ == step_dma_spec(old(self)@, t_cycles),
    {
        if !self.dma_active {
            return;
        }
        self.dma_cycle_accum = self.dma_cycle_accum + t_cycles as u32;
        let ghost target = dma_run(self@);
        while self.dma_active && self.dma_cycle_accum >= DMA_T_CYCLES_PER_BYTE
            invariant
                self.storage_ok(),
                self.dma_active ==> self.dma_progress < DMA_TRANSFER_BYTES,
                self.dma_cycle_accum < 260,
                dma_run(self@) == target,
            decreases self.dma_cycle_accum,
        {
            let src: u16 = self.dma_source_high as u16 * 256 + self.dma_progress;
            let byte = self.dispatch_read(src);
            self.dma_cycle_accum = self.dma_cycle_accum - DMA_T_CYCLES_PER_BYTE;
            self.ppu.write_oam(OAM_BASE + self.dma_progress, byte);
            self.dma_progress = self.dma_progress + 1;
            if self.dma_progress >= DMA_TRANSFER_BYTES {
                self.dma_active = false;
            }
        }
    }

    /// The full per-address read dispatch, shared by the CPU's gated view
    /// and the DMA engine.
    fn dispatch_read(&self, addr: u16) -> (v: u8)
        requires
            self.storage_ok(),
        ensures
            v == dispatch_read_spec(self@, addr),
    {
        if addr < 0x8000 {
            match &self.cartridge {
                Some(cart) => cart.read_rom(addr),
                None => self.mem[addr as usize],
            }
        } else if addr <= VRAM_END {
            self.ppu.read_vram(addr)
        } else if addr <= CART_RAM_END {
            if addr >= CART_RAM_START {
                match &self.cartridge {
                    Some(cart) => cart.read_ram(addr),
                    None => self.mem[addr as usize],
                }
            } else {
                self.mem[addr as usize]
            }
        } else if OAM_BASE <= addr && addr <= OAM_END {
            self.ppu.read_oam(addr)
        } else if addr < 0xFF00 || addr >= 0xFF4C {
            self.mem[addr as usize]
        } else {
            self.read_io(addr)
        }
    }

    /// Reads of the I/O block 0xFF00-0xFF4B.
    #[verifier::rlimit(40)]
    fn read_io(&self, addr: u16) -> (v: u8)
        requires
            self.storage_ok(),
            0xFF00 <= addr <= WX_ADDR,
        ensures
            v == dispatch_read_spec(self@, addr),
    {
        if addr == JOYP_ADDR {
            self.joypad.read_joyp()
        } else if addr == SB_ADDR {
            self.serial.read_sb()
        } else if addr == SC_ADDR {
            self.serial.read_sc()
        } else if addr == DIV_ADDR {
            self.timer.read_div()
        } else if addr == TIMA_ADDR {
            self.timer.read_tima()
        } else if addr == TMA_ADDR {
            self.timer.read_tma()
        } else if addr == TAC_ADDR {
            self.timer.read_tac()
        } else if addr == apu::NR13_ADDR || addr == apu::NR23_ADDR || addr == apu::NR31_ADDR
            || addr == apu::NR33_ADDR || addr == apu::NR41_ADDR {
            0xFF
        } else if apu::NR10_ADDR <= addr && addr <= apu::WAVE_RAM_END {
            self.read_apu(addr)
        } else if addr == DMA_ADDR {
            self.dma_source_high
        } else if LCDC_ADDR <= addr {
            self.read_ppu_register(addr)
        } else {
            self.mem[addr as usize]
        }
    }

    fn read_apu(&self, addr: u16) -> (v: u8)
        requires
            self.storage_ok(),
            apu::NR10_ADDR <= addr <= apu::WAVE_RAM_END,
            !apu_write_only(addr),
        ensures
            v == if apu_readable(addr) {
                self.apu.read_spec(addr)
            } else {
                self.mem@[addr as int]
            },
    {
        if addr == apu::NR10_ADDR {
            self.apu.read_nr10()
        } else if addr == apu::NR11_ADDR {
            self.apu.read_nr11()
        } else if addr == apu::NR12_ADDR {
            self.apu.read_nr12()
        } else if addr == apu::NR14_ADDR {
            self.apu.read_nr14()
        } else if addr == apu::NR21_ADDR {
            self.apu.read_nr21()
        } else if addr == apu::NR22_ADDR {
            self.apu.read_nr22()
        } else if addr == apu::NR24_ADDR {
            self.apu.read_nr24()
        } else if addr == apu::NR30_ADDR {
            self.apu.read_nr30()
        } else if addr == apu::NR32_ADDR {
            self.apu.read_nr32()
        } else if addr == apu::NR34_ADDR {
            self.apu.read_nr34()
        } else if addr == apu::NR42_ADDR {
            self.apu.read_nr42()
        } else if addr == apu::NR43_ADDR {
            self.apu.read_nr43()
        } else if addr == apu::NR44_ADDR {
            self.apu.read_nr44()
        } else if addr == apu::NR50_ADDR {
            self.apu.read_nr50()
        } else if addr == apu::NR51_ADDR {
            self.apu.read_nr51()
        } else if addr == apu::NR52_ADDR {
            self.apu.read_nr52()
        } else if apu::WAVE_RAM_START <= addr {
            self.apu.read_wave_ram(addr)
        } else {
            self.mem[addr as usize]
        }
    }

    fn read_ppu_register(&self, addr: u16) -> (v: u8)
        requires
            ppu_register(addr),
        ensures
            v == ppu_read_spec(self.ppu@, addr),
    {
        if addr == LCDC_ADDR {
            self.ppu.read_lcdc()
        } else if addr == STAT_ADDR {
            self.ppu.read_stat()
        } else if addr == SCY_ADDR {
            self.ppu.read_scy()
        } else if addr == SCX_ADDR {
            self.ppu.read_scx()
        } else if addr == LY_ADDR {
            self.ppu.read_ly()
        } else if addr == LYC_ADDR {
            self.ppu.read_lyc()
        } else if addr == BGP_ADDR {
            self.ppu.read_bgp()
        } else if addr == OBP0_ADDR {
            self.ppu.read_obp0()
        } else if addr == OBP1_ADDR {
            self.ppu.read_obp1()
        } else if addr == WY_ADDR {
            self.ppu.read_wy()
        } else {
            self.ppu.read_wx()
        }
    }

    /// The full per-address write dispatch; see [`Mmu::dispatch_read`].
    fn dispatch_write(&mut self, addr: u16, val: u8)
        requires
            old(self).wf(),
        ensures
            final(self).wf(),
            final(self)@ == dispatch_write_spec(old(self)@, addr, val),
    {
        if addr < 0x8000 {
            if let Some(cart) = &mut self.cartridge {
                cart.write_rom_register(addr, val);
            } else {
                self.mem.set(addr as usize, val);
            }
        } else if addr <= VRAM_END {
            self.ppu.write_vram(addr, val);
        } else if addr <= CART_RAM_END {
            if addr >= CART_RAM_START && self.cartridge.is_some() {
                if let Some(cart) = &mut self.cartridge {
                    cart.write_ram(addr, val);
                }
            } else {
                self.mem.set(addr as usize, val);
            }
        } else if OAM_BASE <= addr && addr <= OAM_END {
            self.ppu.write_oam(addr, val);
        } else if addr < 0xFF00 || addr >= 0xFF4C {
            self.mem.set(addr as usize, val);
        } else {
            self.write_io(addr, val);
        }
    }

    /// Writes to the I/O block 0xFF00-0xFF4B.
    #[verifier::rlimit(40)]
    fn write_io(&mut self, addr: u16, val: u8)
        requires
            old(self).wf(),
            0xFF00 <= addr <= WX_ADDR,
        ensures
            final(self).wf(),
            final(self)@ == dispatch_write_spec(old(self)@, addr, val),
    {
        if addr == JOYP_ADDR {
            self.joypad.write_joyp(val);
        } else if addr == SB_ADDR {
            self.serial.write_sb(val);
        } else if addr == SC_ADDR {
            self.serial.write_sc(val);
            if self.serial.take_interrupt() {
                self.mem.set(IF_ADDR as usize, self.mem[IF_ADDR as usize] | SERIAL_INT_BIT);
            }
        } else if addr == DIV_ADDR {
            self.timer.write_div(val);
        } else if addr == TIMA_ADDR {
            self.timer.write_tima(val);
        } else if addr == TMA_ADDR {
            self.timer.write_tma(val);
        } else if addr == TAC_ADDR {
            self.timer.write_tac(val);
        } else if apu::NR10_ADDR <= addr && addr <= apu::WAVE_RAM_END {
            self.write_apu(addr, val);
        } else if addr == DMA_ADDR {
            self.dma_source_high = val;
            self.dma_progress = 0;
            self.dma_cycle_accum = 0;
            self.dma_active = true;
        } else if LCDC_ADDR <= addr {
            self.write_ppu_register(addr, val);
        } else {
            self.mem.set(addr as usize, val);
        }
    }

    #[verifier::rlimit(40)]
    fn write_apu(&mut self, addr: u16, val: u8)
        requires
            old(self).wf(),
            apu::NR10_ADDR <= addr <= apu::WAVE_RAM_END,
        ensures
            final(self).wf(),
            final(self)@ == if apu_writable(addr) {
                MmuView { apu: old(self)@.apu.write_spec(addr, val), ..old(self)@ }
            } else {
                MmuView { mem: old(self)@.mem.update(addr as int, val), ..old(self)@ }
            },
    {
        if addr == apu::NR10_ADDR {
            self.apu.write_nr10(val);
        } else if addr == apu::NR11_ADDR {
            self.apu.write_nr11(val);
        } else if addr == apu::NR12_ADDR {
            self.apu.write_nr12(val);
        } else if addr == apu::NR13_ADDR {
            self.apu.write_nr13(val);
        } else if addr == apu::NR14_ADDR {
            self.apu.write_nr14(val);
        } else if addr == apu::NR21_ADDR {
            self.apu.write_nr21(val);
        } else if addr == apu::NR22_ADDR {
            self.apu.write_nr22(val);
        } else if addr == apu::NR23_ADDR {
            self.apu.write_nr23(val);
        } else if addr == apu::NR24_ADDR {
            self.apu.write_nr24(val);
        } else if addr == apu::NR30_ADDR {
            self.apu.write_nr30(val);
        } else if addr == apu::NR31_ADDR {
            self.apu.write_nr31(val);
        } else if addr == apu::NR32_ADDR {
            self.apu.write_nr32(val);
        } else if addr == apu::NR33_ADDR {
            self.apu.write_nr33(val);
        } else if addr == apu::NR34_ADDR {
            self.apu.write_nr34(val);
        } else if addr == apu::NR41_ADDR {
            self.apu.write_nr41(val);
        } else if addr == apu::NR42_ADDR {
            self.apu.write_nr42(val);
        } else if addr == apu::NR43_ADDR {
            self.apu.write_nr43(val);
        } else if addr == apu::NR44_ADDR {
            self.apu.write_nr44(val);
        } else if addr == apu::NR50_ADDR {
            self.apu.write_nr50(val);
        } else if addr == apu::NR51_ADDR {
            self.apu.write_nr51(val);
        } else if addr == apu::NR52_ADDR {
            self.apu.write_nr52(val);
        } else if apu::WAVE_RAM_START <= addr {
            self.apu.write_wave_ram(addr, val);
        } else {
            self.mem.set(addr as usize, val);
        }
    }

    fn write_ppu_register(&mut self, addr: u16, val: u8)
        requires
            ppu_register(addr),
        ensures
            final(self).ppu@ == ppu_write_spec(old(self).ppu@, addr, val),
            final(self).mem == old(self).mem,
            final(self).serial == old(self).serial,
            final(self).timer == old(self).timer,
            final(self).joypad == old(self).joypad,
            final(self).apu == old(self).apu,
            final(self).cartridge == old(self).cartridge,
            final(self).dma_active == old(self).dma_active,
            final(self).dma_source_high == old(self).dma_source_high,
            final(self).dma_progress == old(self).dma_progress,
            final(self).dma_cycle_accum == old(self).dma_cycle_accum,
    {
        if addr == LCDC_ADDR {
            self.ppu.write_lcdc(val);
        } else if addr == STAT_ADDR {
            self.ppu.write_stat(val);
        } else if addr == SCY_ADDR {
            self.ppu.write_scy(val);
        } else if addr == SCX_ADDR {
            self.ppu.write_scx(val);
        } else if addr == LY_ADDR {
            self.ppu.write_ly(val);
        } else if addr == LYC_ADDR {
            self.ppu.write_lyc(val);
        } else if addr == BGP_ADDR {
            self.ppu.write_bgp(val);
        } else if addr == OBP0_ADDR {
            self.ppu.write_obp0(val);
        } else if addr == OBP1_ADDR {
            self.ppu.write_obp1(val);
        } else if addr == WY_ADDR {
            self.ppu.write_wy(val);
        } else {
            self.ppu.write_wx(val);
        }
    }
}

/// Timer advance, with an overflow folded into `IF`.
pub open spec fn step_timer_spec(v: MmuView, t_cycles: u8) -> MmuView {
    let t = run_spec_timer(v.timer, t_cycles);
    MmuView {
        timer: TimerView { interrupt_pending: false, ..t },
        mem: request(v.mem, t.interrupt_pending, TIMER_INT_BIT),
        ..v
    }
}

/// PPU advance, with VBlank/STAT requests folded into `IF`.
pub open spec fn step_ppu_spec(v: MmuView, t_cycles: u8) -> MmuView {
    let p = ppu_step_spec(v.ppu, t_cycles);
    MmuView {
        ppu: PpuView { vblank_interrupt_pending: false, stat_interrupt_pending: false, ..p },
        mem: request(
            request(v.mem, p.vblank_interrupt_pending, VBLANK_INT_BIT),
            p.stat_interrupt_pending,
            STAT_INT_BIT,
        ),
        ..v
    }
}

/// Cartridge clock advance.
pub open spec fn step_cartridge_spec(v: MmuView, t_cycles: u8) -> MmuView {
    MmuView {
        cartridge: match v.cartridge {
            Some(c) => Some(CartView { mbc: rtc_step_spec(c.mbc, t_cycles), ..c }),
            None => None,
        },
        ..v
    }
}

/// A pending joypad request folded into `IF`.
pub open spec fn step_joypad_spec(v: MmuView) -> MmuView {
    MmuView {
        joypad: JoypadView { interrupt_pending: false, ..v.joypad },
        mem: request(v.mem, v.joypad.interrupt_pending, JOYPAD_INT_BIT),
        ..v
    }
}

/// APU advance and the number of output samples that came due.
pub open spec fn step_apu_spec(v: MmuView, t_cycles: u8) -> (MmuView, u64) {
    let (a, n) = v.apu.step_spec(t_cycles);
    (MmuView { apu: a, ..v }, n)
}

/// The timer after `t_cycles` T-cycles.
pub open spec fn run_spec_timer(t: TimerView, t_cycles: u8) -> TimerView {
    crate::timer::run_spec(t, t_cycles as nat)
}

/// The PPU after `t_cycles` T-cycles (standing still while the LCD is off).
pub open spec fn ppu_step_spec(p: PpuView, t_cycles: u8) -> PpuView {
    if lcd_on(p) {
        run_spec(p, t_cycles as nat)
    } else {
        p
    }
}

impl Bus for Mmu {
    type Model = MmuView;

    open spec fn model(&self) -> MmuView {
        self@
    }

    open spec fn inv(&self) -> bool {
        self.wf()
    }

    fn read(&mut self, addr: u16) -> (val: u8) {
        assert(old(self).model().spec_read(addr) == if dma_blocks(old(self)@, addr) {
            0xFF
        } else {
            dispatch_read_spec(old(self)@, addr)
        });
        if self.dma_active && addr < HRAM_START {
            return 0xFF;
        }
        self.dispatch_read(addr)
    }

    fn write(&mut self, addr: u16, val: u8) {
        assert(old(self).model().spec_write(addr, val) == if dma_blocks(old(self)@, addr) {
            old(self)@
        } else {
            dispatch_write_spec(old(self)@, addr, val)
        });
        if self.dma_active && addr < HRAM_START {
            return;
        }
        self.dispatch_write(addr, val);
    }
}

impl Default for Mmu {
    fn default() -> (m: Self)
        ensures
            m.wf(),
            Mmu::initial_view(m@),
            m@.ppu == crate::ppu::initial_ppu(),
    {
        Mmu::new()
    }
}

} // verus!

verus! {

/// Addresses that behave as plain storage on the bus: VRAM, OAM, work RAM
/// with its echo and the unusable area, HRAM and `IE` always; ROM and
/// cartridge RAM space too while no cartridge is installed.
pub open spec fn plain_storage(v: MmuView, addr: u16) -> bool {
    ||| addr < JOYP_ADDR && (v.cartridge is None || VRAM_BASE <= addr <= VRAM_END || 0xC000
        <= addr)
    ||| addr >= HRAM_START
}

/// The storage a well-formed memory map has: 64KB of flat memory, 8KB of
/// VRAM and 160 bytes of OAM.
pub open spec fn sized(v: MmuView) -> bool {
    &&& v.mem.len() == MEM_SIZE
    &&& v.ppu.vram.len() == 0x2000
    &&& v.ppu.oam.len() == DMA_TRANSFER_BYTES
}

/// Plain storage reads back the last value written to it, and a write
/// there leaves every other plain-storage address as it was (unless an
/// OAM DMA transfer locks the CPU out).
pub proof fn lemma_storage_read_after_write(v: MmuView, addr: u16, val: u8, other: u16)
    requires
        sized(v),
        plain_storage(v, addr),
        !dma_blocks(v, addr),
    ensures
        v.spec_write(addr, val).spec_read(addr) == val,
        other != addr && plain_storage(v, other) ==> v.spec_write(addr, val).spec_read(other)
            == v.spec_read(other),
{
}

/// While an OAM DMA transfer runs, the CPU sees `0xFF` everywhere below
/// HRAM and its writes there change nothing.
pub proof fn lemma_dma_lockout(v: MmuView, addr: u16, val: u8)
    requires
        v.dma_active,
        addr < HRAM_START,
    ensures
        v.spec_read(addr) == 0xFF,
        v.spec_write(addr, val) == v,
{
}

/// What a DMA run has copied: byte `i` of OAM holds source byte `i` for
/// every byte transferred during the run; the other OAM bytes are kept.
pub open spec fn dma_copied(v: MmuView, w: MmuView) -> bool {
    &&& w.ppu.oam.len() == v.ppu.oam.len()
    &&& forall|i: int|
        v.dma_progress <= i < w.dma_progress ==> #[trigger] w.ppu.oam[i] == dispatch_read_spec(
            v,
            (v.dma_source_high as int * 256 + i) as u16,
        )
    &&& forall|i: int|
        0 <= i < v.ppu.oam.len() && !(v.dma_progress <= i < w.dma_progress) ==> #[trigger] w.ppu.oam[i]
            == v.ppu.oam[i]
}

/// Reads outside OAM do not depend on OAM or on the DMA engine's progress.
proof fn lemma_read_ignores_oam(v: MmuView, w: MmuView, addr: u16)
    requires
        w == (MmuView {
            ppu: PpuView { oam: w.ppu.oam, ..v.ppu },
            dma_active: w.dma_active,
            dma_progress: w.dma_progress,
            dma_cycle_accum: w.dma_cycle_accum,
            ..v
        }),
        !(OAM_BASE <= addr <= OAM_END),
    ensures
        dispatch_read_spec(w, addr) == dispatch_read_spec(v, addr),
{
}

/// A DMA run copies source byte after source byte into OAM, one per 4
/// banked T-cycles, until all 160 are done.
proof fn lemma_dma_run_copies(v: MmuView)
    requires
        v.ppu.oam.len() == DMA_TRANSFER_BYTES,
        v.dma_active ==> v.dma_progress < DMA_TRANSFER_BYTES,
        v.dma_source_high != 0xFE,
    ensures
        dma_copied(v, dma_run(v)),
        v.dma_progress <= dma_run(v).dma_progress,
        v.dma_active ==> dma_run(v).dma_progress == if v.dma_progress + v.dma_cycle_accum / 4
            >= DMA_TRANSFER_BYTES {
            DMA_TRANSFER_BYTES as int
        } else {
            v.dma_progress + v.dma_cycle_accum / 4
        },
        v.dma_active ==> (dma_run(v).dma_active <==> dma_run(v).dma_progress < DMA_TRANSFER_BYTES),
        !v.dma_active ==> dma_run(v) == v,
    decreases v.dma_cycle_accum,
{
    if v.dma_active && v.dma_cycle_accum >= DMA_T_CYCLES_PER_BYTE {
        let u = dma_one(v);
        let src = (v.dma_source_high as int * 256 + v.dma_progress) as u16;
        lemma_dma_run_copies(u);
        lemma_dma_run_frame(u);
        let w = dma_run(u);
        assert forall|i: int| v.dma_progress <= i < w.dma_progress implies #[trigger] w.ppu.oam[i]
            == dispatch_read_spec(v, (v.dma_source_high as int * 256 + i) as u16) by {
            let a = (v.dma_source_high as int * 256 + i) as u16;
            if i == v.dma_progress {
                assert(w.ppu.oam[i] == u.ppu.oam[i]);
            } else {
                assert(!(OAM_BASE <= a <= OAM_END));
                lemma_read_ignores_oam(v, u, a);
            }
        }
    }
}

/// An OAM DMA transfer started by a write to `DMA` (from any source page
/// but OAM's own) that has 640 T-cycles banked copies the whole 160-byte
/// source block into OAM and ends.
pub proof fn lemma_dma_transfer_completes(v: MmuView, page: u8, cycles: u32)
    requires
        v.ppu.oam.len() == DMA_TRANSFER_BYTES,
        !v.dma_active,
        page != 0xFE,
        cycles >= DMA_TRANSFER_BYTES * DMA_T_CYCLES_PER_BYTE,
    ensures
        ({
            let started = MmuView { dma_cycle_accum: cycles, ..v.spec_write(DMA_ADDR, page) };
            let done = dma_run(started);
            &&& !done.dma_active
            &&& forall|i: int|
                0 <= i < DMA_TRANSFER_BYTES ==> #[trigger] done.ppu.oam[i] == dispatch_read_spec(
                    started,
                    (page as int * 256 + i) as u16,
                )
        }),
{
    let started = MmuView { dma_cycle_accum: cycles, ..v.spec_write(DMA_ADDR, page) };
    lemma_dma_run_copies(started);
}

/// A CPU write changes `LCDC` only when it is a write to `LCDC`, and
/// moves the PPU's line and dot only by switching the LCD off or on.
pub proof fn lemma_write_keeps_clock(v: MmuView, addr: u16, val: u8)
    requires
        v.mem.len() == MEM_SIZE,
    ensures
        addr != LCDC_ADDR ==> v.spec_write(addr, val).ppu.lcdc == v.ppu.lcdc,
        lcd_on(v.ppu) && lcd_on(v.spec_write(addr, val).ppu) ==> (
        v.spec_write(addr, val).ppu.ly, v.spec_write(addr, val).ppu.dot) == (v.ppu.ly, v.ppu.dot),
        v.spec_write(addr, val).mem.len() == v.mem.len(),
{
}

/// An instruction's stores (at most one byte or one 16-bit value) leave
/// the PPU's line and dot alone unless they leave the LCD off: switching
/// it off and on again would take two writes to `LCDC`.
pub proof fn lemma_store_keeps_clock(v: MmuView, after: MmuView)
    requires
        crate::cpu::properties::at_most_one_store(v, after),
        v.mem.len() == MEM_SIZE,
        lcd_on(v.ppu),
        lcd_on(after.ppu),
    ensures
        (after.ppu.ly, after.ppu.dot) == (v.ppu.ly, v.ppu.dot),
        after.mem.len() == v.mem.len(),
{
    if after == v {
    } else if exists|a: u16, b: u8| after == #[trigger] v.spec_write(a, b) {
        let (a, b) = choose|a: u16, b: u8| after == #[trigger] v.spec_write(a, b);
        lemma_write_keeps_clock(v, a, b);
    } else {
        let (a, w) = choose|a: u16, w: u16| after == #[trigger] crate::cpu::bus::write16_spec(v, a, w);
        let mid = v.spec_write(a, crate::cpu::registers::lo_byte(w));
        lemma_write_keeps_clock(v, a, crate::cpu::registers::lo_byte(w));
        lemma_write_keeps_clock(mid, a.wrapping_add(1), crate::cpu::registers::hi_byte(w));
        assert(after == mid.spec_write(a.wrapping_add(1), crate::cpu::registers::hi_byte(w)));
        if !lcd_on(mid.ppu) {
            assert(a == LCDC_ADDR);
            assert(a.wrapping_add(1) != LCDC_ADDR);
        }
    }
}

} // verus!
