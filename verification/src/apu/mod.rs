//! Audio processing unit: 2 pulse channels, a wave channel, a noise
//! channel, the 512Hz frame sequencer that clocks their length/envelope/
//! sweep units, and the pacing of output samples. Mixing the channels'
//! amplitudes into analog samples is the frontend's job: [`Apu::step`]
//! says how many samples have come due, and [`Apu::mix_input`] gives what
//! to mix.
pub mod channel;

use vstd::prelude::*;
use channel::{NoiseChannel, PulseChannel, WaveChannel};

verus! {

pub const NR10_ADDR: u16 = 0xFF10;
pub const NR11_ADDR: u16 = 0xFF11;
pub const NR12_ADDR: u16 = 0xFF12;
pub const NR13_ADDR: u16 = 0xFF13;
pub const NR14_ADDR: u16 = 0xFF14;
pub const NR21_ADDR: u16 = 0xFF16;
pub const NR22_ADDR: u16 = 0xFF17;
pub const NR23_ADDR: u16 = 0xFF18;
pub const NR24_ADDR: u16 = 0xFF19;
pub const NR30_ADDR: u16 = 0xFF1A;
pub const NR31_ADDR: u16 = 0xFF1B;
pub const NR32_ADDR: u16 = 0xFF1C;
pub const NR33_ADDR: u16 = 0xFF1D;
pub const NR34_ADDR: u16 = 0xFF1E;
pub const NR41_ADDR: u16 = 0xFF20;
pub const NR42_ADDR: u16 = 0xFF21;
pub const NR43_ADDR: u16 = 0xFF22;
pub const NR44_ADDR: u16 = 0xFF23;
pub const NR50_ADDR: u16 = 0xFF24;
pub const NR51_ADDR: u16 = 0xFF25;
pub const NR52_ADDR: u16 = 0xFF26;
pub const WAVE_RAM_START: u16 = 0xFF30;
pub const WAVE_RAM_END: u16 = 0xFF3F;

/// T-cycles per second.
pub const DMG_CLOCK_HZ: u64 = 4_194_304;
/// Output sample rate until the frontend configures the real one.
pub const DEFAULT_SAMPLE_RATE: u32 = 44_100;
/// The frame sequencer ticks at 512Hz: one step every 8192 T-cycles.
pub const FRAME_SEQUENCER_PERIOD: u32 = 8192;
pub const POWER_BIT: u8 = 0x80;

/// What the mixer needs for one output sample: the master volume and
/// panning registers and the four channels' digital amplitudes.
#[derive(Debug, Clone, Copy, PartialEq, Eq, Structural)]
pub struct MixInput {
    pub nr50: u8,
    pub nr51: u8,
    pub ch1: u8,
    pub ch2: u8,
    pub ch3: u8,
    pub ch4: u8,
}

#[derive(Debug, Clone, Copy)]
pub struct Apu {
    pub enabled: bool,
    pub nr50: u8,
    pub nr51: u8,
    pub ch1: PulseChannel,
    pub ch2: PulseChannel,
    pub ch3: WaveChannel,
    pub ch4: NoiseChannel,
    pub frame_seq_cycle_accum: u32,
    pub frame_seq_step: u8,
    /// Progress toward the next output sample, in T-cycles times the
    /// sample rate: a sample comes due each time it reaches
    /// [`DMG_CLOCK_HZ`].
    pub sample_accum: u64,
    pub sample_rate: u32,
}

impl Apu {
    pub open spec fn wf(self) -> bool {
        &&& self.ch1.wf() && self.ch1.has_sweep
        &&& self.ch2.wf() && !self.ch2.has_sweep
        &&& self.ch3.wf()
        &&& self.ch4.wf()
        &&& self.frame_seq_cycle_accum < FRAME_SEQUENCER_PERIOD
        &&& self.frame_seq_step < 8
        &&& self.sample_accum < DMG_CLOCK_HZ
        &&& self.sample_rate >= 1
    }

    /// Whether [`Apu::step`] can run: while powered, the noise channel's
    /// timer period must be nonzero (a clock shift that pushes the divisor
    /// out of 16 bits leaves the timer nothing to count).
    pub open spec fn can_step_spec(self) -> bool {
        !self.enabled || self.ch4.period() != 0
    }

    /// Power-on state, with the given wave RAM contents.
    pub open spec fn powered_off(ram: [u8; 16]) -> Apu {
        Apu {
            enabled: false,
            nr50: 0,
            nr51: 0,
            ch1: PulseChannel::initial(true),
            ch2: PulseChannel::initial(false),
            ch3: WaveChannel::cleared(ram),
            ch4: NoiseChannel::initial(),
            frame_seq_cycle_accum: 0,
            frame_seq_step: 0,
            sample_accum: 0,
            sample_rate: DEFAULT_SAMPLE_RATE,
        }
    }

    /// NR52: power in bit 7, bits 4-6 read 1, bits 0-3 each channel's
    /// enabled status.
    pub open spec fn nr52_spec(self) -> u8 {
        (0x70 + (if self.enabled {
            0x80int
        } else {
            0
        }) + (if self.ch1.enabled {
            1int
        } else {
            0
        }) + (if self.ch2.enabled {
            2int
        } else {
            0
        }) + (if self.ch3.enabled {
            4int
        } else {
            0
        }) + (if self.ch4.enabled {
            8int
        } else {
            0
        })) as u8
    }

    /// The value a read of APU register `addr` returns (readable
    /// registers and wave RAM).
    pub open spec fn read_spec(self, addr: u16) -> u8 {
        if addr == NR10_ADDR {
            self.ch1.read_sweep_spec()
        } else if addr == NR11_ADDR {
            self.ch1.read_length_duty_spec()
        } else if addr == NR12_ADDR {
            self.ch1.envelope.read_spec()
        } else if addr == NR14_ADDR {
            self.ch1.read_control_spec()
        } else if addr == NR21_ADDR {
            self.ch2.read_length_duty_spec()
        } else if addr == NR22_ADDR {
            self.ch2.envelope.read_spec()
        } else if addr == NR24_ADDR {
            self.ch2.read_control_spec()
        } else if addr == NR30_ADDR {
            self.ch3.read_dac_power_spec()
        } else if addr == NR32_ADDR {
            self.ch3.read_volume_spec()
        } else if addr == NR34_ADDR {
            self.ch3.read_control_spec()
        } else if addr == NR42_ADDR {
            self.ch4.envelope.read_spec()
        } else if addr == NR43_ADDR {
            self.ch4.read_polynomial_spec()
        } else if addr == NR44_ADDR {
            self.ch4.read_control_spec()
        } else if addr == NR50_ADDR {
            self.nr50
        } else if addr == NR51_ADDR {
            self.nr51
        } else if addr == NR52_ADDR {
            self.nr52_spec()
        } else {
            self.ch3.ram[addr - WAVE_RAM_START]
        }
    }

    /// NR52 write: powering off resets every channel and register (except
    /// NR52 itself and wave RAM); powering on restarts the frame sequencer.
    pub open spec fn write_nr52_spec(self, val: u8) -> Apu {
        let on = val >= 0x80;
        if !on && self.enabled {
            Apu {
                enabled: false,
                nr50: 0,
                nr51: 0,
                ch1: PulseChannel::initial(true),
                ch2: PulseChannel::initial(false),
                ch3: WaveChannel::cleared(self.ch3.ram),
                ch4: NoiseChannel::initial(),
                ..self
            }
        } else if on && !self.enabled {
            Apu { enabled: true, frame_seq_step: 0, ..self }
        } else {
            Apu { enabled: on, ..self }
        }
    }

    /// The APU after a write of `val` to register `addr`. Wave RAM and
    /// NR52 are always writable; every other register ignores writes while
    /// the APU is powered off.
    pub open spec fn write_spec(self, addr: u16, val: u8) -> Apu {
        if addr == NR52_ADDR {
            self.write_nr52_spec(val)
        } else if WAVE_RAM_START <= addr <= WAVE_RAM_END {
            Apu { ch3: self.ch3.write_wave_ram_spec(addr, val), ..self }
        } else if !self.enabled {
            self
        } else if addr == NR10_ADDR {
            Apu { ch1: self.ch1.write_sweep_spec(val), ..self }
        } else if addr == NR11_ADDR {
            Apu { ch1: self.ch1.write_length_duty_spec(val), ..self }
        } else if addr == NR12_ADDR {
            Apu { ch1: self.ch1.write_envelope_spec(val), ..self }
        } else if addr == NR13_ADDR {
            Apu { ch1: self.ch1.write_freq_lo_spec(val), ..self }
        } else if addr == NR14_ADDR {
            Apu { ch1: self.ch1.write_control_spec(val), ..self }
        } else if addr == NR21_ADDR {
            Apu { ch2: self.ch2.write_length_duty_spec(val), ..self }
        } else if addr == NR22_ADDR {
            Apu { ch2: self.ch2.write_envelope_spec(val), ..self }
        } else if addr == NR23_ADDR {
            Apu { ch2: self.ch2.write_freq_lo_spec(val), ..self }
        } else if addr == NR24_ADDR {
            Apu { ch2: self.ch2.write_control_spec(val), ..self }
        } else if addr == NR30_ADDR {
            Apu { ch3: self.ch3.write_dac_power_spec(val), ..self }
        } else if addr == NR31_ADDR {
            Apu { ch3: self.ch3.write_length_spec(val), ..self }
        } else if addr == NR32_ADDR {
            Apu { ch3: self.ch3.write_volume_spec(val), ..self }
        } else if addr == NR33_ADDR {
            Apu { ch3: self.ch3.write_freq_lo_spec(val), ..self }
        } else if addr == NR34_ADDR {
            Apu { ch3: self.ch3.write_control_spec(val), ..self }
        } else if addr == NR41_ADDR {
            Apu { ch4: self.ch4.write_length_spec(val), ..self }
        } else if addr == NR42_ADDR {
            Apu { ch4: self.ch4.write_envelope_spec(val), ..self }
        } else if addr == NR43_ADDR {
            Apu { ch4: self.ch4.write_polynomial_spec(val), ..self }
        } else if addr == NR44_ADDR {
            Apu { ch4: self.ch4.write_control_spec(val), ..self }
        } else if addr == NR50_ADDR {
            Apu { nr50: val, ..self }
        } else if addr == NR51_ADDR {
            Apu { nr51: val, ..self }
        } else {
            self
        }
    }

    /// What frame-sequencer step `step` clocks: length counters on even
    /// steps, the sweep on steps 2 and 6, envelopes on step 7.
    pub open spec fn sequencer_clock_spec(self, step: u8) -> Apu {
        if step == 0 || step == 4 {
            Apu {
                ch1: self.ch1.clock_length_spec(),
                ch2: self.ch2.clock_length_spec(),
                ch3: self.ch3.clock_length_spec(),
                ch4: self.ch4.clock_length_spec(),
                ..self
            }
        } else if step == 2 || step == 6 {
            Apu {
                ch1: self.ch1.clock_length_spec().clock_sweep_spec(),
                ch2: self.ch2.clock_length_spec(),
                ch3: self.ch3.clock_length_spec(),
                ch4: self.ch4.clock_length_spec(),
                ..self
            }
        } else if step == 7 {
            Apu {
                ch1: self.ch1.clock_envelope_spec(),
                ch2: self.ch2.clock_envelope_spec(),
                ch4: self.ch4.clock_envelope_spec(),
                ..self
            }
        } else {
            self
        }
    }

    /// The frame sequencer after `t_cycles` more T-cycles.
    pub open spec fn frame_sequencer_spec(self, t_cycles: u8) -> Apu {
        let acc = self.frame_seq_cycle_accum + t_cycles;
        if acc >= FRAME_SEQUENCER_PERIOD {
            let a = self.sequencer_clock_spec(self.frame_seq_step);
            Apu {
                frame_seq_cycle_accum: (acc - FRAME_SEQUENCER_PERIOD) as u32,
                frame_seq_step: ((self.frame_seq_step + 1) % 8) as u8,
                ..a
            }
        } else {
            Apu { frame_seq_cycle_accum: acc as u32, ..self }
        }
    }

    /// Advancing by `t_cycles`: the new state and how many output samples
    /// came due. A powered-off APU stands still.
    pub open spec fn step_spec(self, t_cycles: u8) -> (Apu, u64) {
        if !self.enabled {
            (self, 0)
        } else {
            let a = Apu {
                ch1: self.ch1.step_spec(t_cycles),
                ch2: self.ch2.step_spec(t_cycles),
                ch3: self.ch3.step_spec(t_cycles),
                ch4: self.ch4.step_spec(t_cycles),
                ..self
            }.frame_sequencer_spec(t_cycles);
            let total = self.sample_accum + t_cycles * self.sample_rate;
            (Apu { sample_accum: (total % DMG_CLOCK_HZ as int) as u64, ..a }, (total
                / DMG_CLOCK_HZ as int) as u64)
        }
    }

    pub fn new() -> (a: Self)
        ensures
            a.wf(),
            a == Apu::powered_off(a.ch3.ram),
            forall|i: int| 0 <= i < 16 ==> #[trigger] a.ch3.ram[i] == 0,
    {
        Apu {
            enabled: false,
            nr50: 0,
            nr51: 0,
            ch1: PulseChannel::new(true),
            ch2: PulseChannel::new(false),
            ch3: WaveChannel::default(),
            ch4: NoiseChannel::default(),
            frame_seq_cycle_accum: 0,
            frame_seq_step: 0,
            sample_accum: 0,
            sample_rate: DEFAULT_SAMPLE_RATE,
        }
    }

    /// Reconfigures the output sample rate (at least 1 sample per
    /// second); progress toward the next sample is kept as the same
    /// fraction of a sample period.
    pub fn set_sample_rate(&mut self, sample_rate: u32)
        requires
            old(self).wf(),
        ensures
            *final(self) == (Apu {
                sample_rate: if sample_rate == 0 {
                    1
                } else {
                    sample_rate
                },
                ..*old(self)
            }),
            final(self).wf(),
    {
        self.sample_rate = if sample_rate == 0 {
            1
        } else {
            sample_rate
        };
    }

    pub fn can_step(&self) -> (b: bool)
        requires
            self.wf(),
        ensures
            b == self.can_step_spec(),
    {
        if !self.enabled {
            return true;
        }
        let code = self.ch4.divisor_code;
        let base: u16 = if code == 0 {
            8
        } else {
            code as u16 * 16
        };
        (base << self.ch4.clock_shift) != 0
    }

    pub fn read_nr10(&self) -> (v: u8)
        requires
            self.wf(),
        ensures
            v == self.read_spec(NR10_ADDR),
    {
        self.ch1.read_sweep()
    }

    pub fn write_nr10(&mut self, val: u8)
        requires
            old(self).wf(),
        ensures
            *final(self) == old(self).write_spec(NR10_ADDR, val),
            final(self).wf(),
    {
        if self.enabled {
            self.ch1.write_sweep(val);
        }
    }

    pub fn read_nr11(&self) -> (v: u8)
        requires
            self.wf(),
        ensures
            v == self.read_spec(NR11_ADDR),
    {
        self.ch1.read_length_duty()
    }

    pub fn write_nr11(&mut self, val: u8)
        requires
            old(self).wf(),
        ensures
            *final(self) == old(self).write_spec(NR11_ADDR, val),
            final(self).wf(),
    {
        if self.enabled {
            self.ch1.write_length_duty(val);
        }
    }

    pub fn read_nr12(&self) -> (v: u8)
        requires
            self.wf(),
        ensures
            v == self.read_spec(NR12_ADDR),
    {
        self.ch1.read_envelope()
    }

    pub fn write_nr12(&mut self, val: u8)
        requires
            old(self).wf(),
        ensures
            *final(self) == old(self).write_spec(NR12_ADDR, val),
            final(self).wf(),
    {
        if self.enabled {
            self.ch1.write_envelope(val);
        }
    }

    pub fn write_nr13(&mut self, val: u8)
        requires
            old(self).wf(),
        ensures
            *final(self) == old(self).write_spec(NR13_ADDR, val),
            final(self).wf(),
    {
        if self.enabled {
            self.ch1.write_freq_lo(val);
        }
    }

    pub fn read_nr14(&self) -> (v: u8)
        requires
            self.wf(),
        ensures
            v == self.read_spec(NR14_ADDR),
    {
        self.ch1.read_control()
    }

    pub fn write_nr14(&mut self, val: u8)
        requires
            old(self).wf(),
        ensures
            *final(self) == old(self).write_spec(NR14_ADDR, val),
            final(self).wf(),
    {
        if self.enabled {
            self.ch1.write_control(val);
        }
    }

    pub fn read_nr21(&self) -> (v: u8)
        requires
            self.wf(),
        ensures
            v == self.read_spec(NR21_ADDR),
    {
        self.ch2.read_length_duty()
    }

    pub fn write_nr21(&mut self, val: u8)
        requires
            old(self).wf(),
        ensures
            *final(self) == old(self).write_spec(NR21_ADDR, val),
            final(self).wf(),
    {
        if self.enabled {
            self.ch2.write_length_duty(val);
        }
    }

    pub fn read_nr22(&self) -> (v: u8)
        requires
            self.wf(),
        ensures
            v == self.read_spec(NR22_ADDR),
    {
        self.ch2.read_envelope()
    }

    pub fn write_nr22(&mut self, val: u8)
        requires
            old(self).wf(),
        ensures
            *final(self) == old(self).write_spec(NR22_ADDR, val),
            final(self).wf(),
    {
        if self.enabled {
            self.ch2.write_envelope(val);
        }
    }

    pub fn write_nr23(&mut self, val: u8)
        requires
            old(self).wf(),
        ensures
            *final(self) == old(self).write_spec(NR23_ADDR, val),
            final(self).wf(),
    {
        if self.enabled {
            self.ch2.write_freq_lo(val);
        }
    }

    pub fn read_nr24(&self) -> (v: u8)
        requires
            self.wf(),
        ensures
            v == self.read_spec(NR24_ADDR),
    {
        self.ch2.read_control()
    }

    pub fn write_nr24(&mut self, val: u8)
        requires
            old(self).wf(),
        ensures
            *final(self) == old(self).write_spec(NR24_ADDR, val),
            final(self).wf(),
    {
        if self.enabled {
            self.ch2.write_control(val);
        }
    }

    pub fn read_nr30(&self) -> (v: u8)
        requires
            self.wf(),
        ensures
            v == self.read_spec(NR30_ADDR),
    {
        self.ch3.read_dac_power()
    }

    pub fn write_nr30(&mut self, val: u8)
        requires
            old(self).wf(),
        ensures
            *final(self) == old(self).write_spec(NR30_ADDR, val),
            final(self).wf(),
    {
        if self.enabled {
            self.ch3.write_dac_power(val);
        }
    }

    pub fn write_nr31(&mut self, val: u8)
        requires
            old(self).wf(),
        ensures
            *final(self) == old(self).write_spec(NR31_ADDR, val),
            final(self).wf(),
    {
        if self.enabled {
            self.ch3.write_length(val);
        }
    }

    pub fn read_nr32(&self) -> (v: u8)
        requires
            self.wf(),
        ensures
            v == self.read_spec(NR32_ADDR),
    {
        self.ch3.read_volume()
    }

    pub fn write_nr32(&mut self, val: u8)
        requires
            old(self).wf(),
        ensures
            *final(self) == old(self).write_spec(NR32_ADDR, val),
            final(self).wf(),
    {
        if self.enabled {
            self.ch3.write_volume(val);
        }
    }

    pub fn write_nr33(&mut self, val: u8)
        requires
            old(self).wf(),
        ensures
            *final(self) == old(self).write_spec(NR33_ADDR, val),
            final(self).wf(),
    {
        if self.enabled {
            self.ch3.write_freq_lo(val);
        }
    }

    pub fn read_nr34(&self) -> (v: u8)
        requires
            self.wf(),
        ensures
            v == self.read_spec(NR34_ADDR),
    {
        self.ch3.read_control()
    }

    pub fn write_nr34(&mut self, val: u8)
        requires
            old(self).wf(),
        ensures
            *final(self) == old(self).write_spec(NR34_ADDR, val),
            final(self).wf(),
    {
        if self.enabled {
            self.ch3.write_control(val);
        }
    }

    pub fn write_nr41(&mut self, val: u8)
        requires
            old(self).wf(),
        ensures
            *final(self) == old(self).write_spec(NR41_ADDR, val),
            final(self).wf(),
    {
        if self.enabled {
            self.ch4.write_length(val);
        }
    }

    pub fn read_nr42(&self) -> (v: u8)
        requires
            self.wf(),
        ensures
            v == self.read_spec(NR42_ADDR),
    {
        self.ch4.read_envelope()
    }

    pub fn write_nr42(&mut self, val: u8)
        requires
            old(self).wf(),
        ensures
            *final(self) == old(self).write_spec(NR42_ADDR, val),
            final(self).wf(),
    {
        if self.enabled {
            self.ch4.write_envelope(val);
        }
    }

    pub fn read_nr43(&self) -> (v: u8)
        requires
            self.wf(),
        ensures
            v == self.read_spec(NR43_ADDR),
    {
        self.ch4.read_polynomial()
    }

    pub fn write_nr43(&mut self, val: u8)
        requires
            old(self).wf(),
        ensures
            *final(self) == old(self).write_spec(NR43_ADDR, val),
            final(self).wf(),
    {
        if self.enabled {
            self.ch4.write_polynomial(val);
        }
    }

    pub fn read_nr44(&self) -> (v: u8)
        requires
            self.wf(),
        ensures
            v == self.read_spec(NR44_ADDR),
    {
        self.ch4.read_control()
    }

    pub fn write_nr44(&mut self, val: u8)
        requires
            old(self).wf(),
        ensures
            *final(self) == old(self).write_spec(NR44_ADDR, val),
            final(self).wf(),
    {
        if self.enabled {
            self.ch4.write_control(val);
        }
    }

    pub fn read_nr50(&self) -> (v: u8)
        ensures
            v == self.read_spec(NR50_ADDR),
    {
        self.nr50
    }

    pub fn write_nr50(&mut self, val: u8)
        requires
            old(self).wf(),
        ensures
            *final(self) == old(self).write_spec(NR50_ADDR, val),
            final(self).wf(),
    {
        if self.enabled {
            self.nr50 = val;
        }
    }

    pub fn read_nr51(&self) -> (v: u8)
        ensures
            v == self.read_spec(NR51_ADDR),
    {
        self.nr51
    }

    pub fn write_nr51(&mut self, val: u8)
        requires
            old(self).wf(),
        ensures
            *final(self) == old(self).write_spec(NR51_ADDR, val),
            final(self).wf(),
    {
        if self.enabled {
            self.nr51 = val;
        }
    }

    /// Bit 7: power. Bits 4-6: unused (read 1). Bits 0-3: each channel's
    /// current enabled status (read-only).
    pub fn read_nr52(&self) -> (v: u8)
        ensures
            v == self.read_spec(NR52_ADDR),
    {
        let mut v: u8 = 0x70;
        if self.enabled {
            v = v + 0x80;
        }
        if self.ch1.enabled() {
            v = v + 1;
        }
        if self.ch2.enabled() {
            v = v + 2;
        }
        if self.ch3.enabled() {
            v = v + 4;
        }
        if self.ch4.enabled() {
            v = v + 8;
        }
        v
    }

    /// Powering off resets every channel and register (except this one
    /// and wave RAM, which keeps its contents on real hardware); powering
    /// on restarts the frame sequencer's step.
    pub fn write_nr52(&mut self, val: u8)
        requires
            old(self).wf(),
        ensures
            *final(self) == old(self).write_spec(NR52_ADDR, val),
            final(self).wf(),
    {
        let was_enabled = self.enabled;
        self.enabled = val >= 0x80;
        if !self.enabled && was_enabled {
            self.nr50 = 0;
            self.nr51 = 0;
            self.ch1 = PulseChannel::new(true);
            self.ch2 = PulseChannel::new(false);
            self.ch3.power_off();
            self.ch4 = NoiseChannel::default();
        } else if self.enabled && !was_enabled {
            self.frame_seq_step = 0;
        }
    }

    pub fn read_wave_ram(&self, addr: u16) -> (v: u8)
        requires
            WAVE_RAM_START <= addr <= WAVE_RAM_END,
        ensures
            v == self.read_spec(addr),
    {
        self.ch3.read_wave_ram(addr)
    }

    pub fn write_wave_ram(&mut self, addr: u16, val: u8)
        requires
            old(self).wf(),
            WAVE_RAM_START <= addr <= WAVE_RAM_END,
        ensures
            *final(self) == old(self).write_spec(addr, val),
            final(self).wf(),
    {
        self.ch3.write_wave_ram(addr, val);
    }

    /// The register writes a DMG boot ROM leaves behind: power on first
    /// (the other registers ignore writes while the APU is off), then the
    /// channel and master registers.
    pub open spec fn post_boot_spec(self) -> Apu {
        self.write_spec(NR52_ADDR, 0x80).write_spec(NR10_ADDR, 0x80).write_spec(NR11_ADDR, 0xBF).write_spec(
            NR12_ADDR,
            0xF3,
        ).write_spec(NR13_ADDR, 0xFF).write_spec(NR14_ADDR, 0xBF).write_spec(NR21_ADDR, 0x3F).write_spec(
            NR22_ADDR,
            0x00,
        ).write_spec(NR23_ADDR, 0xFF).write_spec(NR24_ADDR, 0xBF).write_spec(NR30_ADDR, 0x7F).write_spec(
            NR31_ADDR,
            0xFF,
        ).write_spec(NR32_ADDR, 0x9F).write_spec(NR33_ADDR, 0xFF).write_spec(NR34_ADDR, 0xBF).write_spec(
            NR41_ADDR,
            0xFF,
        ).write_spec(NR42_ADDR, 0x00).write_spec(NR43_ADDR, 0x00).write_spec(NR44_ADDR, 0xBF).write_spec(
            NR50_ADDR,
            0x77,
        ).write_spec(NR51_ADDR, 0xF3)
    }

    /// Performs the boot ROM's APU register writes.
    pub fn power_on_post_boot(&mut self)
        requires
            old(self).wf(),
        ensures
            final(self).wf(),
            *final(self) == old(self).post_boot_spec(),
    {
        self.write_nr52(0x80);
        self.write_nr10(0x80);
        self.write_nr11(0xBF);
        self.write_nr12(0xF3);
        self.write_nr13(0xFF);
        self.write_nr14(0xBF);
        self.write_nr21(0x3F);
        self.write_nr22(0x00);
        self.write_nr23(0xFF);
        self.write_nr24(0xBF);
        self.write_nr30(0x7F);
        self.write_nr31(0xFF);
        self.write_nr32(0x9F);
        self.write_nr33(0xFF);
        self.write_nr34(0xBF);
        self.write_nr41(0xFF);
        self.write_nr42(0x00);
        self.write_nr43(0x00);
        self.write_nr44(0xBF);
        self.write_nr50(0x77);
        self.write_nr51(0xF3);
    }

    pub open spec fn mix_input_spec(self) -> MixInput {
        MixInput {
            nr50: self.nr50,
            nr51: self.nr51,
            ch1: self.ch1.amplitude_spec(),
            ch2: self.ch2.amplitude_spec(),
            ch3: self.ch3.amplitude_spec(),
            ch4: self.ch4.amplitude_spec(),
        }
    }

    /// The mixer's input for a sample taken now: master volume, panning,
    /// and the four channels' current digital amplitudes (0-15 each).
    pub fn mix_input(&self) -> (m: MixInput)
        requires
            self.wf(),
        ensures
            m == self.mix_input_spec(),
    {
        MixInput {
            nr50: self.nr50,
            nr51: self.nr51,
            ch1: self.ch1.amplitude(),
            ch2: self.ch2.amplitude(),
            ch3: self.ch3.amplitude(),
            ch4: self.ch4.amplitude(),
        }
    }

    /// Advances all four channels and the frame sequencer by `t_cycles`
    /// T-cycles, and returns how many output samples (at the configured
    /// rate) came due meanwhile. Called once per CPU instruction.
    pub fn step(&mut self, t_cycles: u8) -> (samples: u64)
        requires
            old(self).wf(),
            old(self).can_step_spec(),
        ensures
            (*final(self), samples) == old(self).step_spec(t_cycles),
            final(self).wf(),
    {
        if !self.enabled {
            return 0;
        }
        self.ch1.step(t_cycles);
        self.ch2.step(t_cycles);
        self.ch3.step(t_cycles);
        self.ch4.step(t_cycles);
        self.step_frame_sequencer(t_cycles);
        self.step_sampling(t_cycles)
    }

    fn step_frame_sequencer(&mut self, t_cycles: u8)
        requires
            old(self).wf(),
        ensures
            *final(self) == old(self).frame_sequencer_spec(t_cycles),
            final(self).wf(),
    {
        self.frame_seq_cycle_accum = self.frame_seq_cycle_accum + t_cycles as u32;
        if self.frame_seq_cycle_accum >= FRAME_SEQUENCER_PERIOD {
            self.frame_seq_cycle_accum = self.frame_seq_cycle_accum - FRAME_SEQUENCER_PERIOD;
            let step = self.frame_seq_step;
            if step == 0 || step == 4 {
                self.ch1.clock_length();
                self.ch2.clock_length();
                self.ch3.clock_length();
                self.ch4.clock_length();
            } else if step == 2 || step == 6 {
                self.ch1.clock_length();
                self.ch2.clock_length();
                self.ch3.clock_length();
                self.ch4.clock_length();
                self.ch1.clock_sweep();
            } else if step == 7 {
                self.ch1.clock_envelope();
                self.ch2.clock_envelope();
                self.ch4.clock_envelope();
            }
            self.frame_seq_step = (self.frame_seq_step + 1) % 8;
        }
    }

    fn step_sampling(&mut self, t_cycles: u8) -> (samples: u64)
        requires
            old(self).wf(),
        ensures
            ({
                let total = old(self).sample_accum + t_cycles * old(self).sample_rate;
                &&& samples == total / DMG_CLOCK_HZ as int
                &&& *final(self) == Apu {
                    sample_accum: (total % DMG_CLOCK_HZ as int) as u64,
                    ..*old(self)
                }
            }),
            final(self).wf(),
    {
        let t = t_cycles as u64;
        let r = self.sample_rate as u64;
        assert(t * r <= 255 * 0xFFFF_FFFF) by (nonlinear_arith)
            requires
                t <= 255,
                r <= 0xFFFF_FFFF,
        ;
        let total: u64 = self.sample_accum + t * r;
        self.sample_accum = total % DMG_CLOCK_HZ;
        total / DMG_CLOCK_HZ
    }
}

impl Default for Apu {
    fn default() -> (a: Self)
        ensures
            a.wf(),
            a == Apu::powered_off(a.ch3.ram),
    {
        Apu::new()
    }
}

} // verus!

verus! {

/// While the APU is powered off, writes to any register but `NR52` and
/// wave RAM are ignored.
pub proof fn lemma_writes_ignored_while_off(a: Apu, addr: u16, val: u8)
    requires
        !a.enabled,
        addr != NR52_ADDR,
        !(WAVE_RAM_START <= addr <= WAVE_RAM_END),
    ensures
        a.write_spec(addr, val) == a,
{
}

/// Powering the APU off (clearing `NR52` bit 7) resets every channel and
/// `NR50`/`NR51` to their power-on state, keeping only wave RAM; `NR52`
/// then reads `0x70`.
pub proof fn lemma_power_off_resets(a: Apu, val: u8)
    requires
        a.enabled,
        val < 0x80,
    ensures
        ({
            let b = a.write_spec(NR52_ADDR, val);
            let off = Apu::powered_off(a.ch3.ram);
            &&& !b.enabled
            &&& b.nr50 == 0
            &&& b.nr51 == 0
            &&& b.ch1 == off.ch1
            &&& b.ch2 == off.ch2
            &&& b.ch3 == off.ch3
            &&& b.ch4 == off.ch4
            &&& b.read_spec(NR52_ADDR) == 0x70
        }),
{
}

/// Wave RAM reads back what was written to it, powered on or off.
pub proof fn lemma_wave_ram_read_after_write(a: Apu, addr: u16, val: u8)
    requires
        WAVE_RAM_START <= addr <= WAVE_RAM_END,
    ensures
        a.write_spec(addr, val).read_spec(addr) == val,
{
}

/// Sample pacing does not drift: stepping a powered-on APU by `t1` and
/// then `t2` T-cycles yields exactly as many samples, and leaves exactly
/// the same partial progress, as one step of `t1 + t2` cycles would.
pub proof fn lemma_sampling_composes(a: Apu, t1: u8, t2: u8)
    requires
        a.enabled,
        a.sample_accum < DMG_CLOCK_HZ,
    ensures
        ({
            let (b, n1) = a.step_spec(t1);
            let (c, n2) = b.step_spec(t2);
            let total = a.sample_accum + (t1 + t2) * a.sample_rate;
            &&& n1 + n2 == total / DMG_CLOCK_HZ as int
            &&& c.sample_accum == total % DMG_CLOCK_HZ as int
        }),
{
    let (b, n1) = a.step_spec(t1);
    let k = DMG_CLOCK_HZ as int;
    let x = a.sample_accum + t1 * a.sample_rate;
    let y = t2 * a.sample_rate;
    assert(b.enabled && b.sample_rate == a.sample_rate);
    let q1 = x / k;
    let r1 = x % k;
    vstd::arithmetic::div_mod::lemma_fundamental_div_mod(x, k);
    assert(0 <= x <= k + 255 * 0xFFFF_FFFF && 0 <= y <= 255 * 0xFFFF_FFFF) by (nonlinear_arith)
        requires
            x == a.sample_accum + t1 * a.sample_rate,
            y == t2 * a.sample_rate,
            a.sample_accum < k,
            t1 <= 255,
            t2 <= 255,
            a.sample_rate <= 0xFFFF_FFFF,
    ;
    assert(q1 <= x) by (nonlinear_arith)
        requires
            x == k * q1 + x % k,
            0 <= x % k,
            k > 0,
            x >= 0,
    ;
    assert(n1 == q1 && b.sample_accum == r1);
    let q2 = (r1 + y) / k;
    let r2 = (r1 + y) % k;
    vstd::arithmetic::div_mod::lemma_fundamental_div_mod(r1 + y, k);
    assert(q2 <= r1 + y) by (nonlinear_arith)
        requires
            r1 + y == k * q2 + (r1 + y) % k,
            0 <= (r1 + y) % k,
            k > 0,
            r1 + y >= 0,
    ;
    assert(x + y == (q1 + q2) * k + r2) by (nonlinear_arith)
        requires
            x == k * q1 + r1,
            r1 + y == k * q2 + r2,
    ;
    vstd::arithmetic::div_mod::lemma_fundamental_div_mod_converse(x + y, k, q1 + q2, r2);
    assert((t1 + t2) * a.sample_rate == t1 * a.sample_rate + t2 * a.sample_rate) by (nonlinear_arith);
}

} // verus!
