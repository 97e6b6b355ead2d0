//! The four DMG sound channels: two pulse (one with a frequency sweep),
//! one wave, one noise. Each exposes register read/write methods matching
//! the hardware's bit layout, a `step` advancing its frequency timer by
//! elapsed T-cycles, `clock_length`/`clock_envelope`/`clock_sweep` driven
//! by the frame sequencer, and `amplitude` (0-15, the current digital
//! sample) for the mixer.
use vstd::prelude::*;

verus! {

pub const PULSE_LENGTH_MAX: u16 = 64;
pub const WAVE_LENGTH_MAX: u16 = 256;

// ---------------------------------------------------------------------------
// Frequency timers
// ---------------------------------------------------------------------------

/// A frequency timer after `n` T-cycles: each cycle a zero timer first
/// reloads to `period`, then counts down by one; reaching zero is an
/// expiry. Returns the final timer and the number of expiries.
pub open spec fn countdown(timer: int, period: int, n: nat) -> (int, nat)
    decreases n,
{
    if n == 0 {
        (timer, 0)
    } else {
        let t0 = if timer == 0 {
            period
        } else {
            timer
        };
        let rest = countdown(t0 - 1, period, (n - 1) as nat);
        (rest.0, rest.1 + if t0 - 1 == 0 {
            1nat
        } else {
            0nat
        })
    }
}

/// Running a timer for `a + b` cycles is running it for `a`, then `b`.
pub proof fn lemma_countdown_split(timer: int, period: int, a: nat, b: nat)
    ensures
        countdown(timer, period, a + b) == ({
            let first = countdown(timer, period, a);
            let second = countdown(first.0, period, b);
            (second.0, first.1 + second.1)
        }),
    decreases a,
{
    if a > 0 {
        let t0 = if timer == 0 {
            period
        } else {
            timer
        };
        lemma_countdown_split(t0 - 1, period, (a - 1) as nat, b);
        assert((a + b - 1) as nat == (a - 1) as nat + b);
    }
}

/// Within one timer period (`k` cycles, at most the loaded value) the timer
/// just counts down, expiring once if it reaches zero.
pub proof fn lemma_countdown_chunk(timer: int, period: int, k: nat)
    requires
        timer > 0,
        k <= timer,
    ensures
        countdown(timer, period, k) == ((timer - k), if k == timer {
            1nat
        } else {
            0nat
        }),
    decreases k,
{
    if k > 0 {
        lemma_countdown_split(timer, period, 1, (k - 1) as nat);
        assert(countdown(timer, period, 1) == (timer - 1, if timer - 1 == 0 {
            1nat
        } else {
            0nat
        })) by {
            assert(countdown(timer - 1, period, 0) == (timer - 1, 0nat));
        }
        if k > 1 {
            lemma_countdown_chunk(timer - 1, period, (k - 1) as nat);
        } else {
            assert(countdown(timer - 1, period, 0) == (timer - 1, 0nat));
        }
    }
}

/// Runs a frequency timer for `t_cycles`, reloading from `period`; returns
/// the new timer and the number of expiries.
fn run_timer(timer: u16, period: u16, t_cycles: u8) -> (r: (u16, u32))
    requires
        period > 0,
    ensures
        r.0 as int == countdown(timer as int, period as int, t_cycles as nat).0,
        r.1 as nat == countdown(timer as int, period as int, t_cycles as nat).1,
        r.1 <= t_cycles,
{
    let ghost timer0 = timer;
    let mut timer = timer;
    let mut expiries: u32 = 0;
    let mut remaining: u32 = t_cycles as u32;
    while remaining > 0
        invariant
            period > 0,
            remaining <= t_cycles,
            expiries <= t_cycles - remaining,
            countdown(timer0 as int, period as int, t_cycles as nat) == ({
                let rest = countdown(timer as int, period as int, remaining as nat);
                (rest.0, expiries as nat + rest.1)
            }),
        decreases remaining,
    {
        let loaded = if timer == 0 {
            period
        } else {
            timer
        };
        let consumed: u32 = if remaining < loaded as u32 {
            remaining
        } else {
            loaded as u32
        };
        proof {
            let c = consumed as nat;
            let r = (remaining - consumed) as nat;
            lemma_countdown_split(timer as int, period as int, c, r);
            assert(r + c == remaining as nat);
            if timer == 0 {
                // The first cycle reloads; from then on the timer holds `period`.
                assert(countdown(0, period as int, c) == countdown(period as int, period as int, c))
                    by {
                    reveal_with_fuel(countdown, 2);
                }
            }
            lemma_countdown_chunk(loaded as int, period as int, c);
        }
        timer = loaded - consumed as u16;
        remaining = remaining - consumed;
        if timer == 0 {
            expiries = expiries + 1;
        }
    }
    (timer, expiries)
}

// ---------------------------------------------------------------------------
// Envelope
// ---------------------------------------------------------------------------

/// Shared by pulse channels 1/2 and the noise channel: initial volume,
/// direction, and period from an `NRx2`-shaped register, plus the running
/// volume/timer state the 64Hz frame-sequencer step clocks.
#[derive(Debug, Clone, Copy, PartialEq, Eq, Structural)]
pub struct Envelope {
    pub initial_volume: u8,
    pub add: bool,
    pub period: u8,
    pub volume: u8,
    pub timer: u8,
}

impl Envelope {
    pub open spec fn write_spec(self, val: u8) -> Envelope {
        Envelope { initial_volume: val / 16, add: (val / 8) % 2 == 1, period: val % 8, ..self }
    }

    pub open spec fn read_spec(self) -> u8 {
        (self.initial_volume * 16 + (if self.add {
            8int
        } else {
            0
        }) + self.period) as u8
    }

    pub open spec fn wf(self) -> bool {
        self.initial_volume < 16 && self.period < 8 && self.volume < 16 && self.timer < 8
    }

    pub open spec fn zeroed() -> Envelope {
        Envelope { initial_volume: 0, add: false, period: 0, volume: 0, timer: 0 }
    }

    pub open spec fn dac_spec(self) -> bool {
        self.initial_volume != 0 || self.add
    }

    /// One 64Hz envelope clock.
    pub open spec fn clock_spec(self) -> Envelope {
        if self.period == 0 {
            self
        } else {
            let t = if self.timer > 0 {
                (self.timer - 1) as u8
            } else {
                self.timer
            };
            if t == 0 {
                let v = if self.add && self.volume < 15 {
                    (self.volume + 1) as u8
                } else if !self.add && self.volume > 0 {
                    (self.volume - 1) as u8
                } else {
                    self.volume
                };
                Envelope { timer: self.period, volume: v, ..self }
            } else {
                Envelope { timer: t, ..self }
            }
        }
    }

    /// The DAC is on unless the register selects volume 0 with decreasing
    /// direction.
    pub fn dac_enabled(&self) -> (b: bool)
        ensures
            b == self.dac_spec(),
    {
        self.initial_volume != 0 || self.add
    }

    pub fn write_nrx2(&mut self, val: u8)
        ensures
            *final(self) == old(self).write_spec(val),
    {
        self.initial_volume = val / 16;
        self.add = (val / 8) % 2 == 1;
        self.period = val % 8;
    }

    pub fn read_nrx2(&self) -> (v: u8)
        requires
            self.wf(),
        ensures
            v == self.read_spec(),
    {
        let add: u8 = if self.add {
            8
        } else {
            0
        };
        self.initial_volume * 16 + add + self.period
    }

    pub fn trigger(&mut self)
        ensures
            *final(self) == (Envelope { volume: old(self).initial_volume, timer: old(self).period, ..*old(self) }),
    {
        self.volume = self.initial_volume;
        self.timer = self.period;
    }

    pub fn clock(&mut self)
        requires
            old(self).wf(),
        ensures
            *final(self) == old(self).clock_spec(),
            final(self).wf(),
    {
        if self.period == 0 {
            return;
        }
        if self.timer > 0 {
            self.timer = self.timer - 1;
        }
        if self.timer == 0 {
            self.timer = self.period;
            if self.add && self.volume < 15 {
                self.volume = self.volume + 1;
            } else if !self.add && self.volume > 0 {
                self.volume = self.volume - 1;
            }
        }
    }
}

impl Default for Envelope {
    fn default() -> (e: Self)
        ensures
            e == Envelope::zeroed(),
    {
        Envelope { initial_volume: 0, add: false, period: 0, volume: 0, timer: 0 }
    }
}

// ---------------------------------------------------------------------------
// Sweep (channel 1)
// ---------------------------------------------------------------------------

#[derive(Debug, Clone, Copy, PartialEq, Eq, Structural)]
pub struct Sweep {
    pub period: u8,
    pub negate: bool,
    pub shift: u8,
    pub timer: u8,
    pub enabled: bool,
    pub shadow_frequency: u16,
}

/// The frequency the sweep unit computes from `shadow`: shifted right by
/// `shift` and added (or subtracted), or `None` past 2047.
pub open spec fn sweep_calc(shadow: u16, shift: u8, negate: bool) -> Option<u16> {
    let delta = shadow >> shift;
    let f = if negate {
        shadow.wrapping_sub(delta)
    } else {
        shadow.wrapping_add(delta)
    };
    if f > 2047 {
        None
    } else {
        Some(f)
    }
}

impl Sweep {
    pub open spec fn write_spec(self, val: u8) -> Sweep {
        Sweep { period: (val / 16) % 8, negate: (val / 8) % 2 == 1, shift: val % 8, ..self }
    }

    pub open spec fn read_spec(self) -> u8 {
        (0x80 + self.period * 16 + (if self.negate {
            8int
        } else {
            0
        }) + self.shift) as u8
    }

    pub open spec fn wf(self) -> bool {
        self.period < 8 && self.shift < 8 && self.timer <= 8
    }

    pub open spec fn zeroed() -> Sweep {
        Sweep { period: 0, negate: false, shift: 0, timer: 0, enabled: false, shadow_frequency: 0 }
    }

    pub open spec fn reload(self) -> u8 {
        if self.period == 0 {
            8
        } else {
            self.period
        }
    }

    /// Trigger: the new state and the frequency check's result.
    pub open spec fn trigger_spec(self, frequency: u16) -> (Sweep, Option<u16>) {
        let s = Sweep {
            shadow_frequency: frequency,
            timer: self.reload(),
            enabled: self.period != 0 || self.shift != 0,
            ..self
        };
        (s, if self.shift != 0 {
            sweep_calc(frequency, self.shift, self.negate)
        } else {
            Some(frequency)
        })
    }

    /// One 128Hz sweep clock: `None` when nothing happens, `Some(Some(f))`
    /// for a new frequency, `Some(None)` when the channel must turn off.
    pub open spec fn clock_spec(self) -> (Sweep, Option<Option<u16>>) {
        if !self.enabled || self.period == 0 {
            (self, None)
        } else {
            let t = if self.timer > 0 {
                (self.timer - 1) as u8
            } else {
                self.timer
            };
            if t != 0 {
                (Sweep { timer: t, ..self }, None)
            } else {
                let s = Sweep { timer: self.reload(), ..self };
                match sweep_calc(self.shadow_frequency, self.shift, self.negate) {
                    Some(f) => if self.shift != 0 {
                        (Sweep { shadow_frequency: f, ..s }, Some(Some(f)))
                    } else {
                        (s, None)
                    },
                    None => (s, Some(None)),
                }
            }
        }
    }

    pub fn write_nr10(&mut self, val: u8)
        ensures
            *final(self) == old(self).write_spec(val),
    {
        self.period = (val / 16) % 8;
        self.negate = (val / 8) % 2 == 1;
        self.shift = val % 8;
    }

    pub fn read_nr10(&self) -> (v: u8)
        requires
            self.wf(),
        ensures
            v == self.read_spec(),
    {
        let n: u8 = if self.negate {
            8
        } else {
            0
        };
        0x80 + self.period * 16 + n + self.shift
    }

    fn calculate(&self) -> (r: Option<u16>)
        requires
            self.wf(),
        ensures
            r == sweep_calc(self.shadow_frequency, self.shift, self.negate),
    {
        let delta = self.shadow_frequency >> self.shift;
        let new_freq = if self.negate {
            self.shadow_frequency.wrapping_sub(delta)
        } else {
            self.shadow_frequency.wrapping_add(delta)
        };
        if new_freq > 2047 {
            None
        } else {
            Some(new_freq)
        }
    }

    /// Returns `Some(new_freq)` if the trigger-time overflow check passes
    /// (or there's no shift to apply), `None` if it immediately overflows
    /// and channel 1 should be disabled.
    pub fn trigger(&mut self, frequency: u16) -> (r: Option<u16>)
        requires
            old(self).wf(),
        ensures
            (*final(self), r) == old(self).trigger_spec(frequency),
            final(self).wf(),
    {
        self.shadow_frequency = frequency;
        self.timer = if self.period == 0 {
            8
        } else {
            self.period
        };
        self.enabled = self.period != 0 || self.shift != 0;
        if self.shift != 0 {
            self.calculate()
        } else {
            Some(frequency)
        }
    }

    /// Returns `Some(Some(new_freq))` when the sweep timer fires and
    /// produces a new in-range frequency to apply, `Some(None)` when the
    /// result overflows and the channel must be disabled, `None` otherwise.
    pub fn clock(&mut self) -> (r: Option<Option<u16>>)
        requires
            old(self).wf(),
        ensures
            (*final(self), r) == old(self).clock_spec(),
            final(self).wf(),
    {
        if !self.enabled || self.period == 0 {
            return None;
        }
        if self.timer > 0 {
            self.timer = self.timer - 1;
        }
        if self.timer != 0 {
            return None;
        }
        self.timer = if self.period == 0 {
            8
        } else {
            self.period
        };
        match self.calculate() {
            Some(new_freq) => {
                if self.shift != 0 {
                    self.shadow_frequency = new_freq;
                    Some(Some(new_freq))
                } else {
                    None
                }
            },
            None => Some(None),
        }
    }
}

impl Default for Sweep {
    fn default() -> (s: Self)
        ensures
            s == Sweep::zeroed(),
    {
        Sweep { period: 0, negate: false, shift: 0, timer: 0, enabled: false, shadow_frequency: 0 }
    }
}

// ---------------------------------------------------------------------------
// Length counters
// ---------------------------------------------------------------------------

/// One 256Hz length clock: an enabled, nonzero counter counts down and
/// silences the channel on reaching zero. Returns (counter, enabled).
pub open spec fn length_clock_spec(counter: u16, length_enable: bool, enabled: bool) -> (u16, bool) {
    if !length_enable || counter == 0 {
        (counter, enabled)
    } else {
        let c = (counter - 1) as u16;
        (c, if c == 0 {
            false
        } else {
            enabled
        })
    }
}

// ---------------------------------------------------------------------------
// Pulse channels
// ---------------------------------------------------------------------------

/// Output bit of duty pattern `duty` (12.5%, 25%, 50%, 75%) at step `pos`.
pub open spec fn duty_bit_spec(duty: u8, pos: u8) -> u8 {
    if duty == 0 {
        if pos == 7 {
            1
        } else {
            0
        }
    } else if duty == 1 {
        if pos == 0 || pos == 7 {
            1
        } else {
            0
        }
    } else if duty == 2 {
        if pos == 0 || pos >= 5 {
            1
        } else {
            0
        }
    } else {
        if pos == 0 || pos == 7 {
            0
        } else {
            1
        }
    }
}

fn duty_bit(duty: u8, pos: u8) -> (b: u8)
    ensures
        b == duty_bit_spec(duty, pos),
        b <= 1,
{
    if duty == 0 {
        if pos == 7 {
            1
        } else {
            0
        }
    } else if duty == 1 {
        if pos == 0 || pos == 7 {
            1
        } else {
            0
        }
    } else if duty == 2 {
        if pos == 0 || pos >= 5 {
            1
        } else {
            0
        }
    } else {
        if pos == 0 || pos == 7 {
            0
        } else {
            1
        }
    }
}

/// The envelope after `n` clocks.
pub open spec fn envelope_clocks(e: Envelope, n: nat) -> Envelope
    decreases n,
{
    if n == 0 {
        e
    } else {
        envelope_clocks(e, (n - 1) as nat).clock_spec()
    }
}

/// The envelope steps the volume once per `period` clocks: starting with
/// its timer full (as a trigger leaves it), fewer than `period` clocks
/// only count the timer down, and the `period`-th moves the volume one step
/// up (adding) or down, stopping at 15 and 0, and refills the timer. A
/// period of 0 freezes it.
pub proof fn lemma_envelope_steps(e: Envelope, k: nat)
    requires
        e.wf(),
        e.timer == e.period,
        k <= e.period,
    ensures
        e.period == 0 ==> envelope_clocks(e, k) == e,
        0 < k < e.period ==> envelope_clocks(e, k) == (Envelope { timer: (e.period - k) as u8, ..e }),
        0 < e.period && k == e.period ==> envelope_clocks(e, k) == (Envelope {
            volume: if e.add { if e.volume < 15 { (e.volume + 1) as u8 } else { 15 } } else if e.volume > 0 {
                (e.volume - 1) as u8
            } else {
                0
            },
            ..e
        }),
    decreases k,
{
    if k > 0 {
        lemma_envelope_steps(e, (k - 1) as nat);
        let prev = envelope_clocks(e, (k - 1) as nat);
        assert(envelope_clocks(e, k) == prev.clock_spec());
        if k == 1 {
            assert(prev == e);
        } else {
            assert(prev.timer == e.period - (k - 1));
        }
    }
}

/// The length counter after `n` clocks, with the channel's enabled flag.
pub open spec fn length_clocks(counter: u16, length_enable: bool, enabled: bool, n: nat) -> (u16, bool)
    decreases n,
{
    if n == 0 {
        (counter, enabled)
    } else {
        let (c, en) = length_clocks(counter, length_enable, enabled, (n - 1) as nat);
        length_clock_spec(c, length_enable, en)
    }
}

/// An enabled length counter loaded with `c` counts down once per clock
/// and silences the channel on the clock that takes it to zero: after `n`
/// clocks it holds `max(c - n, 0)`, and the channel is still on exactly
/// when `n < c` (and it was on). A disabled counter never moves.
pub proof fn lemma_length_counts_down(counter: u16, length_enable: bool, enabled: bool, n: nat)
    ensures
        !length_enable ==> length_clocks(counter, length_enable, enabled, n) == (counter, enabled),
        length_enable && counter > 0 ==> length_clocks(counter, length_enable, enabled, n) == (
            if n < counter { (counter - n) as u16 } else { 0u16 },
            enabled && n < counter,
        ),
    decreases n,
{
    if n > 0 {
        lemma_length_counts_down(counter, length_enable, enabled, (n - 1) as nat);
    }
}

/// How many of the first `n` steps of duty pattern `duty` output 1.
pub open spec fn duty_high_count(duty: u8, n: nat) -> nat
    decreases n,
{
    if n == 0 {
        0
    } else {
        duty_high_count(duty, (n - 1) as nat) + if duty_bit_spec(duty, (n - 1) as u8) == 1 {
            1nat
        } else {
            0nat
        }
    }
}

/// The four duty patterns are 12.5%, 25%, 50% and 75% waves: of the
/// eight steps, 1, 2, 4 and 6 output 1. Every step outputs 0 or 1; the
/// 12.5% wave is high only at step 7, the 25% wave at steps 0 and 7, the
/// 50% wave at steps 0 and 5-7 (each containing the narrower ones), and
/// the 75% wave is the complement of the 25% one.
pub proof fn lemma_duty_patterns(pos: u8)
    requires
        pos < 8,
    ensures
        duty_high_count(0, 8) == 1,
        duty_high_count(1, 8) == 2,
        duty_high_count(2, 8) == 4,
        duty_high_count(3, 8) == 6,
        forall|d: u8| d < 4 ==> duty_bit_spec(d, pos) <= 1,
        (duty_bit_spec(0, pos) == 1) == (pos == 7),
        (duty_bit_spec(1, pos) == 1) == (pos == 0 || pos == 7),
        (duty_bit_spec(2, pos) == 1) == (pos == 0 || pos >= 5),
        duty_bit_spec(3, pos) == 1 - duty_bit_spec(1, pos),
        duty_bit_spec(0, pos) <= duty_bit_spec(1, pos) <= duty_bit_spec(2, pos),
{
    reveal_with_fuel(duty_high_count, 9);
}

#[derive(Debug, Clone, Copy, PartialEq, Eq, Structural)]
pub struct PulseChannel {
    pub has_sweep: bool,
    pub sweep: Sweep,
    pub duty: u8,
    pub length_load: u8,
    pub length_counter: u16,
    pub length_enable: bool,
    pub envelope: Envelope,
    pub frequency: u16,
    pub freq_timer: u16,
    pub duty_pos: u8,
    pub enabled: bool,
}

impl PulseChannel {
    pub open spec fn read_sweep_spec(self) -> u8 {
        if self.has_sweep {
            self.sweep.read_spec()
        } else {
            0xFF
        }
    }

    pub open spec fn write_sweep_spec(self, val: u8) -> PulseChannel {
        if self.has_sweep {
            PulseChannel { sweep: self.sweep.write_spec(val), ..self }
        } else {
            self
        }
    }

    pub open spec fn read_length_duty_spec(self) -> u8 {
        (0x3F + self.duty * 64) as u8
    }

    pub open spec fn write_length_duty_spec(self, val: u8) -> PulseChannel {
        PulseChannel {
            duty: val / 64,
            length_load: val % 64,
            length_counter: (PULSE_LENGTH_MAX - val % 64) as u16,
            ..self
        }
    }

    pub open spec fn write_envelope_spec(self, val: u8) -> PulseChannel {
        let e = self.envelope.write_spec(val);
        PulseChannel { envelope: e, enabled: self.enabled && e.dac_spec(), ..self }
    }

    pub open spec fn write_freq_lo_spec(self, val: u8) -> PulseChannel {
        PulseChannel { frequency: ((self.frequency / 256) * 256 + val) as u16, ..self }
    }

    pub open spec fn read_control_spec(self) -> u8 {
        if self.length_enable {
            0xFF
        } else {
            0xBF
        }
    }

    pub open spec fn clock_length_spec(self) -> PulseChannel {
        let (c, e) = length_clock_spec(self.length_counter, self.length_enable, self.enabled);
        PulseChannel { length_counter: c, enabled: e, ..self }
    }

    pub open spec fn clock_envelope_spec(self) -> PulseChannel {
        PulseChannel { envelope: self.envelope.clock_spec(), ..self }
    }

    pub open spec fn wf(self) -> bool {
        &&& self.sweep.wf()
        &&& self.envelope.wf()
        &&& self.duty < 4
        &&& self.length_counter <= PULSE_LENGTH_MAX
        &&& self.frequency < 2048
        &&& self.duty_pos < 8
    }

    /// T-cycles per duty step.
    pub open spec fn period(self) -> int {
        (2048 - self.frequency) * 4
    }

    pub open spec fn initial(has_sweep: bool) -> PulseChannel {
        PulseChannel {
            has_sweep,
            sweep: Sweep::zeroed(),
            duty: 0,
            length_load: 0,
            length_counter: 0,
            length_enable: false,
            envelope: Envelope::zeroed(),
            frequency: 0,
            freq_timer: 0,
            duty_pos: 0,
            enabled: false,
        }
    }

    /// Trigger: restart the channel (if its DAC is on), reload the timer
    /// and envelope, and run the sweep unit's overflow check.
    pub open spec fn trigger_spec(self) -> PulseChannel {
        let dac = self.envelope.dac_spec();
        let c = PulseChannel {
            enabled: dac,
            freq_timer: ((2048 - self.frequency) * 4) as u16,
            envelope: Envelope {
                volume: self.envelope.initial_volume,
                timer: self.envelope.period,
                ..self.envelope
            },
            ..self
        };
        if self.has_sweep && dac {
            let (s, r) = self.sweep.trigger_spec(self.frequency);
            PulseChannel { sweep: s, enabled: r is Some, ..c }
        } else {
            c
        }
    }

    pub open spec fn write_control_spec(self, val: u8) -> PulseChannel {
        let c = PulseChannel {
            frequency: (self.frequency % 256 + (val % 8) * 256) as u16,
            length_enable: (val / 64) % 2 == 1,
            length_counter: if self.length_counter == 0 {
                PULSE_LENGTH_MAX
            } else {
                self.length_counter
            },
            ..self
        };
        if val >= 0x80 {
            c.trigger_spec()
        } else {
            c
        }
    }

    pub open spec fn clock_sweep_spec(self) -> PulseChannel {
        if !self.has_sweep {
            self
        } else {
            let (s, r) = self.sweep.clock_spec();
            match r {
                Some(Some(f)) => PulseChannel { sweep: s, frequency: f, ..self },
                Some(None) => PulseChannel { sweep: s, enabled: false, ..self },
                None => PulseChannel { sweep: s, ..self },
            }
        }
    }

    pub open spec fn step_spec(self, t_cycles: u8) -> PulseChannel {
        let r = countdown(self.freq_timer as int, self.period(), t_cycles as nat);
        PulseChannel {
            freq_timer: r.0 as u16,
            duty_pos: ((self.duty_pos + r.1) % 8) as u8,
            ..self
        }
    }

    pub open spec fn amplitude_spec(self) -> u8 {
        if !self.enabled {
            0
        } else {
            (duty_bit_spec(self.duty, self.duty_pos) * self.envelope.volume) as u8
        }
    }

    pub fn new(has_sweep: bool) -> (c: Self)
        ensures
            c == PulseChannel::initial(has_sweep),
            c.wf(),
    {
        PulseChannel {
            has_sweep,
            sweep: Sweep::default(),
            duty: 0,
            length_load: 0,
            length_counter: 0,
            length_enable: false,
            envelope: Envelope::default(),
            frequency: 0,
            freq_timer: 0,
            duty_pos: 0,
            enabled: false,
        }
    }

    pub fn enabled(&self) -> (b: bool)
        ensures
            b == self.enabled,
    {
        self.enabled
    }

    pub fn read_sweep(&self) -> (v: u8)
        requires
            self.wf(),
        ensures
            v == self.read_sweep_spec(),
    {
        if self.has_sweep {
            self.sweep.read_nr10()
        } else {
            0xFF
        }
    }

    pub fn write_sweep(&mut self, val: u8)
        requires
            old(self).wf(),
        ensures
            *final(self) == old(self).write_sweep_spec(val),
            final(self).wf(),
    {
        if self.has_sweep {
            self.sweep.write_nr10(val);
        }
    }

    pub fn read_length_duty(&self) -> (v: u8)
        requires
            self.wf(),
        ensures
            v == self.read_length_duty_spec(),
    {
        0x3F + self.duty * 64
    }

    pub fn write_length_duty(&mut self, val: u8)
        requires
            old(self).wf(),
        ensures
            *final(self) == old(self).write_length_duty_spec(val),
            final(self).wf(),
    {
        self.duty = val / 64;
        self.length_load = val % 64;
        self.length_counter = PULSE_LENGTH_MAX - self.length_load as u16;
    }

    pub fn read_envelope(&self) -> (v: u8)
        requires
            self.wf(),
        ensures
            v == self.envelope.read_spec(),
    {
        self.envelope.read_nrx2()
    }

    pub fn write_envelope(&mut self, val: u8)
        requires
            old(self).wf(),
        ensures
            *final(self) == old(self).write_envelope_spec(val),
            final(self).wf(),
    {
        self.envelope.write_nrx2(val);
        if !self.envelope.dac_enabled() {
            self.enabled = false;
        }
    }

    pub fn write_freq_lo(&mut self, val: u8)
        requires
            old(self).wf(),
        ensures
            *final(self) == old(self).write_freq_lo_spec(val),
            final(self).wf(),
    {
        self.frequency = (self.frequency / 256) * 256 + val as u16;
    }

    pub fn read_control(&self) -> (v: u8)
        ensures
            v == self.read_control_spec(),
    {
        if self.length_enable {
            0xFF
        } else {
            0xBF
        }
    }

    pub fn write_control(&mut self, val: u8)
        requires
            old(self).wf(),
        ensures
            *final(self) == old(self).write_control_spec(val),
            final(self).wf(),
    {
        self.frequency = self.frequency % 256 + (val % 8) as u16 * 256;
        self.length_enable = (val / 64) % 2 == 1;
        if self.length_counter == 0 {
            self.length_counter = PULSE_LENGTH_MAX;
        }
        if val >= 0x80 {
            self.trigger();
        }
    }

    fn trigger(&mut self)
        requires
            old(self).sweep.wf(),
            old(self).envelope.wf(),
            old(self).frequency < 2048,
        ensures
            *final(self) == old(self).trigger_spec(),
    {
        self.enabled = self.envelope.dac_enabled();
        self.freq_timer = (2048 - self.frequency) * 4;
        self.envelope.trigger();
        if self.has_sweep && self.enabled {
            if self.sweep.trigger(self.frequency).is_none() {
                self.enabled = false;
            }
        }
    }

    pub fn clock_length(&mut self)
        requires
            old(self).wf(),
        ensures
            *final(self) == old(self).clock_length_spec(),
            final(self).wf(),
    {
        if !self.length_enable || self.length_counter == 0 {
            return;
        }
        self.length_counter = self.length_counter - 1;
        if self.length_counter == 0 {
            self.enabled = false;
        }
    }

    pub fn clock_envelope(&mut self)
        requires
            old(self).wf(),
        ensures
            *final(self) == old(self).clock_envelope_spec(),
            final(self).wf(),
    {
        self.envelope.clock();
    }

    pub fn clock_sweep(&mut self)
        requires
            old(self).wf(),
        ensures
            *final(self) == old(self).clock_sweep_spec(),
            final(self).wf(),
    {
        if !self.has_sweep {
            return;
        }
        match self.sweep.clock() {
            Some(Some(new_freq)) => self.frequency = new_freq,
            Some(None) => self.enabled = false,
            None => {},
        }
    }

    pub fn step(&mut self, t_cycles: u8)
        requires
            old(self).wf(),
        ensures
            *final(self) == old(self).step_spec(t_cycles),
            final(self).wf(),
    {
        let period: u16 = (2048 - self.frequency) * 4;
        let (timer, expiries) = run_timer(self.freq_timer, period, t_cycles);
        self.freq_timer = timer;
        self.duty_pos = ((self.duty_pos as u32 + expiries) % 8) as u8;
    }

    pub fn amplitude(&self) -> (a: u8)
        requires
            self.wf(),
        ensures
            a == self.amplitude_spec(),
            a < 16,
    {
        if !self.enabled {
            return 0;
        }
        duty_bit(self.duty, self.duty_pos) * self.envelope.volume
    }
}

impl Default for PulseChannel {
    fn default() -> (c: Self)
        ensures
            c == PulseChannel::initial(false),
    {
        PulseChannel::new(false)
    }
}

// ---------------------------------------------------------------------------
// Wave channel
// ---------------------------------------------------------------------------

#[derive(Debug, Clone, Copy, PartialEq, Eq)]
pub struct WaveChannel {
    pub dac_enabled: bool,
    pub length_load: u8,
    pub length_counter: u16,
    pub length_enable: bool,
    pub volume_code: u8,
    pub frequency: u16,
    pub freq_timer: u16,
    pub wave_pos: u8,
    pub enabled: bool,
    /// 32 4-bit samples, high nibble first.
    pub ram: [u8; 16],
}

impl WaveChannel {
    pub open spec fn read_dac_power_spec(self) -> u8 {
        if self.dac_enabled {
            0xFF
        } else {
            0x7F
        }
    }

    pub open spec fn write_dac_power_spec(self, val: u8) -> WaveChannel {
        WaveChannel { dac_enabled: val >= 0x80, enabled: self.enabled && val >= 0x80, ..self }
    }

    pub open spec fn write_length_spec(self, val: u8) -> WaveChannel {
        WaveChannel { length_load: val, length_counter: (WAVE_LENGTH_MAX - val) as u16, ..self }
    }

    pub open spec fn read_volume_spec(self) -> u8 {
        (0x9F + self.volume_code * 32) as u8
    }

    pub open spec fn write_volume_spec(self, val: u8) -> WaveChannel {
        WaveChannel { volume_code: (val / 32) % 4, ..self }
    }

    pub open spec fn write_freq_lo_spec(self, val: u8) -> WaveChannel {
        WaveChannel { frequency: ((self.frequency / 256) * 256 + val) as u16, ..self }
    }

    pub open spec fn read_control_spec(self) -> u8 {
        if self.length_enable {
            0xFF
        } else {
            0xBF
        }
    }

    pub open spec fn clock_length_spec(self) -> WaveChannel {
        let (c, e) = length_clock_spec(self.length_counter, self.length_enable, self.enabled);
        WaveChannel { length_counter: c, enabled: e, ..self }
    }

    pub open spec fn write_wave_ram_spec(self, addr: u16, val: u8) -> WaveChannel {
        WaveChannel { ram: vstd::array::spec_array_update(self.ram, addr - 0xFF30, val), ..self }
    }

    pub open spec fn wf(self) -> bool {
        &&& self.length_counter <= WAVE_LENGTH_MAX
        &&& self.volume_code < 4
        &&& self.frequency < 2048
        &&& self.wave_pos < 32
    }

    /// T-cycles per sample step.
    pub open spec fn period(self) -> int {
        (2048 - self.frequency) * 2
    }

    /// Power-on state apart from the sample RAM.
    pub open spec fn cleared(ram: [u8; 16]) -> WaveChannel {
        WaveChannel {
            dac_enabled: false,
            length_load: 0,
            length_counter: 0,
            length_enable: false,
            volume_code: 0,
            frequency: 0,
            freq_timer: 0,
            wave_pos: 0,
            enabled: false,
            ram,
        }
    }

    pub open spec fn write_control_spec(self, val: u8) -> WaveChannel {
        let c = WaveChannel {
            frequency: (self.frequency % 256 + (val % 8) * 256) as u16,
            length_enable: (val / 64) % 2 == 1,
            length_counter: if self.length_counter == 0 {
                WAVE_LENGTH_MAX
            } else {
                self.length_counter
            },
            ..self
        };
        if val >= 0x80 {
            WaveChannel {
                enabled: c.dac_enabled,
                freq_timer: ((2048 - c.frequency) * 2) as u16,
                wave_pos: 0,
                ..c
            }
        } else {
            c
        }
    }

    pub open spec fn step_spec(self, t_cycles: u8) -> WaveChannel {
        let r = countdown(self.freq_timer as int, self.period(), t_cycles as nat);
        WaveChannel {
            freq_timer: r.0 as u16,
            wave_pos: ((self.wave_pos + r.1) % 32) as u8,
            ..self
        }
    }

    /// The 4-bit sample at the current position, shifted by the volume code.
    pub open spec fn amplitude_spec(self) -> u8 {
        if !self.enabled {
            0
        } else {
            let byte = self.ram[self.wave_pos as int / 2];
            let nibble = if self.wave_pos % 2 == 0 {
                byte / 16
            } else {
                byte % 16
            };
            if self.volume_code == 0 {
                0
            } else if self.volume_code == 1 {
                nibble
            } else if self.volume_code == 2 {
                nibble / 2
            } else {
                nibble / 4
            }
        }
    }

    pub fn enabled(&self) -> (b: bool)
        ensures
            b == self.enabled,
    {
        self.enabled
    }

    pub fn read_dac_power(&self) -> (v: u8)
        ensures
            v == self.read_dac_power_spec(),
    {
        if self.dac_enabled {
            0xFF
        } else {
            0x7F
        }
    }

    pub fn write_dac_power(&mut self, val: u8)
        requires
            old(self).wf(),
        ensures
            *final(self) == old(self).write_dac_power_spec(val),
            final(self).wf(),
    {
        self.dac_enabled = val >= 0x80;
        if !self.dac_enabled {
            self.enabled = false;
        }
    }

    pub fn write_length(&mut self, val: u8)
        requires
            old(self).wf(),
        ensures
            *final(self) == old(self).write_length_spec(val),
            final(self).wf(),
    {
        self.length_load = val;
        self.length_counter = WAVE_LENGTH_MAX - self.length_load as u16;
    }

    pub fn read_volume(&self) -> (v: u8)
        requires
            self.wf(),
        ensures
            v == self.read_volume_spec(),
    {
        0x9F + self.volume_code * 32
    }

    pub fn write_volume(&mut self, val: u8)
        requires
            old(self).wf(),
        ensures
            *final(self) == old(self).write_volume_spec(val),
            final(self).wf(),
    {
        self.volume_code = (val / 32) % 4;
    }

    pub fn write_freq_lo(&mut self, val: u8)
        requires
            old(self).wf(),
        ensures
            *final(self) == old(self).write_freq_lo_spec(val),
            final(self).wf(),
    {
        self.frequency = (self.frequency / 256) * 256 + val as u16;
    }

    pub fn read_control(&self) -> (v: u8)
        ensures
            v == self.read_control_spec(),
    {
        if self.length_enable {
            0xFF
        } else {
            0xBF
        }
    }

    pub fn write_control(&mut self, val: u8)
        requires
            old(self).wf(),
        ensures
            *final(self) == old(self).write_control_spec(val),
            final(self).wf(),
    {
        self.frequency = self.frequency % 256 + (val % 8) as u16 * 256;
        self.length_enable = (val / 64) % 2 == 1;
        if self.length_counter == 0 {
            self.length_counter = WAVE_LENGTH_MAX;
        }
        if val >= 0x80 {
            self.enabled = self.dac_enabled;
            self.freq_timer = (2048 - self.frequency) * 2;
            self.wave_pos = 0;
        }
    }

    pub fn clock_length(&mut self)
        requires
            old(self).wf(),
        ensures
            *final(self) == old(self).clock_length_spec(),
            final(self).wf(),
    {
        if !self.length_enable || self.length_counter == 0 {
            return;
        }
        self.length_counter = self.length_counter - 1;
        if self.length_counter == 0 {
            self.enabled = false;
        }
    }

    pub fn step(&mut self, t_cycles: u8)
        requires
            old(self).wf(),
        ensures
            *final(self) == old(self).step_spec(t_cycles),
            final(self).wf(),
    {
        let period: u16 = (2048 - self.frequency) * 2;
        let (timer, expiries) = run_timer(self.freq_timer, period, t_cycles);
        self.freq_timer = timer;
        self.wave_pos = ((self.wave_pos as u32 + expiries) % 32) as u8;
    }

    pub fn amplitude(&self) -> (a: u8)
        requires
            self.wf(),
        ensures
            a == self.amplitude_spec(),
            a < 16,
    {
        if !self.enabled {
            return 0;
        }
        let byte = self.ram[(self.wave_pos / 2) as usize];
        let nibble = if self.wave_pos % 2 == 0 {
            byte / 16
        } else {
            byte % 16
        };
        match self.volume_code {
            0 => 0,
            1 => nibble,
            2 => nibble / 2,
            _ => nibble / 4,
        }
    }

    /// Sample RAM byte at `addr` (0xFF30-0xFF3F).
    pub fn read_wave_ram(&self, addr: u16) -> (v: u8)
        requires
            0xFF30 <= addr <= 0xFF3F,
        ensures
            v == self.ram[addr - 0xFF30],
    {
        self.ram[(addr - 0xFF30) as usize]
    }

    pub fn write_wave_ram(&mut self, addr: u16, val: u8)
        requires
            old(self).wf(),
            0xFF30 <= addr <= 0xFF3F,
        ensures
            *final(self) == old(self).write_wave_ram_spec(addr, val),
            final(self).wf(),
    {
        self.ram[(addr - 0xFF30) as usize] = val;
        proof {
            let expect = old(self).write_wave_ram_spec(addr, val).ram;
            assert(self.ram@ =~= expect@);
        }
    }

    /// Resets every register but keeps the sample RAM, as the hardware
    /// does when the APU powers off.
    pub fn power_off(&mut self)
        ensures
            *final(self) == WaveChannel::cleared(old(self).ram),
            final(self).wf(),
    {
        let ram = self.ram;
        *self = WaveChannel {
            dac_enabled: false,
            length_load: 0,
            length_counter: 0,
            length_enable: false,
            volume_code: 0,
            frequency: 0,
            freq_timer: 0,
            wave_pos: 0,
            enabled: false,
            ram,
        };
    }
}

impl Default for WaveChannel {
    fn default() -> (c: Self)
        ensures
            c == WaveChannel::cleared(c.ram),
            forall|i: int| 0 <= i < 16 ==> #[trigger] c.ram[i] == 0,
    {
        WaveChannel {
            dac_enabled: false,
            length_load: 0,
            length_counter: 0,
            length_enable: false,
            volume_code: 0,
            frequency: 0,
            freq_timer: 0,
            wave_pos: 0,
            enabled: false,
            ram: [0u8; 16],
        }
    }
}

// ---------------------------------------------------------------------------
// Noise channel
// ---------------------------------------------------------------------------

/// Base divisor for each NR43 divisor code.
pub open spec fn noise_divisor_spec(code: u8) -> u16 {
    if code == 0 {
        8
    } else {
        (code as int * 16) as u16
    }
}

fn noise_divisor(code: u8) -> (d: u16)
    requires
        code < 8,
    ensures
        d == noise_divisor_spec(code),
{
    if code == 0 {
        8
    } else {
        code as u16 * 16
    }
}

/// One LFSR clock: shift right, feeding back the XOR of the two low bits
/// into bit 14 (and bit 6 in 7-bit mode).
pub open spec fn lfsr_clock(lfsr: u16, width_mode: bool) -> u16 {
    let xor_bit = (lfsr & 1) ^ ((lfsr >> 1u16) & 1);
    let l = (lfsr >> 1u16) | (xor_bit << 14u16);
    if width_mode {
        (l & !0x40u16) | (xor_bit << 6u16)
    } else {
        l
    }
}

/// The LFSR after `n` clocks.
pub open spec fn lfsr_clocks(lfsr: u16, width_mode: bool, n: nat) -> u16
    decreases n,
{
    if n == 0 {
        lfsr
    } else {
        lfsr_clock(lfsr_clocks(lfsr, width_mode, (n - 1) as nat), width_mode)
    }
}

#[derive(Debug, Clone, Copy, PartialEq, Eq, Structural)]
pub struct NoiseChannel {
    pub length_load: u8,
    pub length_counter: u16,
    pub length_enable: bool,
    pub envelope: Envelope,
    pub clock_shift: u8,
    pub width_mode: bool,
    pub divisor_code: u8,
    pub freq_timer: u16,
    pub lfsr: u16,
    pub enabled: bool,
}

impl NoiseChannel {
    pub open spec fn write_length_spec(self, val: u8) -> NoiseChannel {
        NoiseChannel {
            length_load: val % 64,
            length_counter: (PULSE_LENGTH_MAX - val % 64) as u16,
            ..self
        }
    }

    pub open spec fn write_envelope_spec(self, val: u8) -> NoiseChannel {
        let e = self.envelope.write_spec(val);
        NoiseChannel { envelope: e, enabled: self.enabled && e.dac_spec(), ..self }
    }

    pub open spec fn read_polynomial_spec(self) -> u8 {
        (self.clock_shift * 16 + (if self.width_mode {
            8int
        } else {
            0
        }) + self.divisor_code) as u8
    }

    pub open spec fn write_polynomial_spec(self, val: u8) -> NoiseChannel {
        NoiseChannel {
            clock_shift: val / 16,
            width_mode: (val / 8) % 2 == 1,
            divisor_code: val % 8,
            ..self
        }
    }

    pub open spec fn read_control_spec(self) -> u8 {
        if self.length_enable {
            0xFF
        } else {
            0xBF
        }
    }

    pub open spec fn clock_length_spec(self) -> NoiseChannel {
        let (c, e) = length_clock_spec(self.length_counter, self.length_enable, self.enabled);
        NoiseChannel { length_counter: c, enabled: e, ..self }
    }

    pub open spec fn clock_envelope_spec(self) -> NoiseChannel {
        NoiseChannel { envelope: self.envelope.clock_spec(), ..self }
    }

    pub open spec fn wf(self) -> bool {
        &&& self.envelope.wf()
        &&& self.length_counter <= PULSE_LENGTH_MAX
        &&& self.clock_shift < 16
        &&& self.divisor_code < 8
    }

    /// T-cycles per LFSR clock: the divisor shifted left by the clock
    /// shift, in 16 bits.
    pub open spec fn period(self) -> u16 {
        noise_divisor_spec(self.divisor_code) << self.clock_shift
    }

    pub open spec fn initial() -> NoiseChannel {
        NoiseChannel {
            length_load: 0,
            length_counter: 0,
            length_enable: false,
            envelope: Envelope::zeroed(),
            clock_shift: 0,
            width_mode: false,
            divisor_code: 0,
            freq_timer: 0,
            lfsr: 0,
            enabled: false,
        }
    }

    pub open spec fn write_control_spec(self, val: u8) -> NoiseChannel {
        let c = NoiseChannel {
            length_enable: (val / 64) % 2 == 1,
            length_counter: if self.length_counter == 0 {
                PULSE_LENGTH_MAX
            } else {
                self.length_counter
            },
            ..self
        };
        if val >= 0x80 {
            NoiseChannel {
                enabled: c.envelope.dac_spec(),
                freq_timer: c.period(),
                envelope: Envelope {
                    volume: c.envelope.initial_volume,
                    timer: c.envelope.period,
                    ..c.envelope
                },
                lfsr: 0x7FFF,
                ..c
            }
        } else {
            c
        }
    }

    pub open spec fn step_spec(self, t_cycles: u8) -> NoiseChannel {
        let r = countdown(self.freq_timer as int, self.period() as int, t_cycles as nat);
        NoiseChannel {
            freq_timer: r.0 as u16,
            lfsr: lfsr_clocks(self.lfsr, self.width_mode, r.1),
            ..self
        }
    }

    pub open spec fn amplitude_spec(self) -> u8 {
        if !self.enabled {
            0
        } else if self.lfsr % 2 == 0 {
            self.envelope.volume
        } else {
            0
        }
    }

    pub fn enabled(&self) -> (b: bool)
        ensures
            b == self.enabled,
    {
        self.enabled
    }

    pub fn write_length(&mut self, val: u8)
        requires
            old(self).wf(),
        ensures
            *final(self) == old(self).write_length_spec(val),
            final(self).wf(),
    {
        self.length_load = val % 64;
        self.length_counter = PULSE_LENGTH_MAX - self.length_load as u16;
    }

    pub fn read_envelope(&self) -> (v: u8)
        requires
            self.wf(),
        ensures
            v == self.envelope.read_spec(),
    {
        self.envelope.read_nrx2()
    }

    pub fn write_envelope(&mut self, val: u8)
        requires
            old(self).wf(),
        ensures
            *final(self) == old(self).write_envelope_spec(val),
            final(self).wf(),
    {
        self.envelope.write_nrx2(val);
        if !self.envelope.dac_enabled() {
            self.enabled = false;
        }
    }

    pub fn read_polynomial(&self) -> (v: u8)
        requires
            self.wf(),
        ensures
            v == self.read_polynomial_spec(),
    {
        let w: u8 = if self.width_mode {
            8
        } else {
            0
        };
        self.clock_shift * 16 + w + self.divisor_code
    }

    pub fn write_polynomial(&mut self, val: u8)
        requires
            old(self).wf(),
        ensures
            *final(self) == old(self).write_polynomial_spec(val),
            final(self).wf(),
    {
        self.clock_shift = val / 16;
        self.width_mode = (val / 8) % 2 == 1;
        self.divisor_code = val % 8;
    }

    pub fn read_control(&self) -> (v: u8)
        ensures
            v == self.read_control_spec(),
    {
        if self.length_enable {
            0xFF
        } else {
            0xBF
        }
    }

    pub fn write_control(&mut self, val: u8)
        requires
            old(self).wf(),
        ensures
            *final(self) == old(self).write_control_spec(val),
            final(self).wf(),
    {
        self.length_enable = (val / 64) % 2 == 1;
        if self.length_counter == 0 {
            self.length_counter = PULSE_LENGTH_MAX;
        }
        if val >= 0x80 {
            self.enabled = self.envelope.dac_enabled();
            self.freq_timer = noise_divisor(self.divisor_code) << self.clock_shift;
            self.envelope.trigger();
            self.lfsr = 0x7FFF;
        }
    }

    pub fn clock_length(&mut self)
        requires
            old(self).wf(),
        ensures
            *final(self) == old(self).clock_length_spec(),
            final(self).wf(),
    {
        if !self.length_enable || self.length_counter == 0 {
            return;
        }
        self.length_counter = self.length_counter - 1;
        if self.length_counter == 0 {
            self.enabled = false;
        }
    }

    pub fn clock_envelope(&mut self)
        requires
            old(self).wf(),
        ensures
            *final(self) == old(self).clock_envelope_spec(),
            final(self).wf(),
    {
        self.envelope.clock();
    }

    /// Advances the LFSR timer. The period must be nonzero: a clock shift
    /// that shifts the divisor out of 16 bits leaves the timer without
    /// any period to count.
    pub fn step(&mut self, t_cycles: u8)
        requires
            old(self).wf(),
            old(self).period() != 0,
        ensures
            *final(self) == old(self).step_spec(t_cycles),
            final(self).wf(),
    {
        let period = noise_divisor(self.divisor_code) << self.clock_shift;
        let (timer, expiries) = run_timer(self.freq_timer, period, t_cycles);
        let width = self.width_mode;
        let mut l = self.lfsr;
        let mut k: u32 = 0;
        while k < expiries
            invariant
                k <= expiries,
                l == lfsr_clocks(old(self).lfsr, width, k as nat),
            decreases expiries - k,
        {
            l = Self::clock_lfsr(l, width);
            k = k + 1;
        }
        self.freq_timer = timer;
        self.lfsr = l;
    }

    fn clock_lfsr(lfsr: u16, width_mode: bool) -> (l: u16)
        ensures
            l == lfsr_clock(lfsr, width_mode),
    {
        let xor_bit = (lfsr & 1) ^ ((lfsr >> 1u16) & 1);
        let l = (lfsr >> 1u16) | (xor_bit << 14u16);
        if width_mode {
            (l & !0x40u16) | (xor_bit << 6u16)
        } else {
            l
        }
    }

    pub fn amplitude(&self) -> (a: u8)
        requires
            self.wf(),
        ensures
            a == self.amplitude_spec(),
            a < 16,
    {
        if !self.enabled {
            return 0;
        }
        if self.lfsr % 2 == 0 {
            self.envelope.volume
        } else {
            0
        }
    }
}

impl Default for NoiseChannel {
    fn default() -> (c: Self)
        ensures
            c == NoiseChannel::initial(),
    {
        NoiseChannel {
            length_load: 0,
            length_counter: 0,
            length_enable: false,
            envelope: Envelope::default(),
            clock_shift: 0,
            width_mode: false,
            divisor_code: 0,
            freq_timer: 0,
            lfsr: 0,
            enabled: false,
        }
    }
}

} // verus!
