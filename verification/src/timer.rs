//! Timer: `DIV`/`TIMA`/`TMA`/`TAC` and the timer interrupt.
//!
//! `DIV` is the top byte of a free-running 16-bit counter that increments
//! every T-cycle and resets to 0 on any write to `DIV`. `TIMA` increments
//! on a *falling edge* of a TAC-selected bit of that 16-bit counter, so
//! writing `DIV` or `TAC` can itself cause that selected bit to fall,
//! incrementing `TIMA` immediately. On `TIMA` overflow it reloads from
//! `TMA` and requests the timer interrupt.
//!
//! Simplification: real hardware delays the overflow reload/interrupt by
//! one M-cycle; not modeled.
use vstd::prelude::*;

verus! {

/// Timer interrupt request bit (bit 2) in `IF`/`IE`.
pub const TIMER_INT_BIT: u8 = 1 << 2;

pub const TAC_ENABLE: u8 = 0b100;

/// Bit of the 16-bit `DIV` counter that feeds `TIMA`, indexed by `TAC &
/// 0b11` (the two clock-select bits): 4096 Hz, 262144 Hz, 65536 Hz, 16384
/// Hz.
pub open spec fn tac_bit_spec(tac: u8) -> u16 {
    let sel = tac % 4;
    if sel == 0 {
        9
    } else if sel == 1 {
        3
    } else if sel == 2 {
        5
    } else {
        7
    }
}

fn tac_bit(tac: u8) -> (b: u16)
    ensures
        b == tac_bit_spec(tac),
{
    match tac % 4 {
        0 => 9,
        1 => 3,
        2 => 5,
        _ => 7,
    }
}

/// Abstract timer state.
pub struct TimerView {
    pub div_counter: u16,
    pub tima: u8,
    pub tma: u8,
    pub tac: u8,
    pub interrupt_pending: bool,
}

/// Whether the timer is enabled and the TAC-selected counter bit is 1.
pub open spec fn selected_bit_high_spec(tac: u8, counter: u16) -> bool {
    tac & TAC_ENABLE != 0 && (counter >> tac_bit_spec(tac)) & 1 != 0
}

/// `TIMA + 1`, reloading from `TMA` and requesting the interrupt on
/// overflow.
pub open spec fn increment_tima_spec(t: TimerView) -> TimerView {
    if t.tima == 255 {
        TimerView { tima: t.tma, interrupt_pending: true, ..t }
    } else {
        TimerView { tima: (t.tima + 1) as u8, ..t }
    }
}

/// Sets the counter; a falling edge of the selected bit increments `TIMA`.
/// Writing `TAC`: a falling selected bit (timer disabled, or switched
/// to a bit that is 0) increments `TIMA`.
pub open spec fn write_tac_spec(t: TimerView, val: u8) -> TimerView {
    let t2 = TimerView { tac: val & 0b111, ..t };
    if selected_bit_high_spec(t.tac, t.div_counter) && !selected_bit_high_spec(
        val & 0b111,
        t.div_counter,
    ) {
        increment_tima_spec(t2)
    } else {
        t2
    }
}

pub open spec fn set_counter_spec(t: TimerView, val: u16) -> TimerView {
    let t2 = TimerView { div_counter: val, ..t };
    if selected_bit_high_spec(t.tac, t.div_counter) && !selected_bit_high_spec(t.tac, val) {
        increment_tima_spec(t2)
    } else {
        t2
    }
}

/// The timer after `n` T-cycles.
pub open spec fn run_spec(t: TimerView, n: nat) -> TimerView
    decreases n,
{
    if n == 0 {
        t
    } else {
        let prev = run_spec(t, (n - 1) as nat);
        set_counter_spec(prev, prev.div_counter.wrapping_add(1))
    }
}

#[derive(Debug, Clone)]
pub struct Timer {
    div_counter: u16,
    tima: u8,
    tma: u8,
    tac: u8,
    /// Set when `TIMA` overflows; consumed via [`Timer::take_interrupt`].
    interrupt_pending: bool,
}

impl View for Timer {
    type V = TimerView;

    closed spec fn view(&self) -> TimerView {
        TimerView {
            div_counter: self.div_counter,
            tima: self.tima,
            tma: self.tma,
            tac: self.tac,
            interrupt_pending: self.interrupt_pending,
        }
    }
}

impl Timer {
    pub fn new() -> (t: Self)
        ensures
            t@ == (TimerView { div_counter: 0, tima: 0, tma: 0, tac: 0, interrupt_pending: false }),
    {
        Timer { div_counter: 0, tima: 0, tma: 0, tac: 0, interrupt_pending: false }
    }

    pub fn read_div(&self) -> (v: u8)
        ensures
            v == self@.div_counter / 256,
    {
        proof {
            crate::cpu::registers::lemma_word_bytes(0, 0, self.div_counter);
        }
        (self.div_counter >> 8) as u8
    }

    pub fn write_div(&mut self, _val: u8)
        ensures
            final(self)@ == set_counter_spec(old(self)@, 0),
    {
        self.set_counter(0);
    }

    pub fn read_tima(&self) -> (v: u8)
        ensures
            v == self@.tima,
    {
        self.tima
    }

    pub fn write_tima(&mut self, val: u8)
        ensures
            final(self)@ == (TimerView { tima: val, ..old(self)@ }),
    {
        self.tima = val;
    }

    pub fn read_tma(&self) -> (v: u8)
        ensures
            v == self@.tma,
    {
        self.tma
    }

    pub fn write_tma(&mut self, val: u8)
        ensures
            final(self)@ == (TimerView { tma: val, ..old(self)@ }),
    {
        self.tma = val;
    }

    pub fn read_tac(&self) -> (v: u8)
        ensures
            v == self@.tac | 0b1111_1000,
    {
        self.tac | 0b1111_1000
    }

    /// Writing `TAC` can make the selected bit fall (disabling the timer or
    /// switching to a bit that is 0), which increments `TIMA`.
    pub fn write_tac(&mut self, val: u8)
        ensures
            final(self)@ == write_tac_spec(old(self)@, val),
    {
        let was_high = self.selected_bit_high();
        self.tac = val & 0b111;
        if was_high && !self.selected_bit_high() {
            self.increment_tima();
        }
    }

    /// Advances the timer by `t_cycles` T-cycles, one cycle at a time so
    /// the falling-edge check applies uniformly to natural counting.
    pub fn step(&mut self, t_cycles: u8)
        ensures
            final(self)@ == run_spec(old(self)@, t_cycles as nat),
    {
        let mut i: u8 = 0;
        while i < t_cycles
            invariant
                i <= t_cycles,
                self@ == run_spec(old(self)@, i as nat),
            decreases t_cycles - i,
        {
            self.set_counter(self.div_counter.wrapping_add(1));
            i = i + 1;
        }
    }

    /// Consumes and returns whether `TIMA` overflowed since the last call.
    pub fn take_interrupt(&mut self) -> (b: bool)
        ensures
            b == old(self)@.interrupt_pending,
            final(self)@ == (TimerView { interrupt_pending: false, ..old(self)@ }),
    {
        let b = self.interrupt_pending;
        self.interrupt_pending = false;
        b
    }

    fn selected_bit_high(&self) -> (b: bool)
        ensures
            b == selected_bit_high_spec(self.tac, self.div_counter),
    {
        self.tac & TAC_ENABLE != 0 && (self.div_counter >> tac_bit(self.tac)) & 1 != 0
    }

    fn set_counter(&mut self, val: u16)
        ensures
            final(self)@ == set_counter_spec(old(self)@, val),
    {
        let was_high = self.selected_bit_high();
        self.div_counter = val;
        if was_high && !self.selected_bit_high() {
            self.increment_tima();
        }
    }

    fn increment_tima(&mut self)
        ensures
            final(self)@ == increment_tima_spec(old(self)@),
    {
        if self.tima == 255 {
            self.tima = self.tma;
            self.interrupt_pending = true;
        } else {
            self.tima = self.tima + 1;
        }
    }
}

impl Default for Timer {
    fn default() -> (t: Self)
        ensures
            t@ == (TimerView { div_counter: 0, tima: 0, tma: 0, tac: 0, interrupt_pending: false }),
    {
        Timer::new()
    }
}

/// `DIV` counts T-cycles: after `n` cycles the 16-bit counter has advanced
/// by exactly `n` (mod 2^16), whatever `TAC`/`TIMA` do.
pub proof fn lemma_counter_advances(t: TimerView, n: nat)
    ensures
        run_spec(t, n).div_counter == (t.div_counter as int + n) % 65536,
        run_spec(t, n).tac == t.tac,
        run_spec(t, n).tma == t.tma,
    decreases n,
{
    if n > 0 {
        lemma_counter_advances(t, (n - 1) as nat);
    }
}

/// `TIMA` only moves on a falling edge: with the timer disabled, running
/// any number of cycles leaves `TIMA` and the interrupt request alone.
pub proof fn lemma_disabled_timer_never_counts(t: TimerView, n: nat)
    requires
        t.tac & TAC_ENABLE == 0,
    ensures
        run_spec(t, n).tima == t.tima,
        run_spec(t, n).interrupt_pending == t.interrupt_pending,
    decreases n,
{
    if n > 0 {
        lemma_disabled_timer_never_counts(t, (n - 1) as nat);
        lemma_counter_advances(t, (n - 1) as nat);
    }
}

/// T-cycles per `TIMA` increment for `TAC`'s clock select: 1024, 16, 64
/// and 256 cycles (4096, 262144, 65536 and 16384 Hz at 4194304 Hz).
pub open spec fn tima_period(tac: u8) -> int {
    let sel = tac % 4;
    if sel == 0 {
        1024
    } else if sel == 1 {
        16
    } else if sel == 2 {
        64
    } else {
        256
    }
}

/// The selected counter bit falls on a step from `v` to `v + 1` (mod 2^16)
/// exactly when the new count is a multiple of the clock-select period.
proof fn lemma_falling_edge(tac: u8, v: u16, w: u16)
    requires
        w as int == (v as int + 1) % 65536,
    ensures
        ((v >> tac_bit_spec(tac)) & 1 != 0 && (w >> tac_bit_spec(tac)) & 1 == 0) == (w as int
            % tima_period(tac) == 0),
{
    if v == 65535 {
        assert(w == 0);
    } else {
        assert(w == v + 1);
    }
    assert({
        &&& ((v >> 3) & 1 != 0 && (w >> 3) & 1 == 0) == (w % 16 == 0)
        &&& ((v >> 5) & 1 != 0 && (w >> 5) & 1 == 0) == (w % 64 == 0)
        &&& ((v >> 7) & 1 != 0 && (w >> 7) & 1 == 0) == (w % 256 == 0)
        &&& ((v >> 9) & 1 != 0 && (w >> 9) & 1 == 0) == (w % 1024 == 0)
    }) by (bit_vector)
        requires
            (v < 65535 && w == v + 1) || (v == 65535 && w == 0),
    ;
}

/// `x / p` grows by one exactly when `x` reaches a multiple of `p`.
proof fn lemma_div_step(x: int, p: int)
    requires
        x >= 1,
        p > 0,
    ensures
        x / p == (x - 1) / p + if x % p == 0 {
            1int
        } else {
            0int
        },
{
    let q = x / p;
    let r = x % p;
    vstd::arithmetic::div_mod::lemma_fundamental_div_mod(x, p);
    if r > 0 {
        vstd::arithmetic::div_mod::lemma_fundamental_div_mod_converse(x - 1, p, q, r - 1);
    } else {
        assert((q - 1) * p == q * p - p) by (nonlinear_arith);
        vstd::arithmetic::div_mod::lemma_fundamental_div_mod_converse(x - 1, p, q - 1, p - 1);
    }
}

/// With the timer enabled, `TIMA` counts the multiples of the clock-select
/// period that the cycle counter passes: from counter value `c`, running
/// `n` T-cycles brings `k = (c + n) / P - c / P` increments, where `P` is
/// 1024, 16, 64 or 256 cycles for clock select 0-3 (so from a fresh
/// counter, `k = n / P`). If `TIMA + k` stays within a byte, `TIMA` grows
/// by `k` and no interrupt is requested; otherwise the increment that
/// overflows reloads `TMA` and requests the timer interrupt, and the rest
/// count on from `TMA` (as long as they do not overflow again).
pub proof fn lemma_tima_counts_periods(t: TimerView, n: nat)
    requires
        t.tac & TAC_ENABLE != 0,
        t.tima as int + (t.div_counter as int + n) / tima_period(t.tac) - t.div_counter as int
            / tima_period(t.tac) <= 256 + 255 - t.tma as int,
    ensures
        ({
            let k = (t.div_counter as int + n) / tima_period(t.tac) - t.div_counter as int
                / tima_period(t.tac);
            &&& t.tima as int + k <= 255 ==> run_spec(t, n).tima as int == t.tima as int + k
                && run_spec(t, n).interrupt_pending == t.interrupt_pending
            &&& t.tima as int + k > 255 ==> run_spec(t, n).tima as int == t.tma as int + t.tima as int
                + k - 256 && run_spec(t, n).interrupt_pending
        }),
    decreases n,
{
    let c = t.div_counter as int;
    let p = tima_period(t.tac);
    if n > 0 {
        vstd::arithmetic::div_mod::lemma_div_is_ordered(c + n - 1, c + n, p);
        lemma_tima_counts_periods(t, (n - 1) as nat);
        lemma_counter_advances(t, (n - 1) as nat);
        lemma_counter_advances(t, n);
        let prev = run_spec(t, (n - 1) as nat);
        let v = prev.div_counter;
        let w = v.wrapping_add(1);
        assert(w as int == (v as int + 1) % 65536) by {
            vstd::arithmetic::div_mod::lemma_add_mod_noop(c + n - 1, 1, 65536);
            vstd::arithmetic::div_mod::lemma_small_mod(1, 65536);
        }
        assert(w as int == (c + n) % 65536) by {
            vstd::arithmetic::div_mod::lemma_add_mod_noop(c + n - 1, 1, 65536);
            vstd::arithmetic::div_mod::lemma_mod_twice(c + n - 1, 65536);
        }
        lemma_falling_edge(t.tac, v, w);
        assert(w as int % p == (c + n) % p) by {
            assert(p * (65536int / p) == 65536);
            vstd::arithmetic::div_mod::lemma_mod_mod(c + n, p, 65536int / p);
        }
        lemma_div_step(c + n, p);
        assert(t.tac & TAC_ENABLE != 0);
    }
}

} // verus!
