//! Joypad register (`JOYP`/`P1`, 0xFF00) and button state.
//!
//! Real hardware multiplexes 8 buttons onto 4 bus lines (P10-P13) via two
//! active-low select lines (P14 = direction buttons, P15 = action
//! buttons). The joypad interrupt fires on any 1->0 (pressed) transition
//! of a *currently selected* line — either from a button press while its
//! row is selected, or from selecting a row whose button is already held
//! down. Both are modeled by comparing the selected-lines nibble
//! before/after each state change.
use vstd::prelude::*;

verus! {

/// Joypad interrupt request bit (bit 4) in `IF`/`IE`.
pub const JOYPAD_INT_BIT: u8 = 1 << 4;

pub const SELECT_DIRECTIONS: u8 = 1 << 4;
pub const SELECT_ACTIONS: u8 = 1 << 5;
pub const SELECT_MASK: u8 = 0b0011_0000;
pub const UNUSED_BITS: u8 = 0b1100_0000;

#[derive(Debug, Clone, Copy, PartialEq, Eq, Hash, Structural)]
pub enum Button {
    Right,
    Left,
    Up,
    Down,
    A,
    B,
    Select,
    Start,
}

/// Abstract joypad state: select lines, the eight buttons (true = held),
/// and the pending interrupt request.
pub struct JoypadView {
    pub select_bits: u8,
    pub right: bool,
    pub left: bool,
    pub up: bool,
    pub down: bool,
    pub a: bool,
    pub b: bool,
    pub select: bool,
    pub start: bool,
    pub interrupt_pending: bool,
}

impl JoypadView {
    /// Only the two select bits (4-5) of the stored `JOYP` value can be set.
    pub open spec fn wf(self) -> bool {
        self.select_bits & !SELECT_MASK == 0
    }
}

/// What a read of `JOYP` returns.
pub open spec fn read_joyp_spec(j: JoypadView) -> u8 {
    UNUSED_BITS | j.select_bits | selected_lines_spec(j)
}

/// Active-low P10-P13 (0 = pressed) for whichever row(s) are selected;
/// both rows OR'd onto the same four lines when both are selected.
pub open spec fn selected_lines_spec(j: JoypadView) -> u8 {
    let dirs = j.select_bits & SELECT_DIRECTIONS == 0;
    let acts = j.select_bits & SELECT_ACTIONS == 0;
    let l0: u8 = 0x0F;
    let l1: u8 = if dirs && j.right { l0 & !0x01u8 } else { l0 };
    let l2: u8 = if dirs && j.left { l1 & !0x02u8 } else { l1 };
    let l3: u8 = if dirs && j.up { l2 & !0x04u8 } else { l2 };
    let l4: u8 = if dirs && j.down { l3 & !0x08u8 } else { l3 };
    let l5: u8 = if acts && j.a { l4 & !0x01u8 } else { l4 };
    let l6: u8 = if acts && j.b { l5 & !0x02u8 } else { l5 };
    let l7: u8 = if acts && j.select { l6 & !0x04u8 } else { l6 };
    if acts && j.start { l7 & !0x08u8 } else { l7 }
}

/// An interrupt is requested when some line goes from 1 to 0.
pub open spec fn falling_edge(before: u8, after: u8) -> bool {
    before & !after & 0x0F != 0
}

/// The state with `button` set to `pressed`.
pub open spec fn with_button(j: JoypadView, button: Button, pressed: bool) -> JoypadView {
    match button {
        Button::Right => JoypadView { right: pressed, ..j },
        Button::Left => JoypadView { left: pressed, ..j },
        Button::Up => JoypadView { up: pressed, ..j },
        Button::Down => JoypadView { down: pressed, ..j },
        Button::A => JoypadView { a: pressed, ..j },
        Button::B => JoypadView { b: pressed, ..j },
        Button::Select => JoypadView { select: pressed, ..j },
        Button::Start => JoypadView { start: pressed, ..j },
    }
}

/// Applies a state change, latching an interrupt on a falling edge.
pub open spec fn latch_edge(before: JoypadView, after: JoypadView) -> JoypadView {
    JoypadView {
        interrupt_pending: after.interrupt_pending || falling_edge(
            selected_lines_spec(before),
            selected_lines_spec(after),
        ),
        ..after
    }
}

#[derive(Debug)]
pub struct Joypad {
    /// Raw `JOYP` bits 4-5 as last written (0 = that row is selected).
    select_bits: u8,
    right: bool,
    left: bool,
    up: bool,
    down: bool,
    a: bool,
    b: bool,
    select: bool,
    start: bool,
    interrupt_pending: bool,
}

impl Joypad {
    /// Only the two select bits are ever stored.
    #[verifier::type_invariant]
    spec fn select_bits_only(&self) -> bool {
        self.select_bits & !SELECT_MASK == 0
    }
}

impl Clone for Joypad {
    fn clone(&self) -> (c: Self)
        ensures
            c@ == self@,
    {
        proof {
            use_type_invariant(self);
        }
        Joypad {
            select_bits: self.select_bits,
            right: self.right,
            left: self.left,
            up: self.up,
            down: self.down,
            a: self.a,
            b: self.b,
            select: self.select,
            start: self.start,
            interrupt_pending: self.interrupt_pending,
        }
    }
}

impl View for Joypad {
    type V = JoypadView;

    closed spec fn view(&self) -> JoypadView {
        JoypadView {
            select_bits: self.select_bits,
            right: self.right,
            left: self.left,
            up: self.up,
            down: self.down,
            a: self.a,
            b: self.b,
            select: self.select,
            start: self.start,
            interrupt_pending: self.interrupt_pending,
        }
    }
}

impl Joypad {
    /// Nothing held, both rows selected, no interrupt pending.
    pub open spec fn initial() -> JoypadView {
        JoypadView {
            select_bits: 0,
            right: false,
            left: false,
            up: false,
            down: false,
            a: false,
            b: false,
            select: false,
            start: false,
            interrupt_pending: false,
        }
    }

    pub fn new() -> (j: Self)
        ensures
            j@ == Joypad::initial(),
            j@.wf(),
    {
        assert(0u8 & !SELECT_MASK == 0) by (bit_vector);
        Joypad {
            select_bits: 0,
            right: false,
            left: false,
            up: false,
            down: false,
            a: false,
            b: false,
            select: false,
            start: false,
            interrupt_pending: false,
        }
    }

    /// Bits 6-7 unused (read 1), bits 4-5 the last-written select lines,
    /// bits 0-3 the (active-low) state of whichever row(s) are selected.
    pub fn read_joyp(&self) -> (v: u8)
        ensures
            v == read_joyp_spec(self@),
            self@.wf(),
            v & 0x0F == selected_lines_spec(self@),
    {
        proof {
            use_type_invariant(self);
            lemma_read_low_nibble(self@);
        }
        UNUSED_BITS | self.select_bits | self.selected_lines()
    }

    pub fn write_joyp(&mut self, val: u8)
        ensures
            final(self)@ == latch_edge(old(self)@, JoypadView { select_bits: val & SELECT_MASK, ..old(self)@ }),
            final(self)@.wf(),
    {
        assert((val & SELECT_MASK) & !SELECT_MASK == 0) by (bit_vector);
        let before = self.selected_lines();
        self.select_bits = val & SELECT_MASK;
        let after = self.selected_lines();
        self.request_interrupt_on_falling_edge(before, after);
    }

    pub fn set_button(&mut self, button: Button, pressed: bool)
        ensures
            final(self)@ == latch_edge(old(self)@, with_button(old(self)@, button, pressed)),
            old(self)@.wf() ==> final(self)@.wf(),
    {
        proof {
            use_type_invariant(&*self);
        }
        let before = self.selected_lines();
        match button {
            Button::Right => self.right = pressed,
            Button::Left => self.left = pressed,
            Button::Up => self.up = pressed,
            Button::Down => self.down = pressed,
            Button::A => self.a = pressed,
            Button::B => self.b = pressed,
            Button::Select => self.select = pressed,
            Button::Start => self.start = pressed,
        }
        let after = self.selected_lines();
        self.request_interrupt_on_falling_edge(before, after);
    }

    /// Consumes and returns whether a selected line had a falling
    /// (pressed) edge since the last call.
    pub fn take_interrupt(&mut self) -> (b: bool)
        ensures
            b == old(self)@.interrupt_pending,
            final(self)@ == (JoypadView { interrupt_pending: false, ..old(self)@ }),
            old(self)@.wf() ==> final(self)@.wf(),
    {
        proof {
            use_type_invariant(&*self);
        }
        let b = self.interrupt_pending;
        self.interrupt_pending = false;
        b
    }

    fn request_interrupt_on_falling_edge(&mut self, before: u8, after: u8)
        ensures
            final(self)@ == (JoypadView {
                interrupt_pending: old(self)@.interrupt_pending || falling_edge(before, after),
                ..old(self)@
            }),
    {
        proof {
            use_type_invariant(&*self);
        }
        if before & !after & 0x0F != 0 {
            self.interrupt_pending = true;
        }
    }

    fn selected_lines(&self) -> (lines: u8)
        ensures
            lines == selected_lines_spec(self@),
    {
        let mut lines: u8 = 0x0F;
        if self.select_bits & SELECT_DIRECTIONS == 0 {
            if self.right {
                lines &= !0x01u8;
            }
            if self.left {
                lines &= !0x02u8;
            }
            if self.up {
                lines &= !0x04u8;
            }
            if self.down {
                lines &= !0x08u8;
            }
        }
        if self.select_bits & SELECT_ACTIONS == 0 {
            if self.a {
                lines &= !0x01u8;
            }
            if self.b {
                lines &= !0x02u8;
            }
            if self.select {
                lines &= !0x04u8;
            }
            if self.start {
                lines &= !0x08u8;
            }
        }
        lines
    }
}

impl Default for Joypad {
    fn default() -> (j: Self)
        ensures
            j@ == Joypad::initial(),
    {
        Joypad::new()
    }
}

/// Releasing a button never raises the joypad interrupt: the pending
/// flag stays as it was.
pub proof fn lemma_release_never_interrupts(j: JoypadView, button: Button)
    ensures
        latch_edge(j, with_button(j, button, false)).interrupt_pending == j.interrupt_pending,
{
    lemma_lines_monotone(j, with_button(j, button, false));
}

/// Holding fewer buttons (same select lines) can only raise lines: every
/// line low afterwards was already low before.
proof fn lemma_lines_monotone(j1: JoypadView, j2: JoypadView)
    requires
        j1.select_bits == j2.select_bits,
        j2.right ==> j1.right,
        j2.left ==> j1.left,
        j2.up ==> j1.up,
        j2.down ==> j1.down,
        j2.a ==> j1.a,
        j2.b ==> j1.b,
        j2.select ==> j1.select,
        j2.start ==> j1.start,
    ensures
        selected_lines_spec(j1) & !selected_lines_spec(j2) & 0x0F == 0,
{
    let sd = j1.select_bits & SELECT_DIRECTIONS == 0;
    let sa = j1.select_bits & SELECT_ACTIONS == 0;
    let (r1, l1, u1, d1, a1, b1, s1, t1) = (j1.right, j1.left, j1.up, j1.down, j1.a, j1.b, j1.select, j1.start);
    let (r2, l2, u2, d2, a2, b2, s2, t2) = (j2.right, j2.left, j2.up, j2.down, j2.a, j2.b, j2.select, j2.start);
    assert(({
        let p0: u8 = 0x0F;
        let p1: u8 = if sd && r1 { p0 & !0x01u8 } else { p0 };
        let p2: u8 = if sd && l1 { p1 & !0x02u8 } else { p1 };
        let p3: u8 = if sd && u1 { p2 & !0x04u8 } else { p2 };
        let p4: u8 = if sd && d1 { p3 & !0x08u8 } else { p3 };
        let p5: u8 = if sa && a1 { p4 & !0x01u8 } else { p4 };
        let p6: u8 = if sa && b1 { p5 & !0x02u8 } else { p5 };
        let p7: u8 = if sa && s1 { p6 & !0x04u8 } else { p6 };
        let p8: u8 = if sa && t1 { p7 & !0x08u8 } else { p7 };
        let q0: u8 = 0x0F;
        let q1: u8 = if sd && r2 { q0 & !0x01u8 } else { q0 };
        let q2: u8 = if sd && l2 { q1 & !0x02u8 } else { q1 };
        let q3: u8 = if sd && u2 { q2 & !0x04u8 } else { q2 };
        let q4: u8 = if sd && d2 { q3 & !0x08u8 } else { q3 };
        let q5: u8 = if sa && a2 { q4 & !0x01u8 } else { q4 };
        let q6: u8 = if sa && b2 { q5 & !0x02u8 } else { q5 };
        let q7: u8 = if sa && s2 { q6 & !0x04u8 } else { q6 };
        let q8: u8 = if sa && t2 { q7 & !0x08u8 } else { q7 };
        (r2 ==> r1) && (l2 ==> l1) && (u2 ==> u1) && (d2 ==> d1) && (a2 ==> a1) && (b2 ==> b1) && (s2
            ==> s1) && (t2 ==> t1) ==> p8 & !q8 & 0x0F == 0
    })) by (bit_vector);
}

/// The `JOYP` line bit (P10-P13) a button drives.
pub open spec fn line_mask(button: Button) -> u8 {
    match button {
        Button::Right | Button::A => 0x01,
        Button::Left | Button::B => 0x02,
        Button::Up | Button::Select => 0x04,
        Button::Down | Button::Start => 0x08,
    }
}

/// Whether the row (directions or actions) a button belongs to is
/// selected.
pub open spec fn row_selected(j: JoypadView, button: Button) -> bool {
    match button {
        Button::Right | Button::Left | Button::Up | Button::Down => j.select_bits & SELECT_DIRECTIONS
            == 0,
        _ => j.select_bits & SELECT_ACTIONS == 0,
    }
}

proof fn lemma_pressed_line_low(j: JoypadView, button: Button)
    requires
        row_selected(j, button),
    ensures
        selected_lines_spec(with_button(j, button, true)) & line_mask(button) == 0,
{
    let k = with_button(j, button, true);
    let sd = k.select_bits & SELECT_DIRECTIONS == 0;
    let sa = k.select_bits & SELECT_ACTIONS == 0;
    let (r, l, u, d, a, b, s, t) = (k.right, k.left, k.up, k.down, k.a, k.b, k.select, k.start);
    assert(({
        let p0: u8 = 0x0F;
        let p1: u8 = if sd && r { p0 & !0x01u8 } else { p0 };
        let p2: u8 = if sd && l { p1 & !0x02u8 } else { p1 };
        let p3: u8 = if sd && u { p2 & !0x04u8 } else { p2 };
        let p4: u8 = if sd && d { p3 & !0x08u8 } else { p3 };
        let p5: u8 = if sa && a { p4 & !0x01u8 } else { p4 };
        let p6: u8 = if sa && b { p5 & !0x02u8 } else { p5 };
        let p7: u8 = if sa && s { p6 & !0x04u8 } else { p6 };
        let p8: u8 = if sa && t { p7 & !0x08u8 } else { p7 };
        &&& (sd && r) || (sa && a) ==> p8 & 0x01 == 0
        &&& (sd && l) || (sa && b) ==> p8 & 0x02 == 0
        &&& (sd && u) || (sa && s) ==> p8 & 0x04 == 0
        &&& (sd && d) || (sa && t) ==> p8 & 0x08 == 0
    })) by (bit_vector);
}

/// Pressing a button while its row is selected requests the joypad
/// interrupt, unless its line was already low (another selected button
/// on the same line held).
pub proof fn lemma_press_requests_interrupt(j: JoypadView, button: Button)
    requires
        row_selected(j, button),
        selected_lines_spec(j) & line_mask(button) != 0,
    ensures
        latch_edge(j, with_button(j, button, true)).interrupt_pending,
{
    lemma_pressed_line_low(j, button);
    let x = selected_lines_spec(j);
    let y = selected_lines_spec(with_button(j, button, true));
    let m = line_mask(button);
    assert(m == 1 || m == 2 || m == 4 || m == 8);
    assert(x & !y & 0x0F != 0) by (bit_vector)
        requires
            x & m != 0,
            y & m == 0,
            m == 1 || m == 2 || m == 4 || m == 8,
    ;
}

/// The selected lines occupy only the low nibble.
proof fn lemma_lines_low_nibble(j: JoypadView)
    ensures
        selected_lines_spec(j) & 0xF0 == 0,
{
    let sd = j.select_bits & SELECT_DIRECTIONS == 0;
    let sa = j.select_bits & SELECT_ACTIONS == 0;
    let (r, l, u, d, a, b, s, t) = (j.right, j.left, j.up, j.down, j.a, j.b, j.select, j.start);
    assert(({
        let p0: u8 = 0x0F;
        let p1: u8 = if sd && r { p0 & !0x01u8 } else { p0 };
        let p2: u8 = if sd && l { p1 & !0x02u8 } else { p1 };
        let p3: u8 = if sd && u { p2 & !0x04u8 } else { p2 };
        let p4: u8 = if sd && d { p3 & !0x08u8 } else { p3 };
        let p5: u8 = if sa && a { p4 & !0x01u8 } else { p4 };
        let p6: u8 = if sa && b { p5 & !0x02u8 } else { p5 };
        let p7: u8 = if sa && s { p6 & !0x04u8 } else { p6 };
        let p8: u8 = if sa && t { p7 & !0x08u8 } else { p7 };
        p8 & 0xF0 == 0
    })) by (bit_vector);
}

/// With only select bits stored, the low nibble of a `JOYP` read is
/// exactly the selected lines.
pub proof fn lemma_read_low_nibble(j: JoypadView)
    requires
        j.wf(),
    ensures
        read_joyp_spec(j) & 0x0F == selected_lines_spec(j),
{
    lemma_lines_low_nibble(j);
    let sel = j.select_bits;
    let lines = selected_lines_spec(j);
    assert((UNUSED_BITS | sel | lines) & 0x0F == lines) by (bit_vector)
        requires
            sel & !SELECT_MASK == 0,
            lines & 0xF0 == 0,
    ;
}

/// Setting a button, seen through `JOYP` reads: the button takes the new
/// state, and the interrupt becomes pending exactly when it was already
/// pending or a line of the read-back low nibble fell from 1 to 0.
pub proof fn lemma_set_button_read_back(j: JoypadView, button: Button, pressed: bool)
    requires
        j.wf(),
    ensures
        ({
            let k = latch_edge(j, with_button(j, button, pressed));
            &&& k.wf()
            &&& k == JoypadView { interrupt_pending: k.interrupt_pending, ..with_button(j, button, pressed) }
            &&& k.interrupt_pending == (j.interrupt_pending || read_joyp_spec(j) & !read_joyp_spec(k)
                & 0x0F != 0)
        }),
{
    let k = latch_edge(j, with_button(j, button, pressed));
    lemma_read_low_nibble(j);
    lemma_read_low_nibble(k);
    let x = read_joyp_spec(j);
    let y = read_joyp_spec(k);
    assert(x & !y & 0x0F == (x & 0x0F) & !(y & 0x0F) & 0x0F) by (bit_vector);
}

} // verus!
