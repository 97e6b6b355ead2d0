//! Serial port (link cable): `SB` (0xFF01)/`SC` (0xFF02) registers.
//!
//! No link cable is emulated — this is a "loopback" stub: writing `SC` with
//! the transfer-start bit (7) and the internal-clock bit (0) set
//! immediately captures the current `SB` byte into an output buffer (used
//! to read back test ROMs' ASCII "Passed"/"Failed" text), requests the
//! serial interrupt, and clears the transfer-start bit. With no device
//! attached, real hardware shifts in `0xFF` (idle line); that's what `sb`
//! becomes after a transfer here too.
use vstd::prelude::*;
use crate::text::{lossy_string, utf8_lossy, all_ascii};

verus! {

/// Serial interrupt request bit (bit 3) in `IF`/`IE`.
pub const SERIAL_INT_BIT: u8 = 1 << 3;

pub const SC_TRANSFER_START: u8 = 0b1000_0000;
pub const SC_INTERNAL_CLOCK: u8 = 0b0000_0001;
/// Unused `SC` bits read back as 1 on DMG.
pub const SC_UNUSED_MASK: u8 = 0b0111_1110;

/// Abstract serial port state.
pub struct SerialView {
    pub sb: u8,
    pub sc: u8,
    /// Bytes captured off completed transfers, in order.
    pub output: Seq<u8>,
    pub interrupt_pending: bool,
}

/// Whether an `SC` write starts an (internally clocked) transfer.
pub open spec fn starts_transfer(val: u8) -> bool {
    val & (SC_TRANSFER_START | SC_INTERNAL_CLOCK) == (SC_TRANSFER_START | SC_INTERNAL_CLOCK)
}

/// Writing `SC`: with bits 7 and 0 both set, an immediate loopback
/// transfer captures `SB` to the output, shifts in 0xFF, clears the start
/// bit and requests the interrupt.
pub open spec fn write_sc_spec(s: SerialView, val: u8) -> SerialView {
    if starts_transfer(val) {
        SerialView {
            sb: 0xFF,
            sc: val & !SC_TRANSFER_START,
            output: s.output.push(s.sb),
            interrupt_pending: true,
        }
    } else {
        SerialView { sc: val, ..s }
    }
}

#[derive(Debug, Clone)]
pub struct Serial {
    sb: u8,
    sc: u8,
    output: Vec<u8>,
    interrupt_pending: bool,
}

impl View for Serial {
    type V = SerialView;

    closed spec fn view(&self) -> SerialView {
        SerialView {
            sb: self.sb,
            sc: self.sc,
            output: self.output@,
            interrupt_pending: self.interrupt_pending,
        }
    }
}

impl Serial {
    pub fn new() -> (s: Self)
        ensures
            s@ == (SerialView { sb: 0, sc: 0, output: Seq::empty(), interrupt_pending: false }),
    {
        Serial { sb: 0, sc: 0, output: Vec::new(), interrupt_pending: false }
    }

    pub fn read_sb(&self) -> (v: u8)
        ensures
            v == self@.sb,
    {
        self.sb
    }

    pub fn write_sb(&mut self, val: u8)
        ensures
            final(self)@ == (SerialView { sb: val, ..old(self)@ }),
    {
        self.sb = val;
    }

    pub fn read_sc(&self) -> (v: u8)
        ensures
            v == self@.sc | SC_UNUSED_MASK,
    {
        self.sc | SC_UNUSED_MASK
    }

    /// Writing `SC` with bits 7 and 0 both set triggers an immediate
    /// loopback "transfer": `sb` is captured to `output`, the interrupt is
    /// requested, and the transfer-start bit reads back cleared.
    pub fn write_sc(&mut self, val: u8)
        ensures
            final(self)@ == write_sc_spec(old(self)@, val),
    {
        self.sc = val;
        if val & (SC_TRANSFER_START | SC_INTERNAL_CLOCK) == (SC_TRANSFER_START | SC_INTERNAL_CLOCK) {
            self.output.push(self.sb);
            self.sb = 0xFF;  // idle line shifted in, no device attached
            self.sc &= !SC_TRANSFER_START;
            self.interrupt_pending = true;
        }
    }

    /// Consumes and returns whether a transfer completed since the last
    /// call.
    pub fn take_interrupt(&mut self) -> (b: bool)
        ensures
            b == old(self)@.interrupt_pending,
            final(self)@ == (SerialView { interrupt_pending: false, ..old(self)@ }),
    {
        let b = self.interrupt_pending;
        self.interrupt_pending = false;
        b
    }

    /// Drains all captured output bytes as a `String` (lossy — test ROM
    /// output is plain ASCII).
    pub fn take_output(&mut self) -> (s: String)
        ensures
            s@ == utf8_lossy(old(self)@.output),
            all_ascii(old(self)@.output) ==> s@ == old(self)@.output.map_values(|b: u8| b as char),
            final(self)@ == (SerialView { output: Seq::empty(), ..old(self)@ }),
    {
        let s = lossy_string(self.output.as_slice());
        self.output = Vec::new();
        s
    }

    /// Non-destructive peek at the captured output.
    pub fn output_so_far(&self) -> (s: String)
        ensures
            s@ == utf8_lossy(self@.output),
            all_ascii(self@.output) ==> s@ == self@.output.map_values(|b: u8| b as char),
    {
        lossy_string(self.output.as_slice())
    }
}

impl Default for Serial {
    fn default() -> (s: Self)
        ensures
            s@ == (SerialView { sb: 0, sc: 0, output: Seq::empty(), interrupt_pending: false }),
    {
        Serial::new()
    }
}

} // verus!
