//! Breakpoints: PC address breakpoints (break *before* executing the
//! instruction at that address) and memory watchpoints. Watchpoints are
//! value-change watches: they fire when the watched byte differs from its
//! value at the previous check.
use vstd::prelude::*;
use std::collections::{HashMap, HashSet};
use vstd::std_specs::hash::{spec_hash_keys_iter, spec_keys_iter};
use vstd::std_specs::iter::IteratorSpec;
use crate::cpu::{Bus, BusModel};
use crate::mmu::{Mmu, MmuView};
use crate::system::{System, SystemView, can_complete, next_state, stalled};
use crate::ppu::DOTS_PER_FRAME;

verus! {

broadcast use vstd::std_specs::hash::group_hash_axioms;

pub struct Breakpoints {
    pc_breakpoints: HashSet<u16>,
    /// Watched address -> last-seen value.
    watchpoints: HashMap<u16, u8>,
}

pub struct BreakpointsView {
    pub pcs: Set<u16>,
    pub watches: Map<u16, u8>,
}

impl View for Breakpoints {
    type V = BreakpointsView;

    closed spec fn view(&self) -> BreakpointsView {
        BreakpointsView { pcs: self.pc_breakpoints@, watches: self.watchpoints@ }
    }
}

/// Whether any watched byte now reads differently from its stored value.
pub open spec fn watch_hit(watches: Map<u16, u8>, m: MmuView) -> bool {
    exists|a: u16| watches.dom().contains(a) && m.spec_read(a) != watches[a]
}

/// The watch table refreshed with the bytes' current values.
pub open spec fn refreshed(watches: Map<u16, u8>, m: MmuView) -> Map<u16, u8> {
    Map::new(|a: u16| watches.dom().contains(a), |a: u16| m.spec_read(a))
}

/// The breakpoint set with `addr` added, or removed if it was there.
pub open spec fn toggled_pc(pcs: Set<u16>, addr: u16) -> Set<u16> {
    if pcs.contains(addr) {
        pcs.remove(addr)
    } else {
        pcs.insert(addr)
    }
}

/// The watch table with `addr` watched from `value` on, or unwatched if it
/// was watched.
pub open spec fn toggled_watch(watches: Map<u16, u8>, addr: u16, value: u8) -> Map<u16, u8> {
    if watches.dom().contains(addr) {
        watches.remove(addr)
    } else {
        watches.insert(addr, value)
    }
}

/// Toggling a PC breakpoint twice leaves the breakpoints as they were.
pub proof fn lemma_toggle_pc_twice(pcs: Set<u16>, addr: u16)
    ensures
        toggled_pc(toggled_pc(pcs, addr), addr) == pcs,
{
    assert(toggled_pc(toggled_pc(pcs, addr), addr) =~= pcs);
}

/// Toggling a watchpoint twice leaves the watched addresses as they were;
/// an address that was not watched before is left unwatched with the
/// table exactly as it was.
pub proof fn lemma_toggle_watch_twice(watches: Map<u16, u8>, addr: u16, v1: u8, v2: u8)
    ensures
        toggled_watch(toggled_watch(watches, addr, v1), addr, v2).dom() == watches.dom(),
        !watches.dom().contains(addr) ==> toggled_watch(toggled_watch(watches, addr, v1), addr, v2)
            == watches,
{
    assert(toggled_watch(toggled_watch(watches, addr, v1), addr, v2).dom() =~= watches.dom());
    if !watches.dom().contains(addr) {
        assert(toggled_watch(toggled_watch(watches, addr, v1), addr, v2) =~= watches);
    }
}

/// Once the watch table has been refreshed against memory, checking it
/// again against the same memory reports no change, and refreshing keeps
/// the watched addresses.
pub proof fn lemma_check_settles(watches: Map<u16, u8>, m: MmuView)
    ensures
        refreshed(watches, m).dom() == watches.dom(),
        !watch_hit(refreshed(watches, m), m),
{
    assert(refreshed(watches, m).dom() =~= watches.dom());
}

impl Breakpoints {
    pub fn new() -> (b: Self)
        ensures
            b@.pcs == Set::<u16>::empty(),
            b@.watches == Map::<u16, u8>::empty(),
    {
        Breakpoints { pc_breakpoints: HashSet::new(), watchpoints: HashMap::new() }
    }

    /// Sets a PC breakpoint at `addr`, or clears the one that is there.
    pub fn toggle_pc(&mut self, addr: u16)
        ensures
            final(self)@.pcs == toggled_pc(old(self)@.pcs, addr),
            final(self)@.watches == old(self)@.watches,
    {
        if !self.pc_breakpoints.remove(&addr) {
            self.pc_breakpoints.insert(addr);
        }
    }

    pub fn has_pc(&self, addr: u16) -> (b: bool)
        ensures
            b == self@.pcs.contains(addr),
    {
        self.pc_breakpoints.contains(&addr)
    }

    /// The PC breakpoints, each once, in no particular order.
    pub fn pc_breakpoints(&self) -> (v: Vec<u16>)
        ensures
            v@.to_set() == self@.pcs,
            v@.no_duplicates(),
    {
        let ghost s = spec_hash_keys_iter(&self.pc_breakpoints).remaining();
        let mut v: Vec<u16> = Vec::new();
        for a in it: self.pc_breakpoints.iter()
            invariant
                it.seq() == s,
                v@ == s.unref().take(it.index() as int),
        {
            v.push(*a);
            proof {
                assert(v@ =~= s.unref().take(it.index() + 1));
            }
        }
        proof {
            assert(v@ =~= s.unref());
        }
        v
    }

    /// Starts watching `addr` (remembering `current_value`), or stops
    /// watching it if it already is.
    pub fn toggle_watch(&mut self, addr: u16, current_value: u8)
        ensures
            final(self)@.watches == toggled_watch(old(self)@.watches, addr, current_value),
            final(self)@.pcs == old(self)@.pcs,
    {
        if self.watchpoints.remove(&addr).is_none() {
            self.watchpoints.insert(addr, current_value);
        }
    }

    pub fn has_watch(&self, addr: u16) -> (b: bool)
        ensures
            b == self@.watches.dom().contains(addr),
    {
        self.watchpoints.contains_key(&addr)
    }

    /// The watched addresses, each once, in no particular order.
    pub fn watchpoints(&self) -> (v: Vec<u16>)
        ensures
            v@.to_set() == self@.watches.dom(),
            v@.no_duplicates(),
    {
        let ghost s = spec_keys_iter(&self.watchpoints).remaining();
        let mut v: Vec<u16> = Vec::new();
        for a in it: self.watchpoints.keys()
            invariant
                it.seq() == s,
                v@ == s.unref().take(it.index() as int),
        {
            v.push(*a);
            proof {
                assert(v@ =~= s.unref().take(it.index() + 1));
            }
        }
        proof {
            assert(v@ =~= s.unref());
        }
        v
    }

    /// Whether execution should halt before the instruction at `pc`.
    pub fn should_break_at(&self, pc: u16) -> (b: bool)
        ensures
            b == self@.pcs.contains(pc),
    {
        self.pc_breakpoints.contains(&pc)
    }

    /// Checks every watchpoint against what the CPU would read from `mmu`
    /// now, stores the values read, and returns whether any changed since
    /// the last check.
    pub fn check_watchpoints(&mut self, mmu: &mut Mmu) -> (hit: bool)
        requires
            old(mmu).wf(),
        ensures
            final(mmu).wf(),
            final(mmu)@ == old(mmu)@,
            hit == watch_hit(old(self)@.watches, old(mmu)@),
            final(self)@.watches == refreshed(old(self)@.watches, old(mmu)@),
            final(self)@.pcs == old(self)@.pcs,
    {
        let addrs = self.watchpoints();
        let ghost w0 = self@.watches;
        let ghost m0 = mmu@;
        let mut hit = false;
        let mut i: usize = 0;
        while i < addrs.len()
            invariant
                i <= addrs@.len(),
                addrs@.to_set() == w0.dom(),
                addrs@.no_duplicates(),
                mmu.wf(),
                mmu@ == m0,
                self@.pcs == old(self)@.pcs,
                self@.watches.dom() == w0.dom(),
                forall|j: int| 0 <= j < i ==> #[trigger] self@.watches[addrs@[j]] == m0.spec_read(addrs@[j]),
                forall|j: int| i <= j < addrs@.len() ==> #[trigger] self@.watches[addrs@[j]] == w0[addrs@[j]],
                hit == exists|j: int| 0 <= j < i && m0.spec_read(addrs@[j]) != w0[addrs@[j]],
            decreases addrs@.len() - i,
        {
            let addr = addrs[i];
            let current = mmu.read(addr);
            let last = self.watch_value(addr);
            if current != last {
                hit = true;
            }
            self.set_watch_value(addr, current);
            proof {
                assert(addrs@.to_set().contains(addr));
                assert forall|j: int| i < j < addrs@.len() implies addrs@[j] != addr by {
                    assert(addrs@[i as int] == addr);
                }
            }
            i = i + 1;
        }
        proof {
            assert forall|a: u16| w0.dom().contains(a) implies exists|j: int|
                0 <= j < addrs@.len() && addrs@[j] == a by {
                assert(addrs@.to_set().contains(a));
            }
            assert(self@.watches =~= refreshed(w0, m0));
            if watch_hit(w0, m0) {
                let a = choose|a: u16| w0.dom().contains(a) && m0.spec_read(a) != w0[a];
                assert(addrs@.to_set().contains(a));
                let j = choose|j: int| 0 <= j < addrs@.len() && addrs@[j] == a;
                assert(m0.spec_read(addrs@[j]) != w0[addrs@[j]]);
            }
        }
        hit
    }

    fn watch_value(&self, addr: u16) -> (v: u8)
        requires
            self@.watches.dom().contains(addr),
        ensures
            v == self@.watches[addr],
    {
        match self.watchpoints.get(&addr) {
            Some(v) => *v,
            None => 0,
        }
    }

    fn set_watch_value(&mut self, addr: u16, val: u8)
        ensures
            final(self)@.watches == old(self)@.watches.insert(addr, val),
            final(self)@.pcs == old(self)@.pcs,
    {
        self.watchpoints.insert(addr, val);
    }
}

impl Default for Breakpoints {
    fn default() -> (b: Self)
        ensures
            b@.pcs == Set::<u16>::empty(),
            b@.watches == Map::<u16, u8>::empty(),
    {
        Breakpoints::new()
    }
}

/// How a run of up to one frame's worth of T-cycles ends, from machine
/// state `v` and watch table `watches` with `dots` T-cycles already run:
/// before an instruction at a PC breakpoint (`true`); after an instruction
/// that changed a watched byte (`true`, table refreshed); once `dots`
/// reaches a frame's worth (`false`); or when a step cannot complete
/// (`false`, see [`System::step_checked`]). Gives the final state, watch
/// table and whether a breakpoint or watchpoint was hit.
pub open spec fn frame_run(v: SystemView, watches: Map<u16, u8>, pcs: Set<u16>, dots: nat) -> (
    SystemView,
    Map<u16, u8>,
    bool,
)
    decreases if dots < DOTS_PER_FRAME {
        DOTS_PER_FRAME - dots
    } else {
        0
    },
{
    if dots >= DOTS_PER_FRAME {
        (v, watches, false)
    } else if pcs.contains(v.cpu.regs.pc) {
        (v, watches, true)
    } else if !can_complete(v) {
        (stalled(v), watches, false)
    } else {
        let (v2, c) = next_state(v);
        let w2 = refreshed(watches, v2.mmu);
        if watch_hit(watches, v2.mmu) {
            (v2, w2, true)
        } else if c == 0 {
            // No step takes zero T-cycles; this case only bounds the run.
            (v2, w2, false)
        } else {
            frame_run(v2, w2, pcs, (dots + c) as nat)
        }
    }
}

/// Runs one frame's worth of T-cycles (a fixed dot budget, not a VBlank
/// edge: a program can disable the LCD mid-frame), stopping early before
/// an instruction whose address is a PC breakpoint, or after one that
/// changed a watched byte. Returns whether it stopped early. Also stops,
/// returning `false`, when a step cannot complete (see
/// [`System::step_checked`]).
pub fn run_frame_checking_breakpoints(system: &mut System, breakpoints: &mut Breakpoints) -> (hit: bool)
    requires
        old(system).wf(),
    ensures
        final(system).wf(),
        final(breakpoints)@.pcs == old(breakpoints)@.pcs,
        (final(system)@, final(breakpoints)@.watches, hit) == frame_run(
            old(system)@,
            old(breakpoints)@.watches,
            old(breakpoints)@.pcs,
            0,
        ),
{
    let mut dots: u32 = 0;
    while dots < DOTS_PER_FRAME
        invariant
            system.wf(),
            breakpoints@.pcs == old(breakpoints)@.pcs,
            dots <= DOTS_PER_FRAME + 256,
            frame_run(system@, breakpoints@.watches, breakpoints@.pcs, dots as nat) == frame_run(
                old(system)@,
                old(breakpoints)@.watches,
                old(breakpoints)@.pcs,
                0,
            ),
        decreases DOTS_PER_FRAME + 256 - dots,
    {
        let pc = system.cpu.regs.pc;
        if breakpoints.should_break_at(pc) {
            return true;
        }
        match system.step_folded() {
            Some(c) => {
                dots = dots + c as u32;
            },
            None => {
                return false;
            },
        }
        let hit = breakpoints.check_watchpoints(&mut system.mmu);
        if hit {
            return true;
        }
    }
    false
}

} // verus!
