use vstd::prelude::*;
use vstd::arithmetic::div_mod::{lemma_fundamental_div_mod, lemma_fundamental_div_mod_converse};
use crate::trb::{Trb, cycle_of};

verus! {

/// Number of TRBs in one ring segment.
pub const RING_SIZE: usize = 256;

/// Size in bytes of one TRB.
pub const TRB_BYTES: u64 = 16;

/// Where a ring cursor goes after one entry at `index`: the next entry, or back to
/// the start with the cycle state flipped when `index` is the last of `len` entries.
pub open spec fn advance(index: nat, cycle: bool, len: nat) -> (nat, bool) {
    if index + 1 >= len {
        (0, !cycle)
    } else {
        (index + 1, cycle)
    }
}

/// The cursor of a fresh ring of `len` entries after `n` entries have passed it.
pub open spec fn after_steps(len: nat, n: nat) -> (nat, bool)
    decreases n,
{
    if n == 0 {
        (0, true)
    } else {
        let prev = after_steps(len, (n - 1) as nat);
        advance(prev.0, prev.1, len)
    }
}

/// A ring's cursor after `n` entries sits at `n % len`, and its cycle state has
/// flipped once for each full wrap, `n / len` times.
pub proof fn lemma_cycle_flips_once_per_wrap(len: nat, n: nat)
    requires
        len > 0,
    ensures
        after_steps(len, n) == ((n % len) as nat, (n / len) % 2 == 0),
    decreases n,
{
    if n == 0 {
        lemma_fundamental_div_mod_converse(0, len as int, 0, 0);
    } else {
        let m = (n - 1) as nat;
        lemma_cycle_flips_once_per_wrap(len, m);
        lemma_fundamental_div_mod(m as int, len as int);
        let q = m as int / len as int;
        let r = m as int % len as int;
        if r + 1 >= len {
            assert(n as int == (q + 1) * len as int + 0) by (nonlinear_arith)
                requires
                    m as int == len as int * q + r,
                    r + 1 == len as int,
                    n == m + 1,
            ;
            lemma_fundamental_div_mod_converse(n as int, len as int, q + 1, 0);
        } else {
            assert(n as int == q * len as int + (r + 1)) by (nonlinear_arith)
                requires
                    m as int == len as int * q + r,
                    n == m + 1,
            ;
            lemma_fundamental_div_mod_converse(n as int, len as int, q, r + 1);
        }
    }
}

/// The producer side of the command ring: where the next command goes and the
/// cycle state it is written with. The ring memory itself is the controller's.
pub struct CommandRing {
    pub phys: u64,
    pub len: usize,
    pub enqueue: usize,
    pub cycle: bool,
    pub events: EventRing,
}

/// The consumer side of the event ring, with the one-entry segment table that
/// describes it to the controller.
pub struct EventRing {
    pub phys: u64,
    pub table_phys: u64,
    pub len: usize,
    pub dequeue: usize,
    pub cycle: bool,
}

/// A segment of `len` TRBs at `phys` lies in the 64-bit physical address space.
pub open spec fn segment_fits(phys: u64, len: nat) -> bool {
    phys as int + TRB_BYTES * len <= u64::MAX
}

impl EventRing {
    pub open spec fn wf(&self) -> bool {
        &&& 0 < self.len <= RING_SIZE
        &&& self.dequeue < self.len
        &&& segment_fits(self.phys, self.len as nat)
    }

    /// A fresh event ring whose segment is at `phys` and whose segment table is at
    /// `table_phys`. The consumer expects cycle state 1 first.
    pub fn new(phys: u64, table_phys: u64) -> (r: EventRing)
        requires
            segment_fits(phys, RING_SIZE as nat),
        ensures
            r.wf(),
            r.phys == phys,
            r.table_phys == table_phys,
            r.len == RING_SIZE,
            r.dequeue == 0,
            r.cycle,
    {
        EventRing { phys, table_phys, len: RING_SIZE, dequeue: 0, cycle: true }
    }

    /// The physical address of the entry the consumer reads next; the value for
    /// the event-ring dequeue-pointer register.
    pub fn dequeue_pointer(&self) -> (r: u64)
        requires
            self.wf(),
        ensures
            r == self.phys + TRB_BYTES * self.dequeue,
    {
        self.phys + TRB_BYTES * (self.dequeue as u64)
    }

    /// The segment-table entry: the segment's base address and its size in TRBs.
    pub fn table_entry(&self) -> (r: (u64, u32))
        requires
            self.wf(),
        ensures
            r.0 == self.phys,
            r.1 == self.len,
    {
        (self.phys, self.len as u32)
    }

    /// Takes `trb`, read at the dequeue index, if its cycle bit shows the
    /// controller has written it; the cursor then moves on. Otherwise the entry
    /// still belongs to the controller and nothing changes.
    pub fn accept(&mut self, trb: Trb) -> (r: Option<Trb>)
        requires
            old(self).wf(),
        ensures
            final(self).wf(),
            final(self).phys == old(self).phys,
            final(self).table_phys == old(self).table_phys,
            final(self).len == old(self).len,
            cycle_of(trb.control) == old(self).cycle ==> {
                &&& r == Some(trb)
                &&& (final(self).dequeue as nat, final(self).cycle) == advance(
                    old(self).dequeue as nat,
                    old(self).cycle,
                    old(self).len as nat,
                )
            },
            cycle_of(trb.control) != old(self).cycle ==> r is None && *final(self) == *old(self),
    {
        if trb.cycle() != self.cycle {
            return None;
        }
        if self.dequeue + 1 >= self.len {
            self.dequeue = 0;
            self.cycle = !self.cycle;
        } else {
            self.dequeue = self.dequeue + 1;
        }
        Some(trb)
    }
}

impl CommandRing {
    pub open spec fn wf(&self) -> bool {
        &&& 0 < self.len <= RING_SIZE
        &&& self.enqueue < self.len
        &&& segment_fits(self.phys, self.len as nat)
        &&& self.events.wf()
    }

    /// A fresh command ring whose segment is at `phys`, paired with `events`.
    /// The producer starts with cycle state 1.
    pub fn new(phys: u64, events: EventRing) -> (r: CommandRing)
        requires
            segment_fits(phys, RING_SIZE as nat),
            events.wf(),
        ensures
            r.wf(),
            r.phys == phys,
            r.len == RING_SIZE,
            r.enqueue == 0,
            r.cycle,
            r.events == events,
    {
        CommandRing { phys, len: RING_SIZE, enqueue: 0, cycle: true, events }
    }

    /// The value for the command-ring control register: the segment base with the
    /// producer cycle state in bit 0.
    pub fn crcr(&self) -> (r: u64)
        requires
            self.wf(),
        ensures
            r == self.phys + (if self.cycle { 1int } else { 0int }),
    {
        self.phys + (if self.cycle { 1u64 } else { 0u64 })
    }

    /// The physical address of command-ring entry `index`.
    pub fn entry_address(&self, index: usize) -> (r: u64)
        requires
            self.wf(),
            index < self.len,
        ensures
            r == self.phys + TRB_BYTES * index,
    {
        self.phys + TRB_BYTES * (index as u64)
    }

    /// Places `cmd` in the next command slot, stamped with the producer's cycle
    /// state. Returns the slot index and the TRB to write there; the enqueue index
    /// advances, wrapping and flipping the cycle state at the end of the segment.
    pub fn enqueue(&mut self, cmd: Trb) -> (r: (usize, Trb))
        requires
            old(self).wf(),
        ensures
            final(self).wf(),
            r.0 == old(self).enqueue,
            r.1 == cmd.cycled(old(self).cycle),
            cycle_of(r.1.control) == old(self).cycle,
            (final(self).enqueue as nat, final(self).cycle) == advance(
                old(self).enqueue as nat,
                old(self).cycle,
                old(self).len as nat,
            ),
            final(self).phys == old(self).phys,
            final(self).len == old(self).len,
            final(self).events == old(self).events,
    {
        let index = self.enqueue;
        let trb = cmd.with_cycle(self.cycle);
        if self.enqueue + 1 >= self.len {
            self.enqueue = 0;
            self.cycle = !self.cycle;
        } else {
            self.enqueue = self.enqueue + 1;
        }
        (index, trb)
    }
}

} // verus!
