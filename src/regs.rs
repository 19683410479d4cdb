use vstd::prelude::*;

verus! {

/// Offset of the port register array from the operational registers.
pub const PORT_ARRAY_OFFSET: usize = 0x400;

/// Command register: run/stop.
pub const CMD_RUN: u32 = 1;

/// Command register: host-controller reset.
pub const CMD_RESET: u32 = 1 << 1;

/// Status register: halted.
pub const STS_HALTED: u32 = 1;

/// Status register: reset in progress.
pub const STS_RESETTING: u32 = 1 << 1;

/// Status register: controller not ready.
pub const STS_NOT_READY: u32 = 1 << 11;

/// Command-ring control register: command ring running.
pub const CRCR_RUNNING: u32 = 1 << 3;

/// How many reads a poll makes before it gives the controller up as stuck.
pub const POLL_BUDGET: u32 = 1_000_000;

/// The maximum slot count in the structural parameter word (bits 0 to 7).
pub open spec fn max_slots_of(params: u32) -> u8 {
    (params & 0xffu32) as u8
}

/// The maximum port count in the structural parameter word (bits 24 to 31).
pub open spec fn max_ports_of(params: u32) -> u8 {
    (params >> 24u32) as u8
}

/// Splits the structural parameter word into (max_slots, max_ports).
pub fn decode_params(params: u32) -> (r: (u8, u8))
    ensures
        r.0 == max_slots_of(params),
        r.1 == max_ports_of(params),
{
    ((params & 0xffu32) as u8, (params >> 24u32) as u8)
}

/// Where each register block of a controller lies.
#[derive(Clone, Copy, Debug, PartialEq, Eq, Structural)]
pub struct Layout {
    pub base: usize,
    pub operational: usize,
    pub ports: usize,
    pub doorbells: usize,
    pub runtime: usize,
}

impl Layout {
    /// The block addresses for a controller at `base` whose capability block is
    /// `cap_len` bytes long and reports the given doorbell and runtime offsets;
    /// `None` when one of them lies past the end of the address space.
    pub fn new(base: usize, cap_len: u8, db_offset: u32, rts_offset: u32) -> (r: Option<Layout>)
        ensures
            r is Some <==> {
                &&& base + cap_len + PORT_ARRAY_OFFSET <= usize::MAX
                &&& base + db_offset <= usize::MAX
                &&& base + rts_offset <= usize::MAX
            },
            r matches Some(l) ==> {
                &&& l.base == base
                &&& l.operational == base + cap_len
                &&& l.ports == base + cap_len + PORT_ARRAY_OFFSET
                &&& l.doorbells == base + db_offset
                &&& l.runtime == base + rts_offset
            },
    {
        if base > usize::MAX - PORT_ARRAY_OFFSET - cap_len as usize {
            return None;
        }
        if base > usize::MAX - db_offset as usize || base > usize::MAX - rts_offset as usize {
            return None;
        }
        let operational = base + cap_len as usize;
        Some(
            Layout {
                base,
                operational,
                ports: operational + PORT_ARRAY_OFFSET,
                doorbells: base + db_offset as usize,
                runtime: base + rts_offset as usize,
            },
        )
    }
}

/// A port's status word, decoded.
#[derive(Clone, Copy, Debug, PartialEq, Eq, Structural)]
pub struct PortStatus {
    pub connected: bool,
    pub enabled: bool,
    pub link_state: u8,
    pub speed: u8,
}

/// Whether a port status word reports a device connected (bit 0).
pub open spec fn connected_of(status: u32) -> bool {
    status & 1u32 == 1u32
}

/// The speed field of a port status word (bits 10 to 13).
pub open spec fn speed_of(status: u32) -> u8 {
    ((status >> 10u32) & 0xfu32) as u8
}

impl PortStatus {
    /// Decodes a port status word: connect status in bit 0, enabled in bit 1,
    /// link state in bits 5 to 8 and speed in bits 10 to 13.
    pub fn decode(status: u32) -> (r: PortStatus)
        ensures
            r.connected == connected_of(status),
            r.enabled == (status & 2u32 == 2u32),
            r.link_state == ((status >> 5u32) & 0xfu32) as u8,
            r.speed == speed_of(status),
    {
        PortStatus {
            connected: status & 1u32 == 1u32,
            enabled: status & 2u32 == 2u32,
            link_state: ((status >> 5u32) & 0xfu32) as u8,
            speed: ((status >> 10u32) & 0xfu32) as u8,
        }
    }
}

/// A controller register that bring-up touches.
#[derive(Clone, Copy, Debug, PartialEq, Eq, Structural)]
pub enum Reg {
    Command,
    Status,
    Config,
    Dcbaap,
    Crcr,
    /// Interrupter 0's event-ring segment-table size.
    Erstsz,
    /// Interrupter 0's event-ring dequeue pointer.
    Erdp,
    /// Interrupter 0's event-ring segment-table base address.
    Erstba,
    Doorbell(u8),
}

/// One step of a register program.
#[derive(Clone, Copy, Debug, PartialEq, Eq, Structural)]
pub enum Step {
    Write { reg: Reg, value: u64 },
    SetBits { reg: Reg, mask: u32 },
    ClearBits { reg: Reg, mask: u32 },
    /// Poll until every bit of `mask` reads set.
    WaitSet { reg: Reg, mask: u32 },
    /// Poll until not every bit of `mask` reads set.
    WaitClear { reg: Reg, mask: u32 },
}

/// What one poll read decided.
#[derive(Clone, Copy, Debug, PartialEq, Eq, Structural)]
pub enum PollResult {
    Done,
    Pending,
    Stuck,
}

/// A bounded wait for a register's `mask` bits to read all set (or not).
#[derive(Clone, Copy, Debug, PartialEq, Eq, Structural)]
pub struct Poll {
    pub mask: u32,
    pub until_set: bool,
    pub left: u32,
}

/// Whether every bit of `mask` is set in `value`.
pub open spec fn flags_set(value: u32, mask: u32) -> bool {
    value & mask == mask
}

impl Poll {
    /// A poll allowed `budget` reads past the first.
    pub fn new(mask: u32, until_set: bool, budget: u32) -> (r: Poll)
        ensures
            r == (Poll { mask, until_set, left: budget }),
    {
        Poll { mask, until_set, left: budget }
    }

    /// The poll that carries out a wait step; `None` for any other step.
    pub fn for_step(step: Step) -> (r: Option<Poll>)
        ensures
            r == match step {
                Step::WaitSet { mask, .. } => Some(Poll { mask, until_set: true, left: POLL_BUDGET }),
                Step::WaitClear { mask, .. } => Some(
                    Poll { mask, until_set: false, left: POLL_BUDGET },
                ),
                _ => None,
            },
    {
        match step {
            Step::WaitSet { mask, .. } => Some(Poll::new(mask, true, POLL_BUDGET)),
            Step::WaitClear { mask, .. } => Some(Poll::new(mask, false, POLL_BUDGET)),
            _ => None,
        }
    }

    /// Judges one read of the register: `Done` once the condition holds,
    /// `Pending` while reads are left, `Stuck` when the budget is spent.
    pub fn observe(&mut self, value: u32) -> (r: PollResult)
        ensures
            flags_set(value, old(self).mask) == old(self).until_set ==> r == PollResult::Done
                && *final(self) == *old(self),
            flags_set(value, old(self).mask) != old(self).until_set && old(self).left == 0
                ==> r == PollResult::Stuck && *final(self) == *old(self),
            flags_set(value, old(self).mask) != old(self).until_set && old(self).left > 0
                ==> r == PollResult::Pending && *final(self) == (Poll {
                left: (old(self).left - 1) as u32,
                ..*old(self)
            }),
    {
        if (value & self.mask == self.mask) == self.until_set {
            PollResult::Done
        } else if self.left == 0 {
            PollResult::Stuck
        } else {
            self.left = self.left - 1;
            PollResult::Pending
        }
    }
}

} // verus!
