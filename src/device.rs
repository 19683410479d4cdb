use vstd::prelude::*;

verus! {

/// The device-context base-address array: entry `s` holds the physical address
/// of slot `s`'s device context, or 0. Entry 0 is not a slot.
pub struct DeviceList {
    pub phys: u64,
    pub contexts: Vec<u64>,
}

impl DeviceList {
    pub open spec fn wf(&self) -> bool {
        1 <= self.contexts.len() <= 256
    }

    /// How many slots the array holds.
    pub open spec fn slot_count(&self) -> nat {
        (self.contexts.len() - 1) as nat
    }

    /// An array at `phys` for `max_slots` slots, every entry null.
    pub fn new(phys: u64, max_slots: u8) -> (r: DeviceList)
        ensures
            r.wf(),
            r.phys == phys,
            r.slot_count() == max_slots,
            r.contexts@ == Seq::new(max_slots as nat + 1, |i: int| 0u64),
    {
        let mut contexts: Vec<u64> = Vec::new();
        let mut i: usize = 0;
        while i <= max_slots as usize
            invariant
                i <= max_slots as usize + 1,
                contexts@ == Seq::new(i as nat, |j: int| 0u64),
            decreases max_slots as usize + 1 - i,
        {
            contexts.push(0);
            i = i + 1;
            assert(contexts@ =~= Seq::new(i as nat, |j: int| 0u64));
        }
        DeviceList { phys, contexts }
    }

    /// How many slots the array holds.
    pub fn slots(&self) -> (r: usize)
        requires
            self.wf(),
        ensures
            r == self.slot_count(),
    {
        self.contexts.len() - 1
    }

    /// The physical address of the device context of `slot` (0 when none).
    pub fn context(&self, slot: u8) -> (r: u64)
        requires
            self.wf(),
            1 <= slot <= self.slot_count(),
        ensures
            r == self.contexts@[slot as int],
    {
        self.contexts[slot as usize]
    }

    /// Records the device context of `slot`.
    pub fn set_context(&mut self, slot: u8, context: u64)
        requires
            old(self).wf(),
            1 <= slot <= old(self).slot_count(),
        ensures
            final(self).wf(),
            final(self).phys == old(self).phys,
            final(self).contexts@ == old(self).contexts@.update(slot as int, context),
    {
        self.contexts.set(slot as usize, context);
    }
}

/// Add-context flags: the slot context (bit 0) and endpoint 0 (bit 1).
pub const ADD_SLOT_AND_EP0: u32 = 0b11;

/// Slot context word 0: one context entry (bits 27 to 31).
pub const SLOT_ONE_ENTRY: u32 = 1 << 27;

/// Endpoint 0 word 1: max packet size 4096, control endpoint (type 4), three errors allowed.
pub const EP0_CONTROL: u32 = (4096 << 16) | (4 << 3) | (3 << 1);

/// The words of an input context that addressing sets; every other word is zero.
#[derive(Clone, Copy, Debug, PartialEq, Eq, Structural)]
pub struct InputContext {
    pub add_context: u32,
    pub slot_a: u32,
    pub slot_b: u32,
    pub ep0_b: u32,
    pub ep0_dequeue_lo: u32,
    pub ep0_dequeue_hi: u32,
}

/// Slot context word 0 for a device at `speed` on a root port: route string 0.
pub open spec fn slot_a_of(speed: u8) -> u32 {
    SLOT_ONE_ENTRY | (((speed as u32) & 0xfu32) << 20u32)
}

/// Slot context word 1: the 1-based root hub port number in bits 16 to 23.
pub open spec fn slot_b_of(port: u8) -> u32 {
    ((((port as u32) + 1) as u32) & 0xffu32) << 16u32
}

/// The input context that addresses the device on port index `port` at `speed`,
/// with endpoint 0's transfer ring at `ring` and its dequeue cycle state 1.
pub open spec fn input_context_for(port: u8, speed: u8, ring: u64) -> InputContext {
    InputContext {
        add_context: ADD_SLOT_AND_EP0,
        slot_a: slot_a_of(speed),
        slot_b: slot_b_of(port),
        ep0_b: EP0_CONTROL,
        ep0_dequeue_lo: (ring & 0xffff_ffffu64) as u32 | 1u32,
        ep0_dequeue_hi: (ring >> 32u64) as u32,
    }
}

impl InputContext {
    /// Builds `input_context_for(port, speed, ring)`.
    pub fn for_port(port: u8, speed: u8, ring: u64) -> (r: InputContext)
        ensures
            r == input_context_for(port, speed, ring),
    {
        InputContext {
            add_context: ADD_SLOT_AND_EP0,
            slot_a: SLOT_ONE_ENTRY | (((speed as u32) & 0xfu32) << 20u32),
            slot_b: (((port as u32) + 1) & 0xffu32) << 16u32,
            ep0_b: EP0_CONTROL,
            ep0_dequeue_lo: (ring & 0xffff_ffffu64) as u32 | 1u32,
            ep0_dequeue_hi: (ring >> 32u64) as u32,
        }
    }
}

} // verus!
