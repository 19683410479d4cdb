use vstd::prelude::*;

verus! {

/// Bit position of the type tag in a TRB control word.
pub const TYPE_SHIFT: u32 = 10;

/// TRB type tag of the Enable-Slot command.
pub const TYPE_ENABLE_SLOT: u32 = 9;

/// TRB type tag of the Address-Device command.
pub const TYPE_ADDRESS_DEVICE: u32 = 11;

/// TRB type tag of a Command-Completion event.
pub const TYPE_COMMAND_COMPLETION: u32 = 33;

/// Completion code that reports success.
pub const COMPLETION_SUCCESS: u8 = 1;

/// The control word of a TRB with the given type tag, slot-id field and cycle bit.
pub open spec fn control_word(ty: u32, slot: u8, cycle: bool) -> u32 {
    ((slot as u32) << 24u32) | (ty << 10u32) | (if cycle { 1u32 } else { 0u32 })
}

/// The cycle bit of a control word.
pub open spec fn cycle_of(control: u32) -> bool {
    control & 1u32 == 1u32
}

/// The type tag of a control word (bits 10 to 15).
pub open spec fn type_of(control: u32) -> u32 {
    (control >> 10u32) & 0x3fu32
}

/// The slot-id field of a control word (bits 24 to 31).
pub open spec fn slot_of(control: u32) -> u8 {
    (control >> 24u32) as u8
}

/// The completion code of an event's status word (bits 24 to 31).
pub open spec fn code_of(status: u32) -> u8 {
    (status >> 24u32) as u8
}

/// The control word with its cycle bit replaced.
pub open spec fn set_cycle(control: u32, cycle: bool) -> u32 {
    (control & 0xffff_fffeu32) | (if cycle { 1u32 } else { 0u32 })
}

/// Builds the control word of a TRB.
fn make_control(ty: u32, slot: u8, cycle: bool) -> (r: u32)
    ensures
        r == control_word(ty, slot, cycle),
{
    ((slot as u32) << 24u32) | (ty << 10u32) | (if cycle { 1u32 } else { 0u32 })
}

/// Decoding a built control word gives back its fields.
pub proof fn lemma_control_word_fields(ty: u32, slot: u8, cycle: bool)
    requires
        ty < 64,
    ensures
        type_of(control_word(ty, slot, cycle)) == ty,
        slot_of(control_word(ty, slot, cycle)) == slot,
        cycle_of(control_word(ty, slot, cycle)) == cycle,
{
    let s = slot as u32;
    let c: u32 = if cycle { 1u32 } else { 0u32 };
    assert(((s << 24u32) | (ty << 10u32) | c) >> 10u32 & 0x3fu32 == ty) by (bit_vector)
        requires
            ty < 64,
            c <= 1,
            s < 256,
    ;
    assert((((s << 24u32) | (ty << 10u32) | c) >> 24u32) as u8 == s as u8) by (bit_vector)
        requires
            ty < 64,
            c <= 1,
            s < 256,
    ;
    assert(((s << 24u32) | (ty << 10u32) | c) & 1u32 == c) by (bit_vector)
        requires
            ty < 64,
            c <= 1,
    ;
}

/// Stamping a built control word with its own cycle bit leaves it as it is.
pub proof fn lemma_set_cycle_same(ty: u32, slot: u8, cycle: bool)
    ensures
        set_cycle(control_word(ty, slot, cycle), cycle) == control_word(ty, slot, cycle),
{
    let s = slot as u32;
    let c: u32 = if cycle { 1u32 } else { 0u32 };
    assert((((s << 24u32) | (ty << 10u32) | c) & 0xffff_fffeu32) | c == (s << 24u32) | (ty << 10u32) | c)
        by (bit_vector)
        requires
            c <= 1,
    ;
}

/// The Enable-Slot command with the given cycle bit.
pub open spec fn enable_slot_trb(cycle: bool) -> Trb {
    Trb { data_lo: 0, data_hi: 0, status: 0, control: control_word(TYPE_ENABLE_SLOT, 0, cycle) }
}

/// The Address-Device command for `slot` and the input context at `input`.
pub open spec fn address_trb(slot: u8, input: u64, cycle: bool) -> Trb {
    Trb {
        data_lo: (input & 0xffff_ffffu64) as u32,
        data_hi: (input >> 32u64) as u32,
        status: 0,
        control: control_word(TYPE_ADDRESS_DEVICE, slot, cycle),
    }
}

/// Replacing the cycle bit changes that bit alone.
pub proof fn lemma_set_cycle_fields(control: u32, cycle: bool)
    ensures
        cycle_of(set_cycle(control, cycle)) == cycle,
        type_of(set_cycle(control, cycle)) == type_of(control),
        slot_of(set_cycle(control, cycle)) == slot_of(control),
{
    let c: u32 = if cycle { 1u32 } else { 0u32 };
    assert(((control & 0xffff_fffeu32) | c) & 1u32 == c) by (bit_vector)
        requires
            c <= 1,
    ;
    assert(((control & 0xffff_fffeu32) | c) >> 10u32 & 0x3fu32 == control >> 10u32 & 0x3fu32)
        by (bit_vector)
        requires
            c <= 1,
    ;
    assert((((control & 0xffff_fffeu32) | c) >> 24u32) as u8 == (control >> 24u32) as u8)
        by (bit_vector)
        requires
            c <= 1,
    ;
}

/// A Transfer Request Block: three parameter words and a control word, 16 bytes in all.
#[derive(Clone, Copy, Debug, PartialEq, Eq, Structural)]
pub struct Trb {
    pub data_lo: u32,
    pub data_hi: u32,
    pub status: u32,
    pub control: u32,
}

impl Trb {
    /// The 64-bit parameter held in the first two words.
    pub open spec fn data(self) -> int {
        (self.data_hi as int) * 0x1_0000_0000 + (self.data_lo as int)
    }

    /// This TRB with its cycle bit replaced.
    pub open spec fn cycled(self, cycle: bool) -> Trb {
        Trb { control: set_cycle(self.control, cycle), ..self }
    }

    /// An Enable-Slot command. It carries no parameters.
    pub fn enable_slot(cycle: bool) -> (r: Trb)
        ensures
            r == enable_slot_trb(cycle),
            type_of(r.control) == TYPE_ENABLE_SLOT,
            cycle_of(r.control) == cycle,
    {
        proof {
            lemma_control_word_fields(TYPE_ENABLE_SLOT, 0, cycle);
        }
        Trb {
            data_lo: 0,
            data_hi: 0,
            status: 0,
            control: make_control(TYPE_ENABLE_SLOT, 0, cycle),
        }
    }

    /// An Address-Device command for `slot`, pointing at the input context at `input`.
    pub fn address_device(slot: u8, input: u64, cycle: bool) -> (r: Trb)
        ensures
            r == address_trb(slot, input, cycle),
            r.data() == input,
            type_of(r.control) == TYPE_ADDRESS_DEVICE,
            slot_of(r.control) == slot,
            cycle_of(r.control) == cycle,
    {
        proof {
            lemma_control_word_fields(TYPE_ADDRESS_DEVICE, slot, cycle);
        }
        let lo = (input & 0xffff_ffffu64) as u32;
        let hi = (input >> 32u64) as u32;
        assert(((input >> 32u64) as u32) as int * 0x1_0000_0000 + ((input & 0xffff_ffffu64) as u32) as int
            == input as int) by (bit_vector);
        Trb {
            data_lo: lo,
            data_hi: hi,
            status: 0,
            control: make_control(TYPE_ADDRESS_DEVICE, slot, cycle),
        }
    }

    /// This TRB with its cycle bit set to `cycle`, every other bit kept.
    pub fn with_cycle(self, cycle: bool) -> (r: Trb)
        ensures
            r == self.cycled(cycle),
            cycle_of(r.control) == cycle,
            type_of(r.control) == type_of(self.control),
            slot_of(r.control) == slot_of(self.control),
    {
        proof {
            lemma_set_cycle_fields(self.control, cycle);
        }
        Trb {
            control: (self.control & 0xffff_fffeu32) | (if cycle { 1u32 } else { 0u32 }),
            ..self
        }
    }

    /// Whether the 64-bit parameter equals `value`.
    pub fn data_is(&self, value: u64) -> (r: bool)
        ensures
            r == (self.data() == value),
    {
        let lo = self.data_lo;
        let hi = self.data_hi;
        assert((hi as int * 0x1_0000_0000 + lo as int == value as int) == (lo == (value
            & 0xffff_ffffu64) as u32 && hi == (value >> 32u64) as u32)) by (bit_vector);
        self.data_lo == (value & 0xffff_ffffu64) as u32 && self.data_hi == (value >> 32u64) as u32
    }

    /// The cycle bit.
    pub fn cycle(&self) -> (r: bool)
        ensures
            r == cycle_of(self.control),
    {
        self.control & 1u32 == 1u32
    }

    /// The type tag.
    pub fn trb_type(&self) -> (r: u32)
        ensures
            r == type_of(self.control),
    {
        (self.control >> 10u32) & 0x3fu32
    }

    /// The slot-id field of the control word.
    pub fn slot_id(&self) -> (r: u8)
        ensures
            r == slot_of(self.control),
    {
        (self.control >> 24u32) as u8
    }

    /// The completion code of an event.
    pub fn completion_code(&self) -> (r: u8)
        ensures
            r == code_of(self.status),
    {
        (self.status >> 24u32) as u8
    }
}

} // verus!
