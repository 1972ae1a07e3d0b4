use vstd::prelude::*;

verus! {

/// The five interrupt sources, from highest to lowest priority.
#[derive(Debug, Clone, Copy, PartialEq, Eq, Structural)]
pub enum Interrupt {
    VBlank,
    Stat,
    Timer,
    Serial,
    Joypad,
}

/// The bit number of a source in IF and IE.
pub open spec fn interrupt_bit(i: Interrupt) -> nat {
    match i {
        Interrupt::VBlank => 0,
        Interrupt::Stat => 1,
        Interrupt::Timer => 2,
        Interrupt::Serial => 3,
        Interrupt::Joypad => 4,
    }
}

/// The handler vector of a source.
pub open spec fn vector_of(i: Interrupt) -> u16 {
    match i {
        Interrupt::VBlank => 0x40,
        Interrupt::Stat => 0x48,
        Interrupt::Timer => 0x50,
        Interrupt::Serial => 0x58,
        Interrupt::Joypad => 0x60,
    }
}

/// The single-bit mask of a source.
pub open spec fn mask_of(i: Interrupt) -> u8 {
    match i {
        Interrupt::VBlank => 0x01,
        Interrupt::Stat => 0x02,
        Interrupt::Timer => 0x04,
        Interrupt::Serial => 0x08,
        Interrupt::Joypad => 0x10,
    }
}

/// The requested and enabled sources.
pub open spec fn pending_bits(interrupt_flag: u8, interrupt_enable: u8) -> u8 {
    interrupt_flag & interrupt_enable & 0x1F
}

/// The source that is dispatched for a pending set: its lowest set bit.
pub open spec fn highest_priority(pending: u8) -> Option<Interrupt> {
    if pending & 0x01 != 0 {
        Some(Interrupt::VBlank)
    } else if pending & 0x02 != 0 {
        Some(Interrupt::Stat)
    } else if pending & 0x04 != 0 {
        Some(Interrupt::Timer)
    } else if pending & 0x08 != 0 {
        Some(Interrupt::Serial)
    } else if pending & 0x10 != 0 {
        Some(Interrupt::Joypad)
    } else {
        None
    }
}

impl Interrupt {
    pub fn mask(self) -> (r: u8)
        ensures
            r == mask_of(self),
            r == 1u8 << interrupt_bit(self),
    {
        let r: u8 = match self {
            Interrupt::VBlank => 0x01,
            Interrupt::Stat => 0x02,
            Interrupt::Timer => 0x04,
            Interrupt::Serial => 0x08,
            Interrupt::Joypad => 0x10,
        };
        assert(1u8 << 0u8 == 0x01u8 && 1u8 << 1u8 == 0x02u8 && 1u8 << 2u8 == 0x04u8 && 1u8 << 3u8
            == 0x08u8 && 1u8 << 4u8 == 0x10u8) by (bit_vector);
        r
    }

    pub fn handler_address(self) -> (r: u16)
        ensures
            r == vector_of(self),
    {
        match self {
            Interrupt::VBlank => 0x0040,
            Interrupt::Stat => 0x0048,
            Interrupt::Timer => 0x0050,
            Interrupt::Serial => 0x0058,
            Interrupt::Joypad => 0x0060,
        }
    }

    /// All sources, highest priority first.
    pub fn all_by_priority() -> (r: Vec<Interrupt>)
        ensures
            r@ == seq![
                Interrupt::VBlank,
                Interrupt::Stat,
                Interrupt::Timer,
                Interrupt::Serial,
                Interrupt::Joypad,
            ],
    {
        vec![Interrupt::VBlank, Interrupt::Stat, Interrupt::Timer, Interrupt::Serial, Interrupt::Joypad]
    }
}

/// The source to dispatch, if any is both requested and enabled.
pub fn get_pending_interrupt(interrupt_flag: u8, interrupt_enable: u8) -> (r: Option<Interrupt>)
    ensures
        r == highest_priority(pending_bits(interrupt_flag, interrupt_enable)),
        r.is_none() <==> pending_bits(interrupt_flag, interrupt_enable) == 0,
{
    let pending = interrupt_flag & interrupt_enable & 0x1F;
    assert(pending & 0x1F == pending) by (bit_vector)
        requires pending == interrupt_flag & interrupt_enable & 0x1F;
    assert(pending != 0 && pending & 0x1F == pending ==> (pending & 0x01 != 0 || pending & 0x02 != 0
        || pending & 0x04 != 0 || pending & 0x08 != 0 || pending & 0x10 != 0)) by (bit_vector);
    if pending == 0 {
        assert(0u8 & 0x01 == 0 && 0u8 & 0x02 == 0 && 0u8 & 0x04 == 0 && 0u8 & 0x08 == 0 && 0u8 & 0x10
            == 0) by (bit_vector);
        return None;
    }
    let order = Interrupt::all_by_priority();
    let mut i: usize = 0;
    while i < order.len()
        invariant
            order@ == seq![
                Interrupt::VBlank,
                Interrupt::Stat,
                Interrupt::Timer,
                Interrupt::Serial,
                Interrupt::Joypad,
            ],
            0 <= i <= 5,
            order@.len() == 5,
            pending == pending_bits(interrupt_flag, interrupt_enable),
            pending != 0,
            forall|j: int| 0 <= j < i ==> pending & mask_of(#[trigger] order@[j]) == 0,
        decreases order.len() - i,
    {
        let it = order[i];
        if pending & it.mask() != 0 {
            return Some(it);
        }
        i = i + 1;
    }
    assert(pending & mask_of(order@[0]) == 0);
    assert(pending & mask_of(order@[1]) == 0);
    assert(pending & mask_of(order@[2]) == 0);
    assert(pending & mask_of(order@[3]) == 0);
    assert(pending & mask_of(order@[4]) == 0);
    None
}

/// Whether some source is both requested and enabled.
pub fn has_pending_interrupt(interrupt_flag: u8, interrupt_enable: u8) -> (r: bool)
    ensures
        r == (pending_bits(interrupt_flag, interrupt_enable) != 0),
{
    (interrupt_flag & interrupt_enable & 0x1F) != 0
}

} // verus!
