use vstd::prelude::*;

verus! {

/// The OAM DMA engine: 160 bytes from `source << 8` to 0xFE00, one per four cycles.
pub struct Dma {
    pub active: bool,
    /// The high byte of the source address.
    pub source: u8,
    /// Bytes transferred so far.
    pub byte_counter: u8,
    /// Cycles left in the 640-cycle budget.
    pub remaining_cycles: u16,
}

impl Dma {
    /// The engine one cycle later, and the copy it asks for in that cycle.
    pub open spec fn stepped(self) -> (Dma, Option<(u16, u16)>) {
        if !self.active {
            (self, None)
        } else {
            let copy = self.remaining_cycles % 4 == 0 && self.byte_counter < 160;
            let count: u8 = if copy { (self.byte_counter + 1) as u8 } else { self.byte_counter };
            let rem: u16 = if self.remaining_cycles == 0 { 0 } else { (self.remaining_cycles - 1) as u16 };
            let next = Dma {
                active: !(count >= 160 || rem == 0),
                byte_counter: count,
                remaining_cycles: rem,
                ..self
            };
            let t = if copy {
                Some((
                    ((self.source as u16) * 256 + self.byte_counter) as u16,
                    (0xFE00 + self.byte_counter) as u16,
                ))
            } else {
                None
            };
            (next, t)
        }
    }

    pub fn new() -> (r: Self)
        ensures
            r == (Dma { active: false, source: 0, byte_counter: 0, remaining_cycles: 0 }),
    {
        Dma { active: false, source: 0, byte_counter: 0, remaining_cycles: 0 }
    }

    /// Latches the source page and starts a transfer.
    pub fn start(&mut self, value: u8)
        ensures
            *final(self) == (Dma { active: true, source: value, byte_counter: 0, remaining_cycles: 640 }),
    {
        self.active = true;
        self.source = value;
        self.byte_counter = 0;
        self.remaining_cycles = 640;
    }

    pub fn read(&self) -> (r: u8)
        ensures
            r == self.source,
    {
        self.source
    }

    pub fn source_address(&self) -> (r: u16)
        ensures
            r == self.source as u16 * 256,
    {
        let s = self.source as u16;
        assert(s < 256 ==> s << 8 == s * 256) by (bit_vector);
        s << 8
    }

    pub fn is_active(&self) -> (r: bool)
        ensures
            r == self.active,
    {
        self.active
    }

    /// Advances one cycle; returns the (source, destination) pair to copy, if any.
    pub fn tick(&mut self) -> (r: Option<(u16, u16)>)
        ensures
            (*final(self), r) == old(self).stepped(),
    {
        if !self.active {
            return None;
        }
        let transfer = if self.remaining_cycles % 4 == 0 && self.byte_counter < 160 {
            let src = self.source_address() + self.byte_counter as u16;
            let dst = 0xFE00 + self.byte_counter as u16;
            self.byte_counter = self.byte_counter + 1;
            Some((src, dst))
        } else {
            None
        };
        self.remaining_cycles = self.remaining_cycles.saturating_sub(1);
        if self.byte_counter >= 160 || self.remaining_cycles == 0 {
            self.active = false;
        }
        transfer
    }
}

} // verus!
