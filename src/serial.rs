use vstd::prelude::*;

verus! {

/// Machine cycles per shifted bit with the internal clock.
pub const CYCLES_PER_BIT: u16 = 512;

/// The serial port with no partner: each shift brings in a 1 bit.
pub struct Serial {
    pub sb: u8,
    pub sc: u8,
    pub transfer_counter: u16,
    pub bit_counter: u8,
    pub interrupt_request: bool,
}

impl Serial {
    /// Cycles counted toward the next shift.
    pub open spec fn counter(&self) -> u16 {
        self.transfer_counter
    }

    /// Bits shifted in the current transfer.
    pub open spec fn bits(&self) -> u8 {
        self.bit_counter
    }

    pub open spec fn wf(&self) -> bool {
        self.counter() < 512 && self.bits() < 8
    }

    pub open spec fn transferring(&self) -> bool {
        self.sc & 0x80 != 0 && self.sc & 0x01 != 0
    }

    pub fn new() -> (r: Self)
        ensures
            r.wf(),
            r.sb == 0 && r.sc == 0x7E && r.counter() == 0 && r.bits() == 0,
            !r.interrupt_request,
    {
        Serial { sb: 0, sc: 0x7E, transfer_counter: 0, bit_counter: 0, interrupt_request: false }
    }

    pub fn read_sb(&self) -> (r: u8)
        ensures
            r == self.sb,
    {
        self.sb
    }

    pub fn write_sb(&mut self, value: u8)
        ensures
            final(self).sb == value,
            final(self).sc == old(self).sc,
            final(self).counter() == old(self).counter(),
            final(self).bits() == old(self).bits(),
            final(self).interrupt_request == old(self).interrupt_request,
    {
        self.sb = value;
    }

    /// Bits 1-6 read as 1.
    pub fn read_sc(&self) -> (r: u8)
        ensures
            r == self.sc | 0x7E,
    {
        self.sc | 0x7E
    }

    /// A write with bits 7 and 0 set starts a transfer from the beginning.
    pub fn write_sc(&mut self, value: u8)
        requires
            old(self).wf(),
        ensures
            final(self).wf(),
            final(self).sc == value,
            final(self).sb == old(self).sb,
            final(self).interrupt_request == old(self).interrupt_request,
            value & 0x81 == 0x81 ==> final(self).counter() == 0 && final(self).bits() == 0,
            value & 0x81 != 0x81 ==> final(self).counter() == old(self).counter() && final(self).bits()
                == old(self).bits(),
    {
        self.sc = value;
        if value & 0x81 == 0x81 {
            self.transfer_counter = 0;
            self.bit_counter = 0;
        }
    }

    pub fn is_transferring(&self) -> (r: bool)
        ensures
            r == self.transferring(),
    {
        self.sc & 0x80 != 0 && self.sc & 0x01 != 0
    }

    /// Advances one machine cycle.
    /// The port one machine cycle later.
    pub open spec fn ticked(self) -> Serial {
        if !self.transferring() {
            self
        } else if self.transfer_counter + 1 < 512 {
            Serial { transfer_counter: (self.transfer_counter + 1) as u16, ..self }
        } else if self.bit_counter + 1 == 8 {
            Serial {
                transfer_counter: 0,
                bit_counter: 0,
                sb: ((self.sb << 1) | 1) as u8,
                sc: self.sc & 0x7F,
                interrupt_request: true,
                ..self
            }
        } else {
            Serial {
                transfer_counter: 0,
                bit_counter: (self.bit_counter + 1) as u8,
                sb: ((self.sb << 1) | 1) as u8,
                ..self
            }
        }
    }

    pub fn tick(&mut self)
        requires
            old(self).wf(),
        ensures
            final(self).wf(),
            *final(self) == old(self).ticked(),
            !old(self).transferring() ==> *final(self) == *old(self),
            old(self).transferring() && old(self).counter() + 1 < 512 ==> final(self).counter()
                == old(self).counter() + 1 && final(self).bits() == old(self).bits() && final(self).sb
                == old(self).sb && final(self).sc == old(self).sc && final(self).interrupt_request
                == old(self).interrupt_request,
            old(self).transferring() && old(self).counter() + 1 == 512 ==> final(self).counter() == 0
                && final(self).sb == ((old(self).sb << 1) | 1) as u8 && (if old(self).bits() + 1 == 8 {
                    final(self).bits() == 0 && final(self).sc == old(self).sc & 0x7F
                        && final(self).interrupt_request
                } else {
                    final(self).bits() == old(self).bits() + 1 && final(self).sc == old(self).sc
                        && final(self).interrupt_request == old(self).interrupt_request
                }),
    {
        if !self.is_transferring() {
            return;
        }
        self.transfer_counter = self.transfer_counter + 1;
        if self.transfer_counter >= CYCLES_PER_BIT {
            self.transfer_counter = 0;
            self.bit_counter = self.bit_counter + 1;
            self.sb = (self.sb << 1) | 0x01;
            if self.bit_counter >= 8 {
                self.sc = self.sc & 0x7F;
                self.bit_counter = 0;
                self.interrupt_request = true;
            }
        }
    }
}

} // verus!
