use vstd::prelude::*;
use vstd::string::StringExecFns;

use crate::text::{hex2, hex2_spec, push_char};

verus! {

/// Machine cycles per RTC second.
pub const CYCLES_PER_SECOND: u32 = 4_194_304;

/// The cartridge-type codes of header byte 0x0147.
#[derive(Debug, Clone, Copy, PartialEq, Eq, Structural)]
pub enum CartridgeType {
    RomOnly,
    Mbc1,
    Mbc1Ram,
    Mbc1RamBattery,
    Mbc2,
    Mbc2Battery,
    Mbc3TimerBattery,
    Mbc3TimerRamBattery,
    Mbc3,
    Mbc3Ram,
    Mbc3RamBattery,
    Mbc5,
    Mbc5Ram,
    Mbc5RamBattery,
    Mbc5Rumble,
    Mbc5RumbleRam,
    Mbc5RumbleRamBattery,
    Unknown(u8),
}

/// The controller families.
#[derive(Debug, Clone, Copy, PartialEq, Eq, Structural)]
pub enum MbcKind {
    RomOnly,
    Mbc1,
    Mbc2,
    Mbc3,
    Mbc5,
}

pub open spec fn type_of_byte(byte: u8) -> CartridgeType {
    if byte == 0x00 {
        CartridgeType::RomOnly
    } else if byte == 0x01 {
        CartridgeType::Mbc1
    } else if byte == 0x02 {
        CartridgeType::Mbc1Ram
    } else if byte == 0x03 {
        CartridgeType::Mbc1RamBattery
    } else if byte == 0x05 {
        CartridgeType::Mbc2
    } else if byte == 0x06 {
        CartridgeType::Mbc2Battery
    } else if byte == 0x0F {
        CartridgeType::Mbc3TimerBattery
    } else if byte == 0x10 {
        CartridgeType::Mbc3TimerRamBattery
    } else if byte == 0x11 {
        CartridgeType::Mbc3
    } else if byte == 0x12 {
        CartridgeType::Mbc3Ram
    } else if byte == 0x13 {
        CartridgeType::Mbc3RamBattery
    } else if byte == 0x19 {
        CartridgeType::Mbc5
    } else if byte == 0x1A {
        CartridgeType::Mbc5Ram
    } else if byte == 0x1B {
        CartridgeType::Mbc5RamBattery
    } else if byte == 0x1C {
        CartridgeType::Mbc5Rumble
    } else if byte == 0x1D {
        CartridgeType::Mbc5RumbleRam
    } else if byte == 0x1E {
        CartridgeType::Mbc5RumbleRamBattery
    } else {
        CartridgeType::Unknown(byte)
    }
}

pub open spec fn kind_of(t: CartridgeType) -> MbcKind {
    match t {
        CartridgeType::RomOnly => MbcKind::RomOnly,
        CartridgeType::Mbc1 | CartridgeType::Mbc1Ram | CartridgeType::Mbc1RamBattery => MbcKind::Mbc1,
        CartridgeType::Mbc2 | CartridgeType::Mbc2Battery => MbcKind::Mbc2,
        CartridgeType::Mbc3
        | CartridgeType::Mbc3Ram
        | CartridgeType::Mbc3RamBattery
        | CartridgeType::Mbc3TimerBattery
        | CartridgeType::Mbc3TimerRamBattery => MbcKind::Mbc3,
        CartridgeType::Mbc5
        | CartridgeType::Mbc5Ram
        | CartridgeType::Mbc5RamBattery
        | CartridgeType::Mbc5Rumble
        | CartridgeType::Mbc5RumbleRam
        | CartridgeType::Mbc5RumbleRamBattery => MbcKind::Mbc5,
        CartridgeType::Unknown(_) => MbcKind::RomOnly,
    }
}

pub open spec fn type_has_ram(t: CartridgeType) -> bool {
    match t {
        CartridgeType::Mbc1Ram
        | CartridgeType::Mbc1RamBattery
        | CartridgeType::Mbc2
        | CartridgeType::Mbc2Battery
        | CartridgeType::Mbc3Ram
        | CartridgeType::Mbc3RamBattery
        | CartridgeType::Mbc3TimerRamBattery
        | CartridgeType::Mbc5Ram
        | CartridgeType::Mbc5RamBattery
        | CartridgeType::Mbc5RumbleRam
        | CartridgeType::Mbc5RumbleRamBattery => true,
        _ => false,
    }
}

pub open spec fn type_has_timer(t: CartridgeType) -> bool {
    t == CartridgeType::Mbc3TimerBattery || t == CartridgeType::Mbc3TimerRamBattery
}

impl CartridgeType {
    pub fn from_byte(byte: u8) -> (r: Self)
        ensures
            r == type_of_byte(byte),
    {
        match byte {
            0x00 => CartridgeType::RomOnly,
            0x01 => CartridgeType::Mbc1,
            0x02 => CartridgeType::Mbc1Ram,
            0x03 => CartridgeType::Mbc1RamBattery,
            0x05 => CartridgeType::Mbc2,
            0x06 => CartridgeType::Mbc2Battery,
            0x0F => CartridgeType::Mbc3TimerBattery,
            0x10 => CartridgeType::Mbc3TimerRamBattery,
            0x11 => CartridgeType::Mbc3,
            0x12 => CartridgeType::Mbc3Ram,
            0x13 => CartridgeType::Mbc3RamBattery,
            0x19 => CartridgeType::Mbc5,
            0x1A => CartridgeType::Mbc5Ram,
            0x1B => CartridgeType::Mbc5RamBattery,
            0x1C => CartridgeType::Mbc5Rumble,
            0x1D => CartridgeType::Mbc5RumbleRam,
            0x1E => CartridgeType::Mbc5RumbleRamBattery,
            other => CartridgeType::Unknown(other),
        }
    }

    pub fn mbc_kind(&self) -> (r: MbcKind)
        ensures
            r == kind_of(*self),
    {
        match self {
            CartridgeType::RomOnly => MbcKind::RomOnly,
            CartridgeType::Mbc1 | CartridgeType::Mbc1Ram | CartridgeType::Mbc1RamBattery => MbcKind::Mbc1,
            CartridgeType::Mbc2 | CartridgeType::Mbc2Battery => MbcKind::Mbc2,
            CartridgeType::Mbc3
            | CartridgeType::Mbc3Ram
            | CartridgeType::Mbc3RamBattery
            | CartridgeType::Mbc3TimerBattery
            | CartridgeType::Mbc3TimerRamBattery => MbcKind::Mbc3,
            CartridgeType::Mbc5
            | CartridgeType::Mbc5Ram
            | CartridgeType::Mbc5RamBattery
            | CartridgeType::Mbc5Rumble
            | CartridgeType::Mbc5RumbleRam
            | CartridgeType::Mbc5RumbleRamBattery => MbcKind::Mbc5,
            CartridgeType::Unknown(_) => MbcKind::RomOnly,
        }
    }

    pub fn has_ram(&self) -> (r: bool)
        ensures
            r == type_has_ram(*self),
    {
        match self {
            CartridgeType::Mbc1Ram
            | CartridgeType::Mbc1RamBattery
            | CartridgeType::Mbc2
            | CartridgeType::Mbc2Battery
            | CartridgeType::Mbc3Ram
            | CartridgeType::Mbc3RamBattery
            | CartridgeType::Mbc3TimerRamBattery
            | CartridgeType::Mbc5Ram
            | CartridgeType::Mbc5RamBattery
            | CartridgeType::Mbc5RumbleRam
            | CartridgeType::Mbc5RumbleRamBattery => true,
            _ => false,
        }
    }

    pub fn has_timer(&self) -> (r: bool)
        ensures
            r == type_has_timer(*self),
    {
        match self {
            CartridgeType::Mbc3TimerBattery | CartridgeType::Mbc3TimerRamBattery => true,
            _ => false,
        }
    }
}

/// The message for an unrecognised cartridge-type code.
pub open spec fn unknown_type_message(code: u8) -> Seq<char> {
    "unknown cartridge type: 0x"@ + hex2_spec(code)
}

/// ROM bank count for header byte 0x0148.
pub open spec fn rom_banks_spec(byte: u8) -> usize {
    if byte <= 0x08 {
        (2usize << byte) as usize
    } else {
        2
    }
}

/// External RAM size in bytes for header byte 0x0149.
pub open spec fn ram_size_spec(byte: u8) -> usize {
    if byte == 0x02 {
        0x2000
    } else if byte == 0x03 {
        0x8000
    } else if byte == 0x04 {
        0x20000
    } else if byte == 0x05 {
        0x10000
    } else {
        0
    }
}

pub fn rom_banks_from_byte(byte: u8) -> (r: usize)
    ensures
        r == rom_banks_spec(byte),
        2 <= r <= 512,
{
    let r: usize = match byte {
        0x00 => 2,
        0x01 => 4,
        0x02 => 8,
        0x03 => 16,
        0x04 => 32,
        0x05 => 64,
        0x06 => 128,
        0x07 => 256,
        0x08 => 512,
        _ => 2,
    };
    assert(2usize << 0u8 == 2usize && 2usize << 1u8 == 4usize && 2usize << 2u8 == 8usize && 2usize
        << 3u8 == 16usize && 2usize << 4u8 == 32usize && 2usize << 5u8 == 64usize && 2usize << 6u8
        == 128usize && 2usize << 7u8 == 256usize && 2usize << 8u8 == 512usize) by (bit_vector);
    r
}

pub fn ram_size_from_byte(byte: u8) -> (r: usize)
    ensures
        r == ram_size_spec(byte),
{
    match byte {
        0x02 => 0x2000,
        0x03 => 0x8000,
        0x04 => 0x20000,
        0x05 => 0x10000,
        _ => 0,
    }
}

/// The title bytes: those of 0x0134-0x0143 before the first zero, as Latin-1 characters.
pub open spec fn title_spec(rom: Seq<u8>) -> Seq<char> {
    title_from(rom, 0)
}

pub open spec fn title_from(rom: Seq<u8>, i: nat) -> Seq<char>
    decreases 16 - i,
{
    if i >= 16 || rom[0x134 + i as int] == 0 {
        Seq::empty()
    } else {
        seq![rom[0x134 + i as int] as char] + title_from(rom, i + 1)
    }
}

/// The fields read from the cartridge header.
#[derive(Debug)]
pub struct CartridgeHeader {
    pub title: String,
    pub cartridge_type: CartridgeType,
    pub rom_banks: usize,
    pub ram_size: usize,
}

/// MBC1 banking mode.
#[derive(Debug, Clone, Copy, PartialEq, Eq, Structural)]
pub enum Mbc1Mode {
    Rom,
    Ram,
}

/// The MBC3 real-time clock registers.
#[derive(Debug, Clone, Copy, PartialEq, Eq, Structural)]
pub struct RtcRegisters {
    pub seconds: u8,
    pub minutes: u8,
    pub hours: u8,
    pub days_low: u8,
    /// Bit 0: day bit 8; bit 6: halt; bit 7: day overflow.
    pub days_high: u8,
}

/// The nine-bit day counter.
pub open spec fn day_count(r: RtcRegisters) -> u16 {
    (r.days_low as u16 | ((r.days_high as u16 & 0x01) << 8)) as u16
}

/// The clock one second later; a halted clock stands still.
pub open spec fn rtc_after_second(r: RtcRegisters) -> RtcRegisters {
    if r.days_high & 0x40 != 0 {
        r
    } else if r.seconds + 1 < 60 {
        RtcRegisters { seconds: (r.seconds + 1) as u8, ..r }
    } else if r.minutes + 1 < 60 {
        RtcRegisters { seconds: 0, minutes: (r.minutes + 1) as u8, ..r }
    } else if r.hours + 1 < 24 {
        RtcRegisters { seconds: 0, minutes: 0, hours: (r.hours + 1) as u8, ..r }
    } else {
        let days = day_count(r) + 1;
        if days > 0x1FF {
            RtcRegisters {
                seconds: 0,
                minutes: 0,
                hours: 0,
                days_low: 0,
                days_high: (r.days_high & 0xFE) | 0x80,
            }
        } else {
            RtcRegisters {
                seconds: 0,
                minutes: 0,
                hours: 0,
                days_low: days as u8,
                days_high: (r.days_high & 0xFE) | (((days as u16) >> 8) as u8 & 0x01),
            }
        }
    }
}

impl RtcRegisters {
    pub open spec fn wf(&self) -> bool {
        self.seconds < 64 && self.minutes < 64 && self.hours < 32
    }

    pub fn new() -> (r: Self)
        ensures
            r == (RtcRegisters { seconds: 0, minutes: 0, hours: 0, days_low: 0, days_high: 0 }),
    {
        RtcRegisters { seconds: 0, minutes: 0, hours: 0, days_low: 0, days_high: 0 }
    }

    /// Advances the clock by one second, cascading into minutes, hours and days.
    pub fn tick_second(&mut self)
        requires
            old(self).wf(),
        ensures
            *final(self) == rtc_after_second(*old(self)),
            final(self).wf(),
    {
        if self.days_high & 0x40 != 0 {
            return;
        }
        self.seconds = self.seconds + 1;
        if self.seconds >= 60 {
            self.seconds = 0;
            self.minutes = self.minutes + 1;
            if self.minutes >= 60 {
                self.minutes = 0;
                self.hours = self.hours + 1;
                if self.hours >= 24 {
                    self.hours = 0;
                    let days = self.day_counter() + 1;
                    self.days_low = days as u8;
                    if days > 0x1FF {
                        self.days_high = (self.days_high & 0xFE) | 0x80;
                        self.days_low = 0;
                    } else {
                        self.days_high = (self.days_high & 0xFE) | ((days >> 8) as u8 & 0x01);
                    }
                }
            }
        }
    }

    pub fn day_counter(&self) -> (r: u16)
        ensures
            r == day_count(*self),
            r <= 0x1FF,
    {
        let lo = self.days_low as u16;
        let hi = self.days_high as u16;
        assert(lo < 256 ==> lo | ((hi & 1) << 8) <= 0x1FF) by (bit_vector);
        lo | ((hi & 0x01) << 8)
    }
}

/// The bank-switching state of a cartridge, everything but its memories.
#[derive(Clone, Copy, PartialEq, Eq, Structural)]
pub struct MbcControl {
    pub ram_enabled: bool,
    pub rom_bank: u16,
    pub ram_bank: u8,
    pub banking_mode: Mbc1Mode,
    pub rtc: RtcRegisters,
    pub rtc_latched: RtcRegisters,
    pub rtc_latch_pending: bool,
    pub rtc_mapped: bool,
    pub rtc_cycle_counter: u32,
}

/// The byte at `offset`, or 0xFF beyond the end.
pub open spec fn byte_or_ff(s: Seq<u8>, offset: int) -> u8 {
    if 0 <= offset < s.len() {
        s[offset]
    } else {
        0xFF
    }
}

/// Whether a value written to the RAM-enable register turns external RAM on.
pub open spec fn gate_opens(value: u8) -> bool {
    value & 0x0F == 0x0A
}

/// The bank number stored for a selector with zero redirected to one.
pub open spec fn nonzero_bank(v: u8) -> u16 {
    if v == 0 {
        1
    } else {
        v as u16
    }
}

/// A cartridge: ROM, external RAM, header and controller state.
pub struct Cartridge {
    pub rom: Vec<u8>,
    pub ram: Vec<u8>,
    pub header: CartridgeHeader,
    pub ram_enabled: bool,
    pub rom_bank: u16,
    pub ram_bank: u8,
    pub banking_mode: Mbc1Mode,
    pub rtc: RtcRegisters,
    pub rtc_latched: RtcRegisters,
    pub rtc_latch_pending: bool,
    pub rtc_mapped: bool,
    pub rtc_cycle_counter: u32,
}

impl Cartridge {
    pub open spec fn kind(&self) -> MbcKind {
        kind_of(self.header.cartridge_type)
    }

    pub open spec fn control(&self) -> MbcControl {
        MbcControl {
            ram_enabled: self.ram_enabled,
            rom_bank: self.rom_bank,
            ram_bank: self.ram_bank,
            banking_mode: self.banking_mode,
            rtc: self.rtc,
            rtc_latched: self.rtc_latched,
            rtc_latch_pending: self.rtc_latch_pending,
            rtc_mapped: self.rtc_mapped,
            rtc_cycle_counter: self.rtc_cycle_counter,
        }
    }

    pub open spec fn wf(&self) -> bool {
        &&& 2 <= self.header.rom_banks <= 512
        &&& self.rom_bank <= 0x1FF
        &&& self.rtc.wf()
        &&& self.rtc_latched.wf()
        &&& self.rtc_cycle_counter < CYCLES_PER_SECOND
        &&& self.ram@.len() <= 0x20000
    }

    /// The effective MBC1 bank of the 0x4000-0x7FFF slot.
    pub open spec fn mbc1_upper_bank(&self) -> int {
        (((self.ram_bank as usize) << 5usize) | (self.rom_bank as usize)) as int % (self.header.rom_banks as int)
    }

    /// The bank of the 0x4000-0x7FFF slot of MBC2, MBC3 and MBC5.
    pub open spec fn plain_upper_bank(&self) -> int {
        (self.rom_bank as int) % (self.header.rom_banks as int)
    }

    /// What a read of ROM space returns.
    pub open spec fn rom_read(&self, addr: u16) -> u8 {
        match self.kind() {
            MbcKind::RomOnly => byte_or_ff(self.rom@, addr as int),
            MbcKind::Mbc1 => if addr <= 0x3FFF {
                let bank: int = if self.banking_mode == Mbc1Mode::Ram {
                    ((self.ram_bank as usize) << 5usize) as int
                } else {
                    0
                };
                byte_or_ff(self.rom@, bank * 0x4000 + addr)
            } else if addr <= 0x7FFF {
                byte_or_ff(self.rom@, self.mbc1_upper_bank() * 0x4000 + (addr - 0x4000))
            } else {
                0xFF
            },
            _ => if addr <= 0x3FFF {
                byte_or_ff(self.rom@, addr as int)
            } else if addr <= 0x7FFF {
                byte_or_ff(self.rom@, self.plain_upper_bank() * 0x4000 + (addr - 0x4000))
            } else {
                0xFF
            },
        }
    }

    /// The controller state after a write to ROM space.
    pub open spec fn control_after_rom_write(&self, addr: u16, value: u8) -> MbcControl {
        let c = self.control();
        match self.kind() {
            MbcKind::RomOnly => c,
            MbcKind::Mbc1 => if addr <= 0x1FFF {
                MbcControl { ram_enabled: gate_opens(value), ..c }
            } else if addr <= 0x3FFF {
                MbcControl { rom_bank: nonzero_bank(value & 0x1F), ..c }
            } else if addr <= 0x5FFF {
                MbcControl { ram_bank: value & 0x03, ..c }
            } else if addr <= 0x7FFF {
                MbcControl {
                    banking_mode: if value & 0x01 == 0 { Mbc1Mode::Rom } else { Mbc1Mode::Ram },
                    ..c
                }
            } else {
                c
            },
            MbcKind::Mbc2 => if addr <= 0x3FFF {
                if addr & 0x0100 == 0 {
                    MbcControl { ram_enabled: gate_opens(value), ..c }
                } else {
                    MbcControl { rom_bank: nonzero_bank(value & 0x0F), ..c }
                }
            } else {
                c
            },
            MbcKind::Mbc3 => if addr <= 0x1FFF {
                MbcControl { ram_enabled: gate_opens(value), ..c }
            } else if addr <= 0x3FFF {
                MbcControl { rom_bank: nonzero_bank(value & 0x7F), ..c }
            } else if addr <= 0x5FFF {
                MbcControl { ram_bank: value, rtc_mapped: 0x08 <= value <= 0x0C, ..c }
            } else if addr <= 0x7FFF {
                if value == 0x00 {
                    MbcControl { rtc_latch_pending: true, ..c }
                } else if value == 0x01 && c.rtc_latch_pending {
                    MbcControl { rtc_latched: c.rtc, rtc_latch_pending: false, ..c }
                } else {
                    MbcControl { rtc_latch_pending: false, ..c }
                }
            } else {
                c
            },
            MbcKind::Mbc5 => if addr <= 0x1FFF {
                MbcControl { ram_enabled: gate_opens(value), ..c }
            } else if addr <= 0x2FFF {
                MbcControl { rom_bank: (c.rom_bank & 0x100) | value as u16, ..c }
            } else if addr <= 0x3FFF {
                MbcControl { rom_bank: (c.rom_bank & 0x0FF) | ((value as u16 & 0x01) << 8u16), ..c }
            } else if addr <= 0x5FFF {
                MbcControl { ram_bank: value & 0x0F, ..c }
            } else {
                c
            },
        }
    }

    /// The byte offset into external RAM of an address of 0xA000-0xBFFF, where banked RAM is read.
    pub open spec fn ram_offset(&self, addr: u16) -> int {
        let bank: int = match self.kind() {
            MbcKind::Mbc1 => if self.banking_mode == Mbc1Mode::Ram { self.ram_bank as int } else { 0 },
            MbcKind::Mbc3 => (self.ram_bank & 0x03) as int,
            _ => self.ram_bank as int,
        };
        bank * 0x2000 + (addr - 0xA000)
    }

    /// The MBC2 nibble index of an address.
    pub open spec fn mbc2_offset(addr: u16) -> int {
        ((addr - 0xA000) as u16 & 0x01FF) as int
    }

    /// The latched RTC register selected by the RAM-bank value.
    pub open spec fn rtc_read(&self) -> u8 {
        if self.ram_bank == 0x08 {
            self.rtc_latched.seconds
        } else if self.ram_bank == 0x09 {
            self.rtc_latched.minutes
        } else if self.ram_bank == 0x0A {
            self.rtc_latched.hours
        } else if self.ram_bank == 0x0B {
            self.rtc_latched.days_low
        } else if self.ram_bank == 0x0C {
            self.rtc_latched.days_high
        } else {
            0xFF
        }
    }

    /// What a read of 0xA000-0xBFFF returns.
    pub open spec fn ram_read(&self, addr: u16) -> u8 {
        match self.kind() {
            MbcKind::RomOnly => 0xFF,
            MbcKind::Mbc2 => if !self.ram_enabled || self.ram@.len() == 0 {
                0xFF
            } else if Self::mbc2_offset(addr) < self.ram@.len() {
                self.ram@[Self::mbc2_offset(addr)] | 0xF0
            } else {
                0xFF
            },
            MbcKind::Mbc3 => if !self.ram_enabled {
                0xFF
            } else if self.rtc_mapped {
                self.rtc_read()
            } else if self.ram@.len() == 0 {
                0xFF
            } else {
                byte_or_ff(self.ram@, self.ram_offset(addr))
            },
            _ => if !self.ram_enabled || self.ram@.len() == 0 {
                0xFF
            } else {
                byte_or_ff(self.ram@, self.ram_offset(addr))
            },
        }
    }

    /// The RAM bytes after a write to 0xA000-0xBFFF.
    pub open spec fn ram_after_write(&self, addr: u16, value: u8) -> Seq<u8> {
        let ram = self.ram@;
        match self.kind() {
            MbcKind::RomOnly => ram,
            MbcKind::Mbc2 => if self.ram_enabled && Self::mbc2_offset(addr) < ram.len() {
                ram.update(Self::mbc2_offset(addr), value & 0x0F)
            } else {
                ram
            },
            MbcKind::Mbc3 => if self.ram_enabled && !self.rtc_mapped && 0 <= self.ram_offset(addr)
                < ram.len() {
                ram.update(self.ram_offset(addr), value)
            } else {
                ram
            },
            _ => if self.ram_enabled && 0 <= self.ram_offset(addr) < ram.len() {
                ram.update(self.ram_offset(addr), value)
            } else {
                ram
            },
        }
    }

    /// The live RTC after a write to 0xA000-0xBFFF.
    pub open spec fn rtc_after_write(&self, value: u8) -> RtcRegisters {
        let r = self.rtc;
        if self.kind() == MbcKind::Mbc3 && self.ram_enabled && self.rtc_mapped {
            if self.ram_bank == 0x08 {
                RtcRegisters { seconds: value & 0x3F, ..r }
            } else if self.ram_bank == 0x09 {
                RtcRegisters { minutes: value & 0x3F, ..r }
            } else if self.ram_bank == 0x0A {
                RtcRegisters { hours: value & 0x1F, ..r }
            } else if self.ram_bank == 0x0B {
                RtcRegisters { days_low: value, ..r }
            } else if self.ram_bank == 0x0C {
                RtcRegisters { days_high: value & 0xC1, ..r }
            } else {
                r
            }
        } else {
            r
        }
    }

    /// The cartridge with the given controller state.
    pub open spec fn with_control(self, m: MbcControl) -> Cartridge {
        Cartridge {
            ram_enabled: m.ram_enabled,
            rom_bank: m.rom_bank,
            ram_bank: m.ram_bank,
            banking_mode: m.banking_mode,
            rtc: m.rtc,
            rtc_latched: m.rtc_latched,
            rtc_latch_pending: m.rtc_latch_pending,
            rtc_mapped: m.rtc_mapped,
            rtc_cycle_counter: m.rtc_cycle_counter,
            ..self
        }
    }

    /// The cartridge `n` machine cycles later.
    pub open spec fn ticked_n(self, n: nat) -> Cartridge
        decreases n,
    {
        if n == 0 { self } else { self.with_control(self.control_after_tick()).ticked_n((n - 1) as nat) }
    }

    /// The controller state one machine cycle later.
    pub open spec fn control_after_tick(&self) -> MbcControl {
        let c = self.control();
        if !type_has_timer(self.header.cartridge_type) {
            c
        } else if self.rtc_cycle_counter + 1 >= CYCLES_PER_SECOND {
            MbcControl { rtc_cycle_counter: 0, rtc: rtc_after_second(c.rtc), ..c }
        } else {
            MbcControl { rtc_cycle_counter: (self.rtc_cycle_counter + 1) as u32, ..c }
        }
    }
}

impl Cartridge {
    /// Parses the header and sets up RAM; ROM shorter than the header is rejected.
    pub fn new(rom_data: Vec<u8>) -> (r: Result<Self, String>)
        ensures
            r.is_err() <==> (rom_data@.len() < 0x150 || type_of_byte(rom_data@[0x147]) is Unknown),
            r matches Err(e) ==> (rom_data@.len() < 0x150 ==> e@ == "ROM data too small: the header is missing"@),
            r matches Err(e) ==> (rom_data@.len() >= 0x150 ==> e@ == unknown_type_message(rom_data@[0x147])),
            r matches Ok(c) ==> {
                &&& c.wf()
                &&& c.rom@ == rom_data@
                &&& c.header.title@ == title_spec(rom_data@)
                &&& c.header.cartridge_type == type_of_byte(rom_data@[0x147])
                &&& c.header.rom_banks == rom_banks_spec(rom_data@[0x148])
                &&& c.header.ram_size == ram_size_spec(rom_data@[0x149])
                &&& c.ram@ == Seq::new(
                    (if kind_of(c.header.cartridge_type) == MbcKind::Mbc2 {
                        512
                    } else if type_has_ram(c.header.cartridge_type) && c.header.ram_size == 0 {
                        0x2000
                    } else {
                        c.header.ram_size as nat
                    }),
                    |i: int| 0u8,
                )
                &&& c.control() == Self::initial_control()
            },
    {
        if rom_data.len() < 0x150 {
            return Err(String::from_str("ROM data too small: the header is missing"));
        }
        let header = Self::parse_header(&rom_data);
        match header.cartridge_type {
            CartridgeType::Unknown(code) => {
                let mut s = String::from_str("unknown cartridge type: 0x");
                let h = hex2(code);
                s.append(h.as_str());
                return Err(s);
            },
            _ => {},
        }
        let ram_size = header.ram_size;
        let actual_ram_size: usize = match header.cartridge_type.mbc_kind() {
            MbcKind::Mbc2 => 512,
            _ => {
                if header.cartridge_type.has_ram() && ram_size == 0 {
                    0x2000
                } else {
                    ram_size
                }
            },
        };
        let ram = zeroed(actual_ram_size);
        Ok(Cartridge {
            rom: rom_data,
            ram,
            header,
            ram_enabled: false,
            rom_bank: 1,
            ram_bank: 0,
            banking_mode: Mbc1Mode::Rom,
            rtc: RtcRegisters::new(),
            rtc_latched: RtcRegisters::new(),
            rtc_latch_pending: false,
            rtc_mapped: false,
            rtc_cycle_counter: 0,
        })
    }

    /// The controller state of a freshly inserted cartridge.
    pub open spec fn initial_control() -> MbcControl {
        let z = RtcRegisters { seconds: 0, minutes: 0, hours: 0, days_low: 0, days_high: 0 };
        MbcControl {
            ram_enabled: false,
            rom_bank: 1,
            ram_bank: 0,
            banking_mode: Mbc1Mode::Rom,
            rtc: z,
            rtc_latched: z,
            rtc_latch_pending: false,
            rtc_mapped: false,
            rtc_cycle_counter: 0,
        }
    }

    /// A ROM-only cartridge titled "TEST", padded with 0xFF to 32 KiB.
    pub fn new_rom_only(rom_data: Vec<u8>) -> (r: Self)
        ensures
            r.wf(),
            r.header.cartridge_type == CartridgeType::RomOnly,
            r.header.rom_banks == 2 && r.header.ram_size == 0,
            r.header.title@ == "TEST"@,
            r.ram@.len() == 0,
            r.control() == Self::initial_control(),
            rom_data@.len() < 0x8000 ==> r.rom@ == rom_data@ + Seq::new(
                (0x8000 - rom_data@.len()) as nat,
                |i: int| 0xFFu8,
            ),
            rom_data@.len() >= 0x8000 ==> r.rom@ == rom_data@,
    {
        let mut padded = rom_data;
        let len = padded.len();
        if len < 0x8000 {
            let mut i: usize = len;
            while i < 0x8000
                invariant
                    len <= i <= 0x8000,
                    len < 0x8000,
                    padded@ == rom_data@ + Seq::new((i - len) as nat, |j: int| 0xFFu8),
                    len == rom_data@.len(),
                decreases 0x8000 - i,
            {
                padded.push(0xFF);
                i = i + 1;
                assert(padded@ =~= rom_data@ + Seq::new((i - len) as nat, |j: int| 0xFFu8));
            }
        }
        Cartridge {
            rom: padded,
            ram: Vec::new(),
            header: CartridgeHeader {
                title: String::from_str("TEST"),
                cartridge_type: CartridgeType::RomOnly,
                rom_banks: 2,
                ram_size: 0,
            },
            ram_enabled: false,
            rom_bank: 1,
            ram_bank: 0,
            banking_mode: Mbc1Mode::Rom,
            rtc: RtcRegisters::new(),
            rtc_latched: RtcRegisters::new(),
            rtc_latch_pending: false,
            rtc_mapped: false,
            rtc_cycle_counter: 0,
        }
    }

    /// Reads title, type, ROM and RAM size from the header.
    pub fn parse_header(rom: &Vec<u8>) -> (r: CartridgeHeader)
        requires
            rom@.len() >= 0x150,
        ensures
            r.title@ == title_spec(rom@),
            r.cartridge_type == type_of_byte(rom@[0x147]),
            r.rom_banks == rom_banks_spec(rom@[0x148]),
            r.ram_size == ram_size_spec(rom@[0x149]),
            2 <= r.rom_banks <= 512,
            r.ram_size <= 0x20000,
    {
        let mut title = String::new();
        let mut n: usize = 0;
        while n < 16 && rom[0x134 + n] != 0
            invariant
                0 <= n <= 16,
                rom@.len() >= 0x150,
                title@ + title_from(rom@, n as nat) == title_spec(rom@),
            decreases 16 - n,
        {
            push_char(&mut title, rom[0x134 + n] as char);
            proof {
                assert(title_from(rom@, n as nat) == seq![rom@[0x134 + n as int] as char] + title_from(
                    rom@,
                    (n + 1) as nat,
                ));
            }
            n = n + 1;
            assert(title@ + title_from(rom@, n as nat) =~= title_spec(rom@));
        }
        assert(title_from(rom@, n as nat) == Seq::<char>::empty());
        assert(title@ =~= title_spec(rom@));
        CartridgeHeader {
            title,
            cartridge_type: CartridgeType::from_byte(rom[0x147]),
            rom_banks: rom_banks_from_byte(rom[0x148]),
            ram_size: ram_size_from_byte(rom[0x149]),
        }
    }

    /// Counts RTC cycles on cartridges with a clock; a full second advances it.
    pub fn tick(&mut self)
        requires
            old(self).wf(),
        ensures
            final(self).wf(),
            final(self).rom == old(self).rom,
            final(self).ram == old(self).ram,
            final(self).header == old(self).header,
            final(self).control() == old(self).control_after_tick(),
    {
        if !self.header.cartridge_type.has_timer() {
            return;
        }
        self.rtc_cycle_counter = self.rtc_cycle_counter + 1;
        if self.rtc_cycle_counter >= CYCLES_PER_SECOND {
            self.rtc_cycle_counter = 0;
            self.rtc.tick_second();
        }
    }

    pub fn read_rom(&self, addr: u16) -> (r: u8)
        requires
            self.wf(),
        ensures
            r == self.rom_read(addr),
    {
        match self.header.cartridge_type.mbc_kind() {
            MbcKind::RomOnly => self.read_rom_none(addr),
            MbcKind::Mbc1 => self.read_rom_mbc1(addr),
            MbcKind::Mbc2 => self.read_rom_mbc2(addr),
            MbcKind::Mbc3 => self.read_rom_mbc3(addr),
            MbcKind::Mbc5 => self.read_rom_mbc5(addr),
        }
    }

    /// A write to ROM space drives the controller's registers.
    pub fn write_rom(&mut self, addr: u16, value: u8)
        requires
            old(self).wf(),
        ensures
            final(self).wf(),
            final(self).rom == old(self).rom,
            final(self).ram == old(self).ram,
            final(self).header == old(self).header,
            final(self).control() == old(self).control_after_rom_write(addr, value),
    {
        match self.header.cartridge_type.mbc_kind() {
            MbcKind::RomOnly => {},
            MbcKind::Mbc1 => self.write_rom_mbc1(addr, value),
            MbcKind::Mbc2 => self.write_rom_mbc2(addr, value),
            MbcKind::Mbc3 => self.write_rom_mbc3(addr, value),
            MbcKind::Mbc5 => self.write_rom_mbc5(addr, value),
        }
    }

    pub fn read_ram(&self, addr: u16) -> (r: u8)
        requires
            self.wf(),
            0xA000 <= addr <= 0xBFFF,
        ensures
            r == self.ram_read(addr),
    {
        match self.header.cartridge_type.mbc_kind() {
            MbcKind::RomOnly => 0xFF,
            MbcKind::Mbc1 => self.read_ram_banked(addr),
            MbcKind::Mbc2 => self.read_ram_mbc2(addr),
            MbcKind::Mbc3 => self.read_ram_mbc3(addr),
            MbcKind::Mbc5 => self.read_ram_banked(addr),
        }
    }

    pub fn write_ram(&mut self, addr: u16, value: u8)
        requires
            old(self).wf(),
            0xA000 <= addr <= 0xBFFF,
        ensures
            final(self).wf(),
            final(self).rom == old(self).rom,
            final(self).header == old(self).header,
            final(self).ram@ == old(self).ram_after_write(addr, value),
            final(self).control() == (MbcControl { rtc: old(self).rtc_after_write(value), ..old(self).control() }),
    {
        match self.header.cartridge_type.mbc_kind() {
            MbcKind::RomOnly => {},
            MbcKind::Mbc1 => self.write_ram_banked(addr, value),
            MbcKind::Mbc2 => self.write_ram_mbc2(addr, value),
            MbcKind::Mbc3 => self.write_ram_mbc3(addr, value),
            MbcKind::Mbc5 => self.write_ram_banked(addr, value),
        }
    }

    fn rom_at(&self, offset: usize) -> (r: u8)
        ensures
            r == byte_or_ff(self.rom@, offset as int),
    {
        if offset < self.rom.len() {
            self.rom[offset]
        } else {
            0xFF
        }
    }

    fn read_rom_none(&self, addr: u16) -> (r: u8)
        requires
            self.kind() == MbcKind::RomOnly,
        ensures
            r == self.rom_read(addr),
    {
        self.rom_at(addr as usize)
    }

    fn read_rom_mbc1(&self, addr: u16) -> (r: u8)
        requires
            self.wf(),
            self.kind() == MbcKind::Mbc1,
        ensures
            r == self.rom_read(addr),
    {
        if addr <= 0x3FFF {
            let bank: usize = if self.banking_mode == Mbc1Mode::Ram {
                (self.ram_bank as usize) << 5
            } else {
                0
            };
            let rb = self.ram_bank as usize;
            assert(rb < 256 ==> rb << 5usize <= 8160) by (bit_vector);
            self.rom_at(bank * 0x4000 + addr as usize)
        } else if addr <= 0x7FFF {
            let bank = self.effective_rom_bank_mbc1();
            self.rom_at(bank * 0x4000 + (addr as usize - 0x4000))
        } else {
            0xFF
        }
    }

    fn effective_rom_bank_mbc1(&self) -> (r: usize)
        requires
            self.wf(),
        ensures
            r == self.mbc1_upper_bank(),
            r < 512,
    {
        let bank = ((self.ram_bank as usize) << 5) | (self.rom_bank as usize);
        bank % self.header.rom_banks
    }

    fn read_rom_plain(&self, addr: u16) -> (r: u8)
        requires
            self.wf(),
            self.kind() != MbcKind::RomOnly && self.kind() != MbcKind::Mbc1,
        ensures
            r == self.rom_read(addr),
    {
        if addr <= 0x3FFF {
            self.rom_at(addr as usize)
        } else if addr <= 0x7FFF {
            let bank = (self.rom_bank as usize) % self.header.rom_banks;
            self.rom_at(bank * 0x4000 + (addr as usize - 0x4000))
        } else {
            0xFF
        }
    }

    fn read_rom_mbc2(&self, addr: u16) -> (r: u8)
        requires
            self.wf(),
            self.kind() == MbcKind::Mbc2,
        ensures
            r == self.rom_read(addr),
    {
        self.read_rom_plain(addr)
    }

    fn read_rom_mbc3(&self, addr: u16) -> (r: u8)
        requires
            self.wf(),
            self.kind() == MbcKind::Mbc3,
        ensures
            r == self.rom_read(addr),
    {
        self.read_rom_plain(addr)
    }

    fn read_rom_mbc5(&self, addr: u16) -> (r: u8)
        requires
            self.wf(),
            self.kind() == MbcKind::Mbc5,
        ensures
            r == self.rom_read(addr),
    {
        self.read_rom_plain(addr)
    }

    fn write_rom_mbc1(&mut self, addr: u16, value: u8)
        requires
            old(self).wf(),
            old(self).kind() == MbcKind::Mbc1,
        ensures
            final(self).wf(),
            final(self).rom == old(self).rom,
            final(self).ram == old(self).ram,
            final(self).header == old(self).header,
            final(self).control() == old(self).control_after_rom_write(addr, value),
    {
        if addr <= 0x1FFF {
            self.ram_enabled = (value & 0x0F) == 0x0A;
        } else if addr <= 0x3FFF {
            let bank = value & 0x1F;
            self.rom_bank = if bank == 0 { 1 } else { bank as u16 };
        } else if addr <= 0x5FFF {
            self.ram_bank = value & 0x03;
        } else if addr <= 0x7FFF {
            self.banking_mode = if value & 0x01 == 0 { Mbc1Mode::Rom } else { Mbc1Mode::Ram };
        }
    }

    fn write_rom_mbc2(&mut self, addr: u16, value: u8)
        requires
            old(self).wf(),
            old(self).kind() == MbcKind::Mbc2,
        ensures
            final(self).wf(),
            final(self).rom == old(self).rom,
            final(self).ram == old(self).ram,
            final(self).header == old(self).header,
            final(self).control() == old(self).control_after_rom_write(addr, value),
    {
        if addr <= 0x3FFF {
            if addr & 0x0100 == 0 {
                self.ram_enabled = (value & 0x0F) == 0x0A;
            } else {
                let bank = value & 0x0F;
                self.rom_bank = if bank == 0 { 1 } else { bank as u16 };
            }
        }
    }

    fn write_rom_mbc3(&mut self, addr: u16, value: u8)
        requires
            old(self).wf(),
            old(self).kind() == MbcKind::Mbc3,
        ensures
            final(self).wf(),
            final(self).rom == old(self).rom,
            final(self).ram == old(self).ram,
            final(self).header == old(self).header,
            final(self).control() == old(self).control_after_rom_write(addr, value),
    {
        if addr <= 0x1FFF {
            self.ram_enabled = (value & 0x0F) == 0x0A;
        } else if addr <= 0x3FFF {
            let bank = value & 0x7F;
            self.rom_bank = if bank == 0 { 1 } else { bank as u16 };
        } else if addr <= 0x5FFF {
            self.ram_bank = value;
            self.rtc_mapped = value >= 0x08 && value <= 0x0C;
        } else if addr <= 0x7FFF {
            if value == 0x00 {
                self.rtc_latch_pending = true;
            } else if value == 0x01 && self.rtc_latch_pending {
                self.rtc_latched = self.rtc;
                self.rtc_latch_pending = false;
            } else {
                self.rtc_latch_pending = false;
            }
        }
    }

    fn write_rom_mbc5(&mut self, addr: u16, value: u8)
        requires
            old(self).wf(),
            old(self).kind() == MbcKind::Mbc5,
        ensures
            final(self).wf(),
            final(self).rom == old(self).rom,
            final(self).ram == old(self).ram,
            final(self).header == old(self).header,
            final(self).control() == old(self).control_after_rom_write(addr, value),
    {
        let rb = self.rom_bank;
        let v = value as u16;
        assert((rb & 0x100) | v <= 0x1FF && (rb & 0x0FF) | ((v & 0x01) << 8u16) <= 0x1FF) by (bit_vector)
            requires
                v < 256,
        ;
        if addr <= 0x1FFF {
            self.ram_enabled = (value & 0x0F) == 0x0A;
        } else if addr <= 0x2FFF {
            self.rom_bank = (rb & 0x100) | v;
        } else if addr <= 0x3FFF {
            self.rom_bank = (rb & 0x0FF) | ((v & 0x01) << 8);
        } else if addr <= 0x5FFF {
            self.ram_bank = value & 0x0F;
        }
    }

    fn ram_offset_of(&self, addr: u16) -> (r: usize)
        requires
            0xA000 <= addr <= 0xBFFF,
            self.kind() != MbcKind::Mbc2,
        ensures
            r == self.ram_offset(addr),
    {
        let bank: usize = match self.header.cartridge_type.mbc_kind() {
            MbcKind::Mbc1 => if self.banking_mode == Mbc1Mode::Ram { self.ram_bank as usize } else { 0 },
            MbcKind::Mbc3 => (self.ram_bank & 0x03) as usize,
            _ => self.ram_bank as usize,
        };
        bank * 0x2000 + (addr as usize - 0xA000)
    }

    /// RAM read for MBC1 and MBC5: gated, banked.
    fn read_ram_banked(&self, addr: u16) -> (r: u8)
        requires
            self.wf(),
            0xA000 <= addr <= 0xBFFF,
            self.kind() == MbcKind::Mbc1 || self.kind() == MbcKind::Mbc5,
        ensures
            r == self.ram_read(addr),
    {
        if !self.ram_enabled || self.ram.len() == 0 {
            return 0xFF;
        }
        let offset = self.ram_offset_of(addr);
        if offset < self.ram.len() {
            self.ram[offset]
        } else {
            0xFF
        }
    }

    /// RAM write for MBC1 and MBC5: gated, banked.
    fn write_ram_banked(&mut self, addr: u16, value: u8)
        requires
            old(self).wf(),
            0xA000 <= addr <= 0xBFFF,
            old(self).kind() == MbcKind::Mbc1 || old(self).kind() == MbcKind::Mbc5,
        ensures
            final(self).wf(),
            final(self).rom == old(self).rom,
            final(self).header == old(self).header,
            final(self).ram@ == old(self).ram_after_write(addr, value),
            final(self).control() == old(self).control(),
    {
        if !self.ram_enabled || self.ram.len() == 0 {
            return;
        }
        let offset = self.ram_offset_of(addr);
        if offset < self.ram.len() {
            self.ram.set(offset, value);
        }
    }

    fn read_ram_mbc2(&self, addr: u16) -> (r: u8)
        requires
            self.wf(),
            0xA000 <= addr <= 0xBFFF,
            self.kind() == MbcKind::Mbc2,
        ensures
            r == self.ram_read(addr),
    {
        if !self.ram_enabled || self.ram.len() == 0 {
            return 0xFF;
        }
        let offset = ((addr - 0xA000) & 0x01FF) as usize;
        if offset < self.ram.len() {
            self.ram[offset] | 0xF0
        } else {
            0xFF
        }
    }

    fn write_ram_mbc2(&mut self, addr: u16, value: u8)
        requires
            old(self).wf(),
            0xA000 <= addr <= 0xBFFF,
            old(self).kind() == MbcKind::Mbc2,
        ensures
            final(self).wf(),
            final(self).rom == old(self).rom,
            final(self).header == old(self).header,
            final(self).ram@ == old(self).ram_after_write(addr, value),
            final(self).control() == old(self).control(),
    {
        if !self.ram_enabled || self.ram.len() == 0 {
            return;
        }
        let offset = ((addr - 0xA000) & 0x01FF) as usize;
        if offset < self.ram.len() {
            self.ram.set(offset, value & 0x0F);
        }
    }

    fn read_ram_mbc3(&self, addr: u16) -> (r: u8)
        requires
            self.wf(),
            0xA000 <= addr <= 0xBFFF,
            self.kind() == MbcKind::Mbc3,
        ensures
            r == self.ram_read(addr),
    {
        if !self.ram_enabled {
            return 0xFF;
        }
        if self.rtc_mapped {
            return match self.ram_bank {
                0x08 => self.rtc_latched.seconds,
                0x09 => self.rtc_latched.minutes,
                0x0A => self.rtc_latched.hours,
                0x0B => self.rtc_latched.days_low,
                0x0C => self.rtc_latched.days_high,
                _ => 0xFF,
            };
        }
        if self.ram.len() == 0 {
            return 0xFF;
        }
        let offset = self.ram_offset_of(addr);
        if offset < self.ram.len() {
            self.ram[offset]
        } else {
            0xFF
        }
    }

    fn write_ram_mbc3(&mut self, addr: u16, value: u8)
        requires
            old(self).wf(),
            0xA000 <= addr <= 0xBFFF,
            old(self).kind() == MbcKind::Mbc3,
        ensures
            final(self).wf(),
            final(self).rom == old(self).rom,
            final(self).header == old(self).header,
            final(self).ram@ == old(self).ram_after_write(addr, value),
            final(self).control() == (MbcControl { rtc: old(self).rtc_after_write(value), ..old(self).control() }),
    {
        if !self.ram_enabled {
            return;
        }
        if self.rtc_mapped {
            assert(value & 0x3F < 64 && value & 0x1F < 32) by (bit_vector);
            match self.ram_bank {
                0x08 => self.rtc.seconds = value & 0x3F,
                0x09 => self.rtc.minutes = value & 0x3F,
                0x0A => self.rtc.hours = value & 0x1F,
                0x0B => self.rtc.days_low = value,
                0x0C => self.rtc.days_high = value & 0xC1,
                _ => {},
            }
            return;
        }
        if self.ram.len() == 0 {
            return;
        }
        let offset = self.ram_offset_of(addr);
        if offset < self.ram.len() {
            self.ram.set(offset, value);
        }
    }
}

/// On an MBC1, writing 0 to 0x2000-0x3FFF selects bank 1, and so does 0x20: the register
/// keeps five bits, so bank 32 is reached only through the upper selector (in RAM banking mode,
/// the lower slot then reads bank 32).
pub proof fn lemma_mbc1_bank_zero_is_one(c: Cartridge, addr: u16)
    requires
        c.kind() == MbcKind::Mbc1,
        0x2000 <= addr <= 0x3FFF,
    ensures
        c.control_after_rom_write(addr, 0).rom_bank == 1,
        c.control_after_rom_write(addr, 0x20).rom_bank == 1,
        c.wf() && c.ram_bank == 0 ==> (Cartridge { rom_bank: 1, ..c }).mbc1_upper_bank() == 1,
{
    assert(0u8 & 0x1F == 0 && 0x20u8 & 0x1F == 0 && (0usize << 5usize) | 1usize == 1usize) by (bit_vector);
    if c.wf() && c.ram_bank == 0 {
        let n = c.header.rom_banks as int;
        assert(1int % n == 1) by (nonlinear_arith)
            requires
                n >= 2,
        ;
    }
}

/// Ticking n + 1 times is ticking n times and then once more.
pub proof fn lemma_cartridge_ticked_snoc(c: Cartridge, n: nat)
    ensures
        c.ticked_n(n + 1) == c.ticked_n(n).with_control(c.ticked_n(n).control_after_tick()),
    decreases n,
{
    let c1 = c.with_control(c.control_after_tick());
    assert(c.ticked_n(n + 1) == c1.ticked_n(n));
    if n > 0 {
        lemma_cartridge_ticked_snoc(c1, (n - 1) as nat);
        assert(c.ticked_n(n) == c1.ticked_n((n - 1) as nat));
    } else {
        assert(c1.ticked_n(0) == c1);
    }
}

/// `n` zero bytes.
fn zeroed(n: usize) -> (r: Vec<u8>)
    ensures
        r@ == Seq::new(n as nat, |i: int| 0u8),
{
    let mut v: Vec<u8> = Vec::new();
    let mut i: usize = 0;
    while i < n
        invariant
            i <= n,
            v@ == Seq::new(i as nat, |j: int| 0u8),
        decreases n - i,
    {
        v.push(0);
        i = i + 1;
        assert(v@ =~= Seq::new(i as nat, |j: int| 0u8));
    }
    v
}

} // verus!
