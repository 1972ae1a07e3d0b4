use vstd::prelude::*;
use vstd::string::StringExecFns;

use crate::apu::{Apu, ApuState};
use crate::cartridge::{lemma_cartridge_ticked_snoc, Cartridge, MbcKind};
use crate::cpu::timer::{inc16, lemma_ticked_n_snoc, Timer};
use crate::dma::Dma;
use crate::joypad::{button_bit, is_direction, Joypad, JoypadButton};
use crate::memory::{BootRom, HighRam, WorkRam};
use crate::memory::hram::hram_index;
use crate::memory::wram::wram_index;
use crate::memory_map::{get_region_name, region_name, region_of};
use crate::ppu::{lemma_mode_matches_dot, lemma_step_advances_dot, Ppu, PpuMode};
use crate::ppu::timing::mode_at;
use crate::text::{ascii_char, hex2, hex2_spec, hex4, hex4_spec, push_char};
use crate::serial::Serial;

verus! {

/// The memory bus: address decoding over every subsystem, and the clock that advances them.
pub struct Peripherals {
    pub bootrom: BootRom,
    pub wram: WorkRam,
    pub hram: HighRam,
    pub ppu: Ppu,
    pub apu: Apu,
    pub timer: Timer,
    pub joypad: Joypad,
    pub serial: Serial,
    pub dma: Dma,
    pub cartridge: Option<Cartridge>,
    /// IF: requested interrupts (bits 0-4).
    pub interrupt_flag: u8,
    /// IE: enabled interrupts.
    pub interrupt_enable: u8,
    pub read_count: u64,
    pub write_count: u64,
}

/// Hex cells of a bus dump row from `addr`: blanks past `end`.
pub open spec fn bus_hex_cells(bus: Peripherals, end: u16, addr: int, n: int) -> Seq<char>
    decreases n,
{
    if n <= 0 {
        Seq::empty()
    } else {
        let cur = addr + n - 1;
        bus_hex_cells(bus, end, addr, n - 1) + if cur <= end {
            hex2_spec(bus.read_spec(cur as u16)) + " "@
        } else {
            "   "@
        }
    }
}

/// Text cells of a bus dump row from `addr`: blanks past `end`.
pub open spec fn bus_text_cells(bus: Peripherals, end: u16, addr: int, n: int) -> Seq<char>
    decreases n,
{
    if n <= 0 {
        Seq::empty()
    } else {
        let cur = addr + n - 1;
        bus_text_cells(bus, end, addr, n - 1).push(if cur <= end { ascii_char(bus.read_spec(cur as u16)) } else { ' ' })
    }
}

/// The rows of a bus dump from row address `addr` to `end`.
pub open spec fn bus_dump_rows(bus: Peripherals, end: u16, addr: int) -> Seq<char>
    decreases end + 16 - addr,
{
    if addr > end || addr < 0 {
        Seq::empty()
    } else {
        "0x"@ + hex4_spec(addr as u16) + ": "@ + bus_hex_cells(bus, end, addr, 16) + " | "@ + bus_text_cells(bus, end, addr, 16)
            + " ["@ + region_name(region_of(addr as u16))@ + "]\n"@ + bus_dump_rows(bus, end, addr + 16)
    }
}


/// The PPU with its mode, dot counter and scanline advanced by one dot.
pub open spec fn ppu_advanced(p: Ppu) -> Ppu {
    let (m, c, l, v) = p.next_timing();
    Ppu { mode: m, cycles: c, scanline: l, ..p }
}

/// The PPU with its mode, dot counter and scanline advanced by `n` dots.
pub open spec fn ppu_timing_after(p: Ppu, n: nat) -> Ppu
    decreases n,
{
    if n == 0 { p } else { ppu_timing_after(ppu_advanced(p), (n - 1) as nat) }
}

/// Whether VBlank begins within the next `n` dots.
pub open spec fn vblank_within(p: Ppu, n: nat) -> bool
    decreases n,
{
    n > 0 && (p.next_timing().3 || vblank_within(ppu_advanced(p), (n - 1) as nat))
}

/// The DMA engine `n` cycles later.
pub open spec fn dma_after(d: Dma, n: nat) -> Dma
    decreases n,
{
    if n == 0 { d } else { dma_after(d.stepped().0, (n - 1) as nat) }
}

/// The audio unit's state `n` cycles later.
pub open spec fn apu_after(a: ApuState, n: nat) -> ApuState
    decreases n,
{
    if n == 0 { a } else { apu_after(a.ticked().0, (n - 1) as nat) }
}

proof fn lemma_ppu_snoc(p: Ppu, n: nat)
    ensures
        ppu_timing_after(p, n + 1) == ppu_advanced(ppu_timing_after(p, n)),
        vblank_within(p, n + 1) == (vblank_within(p, n) || ppu_timing_after(p, n).next_timing().3),
    decreases n,
{
    assert(ppu_timing_after(p, n + 1) == ppu_timing_after(ppu_advanced(p), n));
    if n > 0 {
        lemma_ppu_snoc(ppu_advanced(p), (n - 1) as nat);
        assert(ppu_timing_after(p, n) == ppu_timing_after(ppu_advanced(p), (n - 1) as nat));
    } else {
        assert(ppu_timing_after(ppu_advanced(p), 0) == ppu_advanced(p));
        assert(!vblank_within(ppu_advanced(p), 0));
    }
}

/// From power-on (OAMScan at dot 0 of line 0), after `n` dots the PPU is at dot `n % 456` of
/// line `(n / 456) % 154`, in the mode that line and dot give.
pub proof fn lemma_mode_from_power_on(p: Ppu, n: nat)
    requires
        p.mode == PpuMode::OamScan,
        p.cycles == 0,
        p.scanline == 0,
    ensures
        ppu_timing_after(p, n).timing_wf(),
        ppu_timing_after(p, n).scanline == (n / 456) % 154,
        ppu_timing_after(p, n).dot() == n % 456,
        ppu_timing_after(p, n).mode == mode_at(((n / 456) % 154) as u8, (n % 456) as u32),
    decreases n,
{
    if n > 0 {
        let m = (n - 1) as nat;
        lemma_mode_from_power_on(p, m);
        lemma_ppu_snoc(p, m);
        let q = ppu_timing_after(p, m);
        lemma_step_advances_dot(&q);
        if m % 456 + 1 < 456 {
            assert(n % 456 == m % 456 + 1 && n / 456 == m / 456) by (nonlinear_arith)
                requires
                    n == m + 1,
                    m % 456 + 1 < 456,
            ;
        } else {
            assert(n % 456 == 0 && n / 456 == m / 456 + 1) by (nonlinear_arith)
                requires
                    n == m + 1,
                    m % 456 == 455,
            ;
            let k = m / 456;
            assert((k + 1) % 154 == if k % 154 == 153 { 0 } else { k % 154 + 1 }) by (nonlinear_arith);
        }
    }
    lemma_mode_matches_dot(&ppu_timing_after(p, n));
}

/// The serial port `n` cycles later.
pub open spec fn serial_after(p: Serial, n: nat) -> Serial
    decreases n,
{
    if n == 0 { p } else { serial_after(p.ticked(), (n - 1) as nat) }
}

/// The cartridge `n` cycles later, when there is one.
pub open spec fn cartridge_after(c: Option<Cartridge>, n: nat) -> Option<Cartridge> {
    match c {
        Some(k) => Some(k.ticked_n(n)),
        None => None,
    }
}

proof fn lemma_serial_snoc(p: Serial, n: nat)
    ensures
        serial_after(p, n + 1) == serial_after(p, n).ticked(),
    decreases n,
{
    assert(serial_after(p, n + 1) == serial_after(p.ticked(), n));
    if n > 0 {
        lemma_serial_snoc(p.ticked(), (n - 1) as nat);
        assert(serial_after(p, n) == serial_after(p.ticked(), (n - 1) as nat));
    } else {
        assert(serial_after(p.ticked(), 0) == p.ticked());
    }
}

proof fn lemma_dma_snoc(d: Dma, n: nat)
    ensures
        dma_after(d, n + 1) == dma_after(d, n).stepped().0,
    decreases n,
{
    assert(dma_after(d, n + 1) == dma_after(d.stepped().0, n));
    if n > 0 {
        lemma_dma_snoc(d.stepped().0, (n - 1) as nat);
        assert(dma_after(d, n) == dma_after(d.stepped().0, (n - 1) as nat));
    } else {
        assert(dma_after(d.stepped().0, 0) == d.stepped().0);
    }
}

proof fn lemma_apu_snoc(a: ApuState, n: nat)
    ensures
        apu_after(a, n + 1) == apu_after(a, n).ticked().0,
    decreases n,
{
    assert(apu_after(a, n + 1) == apu_after(a.ticked().0, n));
    if n > 0 {
        lemma_apu_snoc(a.ticked().0, (n - 1) as nat);
        assert(apu_after(a, n) == apu_after(a.ticked().0, (n - 1) as nat));
    } else {
        assert(apu_after(a.ticked().0, 0) == a.ticked().0);
    }
}

/// A counter one step later, wrapping at 64 bits.
pub open spec fn inc64(c: u64) -> u64 {
    if c == u64::MAX { 0 } else { (c + 1) as u64 }
}

impl Peripherals {
    pub open spec fn wf(&self) -> bool {
        &&& self.bootrom.wf()
        &&& self.wram.wf()
        &&& self.hram.wf()
        &&& self.ppu.wf()
        &&& self.apu.wf()
        &&& self.joypad.wf()
        &&& self.serial.wf()
        &&& self.interrupt_flag & 0xE0 == 0
        &&& (self.cartridge matches Some(c) ==> c.wf())
    }

    /// What a read of `addr` returns.
    pub open spec fn read_spec(&self, addr: u16) -> u8 {
        if addr <= 0x00FF && self.bootrom.active_spec() {
            self.bootrom.bytes()[addr as int]
        } else if addr <= 0x7FFF {
            match self.cartridge {
                Some(c) => c.rom_read(addr),
                None => 0xFF,
            }
        } else if addr <= 0x9FFF {
            self.ppu.read_spec(addr)
        } else if addr <= 0xBFFF {
            match self.cartridge {
                Some(c) => c.ram_read(addr),
                None => 0xFF,
            }
        } else if addr <= 0xDFFF {
            self.wram@[wram_index(addr)]
        } else if addr <= 0xFDFF {
            self.wram@[wram_index((addr - 0x2000) as u16)]
        } else if addr <= 0xFE9F {
            self.ppu.read_spec(addr)
        } else if addr <= 0xFEFF {
            0xFF
        } else if addr == 0xFF00 {
            0xC0 | self.joypad.select_bits() | self.joypad.input()
        } else if addr == 0xFF01 {
            self.serial.sb
        } else if addr == 0xFF02 {
            self.serial.sc | 0x7E
        } else if addr == 0xFF04 {
            (self.timer.internal_counter >> 8) as u8
        } else if addr == 0xFF05 {
            self.timer.tima
        } else if addr == 0xFF06 {
            self.timer.tma
        } else if addr == 0xFF07 {
            self.timer.tac
        } else if addr == 0xFF0F {
            self.interrupt_flag | 0xE0
        } else if 0xFF10 <= addr <= 0xFF3F {
            self.apu.state().read_spec(addr)
        } else if 0xFF40 <= addr <= 0xFF4B {
            self.ppu.read_spec(addr)
        } else if 0xFF80 <= addr <= 0xFFFE {
            self.hram@[hram_index(addr)]
        } else if addr == 0xFFFF {
            self.interrupt_enable
        } else {
            0xFF
        }
    }

    /// A bus with the given boot image mapped and no cartridge.
    pub fn new(bootrom: BootRom) -> (r: Self)
        requires
            bootrom.wf(),
        ensures
            r.wf(),
            r.bootrom == bootrom,
            r.cartridge.is_none(),
            r.interrupt_flag == 0 && r.interrupt_enable == 0,
            r.read_count == 0 && r.write_count == 0,
            r.ppu.mode == crate::ppu::PpuMode::OamScan && r.ppu.cycles == 0 && r.ppu.scanline == 0,
            !r.ppu.vblank_interrupt && !r.ppu.stat_interrupt,
            r.timer.internal_counter == 0 && r.timer.tac == 0 && !r.timer.interrupt_request,
            !r.dma.active,
            forall|i: int| 0 <= i < 0x2000 ==> #[trigger] r.wram@[i] == 0,
            forall|i: int| 0 <= i < 0x7F ==> #[trigger] r.hram@[i] == 0,
    {
        assert(0u8 & 0xE0 == 0) by (bit_vector);
        Peripherals {
            bootrom,
            wram: WorkRam::new(),
            hram: HighRam::new(),
            ppu: Ppu::new(),
            apu: Apu::new(),
            timer: Timer::new(),
            joypad: Joypad::new(),
            serial: Serial::new(),
            dma: Dma::new(),
            cartridge: None,
            interrupt_flag: 0,
            interrupt_enable: 0,
            read_count: 0,
            write_count: 0,
        }
    }

    /// A bus with the all-zero boot image.
    pub fn new_with_dummy_bootrom() -> (r: Self)
        ensures
            r.wf(),
            r.bootrom.active_spec(),
            r.cartridge.is_none(),
            r.interrupt_flag == 0 && r.interrupt_enable == 0,
            r.ppu.mode == crate::ppu::PpuMode::OamScan && r.ppu.cycles == 0 && r.ppu.scanline == 0,
            !r.ppu.vblank_interrupt && !r.dma.active,
    {
        Self::new(BootRom::new_dummy())
    }

    /// Inserts a cartridge.
    pub fn load_cartridge(&mut self, cartridge: Cartridge)
        requires
            old(self).wf(),
            cartridge.wf(),
        ensures
            final(self).wf(),
            final(self).cartridge == Some(cartridge),
            final(self).bootrom == old(self).bootrom,
            final(self).wram == old(self).wram && final(self).hram == old(self).hram,
    {
        self.cartridge = Some(cartridge);
    }

    /// The external RAM of the cartridge, for saving; empty without a cartridge.
    pub fn cartridge_ram(&self) -> (r: &[u8])
        ensures
            r@ == (match self.cartridge {
                Some(c) => c.ram@,
                None => Seq::<u8>::empty(),
            }),
    {
        match &self.cartridge {
            Some(c) => c.ram.as_slice(),
            None => &[],
        }
    }

    /// Presses a button on the joypad.
    pub fn press(&mut self, button: JoypadButton)
        requires
            old(self).wf(),
        ensures
            final(self).wf(),
            final(self).joypad.select_bits() == old(self).joypad.select_bits(),
            is_direction(button) ==> final(self).joypad.directions() == old(self).joypad.directions() & !button_bit(button)
                && final(self).joypad.buttons() == old(self).joypad.buttons(),
            !is_direction(button) ==> final(self).joypad.buttons() == old(self).joypad.buttons() & !button_bit(button)
                && final(self).joypad.directions() == old(self).joypad.directions(),
            final(self).joypad.interrupt_request == (old(self).joypad.interrupt_request || old(self).joypad.input()
                & !final(self).joypad.input() != 0),
            final(self).untouched_except(old(self), 0xFF00) && final(self).write_count == old(self).write_count,
    {
        self.joypad.press(button);
    }

    /// Releases a button on the joypad.
    pub fn release(&mut self, button: JoypadButton)
        requires
            old(self).wf(),
        ensures
            final(self).wf(),
            final(self).joypad.select_bits() == old(self).joypad.select_bits(),
            is_direction(button) ==> final(self).joypad.directions() == old(self).joypad.directions() | button_bit(button)
                && final(self).joypad.buttons() == old(self).joypad.buttons(),
            !is_direction(button) ==> final(self).joypad.buttons() == old(self).joypad.buttons() | button_bit(button)
                && final(self).joypad.directions() == old(self).joypad.directions(),
            final(self).joypad.interrupt_request == old(self).joypad.interrupt_request,
            final(self).untouched_except(old(self), 0xFF00) && final(self).write_count == old(self).write_count,
    {
        self.joypad.release(button);
    }

    /// The byte at an address, as the CPU sees it, without counting the access.
    pub fn peek(&self, addr: u16) -> (r: u8)
        requires
            self.wf(),
        ensures
            r == self.read_spec(addr),
    {
        if addr <= 0x00FF && self.bootrom.is_active() {
            self.bootrom.read(addr)
        } else if addr <= 0x7FFF {
            match &self.cartridge {
                Some(c) => c.read_rom(addr),
                None => 0xFF,
            }
        } else if addr <= 0x9FFF {
            self.ppu.read(addr)
        } else if addr <= 0xBFFF {
            match &self.cartridge {
                Some(c) => c.read_ram(addr),
                None => 0xFF,
            }
        } else if addr <= 0xDFFF {
            self.wram.read(addr)
        } else if addr <= 0xFDFF {
            self.wram.read(addr - 0x2000)
        } else if addr <= 0xFE9F {
            self.ppu.read(addr)
        } else if addr <= 0xFEFF {
            0xFF
        } else if addr == 0xFF00 {
            self.joypad.read()
        } else if addr == 0xFF01 {
            self.serial.read_sb()
        } else if addr == 0xFF02 {
            self.serial.read_sc()
        } else if addr == 0xFF04 {
            self.timer.read_div()
        } else if addr == 0xFF05 {
            self.timer.tima
        } else if addr == 0xFF06 {
            self.timer.tma
        } else if addr == 0xFF07 {
            self.timer.tac
        } else if addr == 0xFF0F {
            self.interrupt_flag | 0xE0
        } else if 0xFF10 <= addr && addr <= 0xFF3F {
            self.apu.read(addr)
        } else if 0xFF40 <= addr && addr <= 0xFF4B {
            self.ppu.read(addr)
        } else if 0xFF80 <= addr && addr <= 0xFFFE {
            self.hram.read(addr)
        } else if addr == 0xFFFF {
            self.interrupt_enable
        } else {
            0xFF
        }
    }

    /// Everything but the access counters agrees.
    pub open spec fn same_except_counts(&self, o: &Peripherals) -> bool {
        &&& self.bootrom == o.bootrom && self.wram == o.wram && self.hram == o.hram
        &&& self.ppu == o.ppu && self.apu == o.apu && self.timer == o.timer
        &&& self.joypad == o.joypad && self.serial == o.serial && self.dma == o.dma
        &&& self.cartridge == o.cartridge
        &&& self.interrupt_flag == o.interrupt_flag && self.interrupt_enable == o.interrupt_enable
    }

    /// Reads a byte; unmapped addresses read 0xFF.
    pub fn read(&mut self, addr: u16) -> (r: u8)
        requires
            old(self).wf(),
        ensures
            final(self).wf(),
            final(self).same_except_counts(old(self)),
            r == old(self).read_spec(addr),
            final(self).read_count == inc64(old(self).read_count),
            final(self).write_count == old(self).write_count,
            final(self).bootrom == old(self).bootrom && final(self).wram == old(self).wram && final(self).hram == old(self).hram,
            final(self).ppu == old(self).ppu && final(self).apu == old(self).apu && final(self).timer == old(self).timer,
            final(self).joypad == old(self).joypad && final(self).serial == old(self).serial && final(self).dma == old(self).dma,
            final(self).cartridge == old(self).cartridge,
            final(self).interrupt_flag == old(self).interrupt_flag && final(self).interrupt_enable == old(self).interrupt_enable,
    {
        self.read_count = self.read_count.wrapping_add(1);
        self.peek(addr)
    }

    /// Reads a little-endian word.
    pub fn read16(&mut self, addr: u16) -> (r: u16)
        requires
            old(self).wf(),
        ensures
            final(self).wf(),
            r == old(self).read_spec(inc16(addr)) as u16 * 256 + old(self).read_spec(addr) as u16,
            final(self).wram == old(self).wram && final(self).hram == old(self).hram,
    {
        let low = self.read(addr) as u16;
        let high = self.read(addr.wrapping_add(1)) as u16;
        assert(high < 256 && low < 256 ==> (high << 8) | low == high * 256 + low) by (bit_vector);
        (high << 8) | low
    }
}

impl Peripherals {
    /// Every part other than those a write to `addr` may touch is unchanged.
    pub open spec fn untouched_except(&self, old: &Peripherals, addr: u16) -> bool {
        &&& (addr != 0xFF50 ==> self.bootrom == old.bootrom)
        &&& (!(0xC000 <= addr <= 0xFDFF) ==> self.wram == old.wram)
        &&& (!(0xFF80 <= addr <= 0xFFFE) ==> self.hram == old.hram)
        &&& (!(0x8000 <= addr <= 0x9FFF || 0xFE00 <= addr <= 0xFE9F || 0xFF40 <= addr <= 0xFF4B) ==> self.ppu == old.ppu)
        &&& (!(0xFF10 <= addr <= 0xFF3F) ==> self.apu == old.apu)
        &&& (!(0xFF04 <= addr <= 0xFF07) ==> self.timer == old.timer)
        &&& (addr != 0xFF00 ==> self.joypad == old.joypad)
        &&& (!(0xFF01 <= addr <= 0xFF02) ==> self.serial == old.serial)
        &&& (addr != 0xFF46 ==> self.dma == old.dma)
        &&& (!(addr <= 0x7FFF || 0xA000 <= addr <= 0xBFFF) ==> self.cartridge == old.cartridge)
        &&& (addr != 0xFF0F ==> self.interrupt_flag == old.interrupt_flag)
        &&& (addr != 0xFFFF ==> self.interrupt_enable == old.interrupt_enable)
        &&& self.read_count == old.read_count
    }

    /// What a write of `value` to `addr` leaves, from `before` to `after`.
    pub open spec fn write_post(before: &Peripherals, after: &Peripherals, addr: u16, value: u8) -> bool {
        &&& (after.wf())
        &&& (after.untouched_except(before, addr))
        &&& (after.write_count == inc64(before.write_count))
        &&& (0xC000 <= addr <= 0xDFFF ==> after.wram@ == before.wram@.update(wram_index(addr), value))
        &&& (0xE000 <= addr <= 0xFDFF ==> after.wram@ == before.wram@.update(wram_index((addr - 0x2000) as u16), value))
        &&& (0xFF80 <= addr <= 0xFFFE ==> after.hram@ == before.hram@.update(hram_index(addr), value))
        &&& (addr == 0xFF0F ==> after.interrupt_flag == value & 0x1F)
        &&& (addr == 0xFF00 ==> after.joypad.select_bits() == value & 0x30 && after.joypad.buttons()
            == before.joypad.buttons() && after.joypad.directions() == before.joypad.directions()
            && after.joypad.interrupt_request == before.joypad.interrupt_request)
        &&& (addr == 0xFF01 ==> after.serial == (Serial { sb: value, ..before.serial }))
        &&& (addr == 0xFF02 ==> after.serial.sc == value && after.serial.sb == before.serial.sb
            && after.serial.interrupt_request == before.serial.interrupt_request && (if value & 0x81 == 0x81 {
            after.serial.counter() == 0 && after.serial.bits() == 0
        } else {
            after.serial.counter() == before.serial.counter() && after.serial.bits() == before.serial.bits()
        }))
        &&& (addr == 0xFF04 ==> after.timer == (Timer { internal_counter: 0, ..before.timer }))
        &&& (addr == 0xFF05 ==> after.timer == (Timer { tima: value, ..before.timer }))
        &&& (addr == 0xFF06 ==> after.timer == (Timer { tma: value, ..before.timer }))
        &&& (addr == 0xFF07 ==> after.timer == (Timer { tac: value, ..before.timer }))
        &&& ((0xFF10 <= addr <= 0xFF2F) ==> after.apu.state() == before.apu.state().written(addr, value)
            && after.apu.sample_buffer == before.apu.sample_buffer)
        &&& (addr == 0xFFFF ==> after.interrupt_enable == value)
        &&& (addr == 0xFF50 ==> after.bootrom.bytes() == before.bootrom.bytes()
                && after.bootrom.active_spec() == (before.bootrom.active_spec() && value == 0))
        &&& (addr == 0xFF46 ==> after.dma == (Dma { active: true, source: value, byte_counter: 0, remaining_cycles: 640 }))
        &&& ((0x8000 <= addr <= 0x9FFF || 0xFE00 <= addr <= 0xFE9F || 0xFF40 <= addr <= 0xFF4B) ==> {
                &&& after.ppu.same_state(&before.ppu)
                &&& after.ppu.registers == before.ppu.registers_after_write(addr, value)
                &&& (0x8000 <= addr <= 0x9FFF && before.ppu.vram_open()) ==> after.ppu.vram@
                    == before.ppu.vram@.update(addr - 0x8000, value)
                &&& (0xFE00 <= addr <= 0xFE9F && before.ppu.oam_open()) ==> after.ppu.oam@
                    == before.ppu.oam@.update(addr - 0xFE00, value)
            })
        &&& (0xFF30 <= addr <= 0xFF3F ==> after.apu.channel3.wave_ram@ == before.apu.channel3.wave_ram@.update(
                addr - 0xFF30,
                value,
            ) && after.apu.power == before.apu.power)
        &&& (0xA000 <= addr <= 0xBFFF ==> (match (before.cartridge, after.cartridge) {
                (Some(c0), Some(c1)) => c1.ram@ == c0.ram_after_write(addr, value) && c1.rom == c0.rom && c1.header
                    == c0.header && c1.control() == (crate::cartridge::MbcControl {
                    rtc: c0.rtc_after_write(value),
                    ..c0.control()
                }),
                (None, None) => true,
                _ => false,
            }))
        &&& (addr <= 0x7FFF ==> (match (before.cartridge, after.cartridge) {
                (Some(c0), Some(c1)) => c1.ram == c0.ram && c1.rom == c0.rom && c1.header == c0.header && c1.control()
                    == c0.control_after_rom_write(addr, value),
                (None, None) => true,
                _ => false,
            }))
    }

    /// Writes a byte; writes to ROM space drive the cartridge controller, unmapped writes are dropped.
    pub fn write(&mut self, addr: u16, value: u8)
        requires
            old(self).wf(),
        ensures
            final(self).wf(),
            Self::write_post(old(self), final(self), addr, value),
    {
        self.write_count = self.write_count.wrapping_add(1);
        if addr <= 0x7FFF {
            match &mut self.cartridge {
                Some(c) => c.write_rom(addr, value),
                None => {},
            }
        } else if addr <= 0x9FFF {
            self.ppu.write(addr, value);
        } else if addr <= 0xBFFF {
            match &mut self.cartridge {
                Some(c) => c.write_ram(addr, value),
                None => {},
            }
        } else if addr <= 0xDFFF {
            self.wram.write(addr, value);
        } else if addr <= 0xFDFF {
            self.wram.write(addr - 0x2000, value);
        } else if addr <= 0xFE9F {
            self.ppu.write(addr, value);
        } else if addr <= 0xFEFF {
        } else if addr == 0xFF00 {
            self.joypad.write(value);
        } else if addr == 0xFF01 {
            self.serial.write_sb(value);
        } else if addr == 0xFF02 {
            self.serial.write_sc(value);
        } else if addr == 0xFF04 {
            self.timer.write_div();
        } else if addr == 0xFF05 {
            self.timer.tima = value;
        } else if addr == 0xFF06 {
            self.timer.tma = value;
        } else if addr == 0xFF07 {
            self.timer.tac = value;
        } else if addr == 0xFF0F {
            assert(value & 0x1F & 0xE0 == 0) by (bit_vector);
            self.interrupt_flag = value & 0x1F;
        } else if 0xFF10 <= addr && addr <= 0xFF3F {
            self.apu.write(addr, value);
        } else if addr == 0xFF46 {
            self.dma.start(value);
            self.ppu.write(addr, value);
        } else if 0xFF40 <= addr && addr <= 0xFF4B {
            self.ppu.write(addr, value);
        } else if addr == 0xFF50 {
            self.bootrom.write_disable_register(value);
        } else if 0xFF80 <= addr && addr <= 0xFFFE {
            self.hram.write(addr, value);
        } else if addr == 0xFFFF {
            self.interrupt_enable = value;
        }
    }

    /// Writes a little-endian word: the low byte at `addr`, the high byte after it.
    pub fn write16(&mut self, addr: u16, value: u16)
        requires
            old(self).wf(),
        ensures
            final(self).wf(),
            0xC000 <= addr < 0xDFFF ==> final(self).wram@ == old(self).wram@.update(wram_index(addr), value as u8).update(
                wram_index((addr + 1) as u16),
                (value >> 8) as u8,
            ),
    {
        self.write(addr, value as u8);
        self.write(addr.wrapping_add(1), (value >> 8) as u8);
    }

    /// Advances every subsystem by one machine cycle and copies a DMA byte when one is due.
    fn cycle(&mut self)
        requires
            old(self).wf(),
        ensures
            final(self).wf(),
            final(self).timer == old(self).timer.ticked(),
            final(self).interrupt_flag == old(self).interrupt_flag,
            final(self).ppu.vblank_interrupt == (old(self).ppu.vblank_interrupt || old(self).ppu.next_timing().3),
            final(self).ppu.mode == old(self).ppu.next_timing().0,
            final(self).ppu.cycles == old(self).ppu.next_timing().1,
            final(self).ppu.scanline == old(self).ppu.next_timing().2,
            final(self).dma == old(self).dma.stepped().0,
            final(self).apu.state() == old(self).apu.state().ticked().0,
            final(self).serial == old(self).serial.ticked(),
            final(self).cartridge == cartridge_after(old(self).cartridge, 1),
            old(self).joypad.interrupt_request ==> final(self).joypad.interrupt_request,
            final(self).wram == old(self).wram && final(self).hram == old(self).hram,
            final(self).bootrom == old(self).bootrom && final(self).interrupt_enable == old(self).interrupt_enable,
            final(self).ppu.vram == old(self).ppu.vram,
    {
        proof {
            match old(self).cartridge {
                Some(k) => {
                    assert(k.ticked_n(1) == k.with_control(k.control_after_tick()).ticked_n(0));
                },
                None => {},
            }
        }
        self.ppu.step();
        self.timer.tick();
        self.serial.tick();
        self.apu.tick();
        match &mut self.cartridge {
            Some(c) => c.tick(),
            None => {},
        }
        match self.dma.tick() {
            Some((src, dst)) => {
                let v = self.peek(src);
                self.ppu.oam.set((dst - 0xFE00) as usize, v);
            },
            None => {},
        }
    }

    /// Advances every subsystem by `cycles` machine cycles, copies one DMA byte per four cycles,
    /// then routes the subsystems' interrupt requests into IF (VBlank bit 0, STAT bit 1, timer
    /// bit 2, serial bit 3, joypad bit 4) and clears them.
    #[verifier::rlimit(100)]
    pub fn tick(&mut self, cycles: u32)
        requires
            old(self).wf(),
        ensures
            final(self).wf(),
            final(self).timer == (Timer { interrupt_request: false, ..old(self).timer.ticked_n(cycles as nat) }),
            final(self).interrupt_flag & old(self).interrupt_flag == old(self).interrupt_flag,
            (final(self).interrupt_flag & 0x04 != 0) == (old(self).interrupt_flag & 0x04 != 0
                || old(self).timer.ticked_n(cycles as nat).interrupt_request),
            (final(self).interrupt_flag & 0x01 != 0) == (old(self).interrupt_flag & 0x01 != 0
                || old(self).ppu.vblank_interrupt || vblank_within(old(self).ppu, cycles as nat)),
            final(self).ppu.mode == ppu_timing_after(old(self).ppu, cycles as nat).mode,
            final(self).ppu.cycles == ppu_timing_after(old(self).ppu, cycles as nat).cycles,
            final(self).ppu.scanline == ppu_timing_after(old(self).ppu, cycles as nat).scanline,
            final(self).dma == dma_after(old(self).dma, cycles as nat),
            final(self).apu.state() == apu_after(old(self).apu.state(), cycles as nat),
            final(self).serial == (Serial { interrupt_request: false, ..serial_after(old(self).serial, cycles as nat) }),
            (final(self).interrupt_flag & 0x08 != 0) == (old(self).interrupt_flag & 0x08 != 0
                || serial_after(old(self).serial, cycles as nat).interrupt_request),
            final(self).cartridge == cartridge_after(old(self).cartridge, cycles as nat),
            old(self).joypad.interrupt_request ==> final(self).interrupt_flag & 0x10 != 0,
            !final(self).ppu.vblank_interrupt && !final(self).ppu.stat_interrupt,
            !final(self).serial.interrupt_request && !final(self).joypad.interrupt_request,
            final(self).wram == old(self).wram && final(self).hram == old(self).hram,
            final(self).bootrom == old(self).bootrom && final(self).interrupt_enable == old(self).interrupt_enable,
            final(self).ppu.vram == old(self).ppu.vram,
    {
        let mut i: u32 = 0;
        while i < cycles
            invariant
                i <= cycles,
                self.wf(),
                self.timer == old(self).timer.ticked_n(i as nat),
                self.interrupt_flag == old(self).interrupt_flag,
                self.ppu.vblank_interrupt == (old(self).ppu.vblank_interrupt || vblank_within(old(self).ppu, i as nat)),
                self.ppu.mode == ppu_timing_after(old(self).ppu, i as nat).mode,
                self.ppu.cycles == ppu_timing_after(old(self).ppu, i as nat).cycles,
                self.ppu.scanline == ppu_timing_after(old(self).ppu, i as nat).scanline,
                self.dma == dma_after(old(self).dma, i as nat),
                self.apu.state() == apu_after(old(self).apu.state(), i as nat),
                self.serial == serial_after(old(self).serial, i as nat),
                self.cartridge == cartridge_after(old(self).cartridge, i as nat),
                old(self).joypad.interrupt_request ==> self.joypad.interrupt_request,
                self.wram == old(self).wram && self.hram == old(self).hram,
                self.bootrom == old(self).bootrom && self.interrupt_enable == old(self).interrupt_enable,
                self.ppu.vram == old(self).ppu.vram,
            decreases cycles - i,
        {
            proof {
                lemma_ppu_snoc(old(self).ppu, i as nat);
                lemma_dma_snoc(old(self).dma, i as nat);
                lemma_apu_snoc(old(self).apu.state(), i as nat);
                lemma_serial_snoc(old(self).serial, i as nat);
                match old(self).cartridge {
                    Some(k) => {
                        lemma_cartridge_ticked_snoc(k, i as nat);
                        let c = k.ticked_n(i as nat);
                        assert(c.ticked_n(1) == c.with_control(c.control_after_tick()).ticked_n(0));
                    },
                    None => {},
                }
                lemma_ticked_n_snoc(old(self).timer, i as nat);
                assert(self.ppu.next_timing() == ppu_timing_after(old(self).ppu, i as nat).next_timing());
            }
            self.cycle();
            i = i + 1;
        }
        let f0 = self.interrupt_flag;
        let a: u8 = if self.ppu.vblank_interrupt { 0x01 } else { 0 };
        let b: u8 = if self.ppu.stat_interrupt { 0x02 } else { 0 };
        let c: u8 = if self.timer.interrupt_request { 0x04 } else { 0 };
        let d: u8 = if self.serial.interrupt_request { 0x08 } else { 0 };
        let e: u8 = if self.joypad.interrupt_request { 0x10 } else { 0 };
        let flags = f0 | a | b | c | d | e;
        assert(forall|f: u8, a: u8, b: u8, c: u8, d: u8, e: u8|
            f & 0xE0 == 0 && (a == 0 || a == 1) && (b == 0 || b == 2) && (c == 0 || c == 4) && (d == 0 || d == 8)
                && (e == 0 || e == 16) ==> {
                let g = #[trigger] (f | a | b | c | d | e);
                &&& g & 0xE0 == 0
                &&& g & f == f
                &&& (g & 0x04 != 0) == (f & 0x04 != 0 || c == 4)
                &&& (g & 0x08 != 0) == (f & 0x08 != 0 || d == 8)
                &&& (g & 0x01 != 0) == (f & 0x01 != 0 || a == 1)
                &&& (e == 16 ==> g & 0x10 != 0)
            }) by (bit_vector);
        self.interrupt_flag = flags;
        self.ppu.clear_vblank_interrupt();
        self.ppu.clear_stat_interrupt();
        self.timer.interrupt_request = false;
        self.serial.interrupt_request = false;
        self.joypad.interrupt_request = false;
    }

    /// A listing of `start..=end` as the CPU sees it: rows of sixteen from `start` rounded down,
    /// in hexadecimal, as text, and with the memory area of the row. Each byte shown counts as a read.
    pub fn dump_memory(&mut self, start_addr: u16, end_addr: u16) -> (r: String)
        requires
            old(self).wf(),
            end_addr < 0xFFF0,
        ensures
            final(self).wf(),
            final(self).same_except_counts(old(self)),
            r@ == "=== Memory Dump 0x"@ + hex4_spec(start_addr) + "-0x"@ + hex4_spec(end_addr) + " ===\n"@ + bus_dump_rows(
                *old(self),
                end_addr,
                (start_addr - start_addr % 16) as int,
            ),
    {
        let ghost b0 = *self;
        let mut s = String::from_str("=== Memory Dump 0x");
        let h = hex4(start_addr);
        s.append(h.as_str());
        s.append("-0x");
        let h = hex4(end_addr);
        s.append(h.as_str());
        s.append(" ===\n");
        let ghost prefix = s@;
        let mut addr: u16 = start_addr - start_addr % 16;
        let ghost first = addr as int;
        while addr <= end_addr
            invariant
                self.wf(),
                self.same_except_counts(&b0),
                b0.wf(),
                end_addr < 0xFFF0,
                addr as int == first || addr <= end_addr + 16,
                s@ + bus_dump_rows(b0, end_addr, addr as int) == prefix + bus_dump_rows(b0, end_addr, first),
            decreases end_addr + 16 - addr,
        {
            let ghost before = s@;
            s.append("0x");
            let h = hex4(addr);
            s.append(h.as_str());
            s.append(": ");
            let ghost mid = s@;
            let mut i: u16 = 0;
            while i < 16
                invariant
                    i <= 16,
                    addr <= end_addr,
                    end_addr < 0xFFF0,
                    self.wf(),
                    self.same_except_counts(&b0),
                    s@ == mid + bus_hex_cells(b0, end_addr, addr as int, i as int),
                decreases 16 - i,
            {
                let cur = addr + i;
                if cur <= end_addr {
                    let v = self.read(cur);
                    let h = hex2(v);
                    s.append(h.as_str());
                    s.append(" ");
                } else {
                    s.append("   ");
                }
                i = i + 1;
                assert(s@ =~= mid + bus_hex_cells(b0, end_addr, addr as int, i as int));
            }
            s.append(" | ");
            let ghost mid2 = s@;
            let mut i: u16 = 0;
            while i < 16
                invariant
                    i <= 16,
                    addr <= end_addr,
                    end_addr < 0xFFF0,
                    self.wf(),
                    self.same_except_counts(&b0),
                    s@ == mid2 + bus_text_cells(b0, end_addr, addr as int, i as int),
                decreases 16 - i,
            {
                let cur = addr + i;
                if cur <= end_addr {
                    let v = self.read(cur);
                    if 32 <= v && v <= 126 {
                        push_char(&mut s, v as char);
                    } else {
                        push_char(&mut s, '.');
                    }
                } else {
                    push_char(&mut s, ' ');
                }
                i = i + 1;
                assert(s@ =~= mid2 + bus_text_cells(b0, end_addr, addr as int, i as int));
            }
            s.append(" [");
            s.append(get_region_name(addr));
            s.append("]\n");
            proof {
                let row = "0x"@ + hex4_spec(addr) + ": "@ + bus_hex_cells(b0, end_addr, addr as int, 16) + " | "@ + bus_text_cells(
                    b0,
                    end_addr,
                    addr as int,
                    16,
                ) + " ["@ + region_name(region_of(addr))@ + "]\n"@;
                assert(s@ =~= before + row);
                assert(bus_dump_rows(b0, end_addr, addr as int) == row + bus_dump_rows(b0, end_addr, addr + 16));
                assert((before + row) + bus_dump_rows(b0, end_addr, addr + 16) =~= before + (row + bus_dump_rows(
                    b0,
                    end_addr,
                    addr + 16,
                )));
            }
            addr = addr + 16;
        }
        assert(s@ =~= s@ + bus_dump_rows(b0, end_addr, addr as int));
        s
    }

    /// Clears the access counters.
    pub fn reset_stats(&mut self)
        ensures
            final(self).read_count == 0 && final(self).write_count == 0,
            final(self).bootrom == old(self).bootrom && final(self).wram == old(self).wram && final(self).hram == old(self).hram,
            final(self).ppu == old(self).ppu && final(self).apu == old(self).apu && final(self).timer == old(self).timer,
            final(self).joypad == old(self).joypad && final(self).serial == old(self).serial && final(self).dma == old(self).dma,
            final(self).cartridge == old(self).cartridge,
            final(self).interrupt_flag == old(self).interrupt_flag && final(self).interrupt_enable == old(self).interrupt_enable,
    {
        self.read_count = 0;
        self.write_count = 0;
    }

    /// Clears work and high memory and the counters.
    pub fn reset(&mut self)
        requires
            old(self).wf(),
        ensures
            final(self).wf(),
            forall|i: int| 0 <= i < 0x2000 ==> #[trigger] final(self).wram@[i] == 0,
            forall|i: int| 0 <= i < 0x7F ==> #[trigger] final(self).hram@[i] == 0,
            final(self).read_count == 0 && final(self).write_count == 0,
            final(self).bootrom == old(self).bootrom,
    {
        self.wram.clear_all();
        self.hram.clear();
        self.reset_stats();
    }
}

/// The storage cell an address reads: the echo area reads work memory 0x2000 below it.
pub open spec fn cell(a: u16) -> int {
    if 0xE000 <= a <= 0xFDFF { a - 0x2000 } else { a as int }
}

/// A write to work or high memory changes what only the written cell reads.
pub proof fn lemma_write_frame(before: &Peripherals, after: &Peripherals, addr: u16, v: u8)
    requires
        before.wf(),
        Peripherals::write_post(before, after, addr, v),
        (0xC000 <= addr <= 0xDFFF) || (0xFF80 <= addr <= 0xFFFE),
    ensures
        forall|a: u16| cell(a) != addr ==> #[trigger] after.read_spec(a) == before.read_spec(a),
{
    assert forall|a: u16| cell(a) != addr implies #[trigger] after.read_spec(a) == before.read_spec(a) by {
        if 0xC000 <= a <= 0xFDFF || 0xFF80 <= a <= 0xFFFE {
        }
    }
}

/// Whether external RAM at `addr` stores what is written: an enabled MBC1, MBC3 (clock not
/// mapped) or MBC5 RAM, with the banked offset inside it.
pub open spec fn ram_reads_back(cartridge: Option<Cartridge>, addr: u16) -> bool {
    match cartridge {
        Some(c) => c.ram_enabled && (c.kind() == MbcKind::Mbc1 || c.kind() == MbcKind::Mbc5 || (c.kind()
            == MbcKind::Mbc3 && !c.rtc_mapped)) && 0 <= c.ram_offset(addr) < c.ram@.len(),
        None => false,
    }
}

/// Memory that stores bytes reads back what was written: work memory and its echo, high
/// memory, video memory and OAM while the PPU leaves them open, the wave table, and external
/// RAM of an MBC1, MBC3 or MBC5 cartridge while it is enabled (the MBC3 clock not mapped).
pub proof fn lemma_write_then_read(before: &Peripherals, after: &Peripherals, addr: u16, v: u8)
    requires
        before.wf(),
        Peripherals::write_post(before, after, addr, v),
        (0xC000 <= addr <= 0xFDFF) || (0xFF80 <= addr <= 0xFFFE) || (0xFF30 <= addr <= 0xFF3F) || (0x8000 <= addr
            <= 0x9FFF && before.ppu.vram_open()) || (0xFE00 <= addr <= 0xFE9F && before.ppu.oam_open()) || (0xA000
            <= addr <= 0xBFFF && ram_reads_back(before.cartridge, addr)),
    ensures
        after.read_spec(addr) == v,
{
    if 0xFF30 <= addr <= 0xFF3F {
        assert(after.apu.channel3.wave_ram@[addr - 0xFF30] == v);
    }
    if 0xA000 <= addr <= 0xBFFF {
        let c0 = before.cartridge->Some_0;
        let c1 = after.cartridge->Some_0;
        assert(c1.ram_offset(addr) == c0.ram_offset(addr));
        assert(c1.ram@[c0.ram_offset(addr)] == v);
    }
}

} // verus!
