use vstd::prelude::*;
use vstd::string::StringExecFns;

pub mod dmg;
pub mod io_registers;

use crate::text::{hex4, hex4_spec};

verus! {

/// The areas of the 16-bit address space.
#[derive(Debug, Clone, Copy, PartialEq, Eq, Structural)]
pub enum MemoryRegion {
    BootRom,
    CartridgeRom,
    VideoRam,
    CartridgeRam,
    WorkRam,
    WorkRamEcho,
    Oam,
    Unused,
    IoRegisters,
    HighRam,
    InterruptEnable,
}

/// The area that holds an address.
pub open spec fn region_of(addr: u16) -> MemoryRegion {
    if addr <= 0x00FF {
        MemoryRegion::BootRom
    } else if addr <= 0x7FFF {
        MemoryRegion::CartridgeRom
    } else if addr <= 0x9FFF {
        MemoryRegion::VideoRam
    } else if addr <= 0xBFFF {
        MemoryRegion::CartridgeRam
    } else if addr <= 0xDFFF {
        MemoryRegion::WorkRam
    } else if addr <= 0xFDFF {
        MemoryRegion::WorkRamEcho
    } else if addr <= 0xFE9F {
        MemoryRegion::Oam
    } else if addr <= 0xFEFF {
        MemoryRegion::Unused
    } else if addr <= 0xFF7F {
        MemoryRegion::IoRegisters
    } else if addr <= 0xFFFE {
        MemoryRegion::HighRam
    } else {
        MemoryRegion::InterruptEnable
    }
}

/// The display name of an area.
pub open spec fn region_name(r: MemoryRegion) -> &'static str {
    match r {
        MemoryRegion::BootRom => "BootROM",
        MemoryRegion::CartridgeRom => "Cartridge ROM",
        MemoryRegion::VideoRam => "Video RAM",
        MemoryRegion::CartridgeRam => "Cartridge RAM",
        MemoryRegion::WorkRam => "Work RAM",
        MemoryRegion::WorkRamEcho => "Work RAM Echo",
        MemoryRegion::Oam => "OAM",
        MemoryRegion::Unused => "Unused",
        MemoryRegion::IoRegisters => "I/O Registers",
        MemoryRegion::HighRam => "High RAM",
        MemoryRegion::InterruptEnable => "Interrupt Enable",
    }
}

/// The name of the I/O register at an address, if one is assigned there.
pub open spec fn io_register_name(addr: u16) -> Option<&'static str> {
    if addr == 0xFF00 {
        Some("JOYP")
    } else if addr == 0xFF01 {
        Some("SB")
    } else if addr == 0xFF02 {
        Some("SC")
    } else if addr == 0xFF04 {
        Some("DIV")
    } else if addr == 0xFF05 {
        Some("TIMA")
    } else if addr == 0xFF06 {
        Some("TMA")
    } else if addr == 0xFF07 {
        Some("TAC")
    } else if addr == 0xFF0F {
        Some("IF")
    } else if addr == 0xFF10 {
        Some("NR10")
    } else if addr == 0xFF11 {
        Some("NR11")
    } else if addr == 0xFF12 {
        Some("NR12")
    } else if addr == 0xFF13 {
        Some("NR13")
    } else if addr == 0xFF14 {
        Some("NR14")
    } else if addr == 0xFF16 {
        Some("NR21")
    } else if addr == 0xFF17 {
        Some("NR22")
    } else if addr == 0xFF18 {
        Some("NR23")
    } else if addr == 0xFF19 {
        Some("NR24")
    } else if addr == 0xFF1A {
        Some("NR30")
    } else if addr == 0xFF1B {
        Some("NR31")
    } else if addr == 0xFF1C {
        Some("NR32")
    } else if addr == 0xFF1D {
        Some("NR33")
    } else if addr == 0xFF1E {
        Some("NR34")
    } else if addr == 0xFF20 {
        Some("NR41")
    } else if addr == 0xFF21 {
        Some("NR42")
    } else if addr == 0xFF22 {
        Some("NR43")
    } else if addr == 0xFF23 {
        Some("NR44")
    } else if addr == 0xFF24 {
        Some("NR50")
    } else if addr == 0xFF25 {
        Some("NR51")
    } else if addr == 0xFF26 {
        Some("NR52")
    } else if 0xFF30 <= addr <= 0xFF3F {
        Some("WAVE_RAM")
    } else if addr == 0xFF40 {
        Some("LCDC")
    } else if addr == 0xFF41 {
        Some("STAT")
    } else if addr == 0xFF42 {
        Some("SCY")
    } else if addr == 0xFF43 {
        Some("SCX")
    } else if addr == 0xFF44 {
        Some("LY")
    } else if addr == 0xFF45 {
        Some("LYC")
    } else if addr == 0xFF46 {
        Some("DMA")
    } else if addr == 0xFF47 {
        Some("BGP")
    } else if addr == 0xFF48 {
        Some("OBP0")
    } else if addr == 0xFF49 {
        Some("OBP1")
    } else if addr == 0xFF4A {
        Some("WY")
    } else if addr == 0xFF4B {
        Some("WX")
    } else if addr == 0xFF50 {
        Some("BOOTROM_DISABLE")
    } else {
        None
    }
}

/// The text that describes an address: its value, area and register name.
pub open spec fn address_info(addr: u16) -> Seq<char> {
    let base = "0x"@ + hex4_spec(addr) + " ["@ + region_name(region_of(addr))@ + "]"@;
    match io_register_name(addr) {
        Some(n) => base + " "@ + n@,
        None => base,
    }
}

pub fn get_memory_region(addr: u16) -> (r: MemoryRegion)
    ensures
        r == region_of(addr),
{
    if addr <= dmg::BOOTROM_END {
        MemoryRegion::BootRom
    } else if addr <= dmg::CARTRIDGE_ROM_END {
        MemoryRegion::CartridgeRom
    } else if addr <= dmg::VRAM_END {
        MemoryRegion::VideoRam
    } else if addr <= dmg::CARTRIDGE_RAM_END {
        MemoryRegion::CartridgeRam
    } else if addr <= dmg::WRAM_END {
        MemoryRegion::WorkRam
    } else if addr <= dmg::WRAM_ECHO_END {
        MemoryRegion::WorkRamEcho
    } else if addr <= dmg::OAM_END {
        MemoryRegion::Oam
    } else if addr <= dmg::UNUSED_END {
        MemoryRegion::Unused
    } else if addr <= dmg::IO_REGISTERS_END {
        MemoryRegion::IoRegisters
    } else if addr <= dmg::HRAM_END {
        MemoryRegion::HighRam
    } else {
        MemoryRegion::InterruptEnable
    }
}

pub fn get_region_name(addr: u16) -> (r: &'static str)
    ensures
        r == region_name(region_of(addr)),
{
    match get_memory_region(addr) {
        MemoryRegion::BootRom => "BootROM",
        MemoryRegion::CartridgeRom => "Cartridge ROM",
        MemoryRegion::VideoRam => "Video RAM",
        MemoryRegion::CartridgeRam => "Cartridge RAM",
        MemoryRegion::WorkRam => "Work RAM",
        MemoryRegion::WorkRamEcho => "Work RAM Echo",
        MemoryRegion::Oam => "OAM",
        MemoryRegion::Unused => "Unused",
        MemoryRegion::IoRegisters => "I/O Registers",
        MemoryRegion::HighRam => "High RAM",
        MemoryRegion::InterruptEnable => "Interrupt Enable",
    }
}

pub fn get_io_register_name(addr: u16) -> (r: Option<&'static str>)
    ensures
        r == io_register_name(addr),
{
    if addr == io_registers::JOYP {
        Some("JOYP")
    } else if addr == io_registers::SB {
        Some("SB")
    } else if addr == io_registers::SC {
        Some("SC")
    } else if addr == io_registers::DIV {
        Some("DIV")
    } else if addr == io_registers::TIMA {
        Some("TIMA")
    } else if addr == io_registers::TMA {
        Some("TMA")
    } else if addr == io_registers::TAC {
        Some("TAC")
    } else if addr == io_registers::IF {
        Some("IF")
    } else if addr == io_registers::NR10 {
        Some("NR10")
    } else if addr == io_registers::NR11 {
        Some("NR11")
    } else if addr == io_registers::NR12 {
        Some("NR12")
    } else if addr == io_registers::NR13 {
        Some("NR13")
    } else if addr == io_registers::NR14 {
        Some("NR14")
    } else if addr == io_registers::NR21 {
        Some("NR21")
    } else if addr == io_registers::NR22 {
        Some("NR22")
    } else if addr == io_registers::NR23 {
        Some("NR23")
    } else if addr == io_registers::NR24 {
        Some("NR24")
    } else if addr == io_registers::NR30 {
        Some("NR30")
    } else if addr == io_registers::NR31 {
        Some("NR31")
    } else if addr == io_registers::NR32 {
        Some("NR32")
    } else if addr == io_registers::NR33 {
        Some("NR33")
    } else if addr == io_registers::NR34 {
        Some("NR34")
    } else if addr == io_registers::NR41 {
        Some("NR41")
    } else if addr == io_registers::NR42 {
        Some("NR42")
    } else if addr == io_registers::NR43 {
        Some("NR43")
    } else if addr == io_registers::NR44 {
        Some("NR44")
    } else if addr == io_registers::NR50 {
        Some("NR50")
    } else if addr == io_registers::NR51 {
        Some("NR51")
    } else if addr == io_registers::NR52 {
        Some("NR52")
    } else if io_registers::WAVE_RAM_START <= addr && addr <= io_registers::WAVE_RAM_END {
        Some("WAVE_RAM")
    } else if addr == io_registers::LCDC {
        Some("LCDC")
    } else if addr == io_registers::STAT {
        Some("STAT")
    } else if addr == io_registers::SCY {
        Some("SCY")
    } else if addr == io_registers::SCX {
        Some("SCX")
    } else if addr == io_registers::LY {
        Some("LY")
    } else if addr == io_registers::LYC {
        Some("LYC")
    } else if addr == io_registers::DMA {
        Some("DMA")
    } else if addr == io_registers::BGP {
        Some("BGP")
    } else if addr == io_registers::OBP0 {
        Some("OBP0")
    } else if addr == io_registers::OBP1 {
        Some("OBP1")
    } else if addr == io_registers::WY {
        Some("WY")
    } else if addr == io_registers::WX {
        Some("WX")
    } else if addr == io_registers::BOOTROM_DISABLE {
        Some("BOOTROM_DISABLE")
    } else {
        None
    }
}

/// `0xADDR [Region]`, followed by the register name where one is assigned.
pub fn get_address_info(addr: u16) -> (r: String)
    ensures
        r@ == address_info(addr),
{
    let mut s = String::from_str("0x");
    let h = hex4(addr);
    s.append(h.as_str());
    s.append(" [");
    s.append(get_region_name(addr));
    s.append("]");
    match get_io_register_name(addr) {
        Some(n) => {
            s.append(" ");
            s.append(n);
        },
        None => {},
    }
    s
}

} // verus!
