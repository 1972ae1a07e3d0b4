use vstd::prelude::*;

verus! {

pub const BOOTROM_START: u16 = 0x0000;
pub const BOOTROM_END: u16 = 0x00FF;
pub const BOOTROM_SIZE: usize = 0x100;

pub const CARTRIDGE_ROM_START: u16 = 0x0100;
pub const CARTRIDGE_ROM_END: u16 = 0x7FFF;
pub const CARTRIDGE_ROM_BANK0_START: u16 = 0x0000;
pub const CARTRIDGE_ROM_BANK0_END: u16 = 0x3FFF;
pub const CARTRIDGE_ROM_BANKN_START: u16 = 0x4000;
pub const CARTRIDGE_ROM_BANKN_END: u16 = 0x7FFF;

pub const VRAM_START: u16 = 0x8000;
pub const VRAM_END: u16 = 0x9FFF;
pub const VRAM_SIZE: usize = 0x2000;

pub const TILE_DATA_START: u16 = 0x8000;
pub const TILE_DATA_END: u16 = 0x97FF;
pub const TILE_MAP_0_START: u16 = 0x9800;
pub const TILE_MAP_0_END: u16 = 0x9BFF;
pub const TILE_MAP_1_START: u16 = 0x9C00;
pub const TILE_MAP_1_END: u16 = 0x9FFF;

pub const CARTRIDGE_RAM_START: u16 = 0xA000;
pub const CARTRIDGE_RAM_END: u16 = 0xBFFF;
pub const CARTRIDGE_RAM_SIZE: usize = 0x2000;

pub const WRAM_START: u16 = 0xC000;
pub const WRAM_END: u16 = 0xDFFF;
pub const WRAM_SIZE: usize = 0x2000;

pub const WRAM_ECHO_START: u16 = 0xE000;
pub const WRAM_ECHO_END: u16 = 0xFDFF;

pub const OAM_START: u16 = 0xFE00;
pub const OAM_END: u16 = 0xFE9F;
pub const OAM_SIZE: usize = 0xA0;

pub const UNUSED_START: u16 = 0xFEA0;
pub const UNUSED_END: u16 = 0xFEFF;

pub const IO_REGISTERS_START: u16 = 0xFF00;
pub const IO_REGISTERS_END: u16 = 0xFF7F;

pub const HRAM_START: u16 = 0xFF80;
pub const HRAM_END: u16 = 0xFFFE;
pub const HRAM_SIZE: usize = 0x7F;

pub const IE_REGISTER: u16 = 0xFFFF;

} // verus!
