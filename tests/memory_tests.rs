use gameboy::memory_map::dmg::{BOOTROM_END, BOOTROM_SIZE, BOOTROM_START, HRAM_END, HRAM_SIZE, HRAM_START, WRAM_END, WRAM_SIZE, WRAM_START};
use gameboy::memory_map::{get_memory_region, MemoryRegion};

#[test]
fn test_memory_constants() {
    assert_eq!(BOOTROM_SIZE, 0x100);
    assert_eq!(WRAM_SIZE, 0x2000);
    assert_eq!(HRAM_SIZE, 0x7F);

    assert_eq!(BOOTROM_END - BOOTROM_START + 1, BOOTROM_SIZE as u16);
    assert_eq!(WRAM_END - WRAM_START + 1, WRAM_SIZE as u16);
    assert_eq!(HRAM_END - HRAM_START + 1, HRAM_SIZE as u16);
}

#[test]
fn test_memory_region_detection() {
    assert_eq!(get_memory_region(0x0000), MemoryRegion::BootRom);
    assert_eq!(get_memory_region(0x0100), MemoryRegion::CartridgeRom);
    assert_eq!(get_memory_region(0xC000), MemoryRegion::WorkRam);
    assert_eq!(get_memory_region(0xFF80), MemoryRegion::HighRam);
}
