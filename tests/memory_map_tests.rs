use gameboy::memory_map::{get_address_info, get_io_register_name, get_memory_region, MemoryRegion};

#[test]
fn test_memory_regions() {
    assert_eq!(get_memory_region(0x0000), MemoryRegion::BootRom);
    assert_eq!(get_memory_region(0x0100), MemoryRegion::CartridgeRom);
    assert_eq!(get_memory_region(0x8000), MemoryRegion::VideoRam);
    assert_eq!(get_memory_region(0xC000), MemoryRegion::WorkRam);
    assert_eq!(get_memory_region(0xFF80), MemoryRegion::HighRam);
    assert_eq!(get_memory_region(0xFFFF), MemoryRegion::InterruptEnable);
}

#[test]
fn test_io_register_names() {
    assert_eq!(get_io_register_name(0xFF40), Some("LCDC"));
    assert_eq!(get_io_register_name(0xFF41), Some("STAT"));
    assert_eq!(get_io_register_name(0xFF50), Some("BOOTROM_DISABLE"));
    assert_eq!(get_io_register_name(0xFF00), Some("JOYP"));
}

#[test]
fn test_address_info() {
    let info = get_address_info(0xFF40);
    assert!(info.contains("LCDC"));
    assert!(info.contains("I/O Registers"));
}
