use gameboy::cartridge::{Cartridge, CartridgeType, MbcKind, CYCLES_PER_SECOND};

fn create_test_rom(size: usize, cart_type: u8) -> Vec<u8> {
    let mut rom = vec![0u8; size];
    rom[0x0100] = 0x00;
    let title = b"TEST";
    rom[0x0134..0x0134 + title.len()].copy_from_slice(title);
    rom[0x0147] = cart_type;
    rom[0x0148] = 0x00;
    rom[0x0149] = 0x00;
    rom
}

fn create_test_rom_with_ram(size: usize, cart_type: u8, rom_size_byte: u8, ram_size_byte: u8) -> Vec<u8> {
    let mut rom = create_test_rom(size, cart_type);
    rom[0x0148] = rom_size_byte;
    rom[0x0149] = ram_size_byte;
    rom
}

#[test]
fn test_rom_only_cartridge() {
    let mut rom = create_test_rom(0x8000, 0x00);
    rom[0x0000] = 0x31;
    rom[0x7FFF] = 0x42;

    let cart = Cartridge::new(rom).unwrap();
    assert_eq!(cart.header.cartridge_type, CartridgeType::RomOnly);
    assert_eq!(cart.read_rom(0x0000), 0x31);
    assert_eq!(cart.read_rom(0x7FFF), 0x42);
}

#[test]
fn test_cartridge_header_parse() {
    let rom = create_test_rom(0x8000, 0x01);
    let cart = Cartridge::new(rom).unwrap();
    assert_eq!(cart.header.title, "TEST");
    assert_eq!(cart.header.cartridge_type, CartridgeType::Mbc1);
    assert_eq!(cart.header.rom_banks, 2);
}

#[test]
fn test_mbc1_rom_bank_switching() {
    let mut rom = create_test_rom(0x10000, 0x01);
    rom[0x0148] = 0x01;

    rom[0x4000] = 0x11;
    rom[0x8000] = 0x22;
    rom[0xC000] = 0x33;

    let mut cart = Cartridge::new(rom).unwrap();

    assert_eq!(cart.read_rom(0x4000), 0x11);

    cart.write_rom(0x2000, 0x02);
    assert_eq!(cart.read_rom(0x4000), 0x22);

    cart.write_rom(0x2000, 0x03);
    assert_eq!(cart.read_rom(0x4000), 0x33);
}

#[test]
fn test_mbc1_bank0_redirect() {
    let rom = create_test_rom(0x8000, 0x01);
    let mut cart = Cartridge::new(rom).unwrap();
    cart.write_rom(0x2000, 0x00);
    assert_eq!(cart.rom_bank, 1);
}

#[test]
fn test_mbc1_ram() {
    let mut rom = create_test_rom(0x8000, 0x02);
    rom[0x0149] = 0x02;

    let mut cart = Cartridge::new(rom).unwrap();

    assert_eq!(cart.read_ram(0xA000), 0xFF);

    cart.write_rom(0x0000, 0x0A);
    cart.write_ram(0xA000, 0x42);
    assert_eq!(cart.read_ram(0xA000), 0x42);

    cart.write_rom(0x0000, 0x00);
    assert_eq!(cart.read_ram(0xA000), 0xFF);
}

#[test]
fn test_rom_too_small() {
    let rom = vec![0u8; 0x100];
    assert!(Cartridge::new(rom).is_err());
}

#[test]
fn test_new_rom_only_convenience() {
    let rom = vec![0x00; 0x100];
    let cart = Cartridge::new_rom_only(rom);
    assert_eq!(cart.header.cartridge_type, CartridgeType::RomOnly);
    assert_eq!(cart.rom.len(), 0x8000);
}

#[test]
fn test_mbc2_rom_bank_switching() {
    let mut rom = create_test_rom(0x10000, 0x05);
    rom[0x0148] = 0x01;

    rom[0x4000] = 0x11;
    rom[0x8000] = 0x22;
    rom[0xC000] = 0x33;

    let mut cart = Cartridge::new(rom).unwrap();

    assert_eq!(cart.read_rom(0x4000), 0x11);

    cart.write_rom(0x2100, 0x02);
    assert_eq!(cart.read_rom(0x4000), 0x22);

    cart.write_rom(0x2100, 0x03);
    assert_eq!(cart.read_rom(0x4000), 0x33);
}

#[test]
fn test_mbc2_bank0_redirect() {
    let rom = create_test_rom(0x8000, 0x05);
    let mut cart = Cartridge::new(rom).unwrap();
    cart.write_rom(0x2100, 0x00);
    assert_eq!(cart.rom_bank, 1);
}

#[test]
fn test_mbc2_ram() {
    let rom = create_test_rom(0x8000, 0x05);
    let mut cart = Cartridge::new(rom).unwrap();

    assert_eq!(cart.ram.len(), 512);

    cart.write_rom(0x0000, 0x0A);
    assert!(cart.ram_enabled);

    cart.write_ram(0xA000, 0xFF);
    assert_eq!(cart.read_ram(0xA000) & 0x0F, 0x0F);
    assert_eq!(cart.read_ram(0xA000), 0xFF);

    cart.write_ram(0xA001, 0x35);
    assert_eq!(cart.read_ram(0xA001) & 0x0F, 0x05);
}

#[test]
fn test_mbc2_ram_enable_address_bit8() {
    let rom = create_test_rom(0x8000, 0x05);
    let mut cart = Cartridge::new(rom).unwrap();

    cart.write_rom(0x0100, 0x0A);
    assert!(!cart.ram_enabled);

    cart.write_rom(0x0000, 0x0A);
    assert!(cart.ram_enabled);
}

#[test]
fn test_mbc2_ram_wrapping() {
    let rom = create_test_rom(0x8000, 0x05);
    let mut cart = Cartridge::new(rom).unwrap();
    cart.write_rom(0x0000, 0x0A);

    cart.write_ram(0xA000, 0x07);
    assert_eq!(cart.read_ram(0xA200) & 0x0F, 0x07);
}

#[test]
fn test_mbc3_rom_bank_switching() {
    let mut rom = create_test_rom_with_ram(0x20000, 0x13, 0x02, 0x03);

    rom[0x4000] = 0xAA;
    rom[0x8000] = 0xBB;
    rom[0x1C000] = 0xCC;

    let mut cart = Cartridge::new(rom).unwrap();

    assert_eq!(cart.read_rom(0x4000), 0xAA);

    cart.write_rom(0x2000, 0x02);
    assert_eq!(cart.read_rom(0x4000), 0xBB);

    cart.write_rom(0x2000, 0x07);
    assert_eq!(cart.read_rom(0x4000), 0xCC);
}

#[test]
fn test_mbc3_bank0_redirect() {
    let rom = create_test_rom(0x8000, 0x11);
    let mut cart = Cartridge::new(rom).unwrap();
    cart.write_rom(0x2000, 0x00);
    assert_eq!(cart.rom_bank, 1);
}

#[test]
fn test_mbc3_ram_banking() {
    let rom = create_test_rom_with_ram(0x8000, 0x13, 0x00, 0x03);
    let mut cart = Cartridge::new(rom).unwrap();
    cart.write_rom(0x0000, 0x0A);

    cart.write_rom(0x4000, 0x00);
    cart.write_ram(0xA000, 0x11);

    cart.write_rom(0x4000, 0x01);
    cart.write_ram(0xA000, 0x22);

    cart.write_rom(0x4000, 0x00);
    assert_eq!(cart.read_ram(0xA000), 0x11);

    cart.write_rom(0x4000, 0x01);
    assert_eq!(cart.read_ram(0xA000), 0x22);
}

#[test]
fn test_mbc3_rtc_latch() {
    let rom = create_test_rom(0x8000, 0x0F);
    let mut cart = Cartridge::new(rom).unwrap();
    cart.write_rom(0x0000, 0x0A);

    cart.write_rom(0x4000, 0x08);
    cart.write_ram(0xA000, 30);

    cart.write_rom(0x4000, 0x09);
    cart.write_ram(0xA000, 45);

    cart.write_rom(0x6000, 0x00);
    cart.write_rom(0x6000, 0x01);

    cart.write_rom(0x4000, 0x08);
    assert_eq!(cart.read_ram(0xA000), 30);

    cart.write_rom(0x4000, 0x09);
    assert_eq!(cart.read_ram(0xA000), 45);
}

#[test]
fn test_mbc3_rtc_tick() {
    let rom = create_test_rom(0x8000, 0x0F);
    let mut cart = Cartridge::new(rom).unwrap();

    for _ in 0..CYCLES_PER_SECOND {
        cart.tick();
    }

    cart.write_rom(0x0000, 0x0A);
    cart.write_rom(0x6000, 0x00);
    cart.write_rom(0x6000, 0x01);

    cart.write_rom(0x4000, 0x08);
    assert_eq!(cart.read_ram(0xA000), 1);
}

#[test]
fn test_mbc3_rtc_halt() {
    let rom = create_test_rom(0x8000, 0x0F);
    let mut cart = Cartridge::new(rom).unwrap();
    cart.write_rom(0x0000, 0x0A);

    cart.write_rom(0x4000, 0x0C);
    cart.write_ram(0xA000, 0x40);

    for _ in 0..CYCLES_PER_SECOND * 2 {
        cart.tick();
    }

    cart.write_rom(0x6000, 0x00);
    cart.write_rom(0x6000, 0x01);

    cart.write_rom(0x4000, 0x08);
    assert_eq!(cart.read_ram(0xA000), 0);
}

#[test]
fn test_mbc5_rom_bank_switching() {
    let mut rom = create_test_rom_with_ram(0x20000, 0x19, 0x02, 0x00);

    rom[0x4000] = 0x11;
    rom[0x8000] = 0x22;
    rom[0xC000] = 0x33;

    let mut cart = Cartridge::new(rom).unwrap();

    assert_eq!(cart.read_rom(0x4000), 0x11);

    cart.write_rom(0x2000, 0x02);
    assert_eq!(cart.read_rom(0x4000), 0x22);

    cart.write_rom(0x2000, 0x03);
    assert_eq!(cart.read_rom(0x4000), 0x33);
}

#[test]
fn test_mbc5_bank0_allowed() {
    let mut rom = create_test_rom(0x10000, 0x19);
    rom[0x0148] = 0x01;
    rom[0x0000] = 0xAA;

    let mut cart = Cartridge::new(rom).unwrap();

    cart.write_rom(0x2000, 0x00);
    assert_eq!(cart.rom_bank, 0);
    assert_eq!(cart.read_rom(0x4000), cart.read_rom(0x0000));
}

#[test]
fn test_mbc5_9bit_rom_bank() {
    let rom = create_test_rom_with_ram(0x80000, 0x19, 0x04, 0x00);

    let mut cart = Cartridge::new(rom).unwrap();

    cart.write_rom(0x2000, 0xFF);
    assert_eq!(cart.rom_bank & 0xFF, 0xFF);

    cart.write_rom(0x3000, 0x01);
    assert_eq!(cart.rom_bank, 0x1FF);
}

#[test]
fn test_mbc5_ram() {
    let rom = create_test_rom_with_ram(0x8000, 0x1A, 0x00, 0x02);
    let mut cart = Cartridge::new(rom).unwrap();

    cart.write_rom(0x0000, 0x0A);
    cart.write_ram(0xA000, 0x42);
    assert_eq!(cart.read_ram(0xA000), 0x42);
}

#[test]
fn test_mbc5_ram_banking() {
    let rom = create_test_rom_with_ram(0x8000, 0x1A, 0x00, 0x03);
    let mut cart = Cartridge::new(rom).unwrap();
    cart.write_rom(0x0000, 0x0A);

    cart.write_rom(0x4000, 0x00);
    cart.write_ram(0xA000, 0x11);

    cart.write_rom(0x4000, 0x01);
    cart.write_ram(0xA000, 0x22);

    cart.write_rom(0x4000, 0x00);
    assert_eq!(cart.read_ram(0xA000), 0x11);

    cart.write_rom(0x4000, 0x01);
    assert_eq!(cart.read_ram(0xA000), 0x22);
}

#[test]
fn test_cartridge_type_detection() {
    assert_eq!(CartridgeType::from_byte(0x00).mbc_kind(), MbcKind::RomOnly);
    assert_eq!(CartridgeType::from_byte(0x01).mbc_kind(), MbcKind::Mbc1);
    assert_eq!(CartridgeType::from_byte(0x05).mbc_kind(), MbcKind::Mbc2);
    assert_eq!(CartridgeType::from_byte(0x13).mbc_kind(), MbcKind::Mbc3);
    assert_eq!(CartridgeType::from_byte(0x19).mbc_kind(), MbcKind::Mbc5);
}

#[test]
fn test_cartridge_has_timer() {
    assert!(CartridgeType::Mbc3TimerBattery.has_timer());
    assert!(CartridgeType::Mbc3TimerRamBattery.has_timer());
    assert!(!CartridgeType::Mbc3.has_timer());
    assert!(!CartridgeType::Mbc1.has_timer());
}
