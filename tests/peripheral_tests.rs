use gameboy::peripherals::Peripherals;

#[test]
fn test_peripherals_bootrom() {
    let mut peripherals = Peripherals::new_with_dummy_bootrom();

    assert!(peripherals.bootrom.is_active());
    let value = peripherals.read(0x0000);
    assert_eq!(value, 0x00);

    peripherals.write(0xFF50, 0x01);
    assert!(!peripherals.bootrom.is_active());

    let value = peripherals.read(0x0000);
    assert_eq!(value, 0xFF);
}

#[test]
fn test_peripherals_wram() {
    let mut peripherals = Peripherals::new_with_dummy_bootrom();

    peripherals.write(0xC000, 0x42);
    peripherals.write(0xDFFF, 0x24);

    assert_eq!(peripherals.read(0xC000), 0x42);
    assert_eq!(peripherals.read(0xDFFF), 0x24);

    peripherals.write(0xE000, 0x99);
    assert_eq!(peripherals.read(0xC000), 0x99);
}

#[test]
fn test_peripherals_hram() {
    let mut peripherals = Peripherals::new_with_dummy_bootrom();

    peripherals.write(0xFF80, 0xAB);
    peripherals.write(0xFFFE, 0xCD);

    assert_eq!(peripherals.read(0xFF80), 0xAB);
    assert_eq!(peripherals.read(0xFFFE), 0xCD);
}

#[test]
fn test_peripherals_16bit_access() {
    let mut peripherals = Peripherals::new_with_dummy_bootrom();

    peripherals.write16(0xC000, 0x1234);

    assert_eq!(peripherals.read(0xC000), 0x34);
    assert_eq!(peripherals.read(0xC001), 0x12);

    assert_eq!(peripherals.read16(0xC000), 0x1234);
}
