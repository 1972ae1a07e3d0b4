use gameboy::memory::BootRom;

#[test]
fn test_bootrom_creation() {
    let data = vec![0u8; 256];
    let bootrom = BootRom::new(data).unwrap();
    assert!(bootrom.is_active());
}

#[test]
fn test_bootrom_invalid_size() {
    let data = vec![0u8; 100];
    let result = BootRom::new(data);
    assert!(result.is_err());
}

#[test]
fn test_bootrom_read() {
    let mut data = vec![0u8; 256];
    data[0x50] = 0x42;

    let bootrom = BootRom::new(data).unwrap();
    assert_eq!(bootrom.read(0x50), 0x42);
}

#[test]
fn test_bootrom_disable() {
    let data = vec![0u8; 256];
    let mut bootrom = BootRom::new(data).unwrap();

    assert!(bootrom.is_active());
    bootrom.write_disable_register(1);
    assert!(!bootrom.is_active());

    assert_eq!(bootrom.read(0x00), 0xFF);
}
