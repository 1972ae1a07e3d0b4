use gameboy::memory::HighRam;

#[test]
fn test_hram_read_write() {
    let mut hram = HighRam::new();

    hram.write(0xFF80, 0x42);
    hram.write(0xFF81, 0x24);
    hram.write(0xFFFE, 0xFF);

    assert_eq!(hram.read(0xFF80), 0x42);
    assert_eq!(hram.read(0xFF81), 0x24);
    assert_eq!(hram.read(0xFFFE), 0xFF);
}

#[test]
fn test_hram_stack_operations() {
    let mut hram = HighRam::new();
    let mut sp = 0xFFFE;

    hram.push_stack(&mut sp, 0x42).unwrap();
    assert_eq!(sp, 0xFFFD);

    hram.push_stack(&mut sp, 0x24).unwrap();
    assert_eq!(sp, 0xFFFC);

    assert_eq!(hram.pop_stack(&mut sp).unwrap(), 0x24);
    assert_eq!(sp, 0xFFFD);

    assert_eq!(hram.pop_stack(&mut sp).unwrap(), 0x42);
    assert_eq!(sp, 0xFFFE);
}

#[test]
fn test_hram_clear() {
    let mut hram = HighRam::new();

    hram.write(0xFF80, 0x42);
    hram.write(0xFFFE, 0x24);

    hram.clear();

    assert_eq!(hram.read(0xFF80), 0x00);
    assert_eq!(hram.read(0xFFFE), 0x00);
}

#[test]
fn test_hram_addr_to_index() {
    let hram = HighRam::new();

    assert_eq!(hram.addr_to_index(0xFF80), 0);
    assert_eq!(hram.addr_to_index(0xFF81), 1);
    assert_eq!(hram.addr_to_index(0xFFFE), 0x7E);
}
