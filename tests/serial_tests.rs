use gameboy::serial::Serial;

#[test]
fn test_serial_creation() {
    let serial = Serial::new();
    assert_eq!(serial.read_sb(), 0x00);
    assert_eq!(serial.read_sc() & 0x81, 0x00);
    assert!(!serial.is_transferring());
    assert!(!serial.interrupt_request);
}

#[test]
fn test_serial_sb_read_write() {
    let mut serial = Serial::new();
    serial.write_sb(0x42);
    assert_eq!(serial.read_sb(), 0x42);
    serial.write_sb(0xFF);
    assert_eq!(serial.read_sb(), 0xFF);
}

#[test]
fn test_serial_sc_unused_bits() {
    let serial = Serial::new();
    assert_eq!(serial.read_sc() & 0x7E, 0x7E);
}

#[test]
fn test_serial_transfer_start() {
    let mut serial = Serial::new();
    serial.write_sb(0xAB);
    serial.write_sc(0x81);
    assert!(serial.is_transferring());
}

#[test]
fn test_serial_transfer_external_clock_no_transfer() {
    let mut serial = Serial::new();
    serial.write_sc(0x80);
    assert!(!serial.is_transferring());
}

#[test]
fn test_serial_transfer_complete() {
    let mut serial = Serial::new();
    serial.write_sb(0xAB);
    serial.write_sc(0x81);

    for _ in 0..4096 {
        serial.tick();
    }

    assert_eq!(serial.read_sc() & 0x80, 0x00);
    assert!(serial.interrupt_request);
}

#[test]
fn test_serial_receive_ff_without_connection() {
    let mut serial = Serial::new();
    serial.write_sb(0x00);
    serial.write_sc(0x81);

    for _ in 0..4096 {
        serial.tick();
    }

    assert_eq!(serial.read_sb(), 0xFF);
}

#[test]
fn test_serial_inactive_tick() {
    let mut serial = Serial::new();
    serial.write_sb(0x42);

    for _ in 0..5000 {
        serial.tick();
    }

    assert_eq!(serial.read_sb(), 0x42);
    assert!(!serial.interrupt_request);
}
