use gameboy::memory::WorkRam;

#[test]
fn test_wram_read_write() {
    let mut wram = WorkRam::new();

    wram.write(0xC000, 0x42);
    wram.write(0xC001, 0x24);
    wram.write(0xDFFF, 0xFF);

    assert_eq!(wram.read(0xC000), 0x42);
    assert_eq!(wram.read(0xC001), 0x24);
    assert_eq!(wram.read(0xDFFF), 0xFF);
}

#[test]
fn test_wram_clear() {
    let mut wram = WorkRam::new();

    wram.write(0xC000, 0x42);
    wram.write(0xC100, 0x24);

    wram.clear_range(0xC000, 0xC0FF);

    assert_eq!(wram.read(0xC000), 0x00);
    assert_eq!(wram.read(0xC100), 0x24);

    wram.clear_all();
    assert_eq!(wram.read(0xC100), 0x00);
}

#[test]
fn test_wram_addr_to_index() {
    let wram = WorkRam::new();

    assert_eq!(wram.addr_to_index(0xC000), 0);
    assert_eq!(wram.addr_to_index(0xC001), 1);
    assert_eq!(wram.addr_to_index(0xDFFF), 0x1FFF);
}
