use gameboy::ppu::vram::{TileAddressingMode, TileMapSelect, Vram};

#[test]
fn test_vram_read_write() {
    let mut vram = Vram::new();

    vram.write(0x0000, 0x42);
    assert_eq!(vram.read(0x0000), 0x42);

    assert_eq!(vram.read(0x2000), 0xFF);
    vram.write(0x2000, 0x42);
    assert_eq!(vram.get_access_count(), 1);
}

#[test]
fn test_tile_data_creation() {
    let mut vram = Vram::new();

    let pattern = [
        0b10000001, 0b00000000,
        0b01000010, 0b00000000,
        0b00100100, 0b00000000,
        0b00011000, 0b00000000,
        0b00011000, 0b00000000,
        0b00100100, 0b00000000,
        0b01000010, 0b00000000,
        0b10000001, 0b00000000,
    ];

    for (i, &byte) in pattern.iter().enumerate() {
        vram.write(i as u16, byte);
    }

    let tile = vram.read_tile_data(0, TileAddressingMode::Unsigned);

    assert_eq!(tile.pixels[0][0], 1);
    assert_eq!(tile.pixels[0][1], 0);
    assert_eq!(tile.pixels[0][7], 1);
    assert_eq!(tile.pixels[3][3], 1);
    assert_eq!(tile.pixels[3][4], 1);
}

#[test]
fn test_tile_map_access() {
    let mut vram = Vram::new();

    vram.write(0x1800, 0x42);
    vram.write(0x1801, 0x24);
    vram.write(0x1C00, 0x99);

    assert_eq!(vram.read_tile_map(TileMapSelect::Map0, 0, 0), 0x42);
    assert_eq!(vram.read_tile_map(TileMapSelect::Map0, 1, 0), 0x24);
    assert_eq!(vram.read_tile_map(TileMapSelect::Map1, 0, 0), 0x99);

    assert_eq!(vram.read_tile_map(TileMapSelect::Map0, 32, 0), 0);
    assert_eq!(vram.read_tile_map(TileMapSelect::Map0, 0, 32), 0);
}
