use gameboy::ppu::tiles::{ColorConverter, TileCache, TileRenderer};
use gameboy::ppu::vram::{TileAddressingMode, Vram};

#[test]
fn test_tile_renderer() {
    let mut vram = Vram::new();
    let mut renderer = TileRenderer::new();

    let pattern = [
        0b11111111, 0b00000000,
        0b00000000, 0b11111111,
        0b11111111, 0b11111111,
        0b00000000, 0b00000000,
        0b00000000, 0b00000000,
        0b00000000, 0b00000000,
        0b00000000, 0b00000000,
        0b00000000, 0b00000000,
    ];

    for (i, &byte) in pattern.iter().enumerate() {
        vram.write(i as u16, byte);
    }

    let palette = 0b11100100;
    let pixels = renderer.render_tile(&vram, 0, TileAddressingMode::Unsigned, palette);

    assert_eq!(pixels[0], 1);
    assert_eq!(pixels[8], 2);
    assert_eq!(pixels[16], 3);
    assert_eq!(pixels[24], 0);
}

#[test]
fn test_color_converter() {
    let (r, g, b) = ColorConverter::dmg_to_rgb888(0);
    assert_eq!((r, g, b), (0x9B, 0xBC, 0x0F));

    assert_eq!(ColorConverter::dmg_to_gray(0), 0xFF);
    assert_eq!(ColorConverter::dmg_to_gray(3), 0x00);
}

#[test]
fn test_tile_cache() {
    let mut cache = TileCache::new();
    let pixels = [42u8; 64];

    assert!(cache.get(0, TileAddressingMode::Unsigned).is_none());

    cache.put(0, TileAddressingMode::Unsigned, pixels.to_vec());

    let cached = cache.get(0, TileAddressingMode::Unsigned).unwrap();
    assert_eq!(cached[0], 42);
}
