use gameboy::ppu::background::{BackgroundRenderer, ScrollInfo};
use gameboy::ppu::registers::PpuRegisters;
use gameboy::ppu::tiles::ColorConverter;
use gameboy::ppu::vram::Vram;

#[test]
fn test_background_renderer_creation() {
    let _renderer = BackgroundRenderer::new();
}

#[test]
fn test_bg_disabled_rendering() {
    let mut renderer = BackgroundRenderer::new();
    let vram = Vram::new();
    let mut registers = PpuRegisters::new();

    registers.lcdc = 0x80;

    let line = renderer.render_scanline(&vram, &registers, 0);

    let (r, g, b) = ColorConverter::dmg_to_rgb888(0);
    assert_eq!(line[0], r);
    assert_eq!(line[1], g);
    assert_eq!(line[2], b);
}

#[test]
fn test_scroll_info() {
    let scroll = ScrollInfo::new(8, 16);

    let (bg_x, bg_y) = scroll.screen_to_bg(0, 0);
    assert_eq!(bg_x, 8);
    assert_eq!(bg_y, 16);

    let (tile_x, tile_y, pixel_x, pixel_y) = scroll.bg_to_tile(bg_x, bg_y);
    assert_eq!(tile_x, 1);
    assert_eq!(tile_y, 2);
    assert_eq!(pixel_x, 0);
    assert_eq!(pixel_y, 0);
}

#[test]
fn test_scrolling_wrap_around() {
    let scroll = ScrollInfo::new(255, 255);

    let (bg_x, bg_y) = scroll.screen_to_bg(1, 1);
    assert_eq!(bg_x, 0);
    assert_eq!(bg_y, 0);
}
