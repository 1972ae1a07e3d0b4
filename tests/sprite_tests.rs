use gameboy::ppu::sprites::{Sprite, SpriteRenderer};
use gameboy::ppu::vram::Vram;

#[test]
fn test_sprite_creation() {
    let sprite_data = [80, 88, 0x01, 0x00];
    let sprite = Sprite::from_oam_bytes(&sprite_data);

    assert_eq!(sprite.y, 80);
    assert_eq!(sprite.x, 88);
    assert_eq!(sprite.tile_index, 0x01);
    assert_eq!(sprite.flags, 0x00);
}

#[test]
fn test_sprite_visibility() {
    let visible_sprite = Sprite::from_oam_bytes(&[80, 88, 0x01, 0x00]);
    assert!(visible_sprite.is_visible());

    let invisible_sprite = Sprite::from_oam_bytes(&[0, 88, 0x01, 0x00]);
    assert!(!invisible_sprite.is_visible());
}

#[test]
fn test_sprite_screen_coordinates() {
    let sprite = Sprite::from_oam_bytes(&[80, 88, 0x01, 0x00]);
    assert_eq!(sprite.screen_x(), 80);
    assert_eq!(sprite.screen_y(), 64);
}

#[test]
fn test_sprite_scanline_detection() {
    let sprite = Sprite::from_oam_bytes(&[80, 88, 0x01, 0x00]);

    assert!(sprite.is_on_scanline(64, 8));
    assert!(sprite.is_on_scanline(71, 8));
    assert!(!sprite.is_on_scanline(63, 8));
    assert!(!sprite.is_on_scanline(72, 8));
}

#[test]
fn test_sprite_flags() {
    let sprite = Sprite::from_oam_bytes(&[80, 88, 0x01, 0xF0]);

    assert!(sprite.has_bg_priority());
    assert!(sprite.is_y_flipped());
    assert!(sprite.is_x_flipped());
    assert_eq!(sprite.palette_number(), 1);
}

#[test]
fn test_oam_parsing() {
    let mut renderer = SpriteRenderer::new();
    let mut oam = [0u8; 160];

    oam[0] = 80;
    oam[1] = 88;
    oam[2] = 0x01;
    oam[3] = 0x00;

    oam[4] = 100;
    oam[5] = 120;
    oam[6] = 0x02;
    oam[7] = 0x20;

    renderer.parse_oam(&oam);

    assert_eq!(renderer.sprites[0].y, 80);
    assert_eq!(renderer.sprites[0].x, 88);
    assert_eq!(renderer.sprites[1].y, 100);
    assert_eq!(renderer.sprites[1].x, 120);
    assert!(renderer.sprites[1].is_x_flipped());
}

#[test]
fn test_scanline_sprite_finding() {
    let mut renderer = SpriteRenderer::new();
    let mut oam = [0u8; 160];

    oam[0] = 80;
    oam[1] = 88;
    oam[2] = 0x01;
    oam[3] = 0x00;

    oam[4] = 100;
    oam[5] = 120;
    oam[6] = 0x02;
    oam[7] = 0x00;

    renderer.parse_oam(&oam);

    let sprites_line_64 = renderer.find_sprites_on_scanline(64, 8);
    assert_eq!(sprites_line_64.len(), 1);
    assert_eq!(sprites_line_64[0].0, 0);

    let sprites_line_84 = renderer.find_sprites_on_scanline(84, 8);
    assert_eq!(sprites_line_84.len(), 1);
    assert_eq!(sprites_line_84[0].0, 1);

    let sprites_line_50 = renderer.find_sprites_on_scanline(50, 8);
    assert_eq!(sprites_line_50.len(), 0);
}

#[test]
fn test_sprite_priority_sorting() {
    let mut renderer = SpriteRenderer::new();
    let mut oam = [0u8; 160];

    oam[0] = 80;
    oam[1] = 100;
    oam[2] = 0x01;
    oam[3] = 0x00;

    oam[4] = 80;
    oam[5] = 80;
    oam[6] = 0x02;
    oam[7] = 0x00;

    oam[8] = 80;
    oam[9] = 120;
    oam[10] = 0x03;
    oam[11] = 0x00;

    renderer.parse_oam(&oam);

    let sprites = renderer.find_sprites_on_scanline(64, 8);
    assert_eq!(sprites.len(), 3);

    assert_eq!(sprites[0].0, 1);
    assert_eq!(sprites[1].0, 0);
    assert_eq!(sprites[2].0, 2);
}

#[test]
fn test_sprite_same_x_priority() {
    let mut renderer = SpriteRenderer::new();
    let mut oam = [0u8; 160];

    oam[8] = 80;
    oam[9] = 100;
    oam[10] = 0x03;
    oam[11] = 0x00;

    oam[20] = 80;
    oam[21] = 100;
    oam[22] = 0x06;
    oam[23] = 0x00;

    renderer.parse_oam(&oam);

    let sprites = renderer.find_sprites_on_scanline(64, 8);
    assert_eq!(sprites.len(), 2);

    assert_eq!(sprites[0].0, 2);
    assert_eq!(sprites[1].0, 5);
}

#[test]
fn test_ten_sprite_limit() {
    let mut renderer = SpriteRenderer::new();
    let mut oam = [0u8; 160];

    for i in 0..15 {
        let base = i * 4;
        oam[base] = 80;
        oam[base + 1] = 8 + i as u8;
        oam[base + 2] = i as u8;
        oam[base + 3] = 0;
    }

    renderer.parse_oam(&oam);

    let sprites = renderer.find_sprites_on_scanline(64, 8);

    assert_eq!(sprites.len(), 10);

    for i in 0..10 {
        assert_eq!(sprites[i].0, i);
    }
}

#[test]
fn test_optimized_sprite_finding() {
    let mut renderer = SpriteRenderer::new();
    let mut oam = [0u8; 160];

    oam[0] = 80;
    oam[1] = 88;
    oam[2] = 0x01;
    oam[3] = 0x00;

    renderer.parse_oam(&oam);

    let normal = renderer.find_sprites_on_scanline(64, 8);
    let optimized = renderer.find_sprites_on_scanline_optimized(64, 8);

    assert_eq!(normal.len(), optimized.len());
    for (n, o) in normal.iter().zip(optimized.iter()) {
        assert_eq!(n.0, o.0);
        assert_eq!(n.1.x, o.1.x);
        assert_eq!(n.1.y, o.1.y);
    }
}

#[test]
fn test_sprite_line_rendering() {
    let renderer = SpriteRenderer::new();
    let mut vram = Vram::new();

    let tile_data = [
        0xFF, 0x00,
        0xFF, 0x00,
        0xFF, 0x00,
        0xFF, 0x00,
        0xFF, 0xFF,
        0xFF, 0xFF,
        0xFF, 0xFF,
        0xFF, 0xFF,
    ];

    for (i, &byte) in tile_data.iter().enumerate() {
        vram.write(16 + i as u16, byte);
    }

    let sprite = Sprite::from_oam_bytes(&[80, 88, 0x01, 0x00]);

    let pixels = renderer.render_sprite_line(&sprite, 64, 8, &vram);
    assert_eq!(pixels, [1, 1, 1, 1, 1, 1, 1, 1]);

    let pixels = renderer.render_sprite_line(&sprite, 68, 8, &vram);
    assert_eq!(pixels, [3, 3, 3, 3, 3, 3, 3, 3]);
}

#[test]
fn test_sprite_x_flip() {
    let renderer = SpriteRenderer::new();
    let mut vram = Vram::new();

    let tile_data = [
        0xF0, 0x0F,
        0xF0, 0x0F,
        0xF0, 0x0F,
        0xF0, 0x0F,
        0xF0, 0x0F,
        0xF0, 0x0F,
        0xF0, 0x0F,
        0xF0, 0x0F,
    ];

    for (i, &byte) in tile_data.iter().enumerate() {
        vram.write(16 + i as u16, byte);
    }

    let sprite_normal = Sprite::from_oam_bytes(&[80, 88, 0x01, 0x00]);
    let pixels_normal = renderer.render_sprite_line(&sprite_normal, 64, 8, &vram);
    assert_eq!(pixels_normal, [1, 1, 1, 1, 2, 2, 2, 2]);

    let sprite_flipped = Sprite::from_oam_bytes(&[80, 88, 0x01, 0x20]);
    let pixels_flipped = renderer.render_sprite_line(&sprite_flipped, 64, 8, &vram);
    assert_eq!(pixels_flipped, [2, 2, 2, 2, 1, 1, 1, 1]);
}

#[test]
fn test_sprite_y_flip() {
    let renderer = SpriteRenderer::new();
    let mut vram = Vram::new();

    let tile_data = [
        0xFF, 0x00,
        0x00, 0xFF,
        0xFF, 0xFF,
        0x00, 0x00,
        0xFF, 0x00,
        0x00, 0xFF,
        0xFF, 0xFF,
        0x00, 0x00,
    ];

    for (i, &byte) in tile_data.iter().enumerate() {
        vram.write(16 + i as u16, byte);
    }

    let sprite_normal = Sprite::from_oam_bytes(&[80, 88, 0x01, 0x00]);
    let pixels_normal = renderer.render_sprite_line(&sprite_normal, 64, 8, &vram);
    assert_eq!(pixels_normal, [1, 1, 1, 1, 1, 1, 1, 1]);

    let sprite_flipped = Sprite::from_oam_bytes(&[80, 88, 0x01, 0x40]);
    let pixels_flipped = renderer.render_sprite_line(&sprite_flipped, 64, 8, &vram);
    assert_eq!(pixels_flipped, [0, 0, 0, 0, 0, 0, 0, 0]);
}

#[test]
fn test_sprite_pixel_drawing() {
    let renderer = SpriteRenderer::new();
    let mut framebuffer = vec![0u8; 160 * 144 * 3];

    let obp0 = 0xE4;
    let obp1 = 0x1B;

    assert!(renderer.draw_sprite_pixel(&mut framebuffer, 10, 20, 1, 0, obp0, obp1));

    let pixel_index = (20 * 160 + 10) * 3;
    assert_eq!(framebuffer[pixel_index], 0x8B);
    assert_eq!(framebuffer[pixel_index + 1], 0xAC);
    assert_eq!(framebuffer[pixel_index + 2], 0x0F);

    assert!(!renderer.draw_sprite_pixel(&mut framebuffer, 11, 20, 0, 0, obp0, obp1));
}
