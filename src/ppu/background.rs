use vstd::prelude::*;

use super::registers::{palette_shade, PpuRegisters};
use super::tiles::{decoded_tile, shade_rgb, shaded, ColorConverter, TileRenderer};
use super::vram::{map_base, tile_base, tile_pixel, TileAddressingMode, TileMapSelect, Vram};
use super::{addressing_of, bg_color_at, rgb_part};

verus! {

/// The tile map LCDC bit 3 selects for the background.
pub open spec fn bg_map_of(lcdc: u8) -> TileMapSelect {
    if lcdc & 0x08 != 0 { TileMapSelect::Map1 } else { TileMapSelect::Map0 }
}

/// The background shade at a point of the 256x256 background plane.
pub open spec fn plane_shade(data: Seq<u8>, regs: PpuRegisters, bg_x: int, bg_y: int) -> u8 {
    let tile_id = data[map_base(bg_map_of(regs.lcdc)) + (bg_y / 8) * 32 + bg_x / 8];
    palette_shade(regs.bgp, tile_pixel(data, tile_base(tile_id, addressing_of(regs.lcdc)) as int, bg_y % 8, bg_x % 8))
}

/// Entry `8y + x` of a shaded decoded tile is the shade of pixel (x, y).
proof fn lemma_shaded_index(data: Seq<u8>, tile_id: u8, mode: TileAddressingMode, palette: u8, y: int, x: int)
    requires
        0 <= y < 8,
        0 <= x < 8,
    ensures
        0 <= y * 8 + x < 64,
        shaded(decoded_tile(data, tile_id, mode), palette)[y * 8 + x] == palette_shade(
            palette,
            tile_pixel(data, tile_base(tile_id, mode) as int, y, x),
        ),
{
    assert((y * 8 + x) / 8 == y && (y * 8 + x) % 8 == x) by (nonlinear_arith)
        requires
            0 <= y < 8,
            0 <= x < 8,
    ;
}

/// Renders background lines and the whole background plane through a tile cache.
pub struct BackgroundRenderer {
    pub tile_renderer: TileRenderer,
}

impl BackgroundRenderer {
    pub open spec fn wf(&self) -> bool {
        self.tile_renderer.wf()
    }

    pub fn new() -> (r: Self)
        ensures
            r.wf(),
            r.tile_renderer.cache.entries@.len() == 0,
    {
        BackgroundRenderer { tile_renderer: TileRenderer::new() }
    }

    fn map_select(registers: &PpuRegisters) -> (r: TileMapSelect)
        ensures
            r == bg_map_of(registers.lcdc),
    {
        if registers.is_bg_tilemap_high() {
            TileMapSelect::Map1
        } else {
            TileMapSelect::Map0
        }
    }

    fn addressing(registers: &PpuRegisters) -> (r: TileAddressingMode)
        ensures
            r == addressing_of(registers.lcdc),
    {
        if registers.is_bg_window_tiledata_high() {
            TileAddressingMode::Unsigned
        } else {
            TileAddressingMode::Signed
        }
    }

    #[verifier::rlimit(100)]
    /// One background line as 160 RGB pixels; color 0 everywhere when the background is off.
    pub fn render_scanline(&mut self, vram: &Vram, registers: &PpuRegisters, scanline: u8) -> (r: Vec<u8>)
        requires
            old(self).wf(),
            vram.wf(),
        ensures
            final(self).wf(),
            r@.len() == 480,
            registers.lcdc & 0x01 == 0 ==> forall|x: int, c: int|
                0 <= x < 160 && 0 <= c < 3 ==> #[trigger] r@[3 * x + c] == rgb_part(shade_rgb(0), c),
            registers.lcdc & 0x01 != 0 ==> forall|x: int, c: int|
                0 <= x < 160 && 0 <= c < 3 ==> #[trigger] r@[3 * x + c] == rgb_part(
                    shade_rgb(plane_shade(vram@, *registers, (x + registers.scx) % 256, (scanline + registers.scy) % 256)),
                    c,
                ),
    {
        let mut line: Vec<u8> = vec![0u8; 480];
        if !registers.is_bg_enabled() {
            let rgb = ColorConverter::dmg_to_rgb888(0);
            let mut x: usize = 0;
            while x < 160
                invariant
                    x <= 160,
                    line@.len() == 480,
                    rgb == shade_rgb(0),
                    forall|x2: int, c: int| 0 <= x2 < x && 0 <= c < 3 ==> #[trigger] line@[3 * x2 + c] == rgb_part(rgb, c),
                decreases 160 - x,
            {
                line.set(3 * x, rgb.0);
                line.set(3 * x + 1, rgb.1);
                line.set(3 * x + 2, rgb.2);
                x = x + 1;
            }
            return line;
        }
        let bg_y = scanline.wrapping_add(registers.scy);
        let tile_y = bg_y / 8;
        let pixel_y = bg_y % 8;
        let select = Self::map_select(registers);
        let mode = Self::addressing(registers);
        let mut x: usize = 0;
        while x < 160
            invariant
                x <= 160,
                self.wf(),
                vram.wf(),
                line@.len() == 480,
                registers.lcdc & 0x01 != 0,
                bg_y as int == (scanline + registers.scy) % 256,
                tile_y == bg_y / 8,
                pixel_y == bg_y % 8,
                select == bg_map_of(registers.lcdc),
                mode == addressing_of(registers.lcdc),
                forall|x2: int, c: int|
                    0 <= x2 < x && 0 <= c < 3 ==> #[trigger] line@[3 * x2 + c] == rgb_part(
                        shade_rgb(plane_shade(vram@, *registers, (x2 + registers.scx) % 256, bg_y as int)),
                        c,
                    ),
            decreases 160 - x,
        {
            let bg_x = (x as u8).wrapping_add(registers.scx);
            let tile_x = bg_x / 8;
            let pixel_x = bg_x % 8;
            let tile_id = vram.read_tile_map(select, tile_x, tile_y);
            let pixels = self.tile_renderer.render_tile(vram, tile_id, mode, registers.bgp);
            proof {
                lemma_shaded_index(vram@, tile_id, mode, registers.bgp, pixel_y as int, pixel_x as int);
            }
            let color = if ((pixel_y as usize) * 8 + pixel_x as usize) < pixels.len() {
                pixels[(pixel_y as usize) * 8 + pixel_x as usize]
            } else {
                0
            };
            let rgb = ColorConverter::dmg_to_rgb888(color);
            line.set(3 * x, rgb.0);
            line.set(3 * x + 1, rgb.1);
            line.set(3 * x + 2, rgb.2);
            x = x + 1;
        }
        line
    }

    #[verifier::rlimit(100)]
    /// The whole 256x256 background plane as RGB; all zero when the background is off.
    pub fn render_full_background(&mut self, vram: &Vram, registers: &PpuRegisters) -> (r: Vec<u8>)
        requires
            old(self).wf(),
            vram.wf(),
        ensures
            final(self).wf(),
            r@.len() == 196608,
            registers.lcdc & 0x01 == 0 ==> forall|i: int| 0 <= i < 196608 ==> #[trigger] r@[i] == 0,
            registers.lcdc & 0x01 != 0 ==> forall|px: int, py: int, c: int|
                0 <= px < 256 && 0 <= py < 256 && 0 <= c < 3 ==> #[trigger] r@[(py * 256 + px) * 3 + c] == rgb_part(
                    shade_rgb(plane_shade(vram@, *registers, px, py)),
                    c,
                ),
    {
        let mut buffer: Vec<u8> = vec![0u8; 196608];
        if !registers.is_bg_enabled() {
            return buffer;
        }
        let select = Self::map_select(registers);
        let mode = Self::addressing(registers);
        let mut tile_y: u8 = 0;
        while tile_y < 32
            invariant
                tile_y <= 32,
                self.wf(),
                vram.wf(),
                buffer@.len() == 196608,
                registers.lcdc & 0x01 != 0,
                select == bg_map_of(registers.lcdc),
                mode == addressing_of(registers.lcdc),
                forall|px: int, py: int, c: int|
                    0 <= px < 256 && 0 <= py < 8 * tile_y && 0 <= c < 3 ==> #[trigger] buffer@[(py * 256 + px) * 3 + c]
                        == rgb_part(shade_rgb(plane_shade(vram@, *registers, px, py)), c),
            decreases 32 - tile_y,
        {
            let mut tile_x: u8 = 0;
            while tile_x < 32
                invariant
                    tile_x <= 32,
                    tile_y < 32,
                    self.wf(),
                    vram.wf(),
                    buffer@.len() == 196608,
                    registers.lcdc & 0x01 != 0,
                    select == bg_map_of(registers.lcdc),
                    mode == addressing_of(registers.lcdc),
                        forall|px: int, py: int, c: int|
                        0 <= px < 256 && 0 <= py < 8 * tile_y && 0 <= c < 3 ==> #[trigger] buffer@[(py * 256 + px) * 3 + c]
                            == rgb_part(shade_rgb(plane_shade(vram@, *registers, px, py)), c),
                    forall|px: int, py: int, c: int|
                        0 <= px < 8 * tile_x && 8 * tile_y <= py < 8 * tile_y + 8 && 0 <= c < 3
                            ==> #[trigger] buffer@[(py * 256 + px) * 3 + c] == rgb_part(shade_rgb(plane_shade(vram@, *registers, px, py)), c),
                decreases 32 - tile_x,
            {
                let tile_id = vram.read_tile_map(select, tile_x, tile_y);
                let pixels = self.tile_renderer.render_tile(vram, tile_id, mode, registers.bgp);
                let mut y: usize = 0;
                while y < 8
                    invariant
                        y <= 8,
                        tile_x < 32,
                        tile_y < 32,
                        buffer@.len() == 196608,
                        pixels@ == shaded(decoded_tile(vram@, tile_id, mode), registers.bgp),
                        tile_id == vram@[map_base(select) + tile_y * 32 + tile_x],
                        registers.lcdc & 0x01 != 0,
                        select == bg_map_of(registers.lcdc),
                        mode == addressing_of(registers.lcdc),
                        forall|px: int, py: int, c: int|
                            0 <= px < 256 && 0 <= py < 8 * tile_y && 0 <= c < 3 ==> #[trigger] buffer@[(py * 256 + px) * 3 + c]
                                == rgb_part(shade_rgb(plane_shade(vram@, *registers, px, py)), c),
                        forall|px: int, py: int, c: int|
                            0 <= px < 8 * tile_x && 8 * tile_y <= py < 8 * tile_y + 8 && 0 <= c < 3
                                ==> #[trigger] buffer@[(py * 256 + px) * 3 + c] == rgb_part(shade_rgb(plane_shade(vram@, *registers, px, py)), c),
                        forall|px: int, py: int, c: int|
                            8 * tile_x <= px < 8 * tile_x + 8 && 8 * tile_y <= py < 8 * tile_y + y && 0 <= c < 3
                                ==> #[trigger] buffer@[(py * 256 + px) * 3 + c] == rgb_part(shade_rgb(plane_shade(vram@, *registers, px, py)), c),
                    decreases 8 - y,
                {
                    let mut x: usize = 0;
                    while x < 8
                        invariant
                            x <= 8,
                            y < 8,
                            tile_x < 32,
                            tile_y < 32,
                            buffer@.len() == 196608,
                            pixels@ == shaded(decoded_tile(vram@, tile_id, mode), registers.bgp),
                            tile_id == vram@[map_base(select) + tile_y * 32 + tile_x],
                            registers.lcdc & 0x01 != 0,
                            select == bg_map_of(registers.lcdc),
                            mode == addressing_of(registers.lcdc),
                            forall|px: int, py: int, c: int|
                                0 <= px < 256 && 0 <= py < 8 * tile_y && 0 <= c < 3 ==> #[trigger] buffer@[(py * 256 + px) * 3 + c]
                                    == rgb_part(shade_rgb(plane_shade(vram@, *registers, px, py)), c),
                            forall|px: int, py: int, c: int|
                                0 <= px < 8 * tile_x && 8 * tile_y <= py < 8 * tile_y + 8 && 0 <= c < 3
                                    ==> #[trigger] buffer@[(py * 256 + px) * 3 + c] == rgb_part(shade_rgb(plane_shade(vram@, *registers, px, py)), c),
                            forall|px: int, py: int, c: int|
                                8 * tile_x <= px < 8 * tile_x + 8 && 8 * tile_y <= py < 8 * tile_y + y && 0 <= c < 3
                                    ==> #[trigger] buffer@[(py * 256 + px) * 3 + c] == rgb_part(shade_rgb(plane_shade(vram@, *registers, px, py)), c),
                            forall|px: int, c: int|
                                8 * tile_x <= px < 8 * tile_x + x && 0 <= c < 3
                                    ==> #[trigger] buffer@[((8 * tile_y + y) * 256 + px) * 3 + c] == rgb_part(
                                    shade_rgb(plane_shade(vram@, *registers, px, 8 * tile_y + y)),
                                    c,
                                ),
                        decreases 8 - x,
                    {
                        proof {
                            lemma_shaded_index(vram@, tile_id, mode, registers.bgp, y as int, x as int);
                        }
                        let color = if y * 8 + x < pixels.len() { pixels[y * 8 + x] } else { 0 };
                        let rgb = ColorConverter::dmg_to_rgb888(color);
                        let pixel_x = tile_x as usize * 8 + x;
                        let pixel_y = tile_y as usize * 8 + y;
                        let index = (pixel_y * 256 + pixel_x) * 3;
                        buffer.set(index, rgb.0);
                        buffer.set(index + 1, rgb.1);
                        buffer.set(index + 2, rgb.2);
                        x = x + 1;
                    }
                    y = y + 1;
                }
                tile_x = tile_x + 1;
            }
            tile_y = tile_y + 1;
        }
        buffer
    }

    #[verifier::rlimit(100)]
    /// The background shade under a screen pixel; 0 when the background is off.
    pub fn get_pixel_color(&mut self, vram: &Vram, registers: &PpuRegisters, screen_x: u8, screen_y: u8) -> (r: u8)
        requires
            old(self).wf(),
            vram.wf(),
        ensures
            final(self).wf(),
            registers.lcdc & 0x01 == 0 ==> r == 0,
            registers.lcdc & 0x01 != 0 ==> r == plane_shade(
                vram@,
                *registers,
                (screen_x + registers.scx) % 256,
                (screen_y + registers.scy) % 256,
            ),
    {
        if !registers.is_bg_enabled() {
            return 0;
        }
        let bg_x = screen_x.wrapping_add(registers.scx);
        let bg_y = screen_y.wrapping_add(registers.scy);
        assert(bg_x as int == (screen_x + registers.scx) % 256);
        assert(bg_y as int == (screen_y + registers.scy) % 256);
        let tile_x = bg_x / 8;
        let tile_y = bg_y / 8;
        let pixel_x = bg_x % 8;
        let pixel_y = bg_y % 8;
        let select = Self::map_select(registers);
        let mode = Self::addressing(registers);
        let tile_id = vram.read_tile_map(select, tile_x, tile_y);
        let pixels = self.tile_renderer.render_tile(vram, tile_id, mode, registers.bgp);
        proof {
            lemma_shaded_index(vram@, tile_id, mode, registers.bgp, pixel_y as int, pixel_x as int);
        }
        let i = (pixel_y as usize) * 8 + pixel_x as usize;
        if i < pixels.len() {
            pixels[i]
        } else {
            0
        }
    }

    pub fn clear_cache(&mut self)
        requires
            old(self).wf(),
        ensures
            final(self).wf(),
            final(self).tile_renderer.cache.entries@.len() == 0,
    {
        self.tile_renderer.clear_cache();
    }
}

/// The background scroll registers.
#[derive(Debug, Clone, Copy)]
pub struct ScrollInfo {
    pub scx: u8,
    pub scy: u8,
}

impl ScrollInfo {
    pub fn new(scx: u8, scy: u8) -> (r: Self)
        ensures
            r.scx == scx && r.scy == scy,
    {
        ScrollInfo { scx, scy }
    }

    /// Background-plane coordinates of a screen pixel, wrapping at 256.
    pub fn screen_to_bg(&self, screen_x: u8, screen_y: u8) -> (r: (u8, u8))
        ensures
            r.0 == (screen_x + self.scx) % 256,
            r.1 == (screen_y + self.scy) % 256,
    {
        (screen_x.wrapping_add(self.scx), screen_y.wrapping_add(self.scy))
    }

    /// Tile column and row, and the pixel within the tile.
    pub fn bg_to_tile(&self, bg_x: u8, bg_y: u8) -> (r: (u8, u8, u8, u8))
        ensures
            r == (bg_x / 8, bg_y / 8, bg_x % 8, bg_y % 8),
    {
        (bg_x / 8, bg_y / 8, bg_x % 8, bg_y % 8)
    }
}

} // verus!
