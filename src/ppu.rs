use vstd::prelude::*;

pub mod background;
pub mod registers;
pub mod sprites;
pub mod tiles;
pub mod timing;
pub mod vram;

use registers::{apply_palette, palette_shade, PpuRegisters};
use sprites::{bg_view, drawable, selected, sprite_key, sprite_rgb, Sprite, SpriteRenderer};
use tiles::{shade_rgb, ColorConverter};
use timing::mode_at;
use vram::{color_id, tile_address, tile_base, tile_pixel, vram_byte, TileAddressingMode, Vram};

verus! {

/// The four PPU modes.
#[derive(Debug, Clone, Copy, PartialEq, Eq, Structural)]
pub enum PpuMode {
    HBlank,
    VBlank,
    OamScan,
    Drawing,
}

/// The STAT mode bits of a mode.
pub open spec fn mode_code(m: PpuMode) -> u8 {
    match m {
        PpuMode::HBlank => 0,
        PpuMode::VBlank => 1,
        PpuMode::OamScan => 2,
        PpuMode::Drawing => 3,
    }
}


/// The forty sprites that OAM bytes describe.
pub open spec fn oam_sprites(oam: Seq<u8>) -> Seq<Sprite> {
    Seq::new(40, |i: int| Sprite { y: oam[4 * i], x: oam[4 * i + 1], tile_index: oam[4 * i + 2], flags: oam[4 * i + 3] })
}

/// The sprite height LCDC bit 2 selects.
pub open spec fn sprite_height_of(lcdc: u8) -> u8 {
    if lcdc & 0x04 != 0 { 16 } else { 8 }
}

/// The background or window color ID at column x of the current line (0 with the background off).
pub open spec fn base_id(p: Ppu, x: int) -> u8 {
    let y = p.scanline as int;
    if p.registers.lcdc & 0x01 == 0 {
        0
    } else if window_shows(p.registers, y) && x >= window_start(p.registers.wx) {
        window_color_at(p.vram@, p.registers, x, p.window_line_counter as int)
    } else {
        bg_color_at(p.vram@, p.registers, x, y)
    }
}

/// The display color of the background or window at column x of the current line.
pub open spec fn base_rgb(p: Ppu, x: int) -> (u8, u8, u8) {
    if p.registers.lcdc & 0x01 == 0 {
        shade_rgb(0)
    } else {
        shade_rgb(palette_shade(p.registers.bgp, base_id(p, x)))
    }
}

/// Byte `c` of column x of the current line once composed: background and window, then the
/// highest-priority opaque sprite where one shows.
pub open spec fn composed(p: Ppu, x: int, c: int) -> u8 {
    let base = rgb_part(base_rgb(p, x), c);
    if p.registers.lcdc & 0x02 == 0 {
        base
    } else {
        let h = sprite_height_of(p.registers.lcdc);
        let sel = selected(oam_sprites(p.oam@), p.scanline, h);
        let bg = Some(Seq::new(160, |i: int| base_id(p, i)));
        if exists|e: (usize, Sprite)| sel.contains(e) && drawable(p.vram@, e, p.scanline, h, bg, x) {
            let w = choose|e: (usize, Sprite)|
                sel.contains(e) && drawable(p.vram@, e, p.scanline, h, bg, x) && forall|e2: (usize, Sprite)|
                    sel.contains(e2) && drawable(p.vram@, e2, p.scanline, h, bg, x) ==> sprite_key(e) <= sprite_key(e2);
            sprites::rgb_part(sprite_rgb(p.vram@, w, p.scanline, h, p.registers.obp0, p.registers.obp1, x), c)
        } else {
            base
        }
    }
}

/// The tile-data addressing that LCDC bit 4 selects.
pub open spec fn addressing_of(lcdc: u8) -> TileAddressingMode {
    if lcdc & 0x10 != 0 {
        TileAddressingMode::Unsigned
    } else {
        TileAddressingMode::Signed
    }
}

/// The background color ID at screen pixel (x, y).
pub open spec fn bg_color_at(data: Seq<u8>, regs: PpuRegisters, x: int, y: int) -> u8 {
    let bg_x = (x + regs.scx) % 256;
    let bg_y = (y + regs.scy) % 256;
    let map: int = if regs.lcdc & 0x08 != 0 { 0x1C00 } else { 0x1800 };
    let tile_id = vram_byte(data, map + (bg_y / 8) * 32 + bg_x / 8);
    tile_pixel(data, tile_base(tile_id, addressing_of(regs.lcdc)) as int, bg_y % 8, bg_x % 8)
}

/// The window color ID at screen column x, on window line `line`.
pub open spec fn window_color_at(data: Seq<u8>, regs: PpuRegisters, x: int, line: int) -> u8 {
    let col = x - (regs.wx - 7);
    let map: int = if regs.lcdc & 0x40 != 0 { 0x1C00 } else { 0x1800 };
    let tile_id = vram_byte(data, map + (line / 8) * 32 + col / 8);
    tile_pixel(data, tile_base(tile_id, addressing_of(regs.lcdc)) as int, line % 8, col % 8)
}

/// The first column the window covers.
pub open spec fn window_start(wx: u8) -> int {
    if wx < 7 { 0 } else { wx - 7 }
}

/// Whether the window shows on scanline y.
pub open spec fn window_shows(regs: PpuRegisters, y: int) -> bool {
    regs.lcdc & 0x20 != 0 && regs.wx <= 166 && regs.wy <= 143 && y >= regs.wy
}

/// Framebuffer byte `c` of pixel (x, y).
pub open spec fn fb_index(x: int, y: int, c: int) -> int {
    y * 480 + 3 * x + c
}

/// Component `c` of a display color.
pub open spec fn rgb_part(rgb: (u8, u8, u8), c: int) -> u8 {
    if c == 0 {
        rgb.0
    } else if c == 1 {
        rgb.1
    } else {
        rgb.2
    }
}

/// The pixel processing unit: video memory, OAM, registers, the scanline state machine and the framebuffer.
pub struct Ppu {
    pub registers: PpuRegisters,
    pub vram: Vram,
    pub oam: Vec<u8>,
    pub mode: PpuMode,
    /// Dots spent in the current mode (in the current line during VBlank).
    pub cycles: u32,
    pub scanline: u8,
    pub window_line_counter: u8,
    /// 160x144 pixels, three bytes each.
    pub framebuffer: Vec<u8>,
    /// Background color IDs of the line being composed.
    pub bg_color_ids: Vec<u8>,
    pub vblank_interrupt: bool,
    pub stat_interrupt: bool,
}

impl Ppu {
    pub open spec fn wf(&self) -> bool {
        &&& self.vram.wf()
        &&& self.oam@.len() == 160
        &&& self.framebuffer@.len() == 69120
        &&& self.bg_color_ids@.len() == 160
        &&& self.timing_wf()
    }

    /// The mode and its dot counter agree with the scanline.
    pub open spec fn timing_wf(&self) -> bool {
        match self.mode {
            PpuMode::OamScan => self.scanline < 144 && self.cycles < 80,
            PpuMode::Drawing => self.scanline < 144 && self.cycles < 172,
            PpuMode::HBlank => self.scanline < 144 && self.cycles < 204,
            PpuMode::VBlank => 144 <= self.scanline <= 153 && self.cycles < 456,
        }
    }

    /// The dot offset within the current scanline.
    pub open spec fn dot(&self) -> int {
        match self.mode {
            PpuMode::OamScan => self.cycles as int,
            PpuMode::Drawing => 80 + self.cycles,
            PpuMode::HBlank => 252 + self.cycles,
            PpuMode::VBlank => self.cycles as int,
        }
    }

    /// Mode, dot counter and scanline one dot later, and whether VBlank begins.
    pub open spec fn next_timing(&self) -> (PpuMode, u32, u8, bool) {
        let c = self.cycles + 1;
        match self.mode {
            PpuMode::OamScan => if c >= 80 {
                (PpuMode::Drawing, 0, self.scanline, false)
            } else {
                (PpuMode::OamScan, c as u32, self.scanline, false)
            },
            PpuMode::Drawing => if c >= 172 {
                (PpuMode::HBlank, 0, self.scanline, false)
            } else {
                (PpuMode::Drawing, c as u32, self.scanline, false)
            },
            PpuMode::HBlank => if c >= 204 {
                if self.scanline + 1 >= 144 {
                    (PpuMode::VBlank, 0, (self.scanline + 1) as u8, true)
                } else {
                    (PpuMode::OamScan, 0, (self.scanline + 1) as u8, false)
                }
            } else {
                (PpuMode::HBlank, c as u32, self.scanline, false)
            },
            PpuMode::VBlank => if c >= 456 {
                if self.scanline + 1 >= 154 {
                    (PpuMode::OamScan, 0, 0, false)
                } else {
                    (PpuMode::VBlank, 0, (self.scanline + 1) as u8, false)
                }
            } else {
                (PpuMode::VBlank, c as u32, self.scanline, false)
            },
        }
    }

    /// Power-on state: OAMScan at the top of line 0, all memories zero.
    pub fn new() -> (r: Self)
        ensures
            r.wf(),
            r.mode == PpuMode::OamScan && r.cycles == 0 && r.scanline == 0,
            r.window_line_counter == 0,
            !r.vblank_interrupt && !r.stat_interrupt,
            r.registers == PpuRegisters::initial(),
            forall|i: int| 0 <= i < 0x2000 ==> #[trigger] r.vram@[i] == 0,
            forall|i: int| 0 <= i < 160 ==> #[trigger] r.oam@[i] == 0,
    {
        Ppu {
            registers: PpuRegisters::new(),
            vram: Vram::new(),
            oam: vec![0u8; 160],
            mode: PpuMode::OamScan,
            cycles: 0,
            scanline: 0,
            window_line_counter: 0,
            framebuffer: vec![0u8; 69120],
            bg_color_ids: vec![0u8; 160],
            vblank_interrupt: false,
            stat_interrupt: false,
        }
    }

    /// Advances one dot; returns whether VBlank began. The line is composed when Drawing ends.
    pub fn step(&mut self) -> (r: bool)
        requires
            old(self).wf(),
        ensures
            final(self).wf(),
            ({
                let (m, c, s, v) = old(self).next_timing();
                &&& final(self).mode == m
                &&& final(self).cycles == c
                &&& final(self).scanline == s
                &&& r == v
                &&& final(self).vblank_interrupt == (old(self).vblank_interrupt || v)
            }),
            final(self).registers.ly == old(self).scanline,
            final(self).registers.stat == (if r {
                old(self).registers.stat
            } else {
                (old(self).registers.stat & 0xFC) | mode_code(final(self).mode)
            }),
            final(self).vram == old(self).vram,
            final(self).oam == old(self).oam,
            final(self).stat_interrupt == old(self).stat_interrupt,
            final(self).window_line_counter == (if old(self).mode == PpuMode::VBlank && final(self).scanline == 0
                && old(self).scanline != 0 {
                0
            } else if old(self).mode == PpuMode::Drawing && final(self).mode == PpuMode::HBlank
                && old(self).registers.lcdc & 0x80 != 0 && old(self).registers.lcdc & 0x01 != 0 && window_shows(
                old(self).registers,
                old(self).scanline as int,
            ) {
                inc8(old(self).window_line_counter)
            } else {
                old(self).window_line_counter
            }),
            !(old(self).mode == PpuMode::Drawing && final(self).mode == PpuMode::HBlank
                && old(self).registers.lcdc & 0x80 != 0) ==> final(self).framebuffer == old(self).framebuffer,
            (old(self).mode == PpuMode::Drawing && final(self).mode == PpuMode::HBlank && old(self).registers.lcdc & 0x80
                != 0) ==> {
                &&& forall|x: int, c: int|
                    0 <= x < 160 && 0 <= c < 3 ==> #[trigger] final(self).framebuffer@[fb_index(x, old(self).scanline as int, c)]
                        == composed(*old(self), x, c)
                &&& forall|i: int|
                    0 <= i < 69120 && !(old(self).scanline * 480 <= i < old(self).scanline * 480 + 480)
                        ==> #[trigger] final(self).framebuffer@[i] == old(self).framebuffer@[i]
            },
    {
        self.cycles = self.cycles + 1;
        self.registers.ly = self.scanline;
        match self.mode {
            PpuMode::OamScan => {
                if self.cycles >= 80 {
                    self.mode = PpuMode::Drawing;
                    self.cycles = 0;
                }
            },
            PpuMode::Drawing => {
                if self.cycles >= 172 {
                    self.mode = PpuMode::HBlank;
                    self.cycles = 0;
                    if self.registers.is_lcd_enabled() {
                        let ghost before = *self;
                        self.draw_scanline();
                        proof {
                            assert forall|x: int, c: int| 0 <= x < 160 && 0 <= c < 3 implies composed(before, x, c)
                                == composed(*old(self), x, c) by {
                                assert(base_rgb(before, x) == base_rgb(*old(self), x));
                                assert(Seq::new(160, |i: int| base_id(before, i)) =~= Seq::new(160, |i: int| base_id(*old(self), i)));
                            }
                        }
                    }
                }
            },
            PpuMode::HBlank => {
                if self.cycles >= 204 {
                    self.scanline = self.scanline + 1;
                    self.cycles = 0;
                    if self.scanline >= 144 {
                        self.mode = PpuMode::VBlank;
                        self.vblank_interrupt = true;
                        return true;
                    } else {
                        self.mode = PpuMode::OamScan;
                    }
                }
            },
            PpuMode::VBlank => {
                if self.cycles >= 456 {
                    self.scanline = self.scanline + 1;
                    self.cycles = 0;
                    if self.scanline >= 154 {
                        self.scanline = 0;
                        self.window_line_counter = 0;
                        self.mode = PpuMode::OamScan;
                    }
                }
            },
        }
        let code: u8 = match self.mode {
            PpuMode::HBlank => 0,
            PpuMode::VBlank => 1,
            PpuMode::OamScan => 2,
            PpuMode::Drawing => 3,
        };
        self.registers.stat = (self.registers.stat & 0xFC) | code;
        false
    }

    /// Composes the current scanline: background, window, then sprites.
    fn draw_scanline(&mut self)
        requires
            old(self).vram.wf(),
            old(self).oam@.len() == 160,
            old(self).framebuffer@.len() == 69120,
            old(self).bg_color_ids@.len() == 160,
        ensures
            final(self).vram == old(self).vram,
            final(self).oam == old(self).oam,
            final(self).registers == old(self).registers,
            final(self).mode == old(self).mode,
            final(self).cycles == old(self).cycles,
            final(self).scanline == old(self).scanline,
            final(self).vblank_interrupt == old(self).vblank_interrupt,
            final(self).stat_interrupt == old(self).stat_interrupt,
            final(self).framebuffer@.len() == 69120,
            final(self).bg_color_ids@.len() == 160,
            forall|i: int|
                0 <= i < 69120 && !(old(self).scanline * 480 <= i < old(self).scanline * 480 + 480)
                    ==> #[trigger] final(self).framebuffer@[i] == old(self).framebuffer@[i],
            old(self).scanline >= 144 ==> *final(self) == *old(self),
            old(self).scanline < 144 ==> forall|x: int, c: int|
                0 <= x < 160 && 0 <= c < 3 ==> #[trigger] final(self).framebuffer@[fb_index(x, old(self).scanline as int, c)]
                    == composed(*old(self), x, c),
            old(self).scanline < 144 ==> final(self).bg_color_ids@ == Seq::new(160, |i: int| base_id(*old(self), i)),
            final(self).window_line_counter == (if old(self).scanline < 144 && window_shows(
                old(self).registers,
                old(self).scanline as int,
            ) && old(self).registers.lcdc & 0x01 != 0 {
                inc8(old(self).window_line_counter)
            } else {
                old(self).window_line_counter
            }),
    {
        let y = self.scanline;
        if y >= 144 {
            return;
        }
        let ghost start = *self;
        self.bg_color_ids = vec![0u8; 160];
        if !self.registers.is_bg_enabled() {
            self.fill_line_with_shade(y, 0);
        } else {
            self.draw_bg_scanline(y);
            self.draw_window_scanline(y);
        }
        proof {
            assert forall|x: int, c: int|
                0 <= x < 160 && 0 <= c < 3 implies #[trigger] self.framebuffer@[fb_index(x, y as int, c)] == rgb_part(
                base_rgb(start, x),
                c,
            ) by {}
            assert(self.bg_color_ids@ =~= Seq::new(160, |i: int| base_id(start, i)));
        }
        self.draw_sprites(y);
    }

    /// Fills a line with one shade.
    fn fill_line_with_shade(&mut self, y: u8, shade: u8)
        requires
            old(self).framebuffer@.len() == 69120,
            y < 144,
        ensures
            final(self).framebuffer@.len() == 69120,
            forall|x: int, c: int|
                0 <= x < 160 && 0 <= c < 3 ==> #[trigger] final(self).framebuffer@[fb_index(x, y as int, c)]
                    == rgb_part(shade_rgb(shade), c),
            forall|i: int|
                0 <= i < 69120 && !(y * 480 <= i < y * 480 + 480) ==> #[trigger] final(self).framebuffer@[i]
                    == old(self).framebuffer@[i],
            final(self).vram == old(self).vram && final(self).oam == old(self).oam,
            final(self).registers == old(self).registers && final(self).bg_color_ids == old(self).bg_color_ids,
            final(self).mode == old(self).mode && final(self).cycles == old(self).cycles,
            final(self).scanline == old(self).scanline && final(self).window_line_counter == old(self).window_line_counter,
            final(self).vblank_interrupt == old(self).vblank_interrupt && final(self).stat_interrupt == old(self).stat_interrupt,
    {
        let (r, g, b) = ColorConverter::dmg_to_rgb888(shade);
        let mut x: usize = 0;
        while x < 160
            invariant
                x <= 160,
                y < 144,
                self.framebuffer@.len() == 69120,
                (r, g, b) == shade_rgb(shade),
                forall|x2: int, c: int|
                    0 <= x2 < x && 0 <= c < 3 ==> #[trigger] self.framebuffer@[fb_index(x2, y as int, c)]
                        == rgb_part(shade_rgb(shade), c),
                forall|i: int|
                    0 <= i < 69120 && !(y * 480 <= i < y * 480 + 3 * x) ==> #[trigger] self.framebuffer@[i]
                        == old(self).framebuffer@[i],
                self.vram == old(self).vram && self.oam == old(self).oam,
                self.registers == old(self).registers && self.bg_color_ids == old(self).bg_color_ids,
                self.mode == old(self).mode && self.cycles == old(self).cycles,
                self.scanline == old(self).scanline && self.window_line_counter == old(self).window_line_counter,
                self.vblank_interrupt == old(self).vblank_interrupt && self.stat_interrupt == old(self).stat_interrupt,
            decreases 160 - x,
        {
            put_pixel(&mut self.framebuffer, x, y as usize, (r, g, b));
            x = x + 1;
        }
    }

    /// The background color ID at column x of line y.
    #[verifier::rlimit(100)]
    fn bg_color(&self, x: usize, y: u8, tilemap_base: u16, mode: TileAddressingMode) -> (r: u8)
        requires
            self.vram.wf(),
            x < 160,
            tilemap_base == (if self.registers.lcdc & 0x08 != 0 { 0x1C00u16 } else { 0x1800u16 }),
            mode == addressing_of(self.registers.lcdc),
        ensures
            r == bg_color_at(self.vram@, self.registers, x as int, y as int),
            r < 4,
    {
        let bg_y: u8 = y.wrapping_add(self.registers.scy);
        let tile_y = bg_y / 8;
        let pixel_y = bg_y % 8;
        let bg_x: u8 = (x as u8).wrapping_add(self.registers.scx);
        assert(bg_y as int == (y + self.registers.scy) % 256);
        assert(bg_x as int == (x + self.registers.scx) % 256);
        let tile_x = bg_x / 8;
        let pixel_x = bg_x % 8;
        let map_index = tilemap_base + (tile_y as u16) * 32 + (tile_x as u16);
        let tile_id = self.vram.read(map_index);
        let addr = tile_address(tile_id, mode);
        let byte1 = self.vram.read(addr + (pixel_y as u16) * 2);
        let byte2 = self.vram.read(addr + (pixel_y as u16) * 2 + 1);
        color_id(byte1, byte2, 7 - pixel_x)
    }

    /// The background pass: color IDs through SCX/SCY and BGP.
    #[verifier::rlimit(100)]
    fn draw_bg_scanline(&mut self, y: u8)
        requires
            old(self).vram.wf(),
            old(self).framebuffer@.len() == 69120,
            old(self).bg_color_ids@.len() == 160,
            y < 144,
        ensures
            final(self).framebuffer@.len() == 69120,
            final(self).bg_color_ids@.len() == 160,
            forall|x: int|
                0 <= x < 160 ==> #[trigger] final(self).bg_color_ids@[x] == bg_color_at(
                    old(self).vram@,
                    old(self).registers,
                    x,
                    y as int,
                ),
            forall|x: int, c: int|
                0 <= x < 160 && 0 <= c < 3 ==> #[trigger] final(self).framebuffer@[fb_index(x, y as int, c)]
                    == rgb_part(
                    shade_rgb(palette_shade(old(self).registers.bgp, bg_color_at(old(self).vram@, old(self).registers, x, y as int))),
                    c,
                ),
            forall|i: int|
                0 <= i < 69120 && !(y * 480 <= i < y * 480 + 480) ==> #[trigger] final(self).framebuffer@[i]
                    == old(self).framebuffer@[i],
            final(self).vram == old(self).vram && final(self).oam == old(self).oam,
            final(self).registers == old(self).registers,
            final(self).mode == old(self).mode && final(self).cycles == old(self).cycles,
            final(self).scanline == old(self).scanline && final(self).window_line_counter == old(self).window_line_counter,
            final(self).vblank_interrupt == old(self).vblank_interrupt && final(self).stat_interrupt == old(self).stat_interrupt,
    {
        let tilemap_base: u16 = if self.registers.is_bg_tilemap_high() { 0x1C00 } else { 0x1800 };
        let mode = if self.registers.is_bg_window_tiledata_high() {
            TileAddressingMode::Unsigned
        } else {
            TileAddressingMode::Signed
        };
        let mut x: usize = 0;
        while x < 160
            invariant
                x <= 160,
                y < 144,
                self.vram.wf(),
                self.framebuffer@.len() == 69120,
                self.bg_color_ids@.len() == 160,
                tilemap_base == (if self.registers.lcdc & 0x08 != 0 { 0x1C00u16 } else { 0x1800u16 }),
                mode == addressing_of(self.registers.lcdc),
                forall|x2: int| 0 <= x2 < x ==> #[trigger] self.bg_color_ids@[x2] == bg_color_at(self.vram@, self.registers, x2, y as int),
                forall|x2: int, c: int|
                    0 <= x2 < x && 0 <= c < 3 ==> #[trigger] self.framebuffer@[fb_index(x2, y as int, c)]
                        == rgb_part(shade_rgb(palette_shade(self.registers.bgp, bg_color_at(self.vram@, self.registers, x2, y as int))), c),
                forall|i: int|
                    0 <= i < 69120 && !(y * 480 <= i < y * 480 + 3 * x) ==> #[trigger] self.framebuffer@[i]
                        == old(self).framebuffer@[i],
                self.vram == old(self).vram && self.oam == old(self).oam,
                self.registers == old(self).registers,
                self.mode == old(self).mode && self.cycles == old(self).cycles,
                self.scanline == old(self).scanline && self.window_line_counter == old(self).window_line_counter,
                self.vblank_interrupt == old(self).vblank_interrupt && self.stat_interrupt == old(self).stat_interrupt,
            decreases 160 - x,
        {
            let cid = self.bg_color(x, y, tilemap_base, mode);
            self.bg_color_ids.set(x, cid);
            let shade = self.registers.get_bg_palette_color(cid);
            let rgb = ColorConverter::dmg_to_rgb888(shade);
            put_pixel(&mut self.framebuffer, x, y as usize, rgb);
            x = x + 1;
        }
    }

    /// The window pass over columns from WX-7 on; counts a window line when it drew.
    #[verifier::rlimit(100)]
    fn draw_window_scanline(&mut self, y: u8)
        requires
            old(self).vram.wf(),
            old(self).framebuffer@.len() == 69120,
            old(self).bg_color_ids@.len() == 160,
            y < 144,
        ensures
            final(self).framebuffer@.len() == 69120,
            final(self).bg_color_ids@.len() == 160,
            window_shows(old(self).registers, y as int) ==> {
                &&& forall|x: int|
                    window_start(old(self).registers.wx) <= x < 160 ==> #[trigger] final(self).bg_color_ids@[x]
                        == window_color_at(old(self).vram@, old(self).registers, x, old(self).window_line_counter as int)
                &&& forall|x: int, c: int|
                    window_start(old(self).registers.wx) <= x < 160 && 0 <= c < 3
                        ==> #[trigger] final(self).framebuffer@[fb_index(x, y as int, c)] == rgb_part(
                        shade_rgb(palette_shade(old(self).registers.bgp, window_color_at(old(self).vram@, old(self).registers, x, old(self).window_line_counter as int))),
                        c,
                    )
                &&& forall|x: int| 0 <= x < window_start(old(self).registers.wx) ==> #[trigger] final(self).bg_color_ids@[x] == old(self).bg_color_ids@[x]
                &&& forall|x: int, c: int|
                    0 <= x < window_start(old(self).registers.wx) && 0 <= c < 3 ==> #[trigger] final(self).framebuffer@[fb_index(x, y as int, c)]
                        == old(self).framebuffer@[fb_index(x, y as int, c)]
                &&& final(self).window_line_counter == inc8(old(self).window_line_counter)
            },
            !window_shows(old(self).registers, y as int) ==> final(self).framebuffer == old(self).framebuffer
                && final(self).bg_color_ids == old(self).bg_color_ids && final(self).window_line_counter == old(self).window_line_counter,
            forall|i: int|
                0 <= i < 69120 && !(y * 480 <= i < y * 480 + 480) ==> #[trigger] final(self).framebuffer@[i]
                    == old(self).framebuffer@[i],
            final(self).vram == old(self).vram && final(self).oam == old(self).oam,
            final(self).registers == old(self).registers,
            final(self).mode == old(self).mode && final(self).cycles == old(self).cycles,
            final(self).scanline == old(self).scanline,
            final(self).vblank_interrupt == old(self).vblank_interrupt && final(self).stat_interrupt == old(self).stat_interrupt,
    {
        if !self.registers.is_window_enabled() {
            return;
        }
        let wy = self.registers.wy;
        let wx = self.registers.wx;
        if wx > 166 || wy > 143 {
            return;
        }
        if y < wy {
            return;
        }
        let start: usize = if wx < 7 { 0 } else { (wx - 7) as usize };
        let tilemap_base: u16 = if self.registers.is_window_tilemap_high() { 0x1C00 } else { 0x1800 };
        let mode = if self.registers.is_bg_window_tiledata_high() {
            TileAddressingMode::Unsigned
        } else {
            TileAddressingMode::Signed
        };
        let line = self.window_line_counter;
        let tile_y = line / 8;
        let pixel_y = line % 8;
        let mut x: usize = start;
        while x < 160
            invariant
                start <= x <= 160,
                start == window_start(wx),
                wx == self.registers.wx,
                wx <= 166,
                y < 144,
                self.vram.wf(),
                self.framebuffer@.len() == 69120,
                self.bg_color_ids@.len() == 160,
                line == old(self).window_line_counter,
                tile_y == line / 8,
                pixel_y == line % 8,
                tilemap_base == (if self.registers.lcdc & 0x40 != 0 { 0x1C00u16 } else { 0x1800u16 }),
                mode == addressing_of(self.registers.lcdc),
                forall|x2: int| start <= x2 < x ==> #[trigger] self.bg_color_ids@[x2] == window_color_at(self.vram@, self.registers, x2, line as int),
                forall|x2: int| 0 <= x2 < start || x <= x2 < 160 ==> #[trigger] self.bg_color_ids@[x2] == old(self).bg_color_ids@[x2],
                forall|x2: int, c: int|
                    start <= x2 < x && 0 <= c < 3 ==> #[trigger] self.framebuffer@[fb_index(x2, y as int, c)]
                        == rgb_part(shade_rgb(palette_shade(self.registers.bgp, window_color_at(self.vram@, self.registers, x2, line as int))), c),
                forall|i: int|
                    0 <= i < 69120 && !(y * 480 + 3 * start <= i < y * 480 + 3 * x) ==> #[trigger] self.framebuffer@[i]
                        == old(self).framebuffer@[i],
                self.vram == old(self).vram && self.oam == old(self).oam,
                self.registers == old(self).registers,
                self.window_line_counter == old(self).window_line_counter,
                self.mode == old(self).mode && self.cycles == old(self).cycles,
                self.scanline == old(self).scanline,
                self.vblank_interrupt == old(self).vblank_interrupt && self.stat_interrupt == old(self).stat_interrupt,
            decreases 160 - x,
        {
            let window_x = (x + 7 - wx as usize) as u8;
            let tile_x = window_x / 8;
            let pixel_x = window_x % 8;
            let tile_id = self.vram.read(tilemap_base + (tile_y as u16) * 32 + (tile_x as u16));
            let addr = tile_address(tile_id, mode);
            let byte1 = self.vram.read(addr + (pixel_y as u16) * 2);
            let byte2 = self.vram.read(addr + (pixel_y as u16) * 2 + 1);
            let cid = color_id(byte1, byte2, 7 - pixel_x);
            self.bg_color_ids.set(x, cid);
            let shade = self.registers.get_bg_palette_color(cid);
            let rgb = ColorConverter::dmg_to_rgb888(shade);
            put_pixel(&mut self.framebuffer, x, y as usize, rgb);
            x = x + 1;
        }
        self.window_line_counter = self.window_line_counter.wrapping_add(1);
    }

    /// The sprite pass of a line, when LCDC bit 1 enables sprites.
    #[verifier::rlimit(100)]
    fn draw_sprites(&mut self, y: u8)
        requires
            old(self).vram.wf(),
            old(self).oam@.len() == 160,
            old(self).framebuffer@.len() == 69120,
            old(self).bg_color_ids@.len() == 160,
            y < 144,
        ensures
            final(self).framebuffer@.len() == 69120,
            forall|i: int|
                0 <= i < 69120 && !(y * 480 <= i < y * 480 + 480) ==> #[trigger] final(self).framebuffer@[i]
                    == old(self).framebuffer@[i],
            old(self).registers.lcdc & 0x02 == 0 ==> final(self).framebuffer == old(self).framebuffer,
            old(self).registers.lcdc & 0x02 != 0 ==> forall|x: int, c: int|
                0 <= x < 160 && 0 <= c < 3 ==> #[trigger] final(self).framebuffer@[y * 480 + 3 * x + c] == ({
                    let h = sprite_height_of(old(self).registers.lcdc);
                    let sel = selected(oam_sprites(old(self).oam@), y, h);
                    let bg = Some(old(self).bg_color_ids@);
                    if exists|e: (usize, Sprite)| sel.contains(e) && drawable(old(self).vram@, e, y, h, bg, x) {
                        let w = choose|e: (usize, Sprite)|
                            sel.contains(e) && drawable(old(self).vram@, e, y, h, bg, x) && forall|e2: (usize, Sprite)|
                                sel.contains(e2) && drawable(old(self).vram@, e2, y, h, bg, x) ==> sprite_key(e) <= sprite_key(e2);
                        sprites::rgb_part(sprite_rgb(old(self).vram@, w, y, h, old(self).registers.obp0, old(self).registers.obp1, x), c)
                    } else {
                        old(self).framebuffer@[y * 480 + 3 * x + c]
                    }
                }),
            final(self).vram == old(self).vram && final(self).oam == old(self).oam,
            final(self).registers == old(self).registers && final(self).bg_color_ids == old(self).bg_color_ids,
            final(self).mode == old(self).mode && final(self).cycles == old(self).cycles,
            final(self).scanline == old(self).scanline && final(self).window_line_counter == old(self).window_line_counter,
            final(self).vblank_interrupt == old(self).vblank_interrupt && final(self).stat_interrupt == old(self).stat_interrupt,
    {
        if !self.registers.is_sprite_enabled() {
            return;
        }
        let height: u8 = if self.registers.is_sprite_size_16() { 16 } else { 8 };
        let mut renderer = SpriteRenderer::new();
        renderer.parse_oam_bytes(&self.oam);
        assert(renderer.sprites@ =~= oam_sprites(self.oam@));
        assert(height == sprite_height_of(self.registers.lcdc));
        assert(bg_view(Some(&self.bg_color_ids)) == Some(self.bg_color_ids@));
        renderer.render_sprites_on_scanline(
            y,
            height,
            &mut self.framebuffer,
            &self.vram,
            self.registers.obp0,
            self.registers.obp1,
            Some(&self.bg_color_ids),
        );
    }
}

impl Ppu {
    /// What a bus read of a PPU address returns.
    pub open spec fn read_spec(&self, address: u16) -> u8 {
        if 0x8000 <= address <= 0x9FFF {
            vram_byte(self.vram@, address - 0x8000)
        } else if 0xFE00 <= address <= 0xFE9F {
            self.oam@[address - 0xFE00]
        } else if address == 0xFF40 {
            self.registers.lcdc
        } else if address == 0xFF41 {
            self.registers.stat
        } else if address == 0xFF42 {
            self.registers.scy
        } else if address == 0xFF43 {
            self.registers.scx
        } else if address == 0xFF44 {
            self.registers.ly
        } else if address == 0xFF45 {
            self.registers.lyc
        } else if address == 0xFF46 {
            self.registers.dma
        } else if address == 0xFF47 {
            self.registers.bgp
        } else if address == 0xFF48 {
            self.registers.obp0
        } else if address == 0xFF49 {
            self.registers.obp1
        } else if address == 0xFF4A {
            self.registers.wy
        } else if address == 0xFF4B {
            self.registers.wx
        } else {
            0xFF
        }
    }

    /// The registers after a bus write to 0xFF40-0xFF4B.
    pub open spec fn registers_after_write(&self, address: u16, value: u8) -> PpuRegisters {
        let r = self.registers;
        if address == 0xFF40 {
            PpuRegisters { lcdc: value, ..r }
        } else if address == 0xFF41 {
            PpuRegisters { stat: (r.stat & 0x07) | (value & 0xF8), ..r }
        } else if address == 0xFF42 {
            PpuRegisters { scy: value, ..r }
        } else if address == 0xFF43 {
            PpuRegisters { scx: value, ..r }
        } else if address == 0xFF45 {
            PpuRegisters { lyc: value, ..r }
        } else if address == 0xFF46 {
            PpuRegisters { dma: value, ..r }
        } else if address == 0xFF47 {
            PpuRegisters { bgp: value, ..r }
        } else if address == 0xFF48 {
            PpuRegisters { obp0: value, ..r }
        } else if address == 0xFF49 {
            PpuRegisters { obp1: value, ..r }
        } else if address == 0xFF4A {
            PpuRegisters { wy: value, ..r }
        } else if address == 0xFF4B {
            PpuRegisters { wx: value, ..r }
        } else {
            r
        }
    }

    /// Video memory accepts writes outside Drawing.
    pub open spec fn vram_open(&self) -> bool {
        self.mode != PpuMode::Drawing
    }

    /// Object memory accepts writes outside Drawing and OAMScan.
    pub open spec fn oam_open(&self) -> bool {
        self.mode != PpuMode::Drawing && self.mode != PpuMode::OamScan
    }

    /// Everything but the registers, video memory and OAM is unchanged.
    pub open spec fn same_state(&self, other: &Ppu) -> bool {
        &&& self.mode == other.mode
        &&& self.cycles == other.cycles
        &&& self.scanline == other.scanline
        &&& self.window_line_counter == other.window_line_counter
        &&& self.framebuffer == other.framebuffer
        &&& self.bg_color_ids == other.bg_color_ids
        &&& self.vblank_interrupt == other.vblank_interrupt
        &&& self.stat_interrupt == other.stat_interrupt
    }

    pub fn clear_vblank_interrupt(&mut self)
        requires
            old(self).wf(),
        ensures
            final(self).wf(),
            !final(self).vblank_interrupt,
            final(self).stat_interrupt == old(self).stat_interrupt,
            final(self).registers == old(self).registers && final(self).vram == old(self).vram && final(self).oam == old(self).oam,
            final(self).mode == old(self).mode && final(self).cycles == old(self).cycles && final(self).scanline == old(self).scanline,
            final(self).window_line_counter == old(self).window_line_counter,
            final(self).framebuffer == old(self).framebuffer,
    {
        self.vblank_interrupt = false;
    }

    pub fn clear_stat_interrupt(&mut self)
        requires
            old(self).wf(),
        ensures
            final(self).wf(),
            !final(self).stat_interrupt,
            final(self).vblank_interrupt == old(self).vblank_interrupt,
            final(self).registers == old(self).registers && final(self).vram == old(self).vram && final(self).oam == old(self).oam,
            final(self).mode == old(self).mode && final(self).cycles == old(self).cycles && final(self).scanline == old(self).scanline,
            final(self).window_line_counter == old(self).window_line_counter,
            final(self).framebuffer == old(self).framebuffer,
    {
        self.stat_interrupt = false;
    }

    pub fn read_vram(&self, address: u16) -> (r: u8)
        requires
            self.wf(),
            0x8000 <= address <= 0x9FFF,
        ensures
            r == self.read_spec(address),
    {
        self.vram.read(address - 0x8000)
    }

    /// Dropped while Drawing.
    pub fn write_vram(&mut self, address: u16, value: u8)
        requires
            old(self).wf(),
            0x8000 <= address <= 0x9FFF,
        ensures
            final(self).wf(),
            final(self).same_state(old(self)),
            final(self).registers == old(self).registers,
            final(self).oam == old(self).oam,
            old(self).vram_open() ==> final(self).vram@ == old(self).vram@.update(address - 0x8000, value),
            !old(self).vram_open() ==> final(self).vram == old(self).vram,
    {
        if self.mode != PpuMode::Drawing {
            self.vram.write(address - 0x8000, value);
        }
    }

    pub fn read_oam(&self, address: u16) -> (r: u8)
        requires
            self.wf(),
            0xFE00 <= address <= 0xFE9F,
        ensures
            r == self.read_spec(address),
    {
        self.oam[(address - 0xFE00) as usize]
    }

    /// Dropped during OAMScan and Drawing.
    pub fn write_oam(&mut self, address: u16, value: u8)
        requires
            old(self).wf(),
            0xFE00 <= address <= 0xFE9F,
        ensures
            final(self).wf(),
            final(self).same_state(old(self)),
            final(self).registers == old(self).registers,
            final(self).vram == old(self).vram,
            old(self).oam_open() ==> final(self).oam@ == old(self).oam@.update(address - 0xFE00, value),
            !old(self).oam_open() ==> final(self).oam == old(self).oam,
    {
        if self.mode != PpuMode::Drawing && self.mode != PpuMode::OamScan {
            self.oam.set((address - 0xFE00) as usize, value);
        }
    }

    /// Reads video memory, OAM or a PPU register; 0xFF elsewhere.
    pub fn read(&self, address: u16) -> (r: u8)
        requires
            self.wf(),
        ensures
            r == self.read_spec(address),
    {
        if 0x8000 <= address && address <= 0x9FFF {
            self.vram.read(address - 0x8000)
        } else if 0xFE00 <= address && address <= 0xFE9F {
            self.oam[(address - 0xFE00) as usize]
        } else {
            match address {
                0xFF40 => self.registers.lcdc,
                0xFF41 => self.registers.stat,
                0xFF42 => self.registers.scy,
                0xFF43 => self.registers.scx,
                0xFF44 => self.registers.ly,
                0xFF45 => self.registers.lyc,
                0xFF46 => self.registers.dma,
                0xFF47 => self.registers.bgp,
                0xFF48 => self.registers.obp0,
                0xFF49 => self.registers.obp1,
                0xFF4A => self.registers.wy,
                0xFF4B => self.registers.wx,
                _ => 0xFF,
            }
        }
    }

    /// Writes video memory, OAM (each gated by mode) or a PPU register; LY and STAT's low bits are read-only.
    pub fn write(&mut self, address: u16, value: u8)
        requires
            old(self).wf(),
        ensures
            final(self).wf(),
            final(self).same_state(old(self)),
            final(self).registers == old(self).registers_after_write(address, value),
            (0x8000 <= address <= 0x9FFF && old(self).vram_open()) ==> final(self).vram@ == old(self).vram@.update(address - 0x8000, value),
            !(0x8000 <= address <= 0x9FFF && old(self).vram_open()) ==> final(self).vram == old(self).vram,
            (0xFE00 <= address <= 0xFE9F && old(self).oam_open()) ==> final(self).oam@ == old(self).oam@.update(address - 0xFE00, value),
            !(0xFE00 <= address <= 0xFE9F && old(self).oam_open()) ==> final(self).oam == old(self).oam,
    {
        if 0x8000 <= address && address <= 0x9FFF {
            self.write_vram(address, value);
        } else if 0xFE00 <= address && address <= 0xFE9F {
            self.write_oam(address, value);
        } else {
            match address {
                0xFF40 => self.registers.lcdc = value,
                0xFF41 => self.registers.stat = (self.registers.stat & 0x07) | (value & 0xF8),
                0xFF42 => self.registers.scy = value,
                0xFF43 => self.registers.scx = value,
                0xFF45 => self.registers.lyc = value,
                0xFF46 => self.registers.dma = value,
                0xFF47 => self.registers.bgp = value,
                0xFF48 => self.registers.obp0 = value,
                0xFF49 => self.registers.obp1 = value,
                0xFF4A => self.registers.wy = value,
                0xFF4B => self.registers.wx = value,
                _ => {},
            }
        }
    }
}

/// The mode of a well-formed PPU is the one its scanline and dot give.
pub proof fn lemma_mode_matches_dot(p: &Ppu)
    requires
        p.timing_wf(),
    ensures
        0 <= p.dot() < 456,
        p.mode == mode_at(p.scanline, p.dot() as u32),
{
}

/// One step moves the dot forward by one within the scanline, or to dot 0 of the next scanline
/// (line 153 is followed by line 0).
pub proof fn lemma_step_advances_dot(p: &Ppu)
    requires
        p.timing_wf(),
    ensures
        ({
            let (m, c, s, v) = p.next_timing();
            let q = Ppu { mode: m, cycles: c, scanline: s, ..*p };
            &&& q.timing_wf()
            &&& if p.dot() + 1 < 456 {
                q.dot() == p.dot() + 1 && s == p.scanline
            } else {
                q.dot() == 0 && s == (if p.scanline == 153 { 0 } else { p.scanline + 1 })
            }
            &&& v <==> (p.scanline == 143 && p.dot() == 455)
        }),
{
}

/// A counter one step later, wrapping at 8 bits.
pub open spec fn inc8(v: u8) -> u8 {
    if v == 255 { 0 } else { (v + 1) as u8 }
}

/// Stores the three color bytes of pixel (x, y).
fn put_pixel(fb: &mut Vec<u8>, x: usize, y: usize, rgb: (u8, u8, u8))
    requires
        old(fb)@.len() == 69120,
        x < 160,
        y < 144,
    ensures
        final(fb)@.len() == 69120,
        forall|c: int| 0 <= c < 3 ==> #[trigger] final(fb)@[fb_index(x as int, y as int, c)] == rgb_part(rgb, c),
        forall|i: int|
            0 <= i < 69120 && !(fb_index(x as int, y as int, 0) <= i < fb_index(x as int, y as int, 3))
                ==> #[trigger] final(fb)@[i] == old(fb)@[i],
{
    let i = y * 480 + 3 * x;
    fb.set(i, rgb.0);
    fb.set(i + 1, rgb.1);
    fb.set(i + 2, rgb.2);
}

impl PpuRegisters {
    /// The register values at power-on.
    pub open spec fn initial() -> PpuRegisters {
        PpuRegisters {
            lcdc: 0x91,
            stat: 0,
            scy: 0,
            scx: 0,
            ly: 0,
            lyc: 0,
            dma: 0,
            bgp: 0xFC,
            obp0: 0xFF,
            obp1: 0xFF,
            wy: 0,
            wx: 0,
        }
    }
}

} // verus!
