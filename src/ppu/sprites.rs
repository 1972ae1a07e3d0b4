use vstd::prelude::*;

use super::registers::{apply_palette, palette_shade};
use super::tiles::shade_rgb;
use super::vram::{color_id, color_id_of, vram_byte, Vram};

verus! {

/// One OAM entry.
#[derive(Debug, Clone, Copy, PartialEq, Eq, Structural)]
pub struct Sprite {
    /// Screen Y plus 16.
    pub y: u8,
    /// Screen X plus 8.
    pub x: u8,
    pub tile_index: u8,
    /// Bit 7: behind background; 6: Y flip; 5: X flip; 4: palette.
    pub flags: u8,
}

pub open spec fn visible_spec(s: Sprite) -> bool {
    s.y != 0 && s.x != 0 && s.y < 160 && s.x < 168
}

/// Whether a sprite of the given height covers a scanline: selection goes by the Y range
/// alone, whatever X holds (columns off screen are skipped when drawing).
pub open spec fn on_scanline(s: Sprite, scanline: u8, height: u8) -> bool {
    s.y - 16 <= scanline < s.y - 16 + height
}

/// The drawing order key: X first, then OAM index.
pub open spec fn sprite_key(e: (usize, Sprite)) -> int {
    e.1.x as int * 64 + e.0 as int
}

/// The sprites of the first `n` OAM slots that cover a scanline, in OAM order.
pub open spec fn covering(sprites: Seq<Sprite>, scanline: u8, height: u8, n: int) -> Seq<(usize, Sprite)>
    decreases n,
{
    if n <= 0 {
        Seq::empty()
    } else {
        let prev = covering(sprites, scanline, height, n - 1);
        if on_scanline(sprites[n - 1], scanline, height) {
            prev.push(((n - 1) as usize, sprites[n - 1]))
        } else {
            prev
        }
    }
}

/// The sprites chosen for a scanline: the first ten that cover it, in OAM order.
pub open spec fn selected(sprites: Seq<Sprite>, scanline: u8, height: u8) -> Seq<(usize, Sprite)> {
    let c = covering(sprites, scanline, height, 40);
    if c.len() <= 10 {
        c
    } else {
        c.subrange(0, 10)
    }
}

pub open spec fn sorted_by_key(s: Seq<(usize, Sprite)>) -> bool {
    forall|i: int, j: int| 0 <= i < j < s.len() ==> sprite_key(#[trigger] s[i]) < sprite_key(#[trigger] s[j])
}

/// The color ID at column `p` of a sprite's row on a scanline (0 off the sprite).
pub open spec fn sprite_row_pixel(data: Seq<u8>, s: Sprite, scanline: u8, height: u8, p: int) -> u8 {
    let line = scanline - (s.y - 16);
    if line < 0 || line >= height {
        0
    } else {
        let actual: int = if s.flags & 0x40 != 0 { height - 1 - line } else { line };
        let tile: u8 = if height == 16 {
            if actual < 8 { s.tile_index & 0xFE } else { s.tile_index | 0x01 }
        } else {
            s.tile_index
        };
        let tile_line: int = if height == 16 { actual % 8 } else { actual };
        let addr = tile as int * 16 + tile_line * 2;
        let bit: u8 = if s.flags & 0x20 != 0 { p as u8 } else { (7 - p) as u8 };
        color_id_of(vram_byte(data, addr), vram_byte(data, addr + 1), bit)
    }
}

impl Sprite {
    pub fn from_oam_bytes(bytes: &[u8; 4]) -> (r: Self)
        ensures
            r == (Sprite { y: bytes@[0], x: bytes@[1], tile_index: bytes@[2], flags: bytes@[3] }),
    {
        Sprite { y: bytes[0], x: bytes[1], tile_index: bytes[2], flags: bytes[3] }
    }

    pub fn is_visible(&self) -> (r: bool)
        ensures
            r == visible_spec(*self),
    {
        self.y != 0 && self.x != 0 && self.y < 160 && self.x < 168
    }

    pub fn screen_x(&self) -> (r: i16)
        ensures
            r == self.x - 8,
    {
        self.x as i16 - 8
    }

    pub fn screen_y(&self) -> (r: i16)
        ensures
            r == self.y - 16,
    {
        self.y as i16 - 16
    }

    pub fn is_on_scanline(&self, scanline: u8, sprite_height: u8) -> (r: bool)
        ensures
            r == on_scanline(*self, scanline, sprite_height),
    {
        let sprite_y = self.screen_y();
        let line = scanline as i16;
        sprite_y <= line && line < sprite_y + sprite_height as i16
    }

    pub fn has_bg_priority(&self) -> (r: bool)
        ensures
            r == (self.flags & 0x80 != 0),
    {
        (self.flags & 0x80) != 0
    }

    pub fn is_y_flipped(&self) -> (r: bool)
        ensures
            r == (self.flags & 0x40 != 0),
    {
        (self.flags & 0x40) != 0
    }

    pub fn is_x_flipped(&self) -> (r: bool)
        ensures
            r == (self.flags & 0x20 != 0),
    {
        (self.flags & 0x20) != 0
    }

    pub fn palette_number(&self) -> (r: u8)
        ensures
            r == (if self.flags & 0x10 != 0 { 1u8 } else { 0u8 }),
    {
        if (self.flags & 0x10) != 0 {
            1
        } else {
            0
        }
    }
}

/// The forty OAM entries, decoded.
pub struct SpriteRenderer {
    pub sprites: Vec<Sprite>,
}

impl SpriteRenderer {
    pub open spec fn wf(&self) -> bool {
        self.sprites@.len() == 40
    }

    pub fn new() -> (r: Self)
        ensures
            r.wf(),
            forall|i: int| 0 <= i < 40 ==> #[trigger] r.sprites@[i] == (Sprite { y: 0, x: 0, tile_index: 0, flags: 0 }),
    {
        SpriteRenderer { sprites: vec![Sprite { y: 0, x: 0, tile_index: 0, flags: 0 }; 40] }
    }

    /// Decodes all forty entries from the 160 OAM bytes.
    pub fn parse_oam(&mut self, oam: &[u8; 160])
        requires
            old(self).wf(),
        ensures
            final(self).wf(),
            forall|i: int|
                0 <= i < 40 ==> #[trigger] final(self).sprites@[i] == (Sprite {
                    y: oam@[4 * i],
                    x: oam@[4 * i + 1],
                    tile_index: oam@[4 * i + 2],
                    flags: oam@[4 * i + 3],
                }),
    {
        let mut i: usize = 0;
        while i < 40
            invariant
                i <= 40,
                self.wf(),
                forall|j: int|
                    0 <= j < i ==> #[trigger] self.sprites@[j] == (Sprite {
                        y: oam@[4 * j],
                        x: oam@[4 * j + 1],
                        tile_index: oam@[4 * j + 2],
                        flags: oam@[4 * j + 3],
                    }),
            decreases 40 - i,
        {
            let b = i * 4;
            let bytes: [u8; 4] = [oam[b], oam[b + 1], oam[b + 2], oam[b + 3]];
            self.sprites.set(i, Sprite::from_oam_bytes(&bytes));
            i = i + 1;
        }
    }

    /// The first ten sprites that cover a scanline, ordered by X and then by OAM index.
    pub fn find_sprites_on_scanline(&self, scanline: u8, sprite_height: u8) -> (r: Vec<(usize, Sprite)>)
        requires
            self.wf(),
        ensures
            sorted_by_key(r@),
            r@.len() == selected(self.sprites@, scanline, sprite_height).len(),
            forall|e: (usize, Sprite)| r@.contains(e) <==> selected(self.sprites@, scanline, sprite_height).contains(e),
    {
        let mut found: Vec<(usize, Sprite)> = Vec::new();
        let mut i: usize = 0;
        while i < 40 && found.len() < 10
            invariant
                i <= 40,
                self.wf(),
                found@.len() <= 10,
                found@ == covering(self.sprites@, scanline, sprite_height, i as int),
            decreases 40 - i,
        {
            let s = self.sprites[i];
            proof {
                lemma_covering_prefix(self.sprites@, scanline, sprite_height, i as int);
            }
            if s.is_on_scanline(scanline, sprite_height) {
                found.push((i, s));
            }
            i = i + 1;
        }
        proof {
            lemma_covering_extends(self.sprites@, scanline, sprite_height, i as int, 40);
            lemma_covering_indices(self.sprites@, scanline, sprite_height, i as int);
            if i < 40 {
                assert(found@ =~= covering(self.sprites@, scanline, sprite_height, 40).subrange(0, 10));
            }
            assert(found@ == selected(self.sprites@, scanline, sprite_height));
        }
        sort_by_key(found)
    }

    /// Same selection and order as `find_sprites_on_scanline`.
    pub fn find_sprites_on_scanline_optimized(&self, scanline: u8, sprite_height: u8) -> (r: Vec<(usize, Sprite)>)
        requires
            self.wf(),
        ensures
            sorted_by_key(r@),
            r@.len() == selected(self.sprites@, scanline, sprite_height).len(),
            forall|e: (usize, Sprite)| r@.contains(e) <==> selected(self.sprites@, scanline, sprite_height).contains(e),
    {
        self.find_sprites_on_scanline(scanline, sprite_height)
    }

    /// The eight color IDs of a sprite's row on a scanline, left to right, flips applied.
    pub fn render_sprite_line(&self, sprite: &Sprite, scanline: u8, sprite_height: u8, vram: &Vram) -> (r: Vec<u8>)
        requires
            vram.wf(),
        ensures
            r@.len() == 8,
            forall|p: int| 0 <= p < 8 ==> #[trigger] r@[p] == sprite_row_pixel(vram@, *sprite, scanline, sprite_height, p),
    {
        let mut pixels: Vec<u8> = vec![0u8; 8];
        let sprite_y = sprite.screen_y();
        let line = scanline as i16 - sprite_y;
        if line < 0 || line >= sprite_height as i16 {
            return pixels;
        }
        let actual_line: u8 = if sprite.is_y_flipped() {
            (sprite_height - 1) - line as u8
        } else {
            line as u8
        };
        let tile_index = if sprite_height == 16 {
            if actual_line < 8 {
                sprite.tile_index & 0xFE
            } else {
                sprite.tile_index | 0x01
            }
        } else {
            sprite.tile_index
        };
        let tile_line: u8 = if sprite_height == 16 {
            actual_line % 8
        } else {
            actual_line
        };
        let tile_addr: u16 = (tile_index as u16) * 16 + (tile_line as u16) * 2;
        let byte1 = vram.read(tile_addr);
        let byte2 = vram.read(tile_addr + 1);
        let flipped = sprite.is_x_flipped();
        let mut x: usize = 0;
        while x < 8
            invariant
                x <= 8,
                pixels@.len() == 8,
                0 <= line < sprite_height,
                byte1 == vram_byte(vram@, tile_addr as int),
                byte2 == vram_byte(vram@, tile_addr as int + 1),
                tile_addr as int == tile_index as int * 16 + tile_line as int * 2,
                tile_line == (if sprite_height == 16 { actual_line % 8 } else { actual_line }),
                actual_line == (if sprite.flags & 0x40 != 0 { sprite_height - 1 - line } else { line as int }),
                line == scanline - (sprite.y - 16),
                tile_index == (if sprite_height == 16 {
                    if actual_line < 8 { sprite.tile_index & 0xFE } else { sprite.tile_index | 0x01 }
                } else {
                    sprite.tile_index
                }),
                flipped == (sprite.flags & 0x20 != 0),
                forall|p: int|
                    0 <= p < 8 && (if flipped { 7 - p < x } else { p < x }) ==> #[trigger] pixels@[p]
                        == sprite_row_pixel(vram@, *sprite, scanline, sprite_height, p),
            decreases 8 - x,
        {
            let c = color_id(byte1, byte2, (7 - x) as u8);
            let actual_x = if flipped { 7 - x } else { x };
            pixels.set(actual_x, c);
            x = x + 1;
        }
        pixels
    }

    /// Draws one sprite pixel through OBP0/OBP1; color 0 is transparent. Returns whether it drew.
    pub fn draw_sprite_pixel(
        &self,
        framebuffer: &mut Vec<u8>,
        screen_x: usize,
        screen_y: usize,
        color_id: u8,
        palette_number: u8,
        obp0: u8,
        obp1: u8,
    ) -> (r: bool)
        ensures
            r == (color_id != 0 && screen_x < 160 && screen_y < 144 && (screen_y * 160 + screen_x) * 3 + 2
                < old(framebuffer)@.len()),
            r ==> {
                let i = (screen_y * 160 + screen_x) * 3;
                let rgb = shade_rgb(sprite_shade(color_id, if palette_number == 0 { obp0 } else { obp1 }));
                final(framebuffer)@ == old(framebuffer)@.update(i, rgb.0).update(i + 1, rgb.1).update(i + 2, rgb.2)
            },
            !r ==> final(framebuffer)@ == old(framebuffer)@,
    {
        if color_id == 0 {
            return false;
        }
        if screen_x >= 160 || screen_y >= 144 {
            return false;
        }
        let palette = if palette_number == 0 { obp0 } else { obp1 };
        let shade = match color_id {
            1 => (palette >> 2) & 0x03,
            2 => (palette >> 4) & 0x03,
            3 => (palette >> 6) & 0x03,
            _ => 0,
        };
        let (r, g, b) = super::tiles::ColorConverter::dmg_to_rgb888(shade);
        let pixel_index = (screen_y * 160 + screen_x) * 3;
        if pixel_index + 2 < framebuffer.len() {
            framebuffer.set(pixel_index, r);
            framebuffer.set(pixel_index + 1, g);
            framebuffer.set(pixel_index + 2, b);
            return true;
        }
        false
    }
}

impl SpriteRenderer {
    /// Decodes all forty entries from the 160 OAM bytes held in a vector.
    pub fn parse_oam_bytes(&mut self, oam: &Vec<u8>)
        requires
            old(self).wf(),
            oam@.len() == 160,
        ensures
            final(self).wf(),
            forall|i: int|
                0 <= i < 40 ==> #[trigger] final(self).sprites@[i] == (Sprite {
                    y: oam@[4 * i],
                    x: oam@[4 * i + 1],
                    tile_index: oam@[4 * i + 2],
                    flags: oam@[4 * i + 3],
                }),
    {
        let mut i: usize = 0;
        while i < 40
            invariant
                i <= 40,
                self.wf(),
                oam@.len() == 160,
                forall|j: int|
                    0 <= j < i ==> #[trigger] self.sprites@[j] == (Sprite {
                        y: oam@[4 * j],
                        x: oam@[4 * j + 1],
                        tile_index: oam@[4 * j + 2],
                        flags: oam@[4 * j + 3],
                    }),
            decreases 40 - i,
        {
            let b = i * 4;
            self.sprites.set(i, Sprite { y: oam[b], x: oam[b + 1], tile_index: oam[b + 2], flags: oam[b + 3] });
            i = i + 1;
        }
    }

    /// Draws the sprites of a scanline, lowest priority first, so that the sprite with the smallest
    /// X (then OAM index) ends on top. Color 0 is transparent, and a sprite behind the background
    /// only shows where the background color ID is 0. Returns the number of pixels drawn.
    #[verifier::rlimit(100)]
    pub fn render_sprites_on_scanline(
        &self,
        scanline: u8,
        sprite_height: u8,
        framebuffer: &mut Vec<u8>,
        vram: &Vram,
        obp0: u8,
        obp1: u8,
        bg_pixels: Option<&Vec<u8>>,
    ) -> (r: u8)
        requires
            self.wf(),
            vram.wf(),
            bg_pixels matches Some(b) ==> b@.len() == 160,
        ensures
            final(framebuffer)@.len() == old(framebuffer)@.len(),
            forall|i: int|
                0 <= i < old(framebuffer)@.len() && !(scanline * 480 <= i < scanline * 480 + 480)
                    ==> #[trigger] final(framebuffer)@[i] == old(framebuffer)@[i],
            selected(self.sprites@, scanline, sprite_height).len() == 0 ==> final(framebuffer)@ == old(framebuffer)@,
            r <= 80,
            scanline < 144 && old(framebuffer)@.len() == 69120 ==> r == total_drawn(
                vram@,
                selected(self.sprites@, scanline, sprite_height),
                scanline,
                sprite_height,
                bg_view(bg_pixels),
            ),
            scanline < 144 && old(framebuffer)@.len() == 69120 ==> forall|x: int, c: int|
                0 <= x < 160 && 0 <= c < 3 ==> #[trigger] final(framebuffer)@[scanline * 480 + 3 * x + c] == ({
                    let sel = selected(self.sprites@, scanline, sprite_height);
                    let bg = bg_view(bg_pixels);
                    if exists|e: (usize, Sprite)| sel.contains(e) && drawable(vram@, e, scanline, sprite_height, bg, x) {
                        let w = choose|e: (usize, Sprite)|
                            sel.contains(e) && drawable(vram@, e, scanline, sprite_height, bg, x) && forall|e2: (usize, Sprite)|
                                sel.contains(e2) && drawable(vram@, e2, scanline, sprite_height, bg, x) ==> sprite_key(e)
                                    <= sprite_key(e2);
                        rgb_part(sprite_rgb(vram@, w, scanline, sprite_height, obp0, obp1, x), c)
                    } else {
                        old(framebuffer)@[scanline * 480 + 3 * x + c]
                    }
                }),
    {
        let mut drawn: u8 = 0;
        let line_sprites = self.find_sprites_on_scanline(scanline, sprite_height);
        let n = line_sprites.len();
        let ghost l = line_sprites@;
        let ghost bg = bg_view(bg_pixels);
        let ghost exact = scanline < 144 && old(framebuffer)@.len() == 69120;
        let mut k: usize = n;
        assert(l.subrange(n as int, n as int).len() == 0);
        while k > 0
            invariant
                k <= n,
                n == line_sprites@.len(),
                l == line_sprites@,
                n <= 10,
                drawn <= 8 * (n - k),
                exact ==> drawn == total_drawn(vram@, l.subrange(k as int, n as int), scanline, sprite_height, bg),
                vram.wf(),
                bg == bg_view(bg_pixels),
                exact == (scanline < 144 && old(framebuffer)@.len() == 69120),
                bg_pixels matches Some(b) ==> b@.len() == 160,
                framebuffer@.len() == old(framebuffer)@.len(),
                forall|i: int|
                    0 <= i < old(framebuffer)@.len() && !(scanline * 480 <= i < scanline * 480 + 480)
                        ==> #[trigger] framebuffer@[i] == old(framebuffer)@[i],
                n == 0 ==> framebuffer@ == old(framebuffer)@,
                exact ==> forall|x: int, c: int|
                    0 <= x < 160 && 0 <= c < 3 ==> #[trigger] framebuffer@[scanline * 480 + 3 * x + c] == line_value(
                        vram@, l, k as int, scanline, sprite_height, bg, obp0, obp1, old(framebuffer)@, x, c),
            decreases k,
        {
            k = k - 1;
            let (_index, sprite) = line_sprites[k];
            let pixels = self.render_sprite_line(&sprite, scanline, sprite_height, vram);
            let left = sprite.screen_x();
            assert(-8 <= left <= 247);
            let ghost e = l[k as int];
            let mut p: usize = 0;
            while p < 8
                invariant
                    p <= 8,
                    -8 <= left <= 247,
                    left == e.1.x - 8,
                    sprite == e.1,
                    e == l[k as int],
                    l == line_sprites@,
                    pixels@.len() == 8,
                    forall|q: int| 0 <= q < 8 ==> #[trigger] pixels@[q] == sprite_row_pixel(vram@, sprite, scanline, sprite_height, q),
                    k < n,
                    n <= 10,
                    drawn <= 8 * (n - k - 1) + p,
                    exact ==> drawn == total_drawn(vram@, l.subrange(k + 1, n as int), scanline, sprite_height, bg)
                        + cols_drawn(vram@, e, scanline, sprite_height, bg, p as int),
                    n == l.len(),
                    bg == bg_view(bg_pixels),
                    exact == (scanline < 144 && old(framebuffer)@.len() == 69120),
                    bg_pixels matches Some(b) ==> b@.len() == 160,
                    framebuffer@.len() == old(framebuffer)@.len(),
                    forall|i: int|
                        0 <= i < old(framebuffer)@.len() && !(scanline * 480 <= i < scanline * 480 + 480)
                            ==> #[trigger] framebuffer@[i] == old(framebuffer)@[i],
                    exact ==> forall|x: int, c: int|
                        0 <= x < 160 && 0 <= c < 3 ==> #[trigger] framebuffer@[scanline * 480 + 3 * x + c] == (if left <= x
                            < left + p && drawable(vram@, e, scanline, sprite_height, bg, x) {
                            rgb_part(sprite_rgb(vram@, e, scanline, sprite_height, obp0, obp1, x), c)
                        } else {
                            line_value(vram@, l, k + 1, scanline, sprite_height, bg, obp0, obp1, old(framebuffer)@, x, c)
                        }),
                decreases 8 - p,
            {
                let pi: i16 = p as i16;
                assert(pi == p);
                let screen_x = left + pi;
                if screen_x >= 0 && screen_x < 160 {
                    let sx = screen_x as usize;
                    let hidden = match bg_pixels {
                        Some(bgv) => sprite.has_bg_priority() && bgv[sx] != 0,
                        None => false,
                    };
                    if !hidden {
                        if self.draw_sprite_pixel(
                            framebuffer,
                            sx,
                            scanline as usize,
                            pixels[p],
                            sprite.palette_number(),
                            obp0,
                            obp1,
                        ) {
                            drawn = drawn + 1;
                        }
                    }
                }
                p = p + 1;
            }
            proof {
                let sub = l.subrange(k as int, n as int);
                assert(sub[0] == l[k as int]);
                assert(sub.subrange(1, sub.len() as int) =~= l.subrange(k + 1, n as int));
                if exact {
                    assert forall|x: int, c: int|
                        0 <= x < 160 && 0 <= c < 3 implies #[trigger] framebuffer@[scanline * 480 + 3 * x + c]
                            == line_value(vram@, l, k as int, scanline, sprite_height, bg, obp0, obp1, old(framebuffer)@, x, c) by {
                        assert(first_drawable(vram@, l, k as int, scanline, sprite_height, bg, x) == if drawable(
                            vram@,
                            l[k as int],
                            scanline,
                            sprite_height,
                            bg,
                            x,
                        ) {
                            k as int
                        } else {
                            first_drawable(vram@, l, k + 1, scanline, sprite_height, bg, x)
                        });
                    }
                }
            }
        }
        proof {
            if exact {
                let sel = selected(self.sprites@, scanline, sprite_height);
                assert(l.subrange(0, n as int) =~= l);
                lemma_covering_indices(self.sprites@, scanline, sprite_height, 40);
                assert forall|a: int, b: int| 0 <= a < sel.len() && 0 <= b < sel.len() && a != b implies sel[a] != sel[b] by {
                    let c = covering(self.sprites@, scanline, sprite_height, 40);
                    assert(sel[a] == c[a] && sel[b] == c[b]);
                    if a < b {
                        assert(c[a].0 < c[b].0);
                    } else {
                        assert(c[b].0 < c[a].0);
                    }
                }
                assert forall|a: int, b: int| 0 <= a < l.len() && 0 <= b < l.len() && a != b implies l[a] != l[b] by {
                    if a < b {
                        assert(sprite_key(l[a]) < sprite_key(l[b]));
                    } else {
                        assert(sprite_key(l[b]) < sprite_key(l[a]));
                    }
                }
                lemma_total_permutation(vram@, l, sel, scanline, sprite_height, bg);
                assert forall|x: int, c: int| 0 <= x < 160 && 0 <= c < 3 implies #[trigger] framebuffer@[scanline * 480
                    + 3 * x + c] == ({
                    if exists|e: (usize, Sprite)| sel.contains(e) && drawable(vram@, e, scanline, sprite_height, bg, x) {
                        let w = choose|e: (usize, Sprite)|
                            sel.contains(e) && drawable(vram@, e, scanline, sprite_height, bg, x) && forall|e2: (usize, Sprite)|
                                sel.contains(e2) && drawable(vram@, e2, scanline, sprite_height, bg, x) ==> sprite_key(e)
                                    <= sprite_key(e2);
                        rgb_part(sprite_rgb(vram@, w, scanline, sprite_height, obp0, obp1, x), c)
                    } else {
                        old(framebuffer)@[scanline * 480 + 3 * x + c]
                    }
                }) by {
                    lemma_first_drawable(vram@, l, 0, scanline, sprite_height, bg, x);
                    let j = first_drawable(vram@, l, 0, scanline, sprite_height, bg, x);
                    if j < l.len() {
                        assert(l.contains(l[j]));
                        assert(sel.contains(l[j]));
                        assert forall|e2: (usize, Sprite)|
                            sel.contains(e2) && drawable(vram@, e2, scanline, sprite_height, bg, x) implies sprite_key(l[j])
                                <= sprite_key(e2) by {
                            assert(l.contains(e2));
                            let i = choose|i: int| 0 <= i < l.len() && l[i] == e2;
                            assert(i >= j);
                        }
                        let w = choose|e: (usize, Sprite)|
                            sel.contains(e) && drawable(vram@, e, scanline, sprite_height, bg, x) && forall|e2: (usize, Sprite)|
                                sel.contains(e2) && drawable(vram@, e2, scanline, sprite_height, bg, x) ==> sprite_key(e)
                                    <= sprite_key(e2);
                        assert(l.contains(w));
                        let iw = choose|i: int| 0 <= i < l.len() && l[i] == w;
                        assert(iw == j);
                    } else {
                        assert forall|e: (usize, Sprite)| sel.contains(e) implies !drawable(vram@, e, scanline, sprite_height, bg, x) by {
                            assert(l.contains(e));
                            let i = choose|i: int| 0 <= i < l.len() && l[i] == e;
                        }
                    }
                }
            }
        }
        drawn
    }
}


/// How many of the first `p` columns of a sprite draw a pixel.
pub open spec fn cols_drawn(data: Seq<u8>, e: (usize, Sprite), scanline: u8, height: u8, bg: Option<Seq<u8>>, p: int) -> nat
    decreases p,
{
    if p <= 0 {
        0
    } else {
        cols_drawn(data, e, scanline, height, bg, p - 1) + if drawable(data, e, scanline, height, bg, e.1.x - 8 + p - 1) {
            1nat
        } else {
            0
        }
    }
}

/// How many pixels a list of sprites draws in all.
pub open spec fn total_drawn(data: Seq<u8>, l: Seq<(usize, Sprite)>, scanline: u8, height: u8, bg: Option<Seq<u8>>) -> nat
    decreases l.len(),
{
    if l.len() == 0 {
        0
    } else {
        cols_drawn(data, l[0], scanline, height, bg, 8) + total_drawn(data, l.subrange(1, l.len() as int), scanline, height, bg)
    }
}

proof fn lemma_total_remove(data: Seq<u8>, l: Seq<(usize, Sprite)>, scanline: u8, height: u8, bg: Option<Seq<u8>>, i: int)
    requires
        0 <= i < l.len(),
    ensures
        total_drawn(data, l, scanline, height, bg) == cols_drawn(data, l[i], scanline, height, bg, 8) + total_drawn(
            data,
            l.remove(i),
            scanline,
            height,
            bg,
        ),
    decreases i,
{
    if i > 0 {
        let t = l.subrange(1, l.len() as int);
        lemma_total_remove(data, t, scanline, height, bg, i - 1);
        assert(l.remove(i).subrange(1, l.len() - 1) =~= t.remove(i - 1));
        assert(l.remove(i)[0] == l[0]);
    } else {
        assert(l.remove(0) =~= l.subrange(1, l.len() as int));
    }
}

/// Lists holding the same distinct sprites draw the same number of pixels.
proof fn lemma_total_permutation(
    data: Seq<u8>,
    a: Seq<(usize, Sprite)>,
    b: Seq<(usize, Sprite)>,
    scanline: u8,
    height: u8,
    bg: Option<Seq<u8>>,
)
    requires
        a.len() == b.len(),
        a.no_duplicates(),
        b.no_duplicates(),
        forall|e: (usize, Sprite)| a.contains(e) <==> b.contains(e),
    ensures
        total_drawn(data, a, scanline, height, bg) == total_drawn(data, b, scanline, height, bg),
    decreases a.len(),
{
    if a.len() > 0 {
        let e = a[0];
        assert(a.contains(e));
        assert(b.contains(e));
        let i = choose|i: int| 0 <= i < b.len() && b[i] == e;
        lemma_total_remove(data, b, scanline, height, bg, i);
        let a1 = a.subrange(1, a.len() as int);
        let b1 = b.remove(i);
        assert forall|x: (usize, Sprite)| a1.contains(x) <==> b1.contains(x) by {
            if a1.contains(x) {
                let j = choose|j: int| 0 <= j < a1.len() && a1[j] == x;
                assert(a[j + 1] == x);
                assert(x != e);
                assert(a.contains(x));
                let m = choose|m: int| 0 <= m < b.len() && b[m] == x;
                assert(m != i);
                if m < i {
                    assert(b1[m] == x);
                } else {
                    assert(b1[m - 1] == x);
                }
            }
            if b1.contains(x) {
                let j = choose|j: int| 0 <= j < b1.len() && b1[j] == x;
                let m = if j < i { j } else { j + 1 };
                assert(b[m] == x);
                assert(m != i);
                assert(x != e);
                assert(b.contains(x));
                let q = choose|q: int| 0 <= q < a.len() && a[q] == x;
                assert(q != 0);
                assert(a1[q - 1] == x);
            }
        }
        assert(a1.no_duplicates());
        assert(b1.no_duplicates());
        lemma_total_permutation(data, a1, b1, scanline, height, bg);
    }
}

/// The background color IDs as a sequence, when given.
pub open spec fn bg_view(bg: Option<&Vec<u8>>) -> Option<Seq<u8>> {
    match bg {
        Some(b) => Some(b@),
        None => None,
    }
}

/// The color ID a sprite shows at screen column x (0 off the sprite).
pub open spec fn sprite_pixel_at(data: Seq<u8>, e: (usize, Sprite), scanline: u8, height: u8, x: int) -> u8 {
    sprite_row_pixel(data, e.1, scanline, height, x - (e.1.x - 8))
}

/// Whether a sprite puts a pixel at screen column x: on screen, opaque there, and not behind a
/// non-zero background color when it has background priority.
pub open spec fn drawable(data: Seq<u8>, e: (usize, Sprite), scanline: u8, height: u8, bg: Option<Seq<u8>>, x: int) -> bool {
    &&& 0 <= x < 160
    &&& 0 <= x - (e.1.x - 8) < 8
    &&& sprite_pixel_at(data, e, scanline, height, x) != 0
    &&& !(bg matches Some(b) && e.1.flags & 0x80 != 0 && b[x] != 0)
}

/// The display color a sprite gives screen column x, through OBP0 or OBP1.
pub open spec fn sprite_rgb(data: Seq<u8>, e: (usize, Sprite), scanline: u8, height: u8, obp0: u8, obp1: u8, x: int) -> (u8, u8, u8) {
    shade_rgb(sprite_shade(sprite_pixel_at(data, e, scanline, height, x), if e.1.flags & 0x10 != 0 { obp1 } else { obp0 }))
}

/// The first position at or after `k` of a sprite that draws at column x, or the length.
pub open spec fn first_drawable(data: Seq<u8>, l: Seq<(usize, Sprite)>, k: int, scanline: u8, height: u8, bg: Option<Seq<u8>>, x: int) -> int
    decreases l.len() - k,
{
    if k < 0 || k >= l.len() {
        l.len() as int
    } else if drawable(data, l[k], scanline, height, bg, x) {
        k
    } else {
        first_drawable(data, l, k + 1, scanline, height, bg, x)
    }
}

/// Framebuffer byte `c` of column x once the sprites from position `k` on are drawn.
pub open spec fn line_value(
    data: Seq<u8>,
    l: Seq<(usize, Sprite)>,
    k: int,
    scanline: u8,
    height: u8,
    bg: Option<Seq<u8>>,
    obp0: u8,
    obp1: u8,
    fb: Seq<u8>,
    x: int,
    c: int,
) -> u8 {
    let j = first_drawable(data, l, k, scanline, height, bg, x);
    if j < l.len() {
        rgb_part(sprite_rgb(data, l[j], scanline, height, obp0, obp1, x), c)
    } else {
        fb[scanline * 480 + 3 * x + c]
    }
}

/// Component `c` of a display color.
pub open spec fn rgb_part(rgb: (u8, u8, u8), c: int) -> u8 {
    if c == 0 {
        rgb.0
    } else if c == 1 {
        rgb.1
    } else {
        rgb.2
    }
}

proof fn lemma_first_drawable(data: Seq<u8>, l: Seq<(usize, Sprite)>, k: int, scanline: u8, height: u8, bg: Option<Seq<u8>>, x: int)
    requires
        0 <= k <= l.len(),
    ensures
        k <= first_drawable(data, l, k, scanline, height, bg, x) <= l.len(),
        first_drawable(data, l, k, scanline, height, bg, x) < l.len() ==> drawable(data, l[first_drawable(data, l, k, scanline, height, bg, x)], scanline, height, bg, x),
        forall|i: int| k <= i < first_drawable(data, l, k, scanline, height, bg, x) ==> !drawable(data, #[trigger] l[i], scanline, height, bg, x),
    decreases l.len() - k,
{
    if k < l.len() && !drawable(data, l[k], scanline, height, bg, x) {
        lemma_first_drawable(data, l, k + 1, scanline, height, bg, x);
    }
}

/// The shade of an opaque sprite color ID through an object palette.
pub open spec fn sprite_shade(color_id: u8, palette: u8) -> u8 {
    if color_id == 1 {
        (palette >> 2) & 0x03
    } else if color_id == 2 {
        (palette >> 4) & 0x03
    } else if color_id == 3 {
        (palette >> 6) & 0x03
    } else {
        0
    }
}

proof fn lemma_covering_prefix(sprites: Seq<Sprite>, scanline: u8, height: u8, n: int)
    requires
        0 <= n,
    ensures
        covering(sprites, scanline, height, n).len() <= n,
        covering(sprites, scanline, height, n + 1) == (if on_scanline(sprites[n], scanline, height) {
            covering(sprites, scanline, height, n).push((n as usize, sprites[n]))
        } else {
            covering(sprites, scanline, height, n)
        }),
    decreases n,
{
    if n > 0 {
        lemma_covering_prefix(sprites, scanline, height, n - 1);
    }
}

/// The covering list holds increasing OAM indices below `n`.
proof fn lemma_covering_indices(sprites: Seq<Sprite>, scanline: u8, height: u8, n: int)
    requires
        0 <= n <= 40,
    ensures
        forall|k: int| 0 <= k < covering(sprites, scanline, height, n).len() ==> (#[trigger] covering(sprites, scanline, height, n)[k]).0 < n,
        forall|a: int, b: int|
            0 <= a < b < covering(sprites, scanline, height, n).len() ==> (#[trigger] covering(sprites, scanline, height, n)[a]).0
                < (#[trigger] covering(sprites, scanline, height, n)[b]).0,
    decreases n,
{
    if n > 0 {
        lemma_covering_indices(sprites, scanline, height, n - 1);
        let prev = covering(sprites, scanline, height, n - 1);
        let cur = covering(sprites, scanline, height, n);
        assert forall|k: int| 0 <= k < prev.len() implies cur[k] == prev[k] by {}
    }
}

/// Later slots only append to the covering list.
proof fn lemma_covering_extends(sprites: Seq<Sprite>, scanline: u8, height: u8, a: int, b: int)
    requires
        0 <= a <= b,
    ensures
        covering(sprites, scanline, height, a).len() <= covering(sprites, scanline, height, b).len(),
        covering(sprites, scanline, height, b).subrange(0, covering(sprites, scanline, height, a).len() as int)
            == covering(sprites, scanline, height, a),
    decreases b - a,
{
    if a < b {
        lemma_covering_extends(sprites, scanline, height, a, b - 1);
        lemma_covering_prefix(sprites, scanline, height, b - 1);
        let ca = covering(sprites, scanline, height, a);
        let cb1 = covering(sprites, scanline, height, b - 1);
        let cb = covering(sprites, scanline, height, b);
        assert(cb.subrange(0, ca.len() as int) =~= cb1.subrange(0, ca.len() as int));
    } else {
        assert(covering(sprites, scanline, height, b).subrange(0, covering(sprites, scanline, height, a).len() as int)
            =~= covering(sprites, scanline, height, a));
    }
}

/// Insertion sort by X, then by OAM index.
fn sort_by_key(v: Vec<(usize, Sprite)>) -> (r: Vec<(usize, Sprite)>)
    requires
        forall|i: int, j: int| 0 <= i < j < v@.len() ==> (#[trigger] v@[i]).0 < (#[trigger] v@[j]).0,
        forall|i: int| 0 <= i < v@.len() ==> (#[trigger] v@[i]).0 < 64,
    ensures
        sorted_by_key(r@),
        r@.len() == v@.len(),
        forall|e: (usize, Sprite)| r@.contains(e) <==> v@.contains(e),
{
    let mut out: Vec<(usize, Sprite)> = Vec::new();
    let mut i: usize = 0;
    while i < v.len()
        invariant
            i <= v@.len(),
            forall|a: int, b: int| 0 <= a < b < v@.len() ==> (#[trigger] v@[a]).0 < (#[trigger] v@[b]).0,
            forall|a: int| 0 <= a < v@.len() ==> (#[trigger] v@[a]).0 < 64,
            sorted_by_key(out@),
            out@.len() == i,
            forall|q: int| 0 <= q < out@.len() ==> (#[trigger] out@[q]).0 < 64,
            forall|e: (usize, Sprite)| out@.contains(e) <==> v@.subrange(0, i as int).contains(e),
        decreases v.len() - i,
    {
        let e = v[i];
        let mut p: usize = 0;
        while p < out.len() && (out[p].1.x < e.1.x || (out[p].1.x == e.1.x && out[p].0 < e.0))
            invariant
                p <= out@.len(),
                forall|q: int| 0 <= q < p ==> sprite_key(#[trigger] out@[q]) < sprite_key(e),
                forall|q: int| 0 <= q < out@.len() ==> (#[trigger] out@[q]).0 < 64,
                e == v@[i as int],
                e.0 < 64,
                i < v@.len(),
            decreases out.len() - p,
        {
            p = p + 1;
        }
        proof {
            assert forall|q: int| p <= q < out@.len() implies out@[q].0 < e.0 by {
                assert(out@.contains(out@[q]));
                assert(v@.subrange(0, i as int).contains(out@[q]));
                let k = choose|k: int| 0 <= k < i && v@.subrange(0, i as int)[k] == out@[q];
                assert(v@[k] == out@[q]);
            }
            assert forall|q: int| p <= q < out@.len() implies sprite_key(e) < sprite_key(#[trigger] out@[q]) by {
                assert(out@[p as int].0 < e.0);
                assert(out@[p as int].1.x > e.1.x);
                if q > p {
                    assert(sprite_key(out@[p as int]) < sprite_key(out@[q]));
                }
            }
        }
        let ghost prev = out@;
        out.insert(p, e);
        proof {
            let vi = v@.subrange(0, i + 1);
            assert(out@ == prev.insert(p as int, e));
            assert forall|x: (usize, Sprite)| out@.contains(x) <==> vi.contains(x) by {
                if out@.contains(x) {
                    let k = choose|k: int| 0 <= k < out@.len() && out@[k] == x;
                    if k < p {
                        assert(prev[k] == x);
                        assert(prev.contains(x));
                    } else if k > p {
                        assert(prev[k - 1] == x);
                        assert(prev.contains(x));
                    }
                    if x != e {
                        let m = choose|m: int| 0 <= m < i && v@.subrange(0, i as int)[m] == x;
                        assert(vi[m] == x);
                    } else {
                        assert(vi[i as int] == x);
                    }
                }
                if vi.contains(x) {
                    let m = choose|m: int| 0 <= m < vi.len() && vi[m] == x;
                    if m < i {
                        assert(v@.subrange(0, i as int)[m] == x);
                        assert(prev.contains(x));
                        let k = choose|k: int| 0 <= k < prev.len() && prev[k] == x;
                        if k < p {
                            assert(out@[k] == x);
                        } else {
                            assert(out@[k + 1] == x);
                        }
                    } else {
                        assert(out@[p as int] == x);
                    }
                }
            }
        }
        i = i + 1;
    }
    assert(v@.subrange(0, v@.len() as int) =~= v@);
    out
}

} // verus!
