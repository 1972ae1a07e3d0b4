use vstd::prelude::*;

verus! {

/// The shade a palette byte gives a color ID: bits 2c+1..2c.
pub open spec fn palette_shade(palette: u8, color_id: u8) -> u8 {
    (palette >> (2 * (color_id & 0x03))) & 0x03
}

/// The LCD registers at 0xFF40-0xFF4B.
pub struct PpuRegisters {
    pub lcdc: u8,
    pub stat: u8,
    pub scy: u8,
    pub scx: u8,
    pub ly: u8,
    pub lyc: u8,
    pub dma: u8,
    pub bgp: u8,
    pub obp0: u8,
    pub obp1: u8,
    pub wy: u8,
    pub wx: u8,
}

impl PpuRegisters {
    /// LCD and background on, palette 0xFC, everything else zero.
    pub fn new() -> (r: Self)
        ensures
            r.lcdc == 0x91 && r.stat == 0 && r.scy == 0 && r.scx == 0 && r.ly == 0 && r.lyc == 0,
            r.dma == 0 && r.bgp == 0xFC && r.obp0 == 0xFF && r.obp1 == 0xFF && r.wy == 0 && r.wx == 0,
    {
        PpuRegisters {
            lcdc: 0x91,
            stat: 0x00,
            scy: 0x00,
            scx: 0x00,
            ly: 0x00,
            lyc: 0x00,
            dma: 0x00,
            bgp: 0xFC,
            obp0: 0xFF,
            obp1: 0xFF,
            wy: 0x00,
            wx: 0x00,
        }
    }

    pub fn is_lcd_enabled(&self) -> (r: bool)
        ensures
            r == (self.lcdc & 0x80 != 0),
    {
        (self.lcdc & 0x80) != 0
    }

    pub fn is_window_tilemap_high(&self) -> (r: bool)
        ensures
            r == (self.lcdc & 0x40 != 0),
    {
        (self.lcdc & 0x40) != 0
    }

    pub fn is_window_enabled(&self) -> (r: bool)
        ensures
            r == (self.lcdc & 0x20 != 0),
    {
        (self.lcdc & 0x20) != 0
    }

    pub fn is_bg_window_tiledata_high(&self) -> (r: bool)
        ensures
            r == (self.lcdc & 0x10 != 0),
    {
        (self.lcdc & 0x10) != 0
    }

    pub fn is_bg_tilemap_high(&self) -> (r: bool)
        ensures
            r == (self.lcdc & 0x08 != 0),
    {
        (self.lcdc & 0x08) != 0
    }

    pub fn is_sprite_size_16(&self) -> (r: bool)
        ensures
            r == (self.lcdc & 0x04 != 0),
    {
        (self.lcdc & 0x04) != 0
    }

    pub fn is_sprite_enabled(&self) -> (r: bool)
        ensures
            r == (self.lcdc & 0x02 != 0),
    {
        (self.lcdc & 0x02) != 0
    }

    pub fn is_bg_enabled(&self) -> (r: bool)
        ensures
            r == (self.lcdc & 0x01 != 0),
    {
        (self.lcdc & 0x01) != 0
    }

    pub fn is_lyc_interrupt_enabled(&self) -> (r: bool)
        ensures
            r == (self.stat & 0x40 != 0),
    {
        (self.stat & 0x40) != 0
    }

    pub fn is_oam_interrupt_enabled(&self) -> (r: bool)
        ensures
            r == (self.stat & 0x20 != 0),
    {
        (self.stat & 0x20) != 0
    }

    pub fn is_vblank_interrupt_enabled(&self) -> (r: bool)
        ensures
            r == (self.stat & 0x10 != 0),
    {
        (self.stat & 0x10) != 0
    }

    pub fn is_hblank_interrupt_enabled(&self) -> (r: bool)
        ensures
            r == (self.stat & 0x08 != 0),
    {
        (self.stat & 0x08) != 0
    }

    pub fn is_lyc_equal(&self) -> (r: bool)
        ensures
            r == (self.stat & 0x04 != 0),
    {
        (self.stat & 0x04) != 0
    }

    pub fn get_mode(&self) -> (r: u8)
        ensures
            r == self.stat & 0x03,
    {
        self.stat & 0x03
    }

    /// The background shade of a color ID through BGP.
    pub fn get_bg_palette_color(&self, color_id: u8) -> (r: u8)
        ensures
            r == palette_shade(self.bgp, color_id),
            r < 4,
    {
        apply_palette(self.bgp, color_id)
    }
}

/// The shade a palette byte gives a color ID.
pub fn apply_palette(palette: u8, color_id: u8) -> (r: u8)
    ensures
        r == palette_shade(palette, color_id),
        r < 4,
{
    let c = color_id & 0x03;
    assert(color_id & 0x03 < 4) by (bit_vector);
    assert(forall|p: u8, s: u8| #[trigger] ((p >> s) & 0x03) < 4) by (bit_vector);
    (palette >> (2 * c)) & 0x03
}

} // verus!
