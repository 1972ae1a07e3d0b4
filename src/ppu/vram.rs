use vstd::prelude::*;

verus! {

/// Tile-data addressing selected by LCDC bit 4.
#[derive(Debug, Clone, Copy, PartialEq, Eq, Structural)]
pub enum TileAddressingMode {
    /// Index as a signed offset from 0x9000 (LCDC.4 = 0).
    Signed,
    /// Index as an unsigned offset from 0x8000 (LCDC.4 = 1).
    Unsigned,
}

/// Background/window tile map selected by LCDC bits 3 and 6.
#[derive(Debug, Clone, Copy, PartialEq, Eq, Structural)]
pub enum TileMapSelect {
    /// 0x9800-0x9BFF.
    Map0,
    /// 0x9C00-0x9FFF.
    Map1,
}

/// The 2-bit color ID at bit `bit` of a tile row's two bytes.
pub open spec fn color_id_of(lo: u8, hi: u8, bit: u8) -> u8 {
    ((lo >> bit) & 1) | (((hi >> bit) & 1) << 1)
}

/// The video-memory offset of a tile's first byte.
pub open spec fn tile_base(tile_id: u8, mode: TileAddressingMode) -> u16 {
    match mode {
        TileAddressingMode::Unsigned => (tile_id as u16 * 16) as u16,
        TileAddressingMode::Signed => if tile_id < 128 {
            (0x1000 + tile_id as u16 * 16) as u16
        } else {
            (0x0800 + (tile_id as u16 - 128) * 16) as u16
        },
    }
}

/// The byte at a video-memory offset, 0xFF beyond 8 KiB.
pub open spec fn vram_byte(data: Seq<u8>, offset: int) -> u8 {
    if 0 <= offset < 0x2000 {
        data[offset]
    } else {
        0xFF
    }
}

/// The color ID of pixel (x, y) of the tile starting at `base`.
pub open spec fn tile_pixel(data: Seq<u8>, base: int, y: int, x: int) -> u8 {
    color_id_of(vram_byte(data, base + 2 * y), vram_byte(data, base + 2 * y + 1), (7 - x) as u8)
}

/// Shifted-and-masked bit values stay below 4.
pub proof fn lemma_color_id_range(lo: u8, hi: u8, bit: u8)
    ensures
        color_id_of(lo, hi, bit) < 4,
{
    assert(((lo >> bit) & 1) | (((hi >> bit) & 1) << 1) < 4) by (bit_vector);
}

/// The color ID of a tile row's pixel.
pub fn color_id(lo: u8, hi: u8, bit: u8) -> (r: u8)
    requires
        bit < 8,
    ensures
        r == color_id_of(lo, hi, bit),
        r < 4,
{
    proof {
        lemma_color_id_range(lo, hi, bit);
    }
    ((lo >> bit) & 1) | (((hi >> bit) & 1) << 1)
}

/// A decoded tile: `pixels[y][x]` is a color ID.
#[derive(Debug)]
pub struct TileData {
    pub pixels: Vec<Vec<u8>>,
}

impl TileData {
    pub open spec fn wf(&self) -> bool {
        &&& self.pixels@.len() == 8
        &&& forall|y: int| 0 <= y < 8 ==> #[trigger] self.pixels@[y]@.len() == 8
    }

    /// An all-zero tile.
    pub fn new() -> (r: Self)
        ensures
            r.wf(),
            forall|y: int, x: int| 0 <= y < 8 && 0 <= x < 8 ==> #[trigger] r.pixels@[y]@[x] == 0,
    {
        let mut pixels: Vec<Vec<u8>> = Vec::new();
        let mut y: usize = 0;
        while y < 8
            invariant
                y <= 8,
                pixels@.len() == y,
                forall|j: int| 0 <= j < y ==> #[trigger] pixels@[j]@ == Seq::new(8, |i: int| 0u8),
            decreases 8 - y,
        {
            pixels.push(vec![0u8; 8]);
            y = y + 1;
        }
        TileData { pixels }
    }
}

/// 8 KiB of video memory, addressed from 0 (= 0x8000).
pub struct Vram {
    pub data: Vec<u8>,
    pub access_count: u32,
}

impl View for Vram {
    type V = Seq<u8>;

    open spec fn view(&self) -> Seq<u8> {
        self.data@
    }
}

impl Vram {
    pub open spec fn wf(&self) -> bool {
        self@.len() == 0x2000
    }

    pub fn new() -> (r: Self)
        ensures
            r.wf(),
            r.access_count == 0,
            forall|i: int| 0 <= i < 0x2000 ==> #[trigger] r@[i] == 0,
    {
        Vram { data: vec![0u8; 0x2000], access_count: 0 }
    }

    /// The byte at an offset; 0xFF beyond 8 KiB.
    pub fn read(&self, address: u16) -> (r: u8)
        requires
            self.wf(),
        ensures
            r == vram_byte(self@, address as int),
    {
        if (address as usize) < 0x2000 {
            self.data[address as usize]
        } else {
            0xFF
        }
    }

    /// Stores a byte; offsets beyond 8 KiB are dropped.
    pub fn write(&mut self, address: u16, value: u8)
        requires
            old(self).wf(),
        ensures
            final(self).wf(),
            address < 0x2000 ==> final(self)@ == old(self)@.update(address as int, value)
                && final(self).access_count == (if old(self).access_count == u32::MAX {
                    0
                } else {
                    (old(self).access_count + 1) as u32
                }),
            address >= 0x2000 ==> *final(self) == *old(self),
    {
        if (address as usize) < 0x2000 {
            self.data.set(address as usize, value);
            self.access_count = self.access_count.wrapping_add(1);
        }
    }

    /// Decodes the 8x8 color IDs of a tile.
    pub fn read_tile_data(&self, tile_id: u8, addressing_mode: TileAddressingMode) -> (r: TileData)
        requires
            self.wf(),
        ensures
            r.wf(),
            forall|y: int, x: int|
                0 <= y < 8 && 0 <= x < 8 ==> #[trigger] r.pixels@[y]@[x] == tile_pixel(
                    self@,
                    tile_base(tile_id, addressing_mode) as int,
                    y,
                    x,
                ),
    {
        let base_address = tile_address(tile_id, addressing_mode);
        let mut pixels: Vec<Vec<u8>> = Vec::new();
        let mut y: u16 = 0;
        while y < 8
            invariant
                y <= 8,
                self.wf(),
                base_address == tile_base(tile_id, addressing_mode),
                base_address <= 0x1FF0,
                pixels@.len() == y,
                forall|j: int|
                    0 <= j < y ==> (#[trigger] pixels@[j])@.len() == 8 && forall|x: int|
                        0 <= x < 8 ==> #[trigger] pixels@[j]@[x] == tile_pixel(self@, base_address as int, j, x),
            decreases 8 - y,
        {
            let byte1 = self.read(base_address + y * 2);
            let byte2 = self.read(base_address + y * 2 + 1);
            let mut row: Vec<u8> = Vec::new();
            let mut x: u8 = 0;
            while x < 8
                invariant
                    x <= 8,
                    y < 8,
                    self.wf(),
                    base_address <= 0x1FF0,
                    byte1 == vram_byte(self@, base_address + 2 * y),
                    byte2 == vram_byte(self@, base_address + 2 * y + 1),
                    row@.len() == x,
                    forall|i: int| 0 <= i < x ==> #[trigger] row@[i] == tile_pixel(self@, base_address as int, y as int, i),
                decreases 8 - x,
            {
                row.push(color_id(byte1, byte2, 7 - x));
                x = x + 1;
            }
            pixels.push(row);
            y = y + 1;
        }
        TileData { pixels }
    }

    /// The tile index at (x, y) of a tile map; 0 outside the 32x32 grid.
    pub fn read_tile_map(&self, map_select: TileMapSelect, x: u8, y: u8) -> (r: u8)
        requires
            self.wf(),
        ensures
            r == (if x >= 32 || y >= 32 {
                0
            } else {
                self@[map_base(map_select) + y * 32 + x]
            }),
    {
        if x >= 32 || y >= 32 {
            return 0;
        }
        let base_address: u16 = match map_select {
            TileMapSelect::Map0 => 0x1800,
            TileMapSelect::Map1 => 0x1C00,
        };
        self.read(base_address + (y as u16) * 32 + (x as u16))
    }

    pub fn get_access_count(&self) -> (r: u32)
        ensures
            r == self.access_count,
    {
        self.access_count
    }
}

/// The video-memory offset of a tile map.
pub open spec fn map_base(m: TileMapSelect) -> int {
    match m {
        TileMapSelect::Map0 => 0x1800,
        TileMapSelect::Map1 => 0x1C00,
    }
}

/// The video-memory offset of a tile's first byte.
pub fn tile_address(tile_id: u8, mode: TileAddressingMode) -> (r: u16)
    ensures
        r == tile_base(tile_id, mode),
        r <= 0x1FF0,
{
    match mode {
        TileAddressingMode::Unsigned => (tile_id as u16) * 16,
        TileAddressingMode::Signed => {
            if tile_id < 128 {
                0x1000 + (tile_id as u16) * 16
            } else {
                0x0800 + ((tile_id as u16 - 128) * 16)
            }
        },
    }
}

} // verus!
