use vstd::prelude::*;

use super::registers::{apply_palette, palette_shade};
use super::vram::{color_id, color_id_of, tile_address, tile_base, tile_pixel, vram_byte, TileAddressingMode, Vram};

verus! {

/// The display color of a shade: a green-tinted four-level palette.
pub open spec fn shade_rgb(shade: u8) -> (u8, u8, u8) {
    if shade & 0x03 == 0 {
        (0x9B, 0xBC, 0x0F)
    } else if shade & 0x03 == 1 {
        (0x8B, 0xAC, 0x0F)
    } else if shade & 0x03 == 2 {
        (0x30, 0x62, 0x30)
    } else {
        (0x0F, 0x38, 0x0F)
    }
}

/// The grey level of a shade.
pub open spec fn shade_gray(shade: u8) -> u8 {
    if shade & 0x03 == 0 {
        0xFF
    } else if shade & 0x03 == 1 {
        0xAA
    } else if shade & 0x03 == 2 {
        0x55
    } else {
        0x00
    }
}

/// The 64 color IDs of a tile, row by row.
pub open spec fn decoded_tile(data: Seq<u8>, tile_id: u8, mode: TileAddressingMode) -> Seq<u8> {
    Seq::new(64, |i: int| tile_pixel(data, tile_base(tile_id, mode) as int, i / 8, i % 8))
}

/// Color IDs mapped through a palette.
pub open spec fn shaded(pixels: Seq<u8>, palette: u8) -> Seq<u8> {
    Seq::new(pixels.len(), |i: int| palette_shade(palette, pixels[i]))
}

/// Maps shades to display colors.
pub struct ColorConverter;

impl ColorConverter {
    pub fn dmg_to_rgb888(color_id: u8) -> (r: (u8, u8, u8))
        ensures
            r == shade_rgb(color_id),
    {
        match color_id & 0x03 {
            0 => (0x9B, 0xBC, 0x0F),
            1 => (0x8B, 0xAC, 0x0F),
            2 => (0x30, 0x62, 0x30),
            _ => (0x0F, 0x38, 0x0F),
        }
    }

    pub fn dmg_to_gray(color_id: u8) -> (r: u8)
        ensures
            r == shade_gray(color_id),
    {
        match color_id & 0x03 {
            0 => 0xFF,
            1 => 0xAA,
            2 => 0x55,
            _ => 0x00,
        }
    }
}

/// One cached tile.
pub struct TileCacheEntry {
    pub tile_id: u8,
    pub addressing_mode: TileAddressingMode,
    pub pixels: Vec<u8>,
    /// The 16 tile-data bytes the pixels were decoded from, when known.
    pub source: Option<Vec<u8>>,
    pub access_count: u32,
}

/// Whether an entry caches a tile.
pub open spec fn entry_is(e: TileCacheEntry, tile_id: u8, mode: TileAddressingMode) -> bool {
    e.tile_id == tile_id && e.addressing_mode == mode
}

/// The index of the first entry for a tile at or after `i`, or the length when none.
pub open spec fn find_from(s: Seq<TileCacheEntry>, tile_id: u8, mode: TileAddressingMode, i: int) -> int
    decreases s.len() - i,
{
    if i >= s.len() || i < 0 {
        s.len() as int
    } else if entry_is(s[i], tile_id, mode) {
        i
    } else {
        find_from(s, tile_id, mode, i + 1)
    }
}

/// The index of the first entry for a tile, or the length when none.
pub open spec fn find_entry(s: Seq<TileCacheEntry>, tile_id: u8, mode: TileAddressingMode) -> int {
    find_from(s, tile_id, mode, 0)
}

/// The index of the first entry with the smallest access count.
pub open spec fn is_first_min(s: Seq<TileCacheEntry>, k: int) -> bool {
    &&& 0 <= k < s.len()
    &&& forall|j: int| 0 <= j < s.len() ==> s[k].access_count <= #[trigger] s[j].access_count
    &&& forall|j: int| 0 <= j < k ==> s[k].access_count < #[trigger] s[j].access_count
}

pub open spec fn bump(c: u32) -> u32 {
    if c == u32::MAX {
        0
    } else {
        (c + 1) as u32
    }
}

proof fn lemma_find_from_bounds(s: Seq<TileCacheEntry>, tile_id: u8, mode: TileAddressingMode, i: int)
    requires
        0 <= i <= s.len(),
    ensures
        i <= find_from(s, tile_id, mode, i) <= s.len(),
        find_from(s, tile_id, mode, i) < s.len() ==> entry_is(s[find_from(s, tile_id, mode, i)], tile_id, mode),
    decreases s.len() - i,
{
    if i < s.len() && !entry_is(s[i], tile_id, mode) {
        lemma_find_from_bounds(s, tile_id, mode, i + 1);
    }
}

/// A byte-for-byte copy.
pub fn copy_bytes(v: &Vec<u8>) -> (r: Vec<u8>)
    ensures
        r@ == v@,
{
    let mut r: Vec<u8> = Vec::new();
    let mut i: usize = 0;
    while i < v.len()
        invariant
            i <= v@.len(),
            r@ == v@.subrange(0, i as int),
        decreases v.len() - i,
    {
        r.push(v[i]);
        i = i + 1;
        assert(r@ =~= v@.subrange(0, i as int));
    }
    assert(r@ =~= v@);
    r
}

/// A bounded cache of decoded tiles; the least-used entry leaves when it is full.
pub struct TileCache {
    pub entries: Vec<TileCacheEntry>,
    pub max_entries: usize,
}

impl TileCache {
    pub open spec fn wf(&self) -> bool {
        &&& self.max_entries == 64
        &&& self.entries@.len() <= self.max_entries
        &&& forall|i: int| 0 <= i < self.entries@.len() ==> (#[trigger] self.entries@[i]).pixels@.len() == 64
    }

    pub fn new() -> (r: Self)
        ensures
            r.wf(),
            r.entries@.len() == 0,
    {
        TileCache { entries: Vec::new(), max_entries: 64 }
    }

    fn find(&self, tile_id: u8, addressing_mode: TileAddressingMode) -> (r: usize)
        ensures
            r == find_entry(self.entries@, tile_id, addressing_mode),
            r <= self.entries@.len(),
            r < self.entries@.len() ==> entry_is(self.entries@[r as int], tile_id, addressing_mode),
    {
        proof {
            lemma_find_from_bounds(self.entries@, tile_id, addressing_mode, 0);
        }
        let mut i: usize = 0;
        while i < self.entries.len()
            invariant
                i <= self.entries@.len(),
                find_from(self.entries@, tile_id, addressing_mode, i as int) == find_entry(
                    self.entries@,
                    tile_id,
                    addressing_mode,
                ),
            decreases self.entries.len() - i,
        {
            if self.entries[i].tile_id == tile_id && self.entries[i].addressing_mode == addressing_mode {
                return i;
            }
            i = i + 1;
        }
        i
    }

    /// The cached pixels of a tile, counting the access.
    pub fn get(&mut self, tile_id: u8, addressing_mode: TileAddressingMode) -> (r: Option<Vec<u8>>)
        requires
            old(self).wf(),
        ensures
            final(self).wf(),
            final(self).entries@.len() == old(self).entries@.len(),
            ({
                let k = find_entry(old(self).entries@, tile_id, addressing_mode);
                if k < old(self).entries@.len() {
                    &&& r matches Some(p) && p@ == old(self).entries@[k].pixels@
                    &&& final(self).entries@ == old(self).entries@.update(
                        k,
                        TileCacheEntry {
                            access_count: bump(old(self).entries@[k].access_count),
                            ..old(self).entries@[k]
                        },
                    )
                } else {
                    r.is_none() && final(self).entries@ == old(self).entries@
                }
            }),
    {
        let k = self.find(tile_id, addressing_mode);
        if k < self.entries.len() {
            let mut e = self.entries.remove(k);
            e.access_count = e.access_count.wrapping_add(1);
            let p = copy_bytes(&e.pixels);
            self.entries.insert(k, e);
            assert(self.entries@ =~= old(self).entries@.update(
                k as int,
                TileCacheEntry { access_count: bump(old(self).entries@[k as int].access_count), ..old(self).entries@[k as int] },
            ));
            Some(p)
        } else {
            None
        }
    }

    fn first_min(&self) -> (r: usize)
        requires
            self.entries@.len() > 0,
        ensures
            is_first_min(self.entries@, r as int),
    {
        let mut best: usize = 0;
        let mut i: usize = 1;
        while i < self.entries.len()
            invariant
                1 <= i <= self.entries@.len(),
                best < i,
                forall|j: int| 0 <= j < i ==> self.entries@[best as int].access_count <= #[trigger] self.entries@[j].access_count,
                forall|j: int| 0 <= j < best ==> self.entries@[best as int].access_count < #[trigger] self.entries@[j].access_count,
            decreases self.entries.len() - i,
        {
            if self.entries[i].access_count < self.entries[best].access_count {
                best = i;
            }
            i = i + 1;
        }
        best
    }

    /// Stores the pixels of a tile, with no record of their source bytes, evicting the
    /// least-used entry when full.
    pub fn put(&mut self, tile_id: u8, addressing_mode: TileAddressingMode, pixels: Vec<u8>)
        requires
            old(self).wf(),
            pixels@.len() == 64,
        ensures
            final(self).wf(),
            stored(old(self).entries@, final(self).entries@, tile_id, addressing_mode, pixels, None),
    {
        self.store(tile_id, addressing_mode, pixels, None);
    }

    /// Stores the pixels of a tile and the bytes they came from, evicting the least-used entry
    /// when full.
    pub fn store(&mut self, tile_id: u8, addressing_mode: TileAddressingMode, pixels: Vec<u8>, source: Option<Vec<u8>>)
        requires
            old(self).wf(),
            pixels@.len() == 64,
        ensures
            final(self).wf(),
            stored(old(self).entries@, final(self).entries@, tile_id, addressing_mode, pixels, source),
    {
        let k = self.find(tile_id, addressing_mode);
        if k < self.entries.len() {
            let mut e = self.entries.remove(k);
            e.pixels = pixels;
            e.source = source;
            e.access_count = e.access_count.wrapping_add(1);
            self.entries.insert(k, e);
            proof {
                let s = old(self).entries@;
                assert(self.entries@ =~= s.update(
                    k as int,
                    TileCacheEntry { pixels, source, access_count: bump(s[k as int].access_count), ..s[k as int] },
                ));
            }
            return;
        }
        if self.entries.len() >= self.max_entries {
            let m = self.first_min();
            self.entries.remove(m);
        }
        self.entries.push(TileCacheEntry { tile_id, addressing_mode, pixels, source, access_count: 1 });
    }

    /// Whether the cached entry of a tile was decoded from exactly these bytes.
    pub fn matches_source(&self, tile_id: u8, addressing_mode: TileAddressingMode, bytes: &Vec<u8>) -> (r: bool)
        ensures
            ({
                let k = find_entry(self.entries@, tile_id, addressing_mode);
                r == (k < self.entries@.len() && source_is(self.entries@[k], bytes@))
            }),
    {
        proof {
            lemma_find_from_bounds(self.entries@, tile_id, addressing_mode, 0);
        }
        let k = self.find(tile_id, addressing_mode);
        if k >= self.entries.len() {
            return false;
        }
        match &self.entries[k].source {
            Some(src) => {
                assert(source_is(self.entries@[k as int], bytes@) == (src@ == bytes@));
                if src.len() != bytes.len() {
                    return false;
                }
                let mut i: usize = 0;
                while i < src.len()
                    invariant
                        i <= src@.len(),
                        src@.len() == bytes@.len(),
                        forall|j: int| 0 <= j < i ==> src@[j] == bytes@[j],
                        k < self.entries@.len(),
                        k == find_entry(self.entries@, tile_id, addressing_mode),
                        source_is(self.entries@[k as int], bytes@) == (src@ == bytes@),
                    decreases src.len() - i,
                {
                    if src[i] != bytes[i] {
                        assert(src@[i as int] != bytes@[i as int]);
                        assert(src@ != bytes@);
                        return false;
                    }
                    i = i + 1;
                }
                assert(src@ =~= bytes@);
                true
            },
            None => {
                assert(!source_is(self.entries@[k as int], bytes@));
                false
            },
        }
    }

    pub fn clear(&mut self)
        requires
            old(self).wf(),
        ensures
            final(self).wf(),
            final(self).entries@.len() == 0,
    {
        self.entries = Vec::new();
    }
}

/// The entries after storing `pixels` (and their source) for a tile: the tile's entry is
/// replaced, or a fresh one appended, the least-used entry leaving when 64 are held.
pub open spec fn stored(
    s: Seq<TileCacheEntry>,
    t: Seq<TileCacheEntry>,
    tile_id: u8,
    addressing_mode: TileAddressingMode,
    pixels: Vec<u8>,
    source: Option<Vec<u8>>,
) -> bool {
    let k = find_entry(s, tile_id, addressing_mode);
    let fresh = TileCacheEntry { tile_id, addressing_mode, pixels, source, access_count: 1 };
    if k < s.len() {
        t == s.update(k, TileCacheEntry { pixels, source, access_count: bump(s[k].access_count), ..s[k] })
    } else if s.len() < 64 {
        t == s.push(fresh)
    } else {
        exists|m: int| is_first_min(s, m) && t == s.remove(m).push(fresh)
    }
}

/// The 64 color IDs of the tile whose 16 data bytes are given.
pub open spec fn decode_bytes(b: Seq<u8>) -> Seq<u8> {
    Seq::new(64, |i: int| color_id_of(b[2 * (i / 8)], b[2 * (i / 8) + 1], (7 - i % 8) as u8))
}

/// The 16 data bytes of the tile at `base` in video memory.
pub open spec fn tile_bytes(data: Seq<u8>, base: int) -> Seq<u8> {
    Seq::new(16, |k: int| vram_byte(data, base + k))
}

/// Whether an entry records exactly these source bytes.
pub open spec fn source_is(e: TileCacheEntry, b: Seq<u8>) -> bool {
    match e.source {
        Some(src) => src@ == b,
        None => false,
    }
}

/// Every cached entry with a recorded source holds the decoding of that source.
pub open spec fn sources_decode(entries: Seq<TileCacheEntry>) -> bool {
    forall|i: int|
        0 <= i < entries.len() ==> ((#[trigger] entries[i]).source matches Some(src) ==> src@.len() == 16
            && entries[i].pixels@ == decode_bytes(src@))
}

/// Decoding a tile's current bytes is decoding the tile from video memory.
proof fn lemma_decode_current(data: Seq<u8>, tile_id: u8, mode: TileAddressingMode)
    ensures
        decode_bytes(tile_bytes(data, tile_base(tile_id, mode) as int)) == decoded_tile(data, tile_id, mode),
{
    let base = tile_base(tile_id, mode) as int;
    let b = tile_bytes(data, base);
    assert forall|i: int| 0 <= i < 64 implies #[trigger] decode_bytes(b)[i] == decoded_tile(data, tile_id, mode)[i] by {
        assert(0 <= i / 8 < 8) by (nonlinear_arith)
            requires
                0 <= i < 64,
        ;
    }
    assert(decode_bytes(b) =~= decoded_tile(data, tile_id, mode));
}

/// Decodes tiles through a cache and applies palettes.
pub struct TileRenderer {
    pub cache: TileCache,
}

impl TileRenderer {
    pub open spec fn wf(&self) -> bool {
        self.cache.wf() && sources_decode(self.cache.entries@)
    }

    pub fn new() -> (r: Self)
        ensures
            r.wf(),
            r.cache.entries@.len() == 0,
    {
        TileRenderer { cache: TileCache::new() }
    }

    /// The 64 shades of a tile as video memory now holds it. A cached decoding is used only when
    /// it was made from the tile's current bytes; otherwise the tile is decoded again and cached.
    pub fn render_tile(&mut self, vram: &Vram, tile_id: u8, addressing_mode: TileAddressingMode, palette: u8) -> (r: Vec<u8>)
        requires
            old(self).wf(),
            vram.wf(),
        ensures
            final(self).wf(),
            r@ == shaded(decoded_tile(vram@, tile_id, addressing_mode), palette),
    {
        proof {
            lemma_find_from_bounds(self.cache.entries@, tile_id, addressing_mode, 0);
            lemma_decode_current(vram@, tile_id, addressing_mode);
        }
        let base = tile_address(tile_id, addressing_mode);
        let mut bytes: Vec<u8> = Vec::new();
        let mut k: u16 = 0;
        while k < 16
            invariant
                k <= 16,
                vram.wf(),
                base == tile_base(tile_id, addressing_mode),
                base <= 0x1FF0,
                bytes@ == tile_bytes(vram@, base as int).subrange(0, k as int),
            decreases 16 - k,
        {
            bytes.push(vram.read(base + k));
            k = k + 1;
            assert(bytes@ =~= tile_bytes(vram@, base as int).subrange(0, k as int));
        }
        assert(bytes@ =~= tile_bytes(vram@, base as int));
        if self.cache.matches_source(tile_id, addressing_mode, &bytes) {
            let ghost before = self.cache.entries@;
            match self.cache.get(tile_id, addressing_mode) {
                Some(cached) => {
                    proof {
                        let kk = find_entry(before, tile_id, addressing_mode);
                        assert(source_is(before[kk], bytes@));
                        assert(self.cache.entries@[kk] == (TileCacheEntry {
                            access_count: bump(before[kk].access_count),
                            ..before[kk]
                        }));
                        assert forall|i: int| 0 <= i < self.cache.entries@.len() implies ((#[trigger] self.cache.entries@[i]).source
                            matches Some(src) ==> src@.len() == 16 && self.cache.entries@[i].pixels@ == decode_bytes(src@)) by {
                            if i != kk {
                                assert(self.cache.entries@[i] == before[i]);
                            }
                        }
                    }
                    return self.apply_palette(&cached, palette);
                },
                None => {},
            }
        }
        let mut pixels: Vec<u8> = Vec::new();
        let mut i: usize = 0;
        while i < 64
            invariant
                i <= 64,
                bytes@.len() == 16,
                pixels@ == decode_bytes(bytes@).subrange(0, i as int),
            decreases 64 - i,
        {
            assert(2 * (i / 8) + 1 < 16) by (nonlinear_arith)
                requires
                    i < 64,
            ;
            let row = 2 * (i / 8);
            pixels.push(color_id(bytes[row], bytes[row + 1], (7 - i % 8) as u8));
            i = i + 1;
            assert(pixels@ =~= decode_bytes(bytes@).subrange(0, i as int));
        }
        assert(pixels@ =~= decode_bytes(bytes@));
        let copy = copy_bytes(&pixels);
        let ghost before = self.cache.entries@;
        let ghost src = bytes;
        self.cache.store(tile_id, addressing_mode, copy, Some(bytes));
        proof {
            let after = self.cache.entries@;
            let kk = find_entry(before, tile_id, addressing_mode);
            if kk < before.len() {
                assert forall|j: int| 0 <= j < after.len() implies ((#[trigger] after[j]).source matches Some(s2) ==> s2@.len()
                    == 16 && after[j].pixels@ == decode_bytes(s2@)) by {
                    if j != kk {
                        assert(after[j] == before[j]);
                    }
                }
            } else if before.len() >= 64 {
                let m = choose|m: int| is_first_min(before, m) && after == before.remove(m).push(
                    TileCacheEntry { tile_id, addressing_mode, pixels: copy, source: Some(src), access_count: 1 },
                );
                assert forall|j: int| 0 <= j < after.len() implies ((#[trigger] after[j]).source matches Some(s2) ==> s2@.len()
                    == 16 && after[j].pixels@ == decode_bytes(s2@)) by {
                    if j < m {
                        assert(after[j] == before[j]);
                    } else if j < after.len() - 1 {
                        assert(after[j] == before[j + 1]);
                    }
                }
            } else {
                assert forall|j: int| 0 <= j < after.len() implies ((#[trigger] after[j]).source matches Some(s2) ==> s2@.len()
                    == 16 && after[j].pixels@ == decode_bytes(s2@)) by {
                    if j < before.len() {
                        assert(after[j] == before[j]);
                    }
                }
            }
        }
        self.apply_palette(&pixels, palette)
    }

    fn apply_palette(&self, pixels: &Vec<u8>, palette: u8) -> (r: Vec<u8>)
        ensures
            r@ == shaded(pixels@, palette),
    {
        let mut result: Vec<u8> = Vec::new();
        let mut i: usize = 0;
        while i < pixels.len()
            invariant
                i <= pixels@.len(),
                result@ == shaded(pixels@, palette).subrange(0, i as int),
            decreases pixels.len() - i,
        {
            result.push(apply_palette(palette, pixels[i]));
            i = i + 1;
            assert(result@ =~= shaded(pixels@, palette).subrange(0, i as int));
        }
        assert(result@ =~= shaded(pixels@, palette));
        result
    }

    pub fn clear_cache(&mut self)
        requires
            old(self).wf(),
        ensures
            final(self).wf(),
            final(self).cache.entries@.len() == 0,
    {
        self.cache.clear();
    }
}

} // verus!
