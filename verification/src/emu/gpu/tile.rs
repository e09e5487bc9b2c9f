//! Tiles and tile maps
//!
//! A [Tile] is an 8x8 array of pixels. A tile map is a layer of indirection,
//! containing [TileIndex]es. These indexes map to actual tiles.

use vstd::prelude::*;
use crate::emu::gpu::ColorIndex;
use crate::util::{Bit, bit_is_set};

verus! {

/// Number of bytes of tile pixel data (3 blocks of 128 tiles, 16 bytes each)
pub const TILE_DATA_LEN: usize = 6144;

/// Number of bytes in both tile maps (2 maps of 32x32 indexes)
pub const TILE_MAPS_LEN: usize = 2048;

/// The color index of a pixel whose bits in the two bytes of its tile line
/// are `low` and `high`: the first byte gives the lesser bit of the index,
/// the second byte the greater one
pub open spec fn color_of_bits(low: bool, high: bool) -> ColorIndex {
    if !low && !high {
        ColorIndex::Zero
    } else if low && !high {
        ColorIndex::One
    } else if !low && high {
        ColorIndex::Two
    } else {
        ColorIndex::Three
    }
}

/// An 8x8 collection of pixels
///
/// A tile is 16 bytes:
/// - 4 colors per pixel => 2 bits per pixel
/// - 8 pixels per line => 2 bytes per line
/// - 8 lines => 16 bytes total
///
/// https://gbdev.io/pandocs/Tile_Data.html
#[derive(Clone, Copy, Debug)]
pub struct Tile {
    pub lines: [TileLine; 8],
}

impl Tile {
    /// Width of a tile, in pixels
    pub const WIDTH: u8 = 8;
    /// Height of a tile, in pixels
    pub const HEIGHT: u8 = 8;

    /// The color index of the pixel at `(x, y)`: column `x` is held in bit
    /// `7 - x` of both bytes of line `y`
    pub open spec fn spec_pixel(self, x: u8, y: u8) -> ColorIndex {
        color_of_bits(
            bit_is_set(self.lines@[y as int].low, (7 - x) as u8),
            bit_is_set(self.lines@[y as int].high, (7 - x) as u8),
        )
    }

    /// Create a tile from an 8x8 array of [ColorIndex]es (`pixels[y][x]`)
    pub fn from_pixels(pixels: [[ColorIndex; 8]; 8]) -> (r: Self)
        ensures
            forall|x: u8, y: u8| x < 8 && y < 8 ==> #[trigger] r.spec_pixel(x, y) == pixels@[y as int]@[x as int],
    {
        let r = Self {
            lines: [
                TileLine::from_pixels(pixels[0]),
                TileLine::from_pixels(pixels[1]),
                TileLine::from_pixels(pixels[2]),
                TileLine::from_pixels(pixels[3]),
                TileLine::from_pixels(pixels[4]),
                TileLine::from_pixels(pixels[5]),
                TileLine::from_pixels(pixels[6]),
                TileLine::from_pixels(pixels[7]),
            ],
        };
        assert forall|x: u8, y: u8| x < 8 && y < 8 implies #[trigger] r.spec_pixel(x, y) == pixels@[y as int]@[x as int] by {
            if y == 0 {} else if y == 1 {} else if y == 2 {} else if y == 3 {} else if y == 4 {
            } else if y == 5 {} else if y == 6 {} else {}
        }
        r
    }

    /// Get a color index for a single pixel in the tile
    ///
    /// `x` and `y` must both be in the range `[0, 7]`.
    pub fn pixel(&self, x: u8, y: u8) -> (r: ColorIndex)
        requires
            x < 8,
            y < 8,
        ensures
            r == self.spec_pixel(x, y),
    {
        let line = self.lines[y as usize];
        // Grab the bit corresponding to this pixel from each byte
        let bit = Bit(7 - x);
        let low = bit.get(line.low);
        let high = bit.get(line.high);
        if !low && !high {
            ColorIndex::Zero
        } else if low && !high {
            ColorIndex::One
        } else if !low && high {
            ColorIndex::Two
        } else {
            ColorIndex::Three
        }
    }
}

/// A single 8-pixel line in a tile
///
/// A pixel is a color index 0-3 (2 bits). Each index's bits are split across
/// both bytes of the line: bit 7 of each byte holds the left-most pixel, bit 6
/// the second pixel, and so on. The first byte (`low`) holds the lesser bit of
/// the index, the second byte (`high`) the greater bit.
#[derive(Clone, Copy, Debug, Default, PartialEq, Eq, Structural)]
pub struct TileLine {
    pub low: u8,
    pub high: u8,
}

impl TileLine {
    /// Create a tile line from 8 [ColorIndex]es
    pub fn from_pixels(pixels: [ColorIndex; 8]) -> (r: Self)
        ensures
            forall|j: u8|
                j < 8 ==> color_of_bits(#[trigger] bit_is_set(r.low, j), bit_is_set(r.high, j)) == pixels@[7 - j],
    {
        let mut low: u8 = 0;
        let mut high: u8 = 0;
        let mut k: u8 = 0;
        proof {
            crate::util::lemma_zero_byte_bits();
        }
        while k < 8
            invariant
                k <= 8,
                forall|j: u8| 8 - k <= j < 8 ==> color_of_bits(#[trigger] bit_is_set(low, j), bit_is_set(high, j)) == pixels@[7 - j],
            decreases 8 - k,
        {
            let bit = Bit(7 - k);
            let (low_bit, high_bit) = match pixels[k as usize] {
                ColorIndex::Zero => (false, false),
                ColorIndex::One => (true, false),
                ColorIndex::Two => (false, true),
                ColorIndex::Three => (true, true),
            };
            low = bit.set(low, low_bit);
            high = bit.set(high, high_bit);
            k = k + 1;
        }
        Self { low, high }
    }
}

/// Index of a single tile in a tile map
///
/// https://gbdev.io/pandocs/Tile_Maps.html#tile-indexes
#[derive(Clone, Copy, Debug, Default, PartialEq, Eq, Structural)]
pub struct TileIndex(pub u8);

impl TileIndex {
    /// Get the index of the tile after this one
    ///
    /// This is used for 8x16 tiles. The bottom tile is always the one
    /// immediately after the top tile.
    pub fn next(self) -> (r: Self)
        requires
            self.0 < 255,
        ensures
            r.0 == self.0 + 1,
    {
        Self(self.0 + 1)
    }
}

/// Selector for a block of tile *map* memory
#[derive(Clone, Copy, Debug, PartialEq, Eq, Structural)]
pub enum TileMapArea {
    /// `0x9800–0x9BFF`
    Low,
    /// `0x9C00–0x9FFF`
    High,
}

/// Selector for which blocks of tile data are in use.
///
/// There are 3 blocks:
/// - Block 0: `0x8000-0x87FF`
/// - Block 1: `0x8800-0x8FFF`
/// - Block 2: `0x9000-0x97FF`
///
/// At any given time two blocks are accessible: 0-1 or 1-2.
#[derive(Clone, Copy, Debug, PartialEq, Eq, Structural)]
pub enum TileDataArea {
    /// `0x8000-0x8FFF` (blocks 0 and 1)
    ///
    /// This is called "`$8000` addressing mode" in Pandocs: index `i` is
    /// tile `i`, counted from `0x8000`.
    Low,
    /// `0x8800-0x97FF` (blocks 1 and 2)
    ///
    /// This is called "`$8800` addressing mode" in Pandocs: the index is
    /// signed and counted from `0x9000`, so indexes 0-127 are tiles 256-383
    /// (block 2) and indexes 128-255 are tiles 128-255 (block 1).
    High,
}

/// Position of a tile within all of tile data for an index and area
pub open spec fn tile_number(index: TileIndex, area: TileDataArea) -> int {
    match area {
        TileDataArea::Low => index.0 as int,
        TileDataArea::High => if index.0 < 128 {
            256 + index.0
        } else {
            index.0 as int
        },
    }
}

/// The tile stored at position `t` of tile data
pub open spec fn tile_line_at(data: Seq<u8>, t: int, line: int) -> TileLine {
    TileLine { low: data[16 * t + 2 * line], high: data[16 * t + 2 * line + 1] }
}

/// An array of tile *definitions*
///
/// This is where the tile pixel data is defined. Objects reference this
/// directly, but the window and background go through the tile maps.
///
/// https://gbdev.io/pandocs/Tile_Data.html
#[derive(Debug)]
pub struct TileData {
    /// Tile pixel data, 16 bytes per tile
    ///
    /// This is split into 3 logical blocks, each 128 tiles (2048 bytes).
    pub data: Vec<u8>,
}

impl TileData {
    /// Number of tiles in each block
    pub const BLOCK_LENGTH: usize = 128;

    /// The data holds three blocks of tiles.
    pub open spec fn wf(&self) -> bool {
        self.data@.len() == TILE_DATA_LEN
    }

    /// All-zero tile data
    pub fn new() -> (r: Self)
        ensures
            r.wf(),
            forall|i: int| 0 <= i < TILE_DATA_LEN ==> #[trigger] r.data@[i] == 0,
    {
        Self { data: crate::emu::memory::zeroed(TILE_DATA_LEN) }
    }

    /// Get the raw bytes of **all** tiles (not just the active blocks)
    pub fn as_slice(&self) -> (r: &[u8])
        ensures
            r@ == self.data@,
    {
        self.data.as_slice()
    }

    /// Get the raw bytes of **all** tiles, for writing
    pub fn as_slice_mut(&mut self) -> (r: &mut [u8])
        ensures
            r@ == old(self).data@,
            final(self).data@ == final(r)@,
    {
        self.data.as_mut_slice()
    }

    /// Get a tile by index
    ///
    /// `area` defines which tile blocks are active: low+middle or middle+high.
    /// Background and window use the `bg_window_tiles` flag in the `LCDC`
    /// register, but objects always use [TileDataArea::Low].
    pub fn get(&self, index: TileIndex, area: TileDataArea) -> (r: Tile)
        requires
            self.wf(),
        ensures
            forall|line: int| 0 <= line < 8 ==> #[trigger] r.lines@[line] == tile_line_at(self.data@, tile_number(index, area), line),
    {
        let t: usize = match area {
            TileDataArea::Low => index.0 as usize,
            TileDataArea::High => if index.0 < 128 {
                2 * Self::BLOCK_LENGTH + index.0 as usize
            } else {
                index.0 as usize
            },
        };
        let base = 16 * t;
        let r = Tile {
            lines: [
                TileLine { low: self.data[base], high: self.data[base + 1] },
                TileLine { low: self.data[base + 2], high: self.data[base + 3] },
                TileLine { low: self.data[base + 4], high: self.data[base + 5] },
                TileLine { low: self.data[base + 6], high: self.data[base + 7] },
                TileLine { low: self.data[base + 8], high: self.data[base + 9] },
                TileLine { low: self.data[base + 10], high: self.data[base + 11] },
                TileLine { low: self.data[base + 12], high: self.data[base + 13] },
                TileLine { low: self.data[base + 14], high: self.data[base + 15] },
            ],
        };
        assert forall|line: int| 0 <= line < 8 implies #[trigger] r.lines@[line] == tile_line_at(self.data@, tile_number(index, area), line) by {
            if line == 0 {} else if line == 1 {} else if line == 2 {} else if line == 3 {} else if line == 4 {
            } else if line == 5 {} else if line == 6 {} else {}
        }
        r
    }

    /// Set a tile by index
    ///
    /// This is for generating test data; the Game Boy itself writes tile data
    /// through the memory bus.
    pub fn set(&mut self, index: u8, tile: Tile)
        requires
            old(self).wf(),
        ensures
            final(self).wf(),
            forall|line: int| 0 <= line < 8 ==> #[trigger] tile_line_at(final(self).data@, index as int, line) == tile.lines@[line],
            forall|i: int| 0 <= i < TILE_DATA_LEN && !(16 * index <= i < 16 * index + 16) ==> #[trigger] final(self).data@[i] == old(self).data@[i],
    {
        let base = 16 * (index as usize);
        let mut k: usize = 0;
        while k < 8
            invariant
                k <= 8,
                base == 16 * index,
                self.wf(),
                forall|line: int| 0 <= line < k ==> #[trigger] tile_line_at(self.data@, index as int, line) == tile.lines@[line],
                forall|i: int| 0 <= i < TILE_DATA_LEN && !(16 * index <= i < 16 * index + 2 * k) ==> #[trigger] self.data@[i] == old(self).data@[i],
            decreases 8 - k,
        {
            let line = tile.lines[k];
            let ghost prev = self.data@;
            self.data.set(base + 2 * k, line.low);
            self.data.set(base + 2 * k + 1, line.high);
            assert forall|l: int| 0 <= l < k + 1 implies #[trigger] tile_line_at(self.data@, index as int, l) == tile.lines@[l] by {
                if l < k {
                    assert(tile_line_at(prev, index as int, l) == tile.lines@[l]);
                }
            }
            k = k + 1;
        }
    }
}

/// Container for two tile maps (low and high)
///
/// A tile map is a collection of tile *indexes*. Those indexes point to
/// [TileData], where the pixel values are actually stored. [TileMapArea]
/// selects between the two maps.
///
/// https://gbdev.io/pandocs/Tile_Maps.html
#[derive(Debug)]
pub struct TileMaps {
    /// `[lower, upper]` tile maps, 32x32 indexes each, row by row
    pub maps: Vec<u8>,
}

/// Position in the tile map bytes of the tile at `(x, y)` of a map
pub open spec fn map_position(x: int, y: int, area: TileMapArea) -> int {
    (match area {
        TileMapArea::Low => 0int,
        TileMapArea::High => 1024,
    }) + y * 32 + x
}

impl TileMaps {
    /// Width of a single map, in tiles
    pub const WIDTH: usize = 32;
    /// Height of a single map, in tiles
    pub const HEIGHT: usize = 32;
    /// Number of total tiles in a single map
    pub const LENGTH: usize = 1024;

    /// The maps hold two 32x32 grids.
    pub open spec fn wf(&self) -> bool {
        self.maps@.len() == TILE_MAPS_LEN
    }

    /// All-zero tile maps
    pub fn new() -> (r: Self)
        ensures
            r.wf(),
            forall|i: int| 0 <= i < TILE_MAPS_LEN ==> #[trigger] r.maps@[i] == 0,
    {
        Self { maps: crate::emu::memory::zeroed(TILE_MAPS_LEN) }
    }

    /// Get the raw bytes of both tile maps
    pub fn as_slice(&self) -> (r: &[u8])
        ensures
            r@ == self.maps@,
    {
        self.maps.as_slice()
    }

    /// Get the raw bytes of both tile maps, for writing
    pub fn as_slice_mut(&mut self) -> (r: &mut [u8])
        ensures
            r@ == old(self).maps@,
            final(self).maps@ == final(r)@,
    {
        self.maps.as_mut_slice()
    }

    /// Get a tile by its coordinate
    ///
    /// `(0,0)` is the first tile, `(1,0)` is the second, etc.
    ///
    /// https://gbdev.io/pandocs/pixel_fifo.html#get-tile
    pub fn get(&self, x: u8, y: u8, area: TileMapArea) -> (r: TileIndex)
        requires
            self.wf(),
            x < 32,
            y < 32,
        ensures
            r.0 == self.maps@[map_position(x as int, y as int, area)],
    {
        let base: usize = match area {
            TileMapArea::Low => 0,
            TileMapArea::High => Self::LENGTH,
        };
        let index = base + (y as usize) * 32 + (x as usize);
        TileIndex(self.maps[index])
    }
}

impl Clone for TileData {
    fn clone(&self) -> (r: Self)
        ensures
            r.data@ == self.data@,
    {
        let data = self.data.clone();
        assert(data@ =~= self.data@);
        TileData { data }
    }
}

impl Clone for TileMaps {
    fn clone(&self) -> (r: Self)
        ensures
            r.maps@ == self.maps@,
    {
        let maps = self.maps.clone();
        assert(maps@ =~= self.maps@);
        TileMaps { maps }
    }
}

} // verus!
