//! Geometry of the canvas: the grid of tiles, the mosaic that shows all of them
//! at a glance, and the layout of RGBA rasters in memory.

use vstd::prelude::*;

verus! {

/// Side length of the canvas, in tiles.
pub const ROW_LENGTH: u32 = 16;

/// Side length of one tile, in pixels.
pub const TILE_SIZE: u32 = 64;

/// Number of tiles on the canvas.
pub const NO_TILES: u32 = ROW_LENGTH * ROW_LENGTH;

/// Side length, in pixels, of the downsampled copy of a tile inside the mosaic.
pub const OVERVIEW_TILE_SIZE: u32 = 8;

/// Side length of the mosaic, in pixels.
pub const OVERVIEW_IMAGE_SIZE: u32 = ROW_LENGTH * OVERVIEW_TILE_SIZE;

/// Number of bytes of one tile's RGBA raster.
pub const TILE_BYTES: usize = 64 * 64 * 4;

/// Number of bytes of the downsampled copy of one tile.
pub const OVERVIEW_TILE_BYTES: usize = 8 * 8 * 4;

/// Number of bytes of the mosaic's RGBA raster.
pub const OVERVIEW_BYTES: usize = 128 * 128 * 4;

/// A pixel address inside one tile.
#[derive(Clone, Copy, Debug, PartialEq, Eq, Structural)]
pub struct Position {
    pub x: u32,
    pub y: u32,
}

/// Four independent 8-bit channels.
#[derive(Clone, Copy, Debug, PartialEq, Eq, Structural)]
pub struct Color {
    pub r: u8,
    pub g: u8,
    pub b: u8,
    pub a: u8,
}

/// Index of the first byte of pixel `(x, y)` in a row-major RGBA raster of width `side`.
pub open spec fn pixel_offset(side: int, x: int, y: int) -> int {
    (y * side + x) * 4
}

/// `raster` with pixel `(x, y)` replaced by `c`.
pub open spec fn with_pixel(raster: Seq<u8>, side: int, x: int, y: int, c: Color) -> Seq<u8> {
    let k = pixel_offset(side, x, y);
    raster.update(k, c.r).update(k + 1, c.g).update(k + 2, c.b).update(k + 3, c.a)
}

/// A raster of `len` bytes, all zero: every pixel transparent black.
pub open spec fn blank(len: nat) -> Seq<u8> {
    Seq::new(len, |_k: int| 0u8)
}

/// Pixel offset, in the mosaic, of the region that shows tile `tile_idx`.
pub open spec fn tile_offset(tile_idx: int) -> (int, int) {
    (
        (tile_idx % ROW_LENGTH as int) * OVERVIEW_TILE_SIZE as int,
        (tile_idx / ROW_LENGTH as int) * OVERVIEW_TILE_SIZE as int,
    )
}

/// Whether byte `j` of the mosaic raster lies in the region of tile `tile_idx`.
pub open spec fn in_region(j: int, tile_idx: int) -> bool {
    let p = j / 4;
    let x = p % OVERVIEW_IMAGE_SIZE as int;
    let y = p / OVERVIEW_IMAGE_SIZE as int;
    let (ox, oy) = tile_offset(tile_idx);
    ox <= x < ox + OVERVIEW_TILE_SIZE && oy <= y < oy + OVERVIEW_TILE_SIZE
}

/// For byte `j` of the mosaic inside the region of `tile_idx`, the index of the
/// byte of the downsampled tile that it shows.
pub open spec fn region_source(j: int, tile_idx: int) -> int {
    let p = j / 4;
    let x = p % OVERVIEW_IMAGE_SIZE as int;
    let y = p / OVERVIEW_IMAGE_SIZE as int;
    let (ox, oy) = tile_offset(tile_idx);
    pixel_offset(OVERVIEW_TILE_SIZE as int, x - ox, y - oy) + j % 4
}

/// The mosaic `mosaic` with the region of tile `tile_idx` overwritten by `small`.
pub open spec fn with_region(mosaic: Seq<u8>, small: Seq<u8>, tile_idx: int) -> Seq<u8> {
    Seq::new(
        mosaic.len(),
        |j: int|
            if in_region(j, tile_idx) {
                small[region_source(j, tile_idx)]
            } else {
                mosaic[j]
            },
    )
}

/// The tile whose region holds byte `j` of the mosaic.
pub open spec fn region_owner(j: int) -> int {
    let p = j / 4;
    let x = p % OVERVIEW_IMAGE_SIZE as int;
    let y = p / OVERVIEW_IMAGE_SIZE as int;
    (y / OVERVIEW_TILE_SIZE as int) * ROW_LENGTH as int + x / OVERVIEW_TILE_SIZE as int
}

/// Pixel offset of a tile's region in the mosaic, from its row-major index.
pub fn get_tile_offset(tile_idx: usize) -> (r: (u32, u32))
    requires
        tile_idx < NO_TILES,
    ensures
        r.0 as int == tile_offset(tile_idx as int).0,
        r.1 as int == tile_offset(tile_idx as int).1,
{
    let idx = tile_idx as u32;
    let x = (idx % ROW_LENGTH) * OVERVIEW_TILE_SIZE;
    let y = (idx / ROW_LENGTH) * OVERVIEW_TILE_SIZE;
    (x, y)
}

/// Overwrites the region of tile `tile_idx` in the mosaic raster with `small`,
/// the downsampled tile; the rest of the mosaic is left as it was.
pub fn paste_region(mosaic: &mut Vec<u8>, small: &Vec<u8>, tile_idx: usize)
    requires
        old(mosaic)@.len() == OVERVIEW_BYTES,
        small@.len() == OVERVIEW_TILE_BYTES,
        tile_idx < NO_TILES,
    ensures
        final(mosaic)@ == with_region(old(mosaic)@, small@, tile_idx as int),
{
    let ghost before = mosaic@;
    let (ox, oy) = get_tile_offset(tile_idx);
    let n = mosaic.len();
    let mut j: usize = 0;
    while j < n
        invariant
            n == OVERVIEW_BYTES,
            mosaic@.len() == n,
            before.len() == n,
            small@.len() == OVERVIEW_TILE_BYTES,
            tile_idx < NO_TILES,
            ox as int == tile_offset(tile_idx as int).0,
            oy as int == tile_offset(tile_idx as int).1,
            j <= n,
            forall|k: int|
                0 <= k < j ==> mosaic@[k] == with_region(before, small@, tile_idx as int)[k],
            forall|k: int| j <= k < n ==> mosaic@[k] == before[k],
        decreases n - j,
    {
        let p = j / 4;
        let x = (p % (OVERVIEW_IMAGE_SIZE as usize)) as u32;
        let y = (p / (OVERVIEW_IMAGE_SIZE as usize)) as u32;
        if ox <= x && x < ox + OVERVIEW_TILE_SIZE && oy <= y && y < oy + OVERVIEW_TILE_SIZE {
            let s = (((y - oy) * OVERVIEW_TILE_SIZE + (x - ox)) * 4) as usize + j % 4;
            mosaic.set(j, small[s]);
        }
        j += 1;
    }
    assert(mosaic@ =~= with_region(before, small@, tile_idx as int));
}

} // verus!
