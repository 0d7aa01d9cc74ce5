//! The tile store: the authoritative pixels of every tile, the mosaic that shows
//! them all downsampled, and the PNG encodings of both, always kept current.

use vstd::prelude::*;

use crate::geometry::{
    blank, in_region, paste_region, pixel_offset, region_owner, region_source,
    with_pixel, with_region, Color, Position, NO_TILES,
    OVERVIEW_BYTES, OVERVIEW_IMAGE_SIZE, OVERVIEW_TILE_SIZE, TILE_BYTES, TILE_SIZE,
};
use crate::imaging::{encode_png, gaussian_resized, png_encoding, resize_gaussian};

verus! {

/// Why a tile-store request was rejected.
#[derive(Clone, Copy, Debug, PartialEq, Eq, Structural)]
pub enum CanvasError {
    /// The tile index is not below the number of tiles.
    InvalidIndex,
    /// A coordinate of the position is not below the tile's side length.
    InvalidPosition,
}

/// The tiles and the mosaic, as raw RGBA rasters and as cached PNG files.
#[derive(Clone, Debug)]
pub struct CanvasState {
    overview_image: Vec<u8>,
    tile_images: Vec<Vec<u8>>,
    raw_overview: Vec<u8>,
    raw_tiles: Vec<Vec<u8>>,
}

/// The PNG file of a tile raster.
pub open spec fn tile_png(raster: Seq<u8>) -> Seq<u8> {
    png_encoding(TILE_SIZE, TILE_SIZE, raster)
}

/// The PNG file of a mosaic raster.
pub open spec fn overview_png(raster: Seq<u8>) -> Seq<u8> {
    png_encoding(OVERVIEW_IMAGE_SIZE, OVERVIEW_IMAGE_SIZE, raster)
}

/// The downsampled copy of a tile raster that its mosaic region shows.
pub open spec fn downsampled(raster: Seq<u8>) -> Seq<u8> {
    gaussian_resized(TILE_SIZE, raster, OVERVIEW_TILE_SIZE)
}

/// The tile rasters after pixel `pos` of tile `tile_idx` is set to `color`.
pub open spec fn tiles_after_write(
    tiles: Seq<Seq<u8>>,
    tile_idx: int,
    pos: Position,
    color: Color,
) -> Seq<Seq<u8>> {
    tiles.update(
        tile_idx,
        with_pixel(tiles[tile_idx], TILE_SIZE as int, pos.x as int, pos.y as int, color),
    )
}

/// The mosaic raster once the region of tile `tile_idx` shows the tile `tile`.
pub open spec fn overview_after_write(overview: Seq<u8>, tile: Seq<u8>, tile_idx: int) -> Seq<u8> {
    with_region(overview, downsampled(tile), tile_idx)
}

impl CanvasState {
    /// The RGBA raster of each tile, in row-major tile order.
    pub closed spec fn tiles(&self) -> Seq<Seq<u8>> {
        self.raw_tiles@.map_values(|t: Vec<u8>| t@)
    }

    /// The RGBA raster of the mosaic.
    pub closed spec fn overview(&self) -> Seq<u8> {
        self.raw_overview@
    }

    /// The cached PNG file of each tile.
    pub closed spec fn tile_images(&self) -> Seq<Seq<u8>> {
        self.tile_images@.map_values(|t: Vec<u8>| t@)
    }

    /// The cached PNG file of the mosaic.
    pub closed spec fn overview_image(&self) -> Seq<u8> {
        self.overview_image@
    }

    /// Every raster has its size, and every cache is the encoding of its raster.
    pub open spec fn wf(&self) -> bool {
        &&& self.tiles().len() == NO_TILES
        &&& forall|i: int| 0 <= i < NO_TILES ==> #[trigger] self.tiles()[i].len() == TILE_BYTES
        &&& self.overview().len() == OVERVIEW_BYTES
        &&& self.tile_images().len() == NO_TILES
        &&& forall|i: int|
            0 <= i < NO_TILES ==> #[trigger] self.tile_images()[i] == tile_png(self.tiles()[i])
        &&& self.overview_image() == overview_png(self.overview())
    }

    /// Every tile and the mosaic hold transparent black only.
    pub open spec fn is_blank(&self) -> bool {
        &&& forall|i: int| 0 <= i < NO_TILES ==> #[trigger] self.tiles()[i] == blank(TILE_BYTES as nat)
        &&& self.overview() == blank(OVERVIEW_BYTES as nat)
    }

    /// A store whose tiles and mosaic are blank, with both caches encoded.
    pub fn new() -> (r: Self)
        ensures
            r.wf(),
            r.is_blank(),
    {
        let tile = blank_raster(TILE_BYTES);
        let tile_png_bytes = encode_png(TILE_SIZE, TILE_SIZE, &tile);
        let mut raw_tiles: Vec<Vec<u8>> = Vec::new();
        let mut tile_images: Vec<Vec<u8>> = Vec::new();
        let mut i: u32 = 0;
        while i < NO_TILES
            invariant
                i <= NO_TILES,
                tile@ == blank(TILE_BYTES as nat),
                tile_png_bytes@ == tile_png(tile@),
                raw_tiles@.len() == i,
                tile_images@.len() == i,
                forall|k: int| 0 <= k < i ==> #[trigger] raw_tiles@[k]@ == tile@,
                forall|k: int| 0 <= k < i ==> #[trigger] tile_images@[k]@ == tile_png_bytes@,
            decreases NO_TILES - i,
        {
            let t = tile.clone();
            assert(t@ =~= tile@);
            let e = tile_png_bytes.clone();
            assert(e@ =~= tile_png_bytes@);
            raw_tiles.push(t);
            tile_images.push(e);
            i += 1;
        }
        let raw_overview = blank_raster(OVERVIEW_BYTES);
        let overview_image = encode_png(OVERVIEW_IMAGE_SIZE, OVERVIEW_IMAGE_SIZE, &raw_overview);
        let r = CanvasState { overview_image, tile_images, raw_overview, raw_tiles };
        assert forall|k: int| 0 <= k < NO_TILES implies #[trigger] r.tiles()[k] == tile@ by {
            assert(r.raw_tiles@[k]@ == tile@);
        }
        assert forall|k: int| 0 <= k < NO_TILES implies #[trigger] r.tile_images()[k] == tile_png(
            r.tiles()[k],
        ) by {
            assert(r.tile_images@[k]@ == tile_png_bytes@);
        }
        r
    }

    /// The cached PNG file of tile `tile_idx`.
    pub fn fetch_tile(&self, tile_idx: u32) -> (r: Result<Vec<u8>, CanvasError>)
        requires
            self.wf(),
        ensures
            tile_idx < NO_TILES ==> (r matches Ok(bytes) && bytes@ == self.tile_images()[tile_idx as int]),
            tile_idx >= NO_TILES ==> r == Err::<Vec<u8>, CanvasError>(CanvasError::InvalidIndex),
    {
        if tile_idx < NO_TILES {
            let bytes = self.tile_images[tile_idx as usize].clone();
            assert(bytes@ =~= self.tile_images()[tile_idx as int]);
            Ok(bytes)
        } else {
            Err(CanvasError::InvalidIndex)
        }
    }

    /// The cached PNG file of the mosaic.
    pub fn fetch_overview(&self) -> (r: Vec<u8>)
        ensures
            r@ == self.overview_image(),
    {
        let bytes = self.overview_image.clone();
        assert(bytes@ =~= self.overview_image());
        bytes
    }

    /// Sets pixel `pos` of tile `tile_idx` to `color`, redraws that tile's region
    /// of the mosaic from the downsampled tile, and encodes the tile and the mosaic
    /// anew. An index or a position out of range is rejected, and nothing changes.
    pub fn update_pixel(&mut self, tile_idx: u32, pos: Position, color: Color) -> (r: Result<(), CanvasError>)
        requires
            old(self).wf(),
        ensures
            final(self).wf(),
            tile_idx >= NO_TILES ==> r == Err::<(), CanvasError>(CanvasError::InvalidIndex)
                && *final(self) == *old(self),
            tile_idx < NO_TILES && (pos.x >= TILE_SIZE || pos.y >= TILE_SIZE) ==> r == Err::<(), CanvasError>(
                CanvasError::InvalidPosition,
            ) && *final(self) == *old(self),
            tile_idx < NO_TILES && pos.x < TILE_SIZE && pos.y < TILE_SIZE ==> {
                &&& r == Ok::<(), CanvasError>(())
                &&& final(self).tiles() == tiles_after_write(old(self).tiles(), tile_idx as int, pos, color)
                &&& final(self).overview() == overview_after_write(
                    old(self).overview(),
                    final(self).tiles()[tile_idx as int],
                    tile_idx as int,
                )
            },
    {
        if tile_idx >= NO_TILES {
            return Err(CanvasError::InvalidIndex);
        }
        if pos.x >= TILE_SIZE || pos.y >= TILE_SIZE {
            return Err(CanvasError::InvalidPosition);
        }
        let idx = tile_idx as usize;
        let ghost old_tiles = self.tiles();
        let ghost old_images = self.tile_images();
        let mut tile = self.raw_tiles[idx].clone();
        assert(tile@ =~= old_tiles[idx as int]);
        let k = ((pos.y * TILE_SIZE + pos.x) * 4) as usize;
        tile.set(k, color.r);
        tile.set(k + 1, color.g);
        tile.set(k + 2, color.b);
        tile.set(k + 3, color.a);
        assert(tile@ =~= with_pixel(old_tiles[idx as int], TILE_SIZE as int, pos.x as int, pos.y as int, color));

        let small = resize_gaussian(TILE_SIZE, &tile, OVERVIEW_TILE_SIZE);
        paste_region(&mut self.raw_overview, &small, idx);

        let tile_bytes = encode_png(TILE_SIZE, TILE_SIZE, &tile);
        self.raw_tiles.set(idx, tile);
        self.tile_images.set(idx, tile_bytes);
        self.overview_image = encode_png(OVERVIEW_IMAGE_SIZE, OVERVIEW_IMAGE_SIZE, &self.raw_overview);
        assert(self.tiles() =~= tiles_after_write(old_tiles, tile_idx as int, pos, color));
        assert(self.tile_images() =~= old_images.update(idx as int, tile_png(tile@)));
        assert forall|i: int| 0 <= i < NO_TILES implies #[trigger] self.tile_images()[i] == tile_png(
            self.tiles()[i],
        ) && self.tiles()[i].len() == TILE_BYTES by {
            if i != idx as int {
                assert(self.tiles()[i] == old_tiles[i]);
            }
        }
        Ok(())
    }
}

impl Default for CanvasState {
    fn default() -> (r: Self)
        ensures
            r.wf(),
            r.is_blank(),
    {
        Self::new()
    }
}

/// A blank store serves, for every tile, the PNG file of a blank tile.
pub proof fn fresh_tile_is_blank(s: &CanvasState, tile_idx: u32)
    requires
        s.wf(),
        s.is_blank(),
        tile_idx < NO_TILES,
    ensures
        s.tile_images()[tile_idx as int] == tile_png(blank(TILE_BYTES as nat)),
{
}

/// A blank store serves the PNG file of a blank mosaic.
pub proof fn fresh_overview_is_blank(s: &CanvasState)
    requires
        s.wf(),
        s.is_blank(),
    ensures
        s.overview_image() == overview_png(blank(OVERVIEW_BYTES as nat)),
{
}

/// A byte of the mosaic lies in the region of tile `tile_idx` exactly when that
/// tile owns it.
pub proof fn region_of_owner(j: int, tile_idx: int)
    requires
        0 <= j < OVERVIEW_BYTES,
        0 <= tile_idx < NO_TILES,
    ensures
        in_region(j, tile_idx) <==> region_owner(j) == tile_idx,
{
    let p = j / 4;
    let x = p % 128;
    let y = p / 128;
    assert(0 <= x < 128 && 0 <= y < 128);
    assert(tile_idx == (tile_idx / 16) * 16 + tile_idx % 16);
    assert(in_region(j, tile_idx) <==> (x / 8 == tile_idx % 16 && y / 8 == tile_idx / 16))
        by (nonlinear_arith)
        requires
            0 <= x < 128,
            0 <= y < 128,
            0 <= tile_idx < 256,
            in_region(j, tile_idx) <==> ((tile_idx % 16) * 8 <= x < (tile_idx % 16) * 8 + 8 && (
            tile_idx / 16) * 8 <= y < (tile_idx / 16) * 8 + 8),
    ;
}

/// Writing a pixel of tile `tile_idx` redraws the mosaic region of that tile
/// from the downsampled tile, and leaves every byte of every other tile's region
/// as it was.
pub proof fn write_redraws_own_region_only(overview: Seq<u8>, tile: Seq<u8>, tile_idx: int, j: int)
    requires
        overview.len() == OVERVIEW_BYTES,
        0 <= tile_idx < NO_TILES,
        0 <= j < OVERVIEW_BYTES,
    ensures
        region_owner(j) != tile_idx ==> overview_after_write(overview, tile, tile_idx)[j]
            == overview[j],
        region_owner(j) == tile_idx ==> overview_after_write(overview, tile, tile_idx)[j]
            == downsampled(tile)[region_source(j, tile_idx)],
{
    region_of_owner(j, tile_idx);
}

/// Writing the same pixel with the same color twice leaves the rasters, and
/// so both cached encodings, as the first write left them.
pub proof fn repeated_write_is_idempotent(
    tiles: Seq<Seq<u8>>,
    overview: Seq<u8>,
    tile_idx: int,
    pos: Position,
    color: Color,
)
    requires
        tiles.len() == NO_TILES,
        forall|i: int| 0 <= i < NO_TILES ==> #[trigger] tiles[i].len() == TILE_BYTES,
        overview.len() == OVERVIEW_BYTES,
        0 <= tile_idx < NO_TILES,
        pos.x < TILE_SIZE,
        pos.y < TILE_SIZE,
    ensures
        ({
            let tiles1 = tiles_after_write(tiles, tile_idx, pos, color);
            let overview1 = overview_after_write(overview, tiles1[tile_idx], tile_idx);
            let tiles2 = tiles_after_write(tiles1, tile_idx, pos, color);
            let overview2 = overview_after_write(overview1, tiles2[tile_idx], tile_idx);
            &&& tiles2 == tiles1
            &&& overview2 == overview1
            &&& tile_png(tiles2[tile_idx]) == tile_png(tiles1[tile_idx])
            &&& overview_png(overview2) == overview_png(overview1)
        }),
{
    let tiles1 = tiles_after_write(tiles, tile_idx, pos, color);
    let overview1 = overview_after_write(overview, tiles1[tile_idx], tile_idx);
    let tiles2 = tiles_after_write(tiles1, tile_idx, pos, color);
    let overview2 = overview_after_write(overview1, tiles2[tile_idx], tile_idx);
    let t = tiles[tile_idx];
    let k = pixel_offset(TILE_SIZE as int, pos.x as int, pos.y as int);
    assert(0 <= k && k + 3 < TILE_BYTES);
    let once = with_pixel(t, TILE_SIZE as int, pos.x as int, pos.y as int, color);
    assert(with_pixel(once, TILE_SIZE as int, pos.x as int, pos.y as int, color) =~= once);
    assert(tiles2 =~= tiles1);
    assert(overview2 =~= overview1);
}

/// A raster of `len` zero bytes.
fn blank_raster(len: usize) -> (r: Vec<u8>)
    ensures
        r@ == blank(len as nat),
{
    let r = vec![0u8; len];
    assert(r@ =~= blank(len as nat));
    r
}

} // verus!
