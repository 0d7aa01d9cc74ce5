//! A shared tiled canvas: a raster store whose tiles and whole-canvas mosaic are
//! kept together with their PNG encodings, and a per-actor cooldown gate that
//! decides which edits are admitted.

pub mod canvas;
pub mod edits;
pub mod geometry;
pub mod imaging;

pub use canvas::{CanvasError, CanvasState};
pub use edits::{EditError, EditsState, COOLDOWN_NS};
pub use geometry::{
    get_tile_offset, Color, Position, NO_TILES, OVERVIEW_IMAGE_SIZE, OVERVIEW_TILE_SIZE,
    ROW_LENGTH, TILE_SIZE,
};
