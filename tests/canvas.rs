use canvas_backend::{
    get_tile_offset, CanvasError, CanvasState, Color, Position, NO_TILES, OVERVIEW_IMAGE_SIZE,
    OVERVIEW_TILE_SIZE, ROW_LENGTH, TILE_SIZE,
};

fn decode(bytes: &[u8]) -> image::RgbaImage {
    image::load_from_memory(bytes).unwrap().to_rgba8()
}

fn white() -> Color {
    Color { r: 255, g: 255, b: 255, a: 255 }
}

fn all_tiles(state: &CanvasState) -> Vec<Vec<u8>> {
    (0..NO_TILES).map(|i| state.fetch_tile(i).unwrap()).collect()
}

/// The pixels of the mosaic region that shows tile `tile_idx`.
fn region(mosaic: &image::RgbaImage, tile_idx: u32) -> Vec<[u8; 4]> {
    let (ox, oy) = get_tile_offset(tile_idx as usize);
    let mut pixels = Vec::new();
    for y in oy..oy + OVERVIEW_TILE_SIZE {
        for x in ox..ox + OVERVIEW_TILE_SIZE {
            pixels.push(mosaic.get_pixel(x, y).0);
        }
    }
    pixels
}

#[test]
fn update_pixel_changes_tile() {
    let mut canvas_state = CanvasState::default();

    let x = 2 * 64;
    let y = 15 * 64;
    let rel_x = x % TILE_SIZE;
    let rel_y = y % TILE_SIZE;
    let col = x / TILE_SIZE;
    let row = y / TILE_SIZE;
    let tile_idx = row * ROW_LENGTH + col;

    let tile_images = all_tiles(&canvas_state);
    let skipped = tile_images.iter().skip(1);
    let mut pairs = tile_images.iter().zip(skipped);
    assert!(pairs.all(|(a, b)| a == b));

    let first_tile = tile_images.first().unwrap().clone();

    let pos = Position { x: rel_x, y: rel_y };
    let color = Color {
        r: 255,
        g: 255,
        b: 255,
        a: 255,
    };
    canvas_state.update_pixel(tile_idx, pos, color).unwrap();

    let idx = all_tiles(&canvas_state)
        .iter()
        .enumerate()
        .find(|(_, tile)| !(*tile).eq(&first_tile))
        .map(|x| x.0)
        .unwrap();
    assert_eq!(idx as u32, tile_idx);
}

#[test]
fn fresh_tiles_decode_blank() {
    let state = CanvasState::new();
    for i in [0, 1, NO_TILES / 2, NO_TILES - 1] {
        let tile = decode(&state.fetch_tile(i).unwrap());
        assert_eq!(tile.dimensions(), (TILE_SIZE, TILE_SIZE));
        assert!(tile.pixels().all(|p| p.0 == [0, 0, 0, 0]));
    }
}

#[test]
fn fresh_overview_decodes_blank() {
    let state = CanvasState::new();
    let mosaic = decode(&state.fetch_overview());
    assert_eq!(mosaic.dimensions(), (OVERVIEW_IMAGE_SIZE, OVERVIEW_IMAGE_SIZE));
    assert!(mosaic.pixels().all(|p| p.0 == [0, 0, 0, 0]));
}

#[test]
fn written_pixel_reads_back_and_nothing_else_changes() {
    let mut state = CanvasState::new();
    let color = Color { r: 10, g: 20, b: 30, a: 40 };
    assert_eq!(state.update_pixel(5, Position { x: 3, y: 7 }, color), Ok(()));
    let tile = decode(&state.fetch_tile(5).unwrap());
    for (x, y, p) in tile.enumerate_pixels() {
        if (x, y) == (3, 7) {
            assert_eq!(p.0, [10, 20, 30, 40]);
        } else {
            assert_eq!(p.0, [0, 0, 0, 0]);
        }
    }
}

#[test]
fn second_write_replaces_without_blending() {
    let mut state = CanvasState::new();
    let pos = Position { x: 0, y: TILE_SIZE - 1 };
    state.update_pixel(9, pos, white()).unwrap();
    state.update_pixel(9, pos, Color { r: 1, g: 2, b: 3, a: 4 }).unwrap();
    let tile = decode(&state.fetch_tile(9).unwrap());
    assert_eq!(tile.get_pixel(0, TILE_SIZE - 1).0, [1, 2, 3, 4]);
}

#[test]
fn write_redraws_only_its_mosaic_region() {
    let mut state = CanvasState::new();
    let before = decode(&state.fetch_overview());
    let tile_idx = 37;
    for y in 0..4 {
        for x in 0..4 {
            state.update_pixel(tile_idx, Position { x, y }, white()).unwrap();
        }
    }
    let after = decode(&state.fetch_overview());
    assert_ne!(region(&after, tile_idx), region(&before, tile_idx));
    for other in 0..NO_TILES {
        if other != tile_idx {
            assert_eq!(region(&after, other), region(&before, other));
        }
    }
}

#[test]
fn invalid_index_is_rejected_without_change() {
    let mut state = CanvasState::new();
    let tiles = all_tiles(&state);
    let overview = state.fetch_overview();
    assert_eq!(
        state.update_pixel(NO_TILES, Position { x: 0, y: 0 }, white()),
        Err(CanvasError::InvalidIndex)
    );
    assert_eq!(
        state.update_pixel(u32::MAX, Position { x: TILE_SIZE, y: 0 }, white()),
        Err(CanvasError::InvalidIndex)
    );
    assert_eq!(all_tiles(&state), tiles);
    assert_eq!(state.fetch_overview(), overview);
}

#[test]
fn invalid_position_is_rejected_without_change() {
    let mut state = CanvasState::new();
    let tiles = all_tiles(&state);
    let overview = state.fetch_overview();
    assert_eq!(
        state.update_pixel(0, Position { x: TILE_SIZE, y: 0 }, white()),
        Err(CanvasError::InvalidPosition)
    );
    assert_eq!(
        state.update_pixel(3, Position { x: 0, y: TILE_SIZE }, white()),
        Err(CanvasError::InvalidPosition)
    );
    assert_eq!(all_tiles(&state), tiles);
    assert_eq!(state.fetch_overview(), overview);
}

#[test]
fn fetch_tile_out_of_range_is_invalid_index() {
    let state = CanvasState::new();
    assert_eq!(state.fetch_tile(NO_TILES), Err(CanvasError::InvalidIndex));
    assert!(state.fetch_tile(NO_TILES - 1).is_ok());
}

#[test]
fn repeated_write_gives_identical_bytes() {
    let mut state = CanvasState::new();
    let pos = Position { x: 31, y: 12 };
    let color = Color { r: 200, g: 100, b: 50, a: 255 };
    state.update_pixel(100, pos, color).unwrap();
    let tile_once = state.fetch_tile(100).unwrap();
    let overview_once = state.fetch_overview();
    state.update_pixel(100, pos, color).unwrap();
    assert_eq!(state.fetch_tile(100).unwrap(), tile_once);
    assert_eq!(state.fetch_overview(), overview_once);
}

#[test]
fn tile_offsets_follow_row_major_order() {
    assert_eq!(get_tile_offset(0), (0, 0));
    assert_eq!(get_tile_offset(1), (OVERVIEW_TILE_SIZE, 0));
    assert_eq!(get_tile_offset(ROW_LENGTH as usize), (0, OVERVIEW_TILE_SIZE));
    assert_eq!(get_tile_offset(37), (5 * OVERVIEW_TILE_SIZE, 2 * OVERVIEW_TILE_SIZE));
    assert_eq!(
        get_tile_offset((NO_TILES - 1) as usize),
        (OVERVIEW_IMAGE_SIZE - OVERVIEW_TILE_SIZE, OVERVIEW_IMAGE_SIZE - OVERVIEW_TILE_SIZE)
    );
}
