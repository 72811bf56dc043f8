use mapmaker::tiling::{tile_indices, CHUNK_EDGE, CHUNK_LEN};

fn canvas_of(width: usize, height: usize) -> Vec<u8> {
    (0..width * height).map(|i| ((i / width) * 7 + (i % width) * 3) as u8).collect()
}

#[test]
fn chunk_sizes_and_count() {
    let canvas = canvas_of(3 * 128, 2 * 128);
    let chunks = tile_indices(&canvas, 3, 2);
    assert_eq!(chunks.len(), 6);
    for c in &chunks {
        assert_eq!(c.len(), CHUNK_LEN);
    }
}

#[test]
fn tiling_round_trip() {
    let (cols, rows) = (3usize, 2usize);
    let width = cols * CHUNK_EDGE;
    let canvas = canvas_of(width, rows * CHUNK_EDGE);
    let chunks = tile_indices(&canvas, cols, rows);
    for y in 0..rows * CHUNK_EDGE {
        for x in 0..width {
            let chunk = (y / 128) * cols + x / 128;
            let offset = (y % 128) * 128 + x % 128;
            assert_eq!(chunks[chunk][offset], canvas[y * width + x]);
            // and back again
            assert_eq!((chunk % cols) * 128 + offset % 128, x);
            assert_eq!((chunk / cols) * 128 + offset / 128, y);
        }
    }
}

#[test]
fn chunk_corners() {
    let canvas = canvas_of(256, 128);
    let chunks = tile_indices(&canvas, 2, 1);
    assert_eq!(chunks[0][0], canvas[0]);
    assert_eq!(chunks[1][0], canvas[128]);
    assert_eq!(chunks[0][127], canvas[127]);
    assert_eq!(chunks[1][CHUNK_LEN - 1], canvas[127 * 256 + 255]);
    assert_eq!(chunks[0][128], canvas[256]);
}

#[test]
fn empty_grid_has_no_chunks() {
    assert!(tile_indices(&Vec::new(), 0, 4).is_empty());
    assert!(tile_indices(&Vec::new(), 2, 0).is_empty());
}
