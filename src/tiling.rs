//! Partitioning of a canvas of indices into chunks of 128 by 128 pixels.
//!
//! Pixel `(x, y)` goes to chunk `(y / 128) * map_columns + x / 128`, at offset
//! `(y % 128) * 128 + x % 128` inside it; chunks are numbered row by row, and so
//! are the offsets within a chunk.
use crate::colors::MapColor;
use crate::dither::{in_canvas, lemma_index_in_canvas};
use vstd::arithmetic::div_mod::lemma_fundamental_div_mod_converse;
use vstd::prelude::*;

verus! {

/// The edge of a chunk, in pixels.
pub const CHUNK_EDGE: usize = 128;

/// The number of pixels of a chunk.
pub const CHUNK_LEN: usize = 16384;

pub open spec fn chunk_index(x: int, y: int, map_columns: int) -> int {
    (y / 128) * map_columns + x / 128
}

pub open spec fn offset_in_chunk(x: int, y: int) -> int {
    (y % 128) * 128 + x % 128
}

/// The canvas column of offset `offset` in chunk `chunk`.
pub open spec fn pixel_x(chunk: int, offset: int, map_columns: int) -> int {
    (chunk % map_columns) * 128 + offset % 128
}

/// The canvas row of offset `offset` in chunk `chunk`.
pub open spec fn pixel_y(chunk: int, offset: int, map_columns: int) -> int {
    (chunk / map_columns) * 128 + offset / 128
}

/// Going from a canvas pixel to its chunk and offset and back gives the pixel
/// again, and the chunk and offset are in range; going from a chunk and an
/// offset in range to the pixel and back gives them again. So the mapping is a
/// bijection between the pixels of a `map_columns * 128` by `map_rows * 128`
/// canvas and the offsets of its `map_columns * map_rows` chunks.
pub proof fn lemma_tiling_bijection(map_columns: int, map_rows: int, x: int, y: int, chunk: int, offset: int)
    requires
        map_columns > 0,
        map_rows >= 0,
    ensures
        in_canvas(map_columns * 128, map_rows * 128, x, y) ==> {
            &&& 0 <= chunk_index(x, y, map_columns) < map_columns * map_rows
            &&& 0 <= offset_in_chunk(x, y) < 16384
            &&& pixel_x(chunk_index(x, y, map_columns), offset_in_chunk(x, y), map_columns) == x
            &&& pixel_y(chunk_index(x, y, map_columns), offset_in_chunk(x, y), map_columns) == y
        },
        0 <= chunk < map_columns * map_rows && 0 <= offset < 16384 ==> {
            &&& in_canvas(map_columns * 128, map_rows * 128, pixel_x(chunk, offset, map_columns), pixel_y(chunk, offset, map_columns))
            &&& chunk_index(pixel_x(chunk, offset, map_columns), pixel_y(chunk, offset, map_columns), map_columns) == chunk
            &&& offset_in_chunk(pixel_x(chunk, offset, map_columns), pixel_y(chunk, offset, map_columns)) == offset
        },
{
    if in_canvas(map_columns * 128, map_rows * 128, x, y) {
        let (cx, cy) = (x / 128, y / 128);
        assert(0 <= cx < map_columns && 0 <= cy < map_rows);
        let c = cy * map_columns + cx;
        assert(0 <= c < map_columns * map_rows) by (nonlinear_arith)
            requires
                0 <= cx < map_columns,
                0 <= cy < map_rows,
                c == cy * map_columns + cx,
        ;
        lemma_fundamental_div_mod_converse(c, map_columns, cy, cx);
    }
    if 0 <= chunk < map_columns * map_rows && 0 <= offset < 16384 {
        let (cx, cy) = (chunk % map_columns, chunk / map_columns);
        assert(0 <= cy < map_rows) by (nonlinear_arith)
            requires
                0 <= chunk < map_columns * map_rows,
                map_columns > 0,
                cy == chunk / map_columns,
        ;
        assert(chunk == cy * map_columns + cx) by (nonlinear_arith)
            requires
                map_columns > 0,
                cx == chunk % map_columns,
                cy == chunk / map_columns,
        ;
        assert(0 <= cx < map_columns);
        let px = pixel_x(chunk, offset, map_columns);
        let py = pixel_y(chunk, offset, map_columns);
        assert(px < map_columns * 128) by (nonlinear_arith)
            requires
                0 <= cx < map_columns,
                px == cx * 128 + offset % 128,
                0 <= offset % 128 < 128,
        ;
        assert(py < map_rows * 128) by (nonlinear_arith)
            requires
                0 <= cy < map_rows,
                py == cy * 128 + offset / 128,
                0 <= offset / 128 < 128,
        ;
    }
}

/// Splits a canvas of indices, given row by row, into its chunks, in chunk
/// order.
pub fn tile_indices(canvas: &Vec<MapColor>, map_columns: usize, map_rows: usize) -> (chunks: Vec<Vec<MapColor>>)
    requires
        canvas@.len() == (map_columns * 128) * (map_rows * 128),
    ensures
        chunks@.len() == map_columns * map_rows,
        forall|c: int| 0 <= c < chunks@.len() ==> (#[trigger] chunks@[c])@.len() == CHUNK_LEN,
        forall|x: int, y: int|
            #![trigger chunk_index(x, y, map_columns as int), offset_in_chunk(x, y)]
            in_canvas(map_columns * 128, map_rows * 128, x, y) ==> chunks@[chunk_index(x, y, map_columns as int)]@[offset_in_chunk(x, y)]
                == canvas@[y * (map_columns * 128) + x],
{
    let ghost (cols, rows) = (map_columns as int, map_rows as int);
    let ghost width = cols * 128;
    let mut chunks: Vec<Vec<MapColor>> = Vec::new();
    let len = canvas.len();
    if map_columns == 0 || map_rows == 0 {
        assert(map_columns * map_rows == 0) by (nonlinear_arith)
            requires
                map_columns == 0 || map_rows == 0,
        ;
        return chunks;
    }
    assert(map_columns * map_rows <= len && map_columns * 128 <= len && map_rows * 128 <= len) by (nonlinear_arith)
        requires
            len == (map_columns * 128) * (map_rows * 128),
            map_columns > 0,
            map_rows > 0,
    ;
    let count = map_columns * map_rows;
    let canvas_width = map_columns * 128;
    let mut c: usize = 0;
    while c < count
        invariant
            map_columns > 0,
            cols == map_columns,
            rows == map_rows,
            width == canvas_width,
            canvas_width == map_columns * 128,
            count == map_columns * map_rows,
            canvas@.len() == (map_columns * 128) * (map_rows * 128),
            canvas@.len() <= usize::MAX,
            map_rows * 128 <= canvas@.len(),
            0 <= c <= count,
            chunks@.len() == c,
            forall|j: int| 0 <= j < c ==> (#[trigger] chunks@[j])@.len() == CHUNK_LEN,
            forall|j: int, o: int|
                0 <= j < c && 0 <= o < CHUNK_LEN ==> #[trigger] chunks@[j]@[o] == canvas@[pixel_y(j, o, cols) * width + pixel_x(j, o, cols)],
        decreases count - c,
    {
        let mut chunk: Vec<MapColor> = Vec::with_capacity(CHUNK_LEN);
        let mut o: usize = 0;
        while o < CHUNK_LEN
            invariant
                map_columns > 0,
                cols == map_columns,
                rows == map_rows,
                width == canvas_width,
                canvas_width == map_columns * 128,
                count == map_columns * map_rows,
                canvas@.len() == (map_columns * 128) * (map_rows * 128),
                canvas@.len() <= usize::MAX,
                map_rows * 128 <= canvas@.len(),
                0 <= c < count,
                0 <= o <= CHUNK_LEN,
                chunk@.len() == o,
                forall|k: int| 0 <= k < o ==> chunk@[k] == canvas@[pixel_y(c as int, k, cols) * width + pixel_x(c as int, k, cols)],
            decreases CHUNK_LEN - o,
        {
            proof {
                lemma_tiling_bijection(cols, rows, 0, 0, c as int, o as int);
                lemma_index_in_canvas(width, rows * 128, pixel_x(c as int, o as int, cols), pixel_y(c as int, o as int, cols));
            }
            let x = (c % map_columns) * 128 + o % 128;
            let y = (c / map_columns) * 128 + o / 128;
            chunk.push(canvas[y * canvas_width + x]);
            o += 1;
        }
        let ghost before = chunks@;
        chunks.push(chunk);
        proof {
            assert forall|j: int, k: int| 0 <= j < c + 1 && 0 <= k < CHUNK_LEN implies #[trigger] chunks@[j]@[k]
                == canvas@[pixel_y(j, k, cols) * width + pixel_x(j, k, cols)] by {
                if j < c {
                    assert(chunks@[j] == before[j]);
                }
            }
        }
        c += 1;
    }
    proof {
        assert forall|x: int, y: int|
            #![trigger chunk_index(x, y, map_columns as int), offset_in_chunk(x, y)]
            in_canvas(map_columns * 128, map_rows * 128, x, y) implies chunks@[chunk_index(x, y, map_columns as int)]@[offset_in_chunk(x, y)]
                == canvas@[y * (map_columns * 128) + x] by {
            lemma_tiling_bijection(cols, rows, x, y, 0, 0);
        }
    }
    chunks
}

} // verus!
