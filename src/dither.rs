//! Error diffusion over a canvas in raster order.
//!
//! A pixel's error is spread to four neighbours with weights in sixteenths:
//! 7 to (+1, 0), 3 to (-1, +1), 5 to (0, +1) and 1 to (+1, +1). A neighbour
//! channel `c` receiving error `e` with weight `w` becomes
//! `clamp(c / 256 + (e / 256) * (w / 16), 0, 1) * 256`, truncated. All of these
//! are exact in binary fractions: the value is `n / 4096` with
//! `n = 16 * c + w * e`, so the new channel is 255 when `n >= 4096`, 0 when
//! `n <= 0`, and `n / 16` rounded down otherwise.
use crate::colors::{
    difference, is_black, is_nearest_entry, is_quantization, is_zero, lemma_entry_quantizes_to_itself, palette_wf,
    MapColor, MinecraftColorTree, MinecraftRgb, Rgb, RgbDifference, FIRST_INDEX, LAST_INDEX,
};
use vstd::prelude::*;

verus! {

/// The weights are sixteenths.
pub const WEIGHT_DENOMINATOR: i32 = 16;

/// Horizontal offset of neighbour `k`.
pub open spec fn neighbour_dx(k: int) -> int {
    if k == 1 { -1 } else if k == 2 { 0 } else { 1 }
}

/// Vertical offset of neighbour `k`.
pub open spec fn neighbour_dy(k: int) -> int {
    if k == 0 { 0 } else { 1 }
}

/// Weight of neighbour `k`, in sixteenths.
pub open spec fn neighbour_weight(k: int) -> int {
    if k == 0 { 7 } else if k == 1 { 3 } else if k == 2 { 5 } else { 1 }
}

/// A channel after receiving `err` with weight `weight` sixteenths.
pub open spec fn diffused_channel(c: u8, err: i16, weight: int) -> u8 {
    let n = 16 * c + weight * err;
    if n >= 4096 {
        255
    } else if n <= 0 {
        0
    } else {
        (n / 16) as u8
    }
}

pub open spec fn diffused_pixel(c: Rgb, d: RgbDifference, weight: int) -> Rgb {
    Rgb {
        r: diffused_channel(c.r, d.r, weight),
        g: diffused_channel(c.g, d.g, weight),
        b: diffused_channel(c.b, d.b, weight),
    }
}

/// Whether `(x, y)` lies on a `width` by `height` canvas.
pub open spec fn in_canvas(width: int, height: int, x: int, y: int) -> bool {
    0 <= x < width && 0 <= y < height
}

/// The canvas after the error `d` of pixel `(x, y)` reached the first `k`
/// neighbours; neighbours off the canvas are skipped.
pub open spec fn spread(px: Seq<Rgb>, width: int, height: int, x: int, y: int, d: RgbDifference, k: nat) -> Seq<Rgb>
    decreases k,
{
    if k == 0 {
        px
    } else {
        let prev = spread(px, width, height, x, y, d, (k - 1) as nat);
        let nx = x + neighbour_dx(k - 1);
        let ny = y + neighbour_dy(k - 1);
        if in_canvas(width, height, nx, ny) {
            prev.update(ny * width + nx, diffused_pixel(prev[ny * width + nx], d, neighbour_weight(k - 1)))
        } else {
            prev
        }
    }
}

/// One step of the scan: a zero error is not spread at all.
pub open spec fn diffuse(px: Seq<Rgb>, width: int, height: int, x: int, y: int, d: RgbDifference) -> Seq<Rgb> {
    if is_zero(d) {
        px
    } else {
        spread(px, width, height, x, y, d, 4)
    }
}

/// The canvas after the first `run.len()` pixels, in raster order, had their
/// errors spread; `run[k]` is what quantizing pixel `k` gave.
pub open spec fn scanned(px: Seq<Rgb>, width: int, height: int, run: Seq<(MapColor, RgbDifference)>) -> Seq<Rgb>
    decreases run.len(),
{
    if run.len() == 0 {
        px
    } else {
        let k = run.len() - 1;
        diffuse(scanned(px, width, height, run.drop_last()), width, height, k % width, k / width, run.last().1)
    }
}

/// Each `run[k]` quantizes pixel `k` as the canvas stood when the scan reached
/// it, that is with the error of the earlier pixels already spread.
pub open spec fn valid_run(
    p: Seq<MinecraftRgb>,
    px: Seq<Rgb>,
    width: int,
    height: int,
    run: Seq<(MapColor, RgbDifference)>,
) -> bool
    decreases run.len(),
{
    if run.len() == 0 {
        true
    } else {
        let k = run.len() - 1;
        &&& valid_run(p, px, width, height, run.drop_last())
        &&& is_quantization(p, scanned(px, width, height, run.drop_last())[k], run.last())
    }
}

/// The indices that a run emits, in raster order.
pub open spec fn run_indices(run: Seq<(MapColor, RgbDifference)>) -> Seq<MapColor> {
    run.map_values(|q: (MapColor, RgbDifference)| q.0)
}

/// A point on the canvas has its row-major position inside the pixel buffer.
pub proof fn lemma_index_in_canvas(width: int, height: int, x: int, y: int)
    requires
        in_canvas(width, height, x, y),
    ensures
        0 <= y * width + x < width * height,
{
    assert(0 <= y * width + x < width * height) by (nonlinear_arith)
        requires
            0 <= x < width,
            0 <= y < height,
    ;
}

proof fn lemma_spread_len(px: Seq<Rgb>, width: int, height: int, x: int, y: int, d: RgbDifference, k: nat)
    requires
        width >= 0,
        height >= 0,
        px.len() == width * height,
    ensures
        spread(px, width, height, x, y, d, k).len() == px.len(),
    decreases k,
{
    if k > 0 {
        lemma_spread_len(px, width, height, x, y, d, (k - 1) as nat);
        let nx = x + neighbour_dx(k - 1);
        let ny = y + neighbour_dy(k - 1);
        if in_canvas(width, height, nx, ny) {
            lemma_index_in_canvas(width, height, nx, ny);
        }
    }
}

fn diffused_channel_of(c: u8, err: i16, weight: i32) -> (r: u8)
    requires
        1 <= weight <= 7,
    ensures
        r == diffused_channel(c, err, weight as int),
{
    assert(-7 * 32768 <= weight * err <= 7 * 32767) by (nonlinear_arith)
        requires
            1 <= weight <= 7,
            -32768 <= err <= 32767,
    ;
    let n: i32 = 16 * (c as i32) + weight * (err as i32);
    if n >= 4096 {
        255
    } else if n <= 0 {
        0
    } else {
        (n / 16) as u8
    }
}

fn add_error_at(pixels: &mut Vec<Rgb>, width: usize, height: usize, nx: usize, ny: usize, d: RgbDifference, weight: i32)
    requires
        old(pixels)@.len() == width * height,
        nx < width,
        ny < height,
        1 <= weight <= 7,
    ensures
        final(pixels)@.len() == old(pixels)@.len(),
        final(pixels)@ == old(pixels)@.update(
            ny * width + nx,
            diffused_pixel(old(pixels)@[ny * width + nx], d, weight as int),
        ),
{
    proof {
        lemma_index_in_canvas(width as int, height as int, nx as int, ny as int);
    }
    let len = pixels.len();
    let i = ny * width + nx;
    let c = pixels[i];
    let spread_pixel = Rgb {
        r: diffused_channel_of(c.r, d.r, weight),
        g: diffused_channel_of(c.g, d.g, weight),
        b: diffused_channel_of(c.b, d.b, weight),
    };
    pixels.set(i, spread_pixel);
}

/// Spreads the error `d` of pixel `(x, y)` to its neighbours on the canvas.
pub fn diffuse_error(pixels: &mut Vec<Rgb>, width: usize, height: usize, x: usize, y: usize, d: RgbDifference)
    requires
        old(pixels)@.len() == width * height,
        x < width,
        y < height,
    ensures
        final(pixels)@.len() == old(pixels)@.len(),
        final(pixels)@ == diffuse(old(pixels)@, width as int, height as int, x as int, y as int, d),
{
    proof {
        reveal_with_fuel(spread, 5);
    }
    if d.r == 0 && d.g == 0 && d.b == 0 {
        return;
    }
    let ghost start = pixels@;
    let ghost (w, h, gx, gy) = (width as int, height as int, x as int, y as int);
    if x + 1 < width {
        add_error_at(pixels, width, height, x + 1, y, d, 7);
    }
    assert(pixels@ == spread(start, w, h, gx, gy, d, 1));
    if x >= 1 && y + 1 < height {
        add_error_at(pixels, width, height, x - 1, y + 1, d, 3);
    }
    assert(pixels@ == spread(start, w, h, gx, gy, d, 2));
    if y + 1 < height {
        add_error_at(pixels, width, height, x, y + 1, d, 5);
    }
    assert(pixels@ == spread(start, w, h, gx, gy, d, 3));
    if x + 1 < width && y + 1 < height {
        add_error_at(pixels, width, height, x + 1, y + 1, d, 1);
    }
    assert(pixels@ == spread(start, w, h, gx, gy, d, 4));
}

proof fn lemma_raster_position(width: int, height: int, k: int)
    requires
        width >= 0,
        height >= 0,
        0 <= k < width * height,
    ensures
        width > 0,
        in_canvas(width, height, k % width, k / width),
{
    assert(width > 0) by (nonlinear_arith)
        requires
            0 <= k < width * height,
            width >= 0,
            height >= 0,
    ;
    assert(k / width < height) by (nonlinear_arith)
        requires
            0 <= k < width * height,
            width > 0,
    ;
}

/// Quantizes every pixel of a `width` by `height` canvas in raster order and
/// spreads each pixel's error over the pixels not yet visited, in place.
/// Returns the index of each pixel, in raster order.
pub fn quantize_canvas(tree: &MinecraftColorTree, pixels: &mut Vec<Rgb>, width: usize, height: usize) -> (out: Vec<MapColor>)
    requires
        old(pixels)@.len() == width * height,
    ensures
        exists|run: Seq<(MapColor, RgbDifference)>|
            {
                &&& run.len() == width * height
                &&& valid_run(tree@, old(pixels)@, width as int, height as int, run)
                &&& final(pixels)@ == scanned(old(pixels)@, width as int, height as int, run)
                &&& out@ == run_indices(run)
            },
{
    let n = pixels.len();
    let ghost start = pixels@;
    let ghost mut run: Seq<(MapColor, RgbDifference)> = Seq::empty();
    let mut out: Vec<MapColor> = Vec::with_capacity(n);
    let mut k: usize = 0;
    while k < n
        invariant
            n == width * height,
            pixels@.len() == n,
            0 <= k <= n,
            run.len() == k,
            valid_run(tree@, start, width as int, height as int, run),
            pixels@ == scanned(start, width as int, height as int, run),
            out@ == run_indices(run),
        decreases n - k,
    {
        proof {
            lemma_raster_position(width as int, height as int, k as int);
        }
        let x = k % width;
        let y = k / width;
        let (index, d) = tree.find_closest(&pixels[k]);
        out.push(index);
        diffuse_error(pixels, width, height, x, y, d);
        proof {
            let next = run.push((index, d));
            assert(next.drop_last() == run);
            assert(run_indices(next) == run_indices(run).push(index));
            run = next;
        }
        k += 1;
    }
    out
}

/// The four weights make one whole: 7 + 3 + 5 + 1 sixteenths, so the whole
/// error of a pixel away from the canvas edges is passed on.
pub proof fn lemma_weights_sum_to_one()
    ensures
        neighbour_weight(0) + neighbour_weight(1) + neighbour_weight(2) + neighbour_weight(3) == WEIGHT_DENOMINATOR,
{
}

proof fn lemma_spread_changes(px: Seq<Rgb>, width: int, height: int, x: int, y: int, d: RgbDifference, k: nat)
    requires
        width >= 0,
        height >= 0,
        px.len() == width * height,
        k <= 4,
    ensures
        spread(px, width, height, x, y, d, k).len() == px.len(),
        forall|i: int|
            0 <= i < px.len() && #[trigger] spread(px, width, height, x, y, d, k)[i] != px[i] ==> exists|j: int|
                0 <= j < k && in_canvas(width, height, x + neighbour_dx(j), y + neighbour_dy(j)) && i == (y
                    + neighbour_dy(j)) * width + x + neighbour_dx(j),
    decreases k,
{
    lemma_spread_len(px, width, height, x, y, d, k);
    if k > 0 {
        lemma_spread_changes(px, width, height, x, y, d, (k - 1) as nat);
        let prev = spread(px, width, height, x, y, d, (k - 1) as nat);
        let nx = x + neighbour_dx(k - 1);
        let ny = y + neighbour_dy(k - 1);
        if in_canvas(width, height, nx, ny) {
            lemma_index_in_canvas(width, height, nx, ny);
        }
        assert forall|i: int|
            0 <= i < px.len() && #[trigger] spread(px, width, height, x, y, d, k)[i] != px[i] implies exists|j: int|
                0 <= j < k && in_canvas(width, height, x + neighbour_dx(j), y + neighbour_dy(j)) && i == (y
                    + neighbour_dy(j)) * width + x + neighbour_dx(j) by {
            if prev[i] != px[i] {
                let j = choose|j: int|
                    0 <= j < k - 1 && in_canvas(width, height, x + neighbour_dx(j), y + neighbour_dy(j)) && i == (y
                        + neighbour_dy(j)) * width + x + neighbour_dx(j);
                assert(0 <= j < k);
            } else {
                assert(in_canvas(width, height, nx, ny) && i == ny * width + nx);
                assert(0 <= k - 1 < k);
            }
        }
    }
}

/// Spreading the error of a pixel on the canvas writes only to those of its
/// four neighbours that lie on the canvas too: nothing at `x == width` from
/// the last column (no wrap into the next row), nothing at `y == height` from
/// the last row, and the pixel buffer keeps its length.
pub proof fn lemma_diffusion_stays_on_canvas(px: Seq<Rgb>, width: int, height: int, x: int, y: int, d: RgbDifference)
    requires
        width >= 0,
        height >= 0,
        px.len() == width * height,
        in_canvas(width, height, x, y),
    ensures
        diffuse(px, width, height, x, y, d).len() == px.len(),
        forall|i: int|
            0 <= i < px.len() && #[trigger] diffuse(px, width, height, x, y, d)[i] != px[i] ==> exists|k: int|
                0 <= k < 4 && in_canvas(width, height, x + neighbour_dx(k), y + neighbour_dy(k)) && i == (y
                    + neighbour_dy(k)) * width + x + neighbour_dx(k),
{
    lemma_spread_changes(px, width, height, x, y, d, 4);
}

/// On a canvas where every pixel is exact black or the color of a palette
/// entry, the scan finds no error: every quantization has a zero difference,
/// nothing is spread, the canvas stays as it was, and each pixel gets what a
/// direct lookup of its own color gives, the index of its entry.
pub proof fn lemma_exact_colors_spread_nothing(
    p: Seq<MinecraftRgb>,
    px: Seq<Rgb>,
    width: int,
    height: int,
    run: Seq<(MapColor, RgbDifference)>,
)
    requires
        palette_wf(p),
        width >= 0,
        height >= 0,
        px.len() == width * height,
        run.len() <= px.len(),
        valid_run(p, px, width, height, run),
        forall|i: int|
            0 <= i < px.len() ==> is_black(#[trigger] px[i]) || exists|e: int| 0 <= e < p.len() && p[e].rgb == px[i],
    ensures
        scanned(px, width, height, run) == px,
        forall|k: int| 0 <= k < run.len() ==> is_zero(#[trigger] run[k].1) && is_quantization(p, px[k], run[k]),
        forall|k: int, e: int|
            0 <= k < run.len() && 0 <= e < p.len() && #[trigger] p[e].rgb == #[trigger] px[k] ==> run[k].0
                == p[e].index,
    decreases run.len(),
{
    if run.len() > 0 {
        let prev = run.drop_last();
        let k = run.len() - 1;
        lemma_exact_colors_spread_nothing(p, px, width, height, prev);
        assert(is_quantization(p, px[k], run.last()));
        {
            if !is_black(px[k]) {
                let e = choose|e: int| 0 <= e < p.len() && p[e].rgb == px[k];
                lemma_entry_quantizes_to_itself(p, e, run.last());
            }
            assert forall|e: int| 0 <= e < p.len() && #[trigger] p[e].rgb == px[k] implies run.last().0
                == p[e].index by {
                lemma_entry_quantizes_to_itself(p, e, run.last());
            }
        }
        assert(is_zero(run.last().1));
        assert forall|j: int| 0 <= j < run.len() implies is_zero(#[trigger] run[j].1) && is_quantization(p, px[j], run[j]) by {
            if j < k {
                assert(run[j] == prev[j]);
            }
        }
        assert forall|j: int, e: int|
            0 <= j < run.len() && 0 <= e < p.len() && #[trigger] p[e].rgb == #[trigger] px[j] implies run[j].0
                == p[e].index by {
            if j < k {
                assert(run[j] == prev[j]);
            }
        }
    }
}

/// With a usable palette, every index that a scan emits lies in the output
/// range.
pub proof fn lemma_run_indices_in_range(
    p: Seq<MinecraftRgb>,
    px: Seq<Rgb>,
    width: int,
    height: int,
    run: Seq<(MapColor, RgbDifference)>,
)
    requires
        palette_wf(p),
        valid_run(p, px, width, height, run),
    ensures
        forall|k: int| 0 <= k < run.len() ==> FIRST_INDEX <= #[trigger] run[k].0 <= LAST_INDEX,
    decreases run.len(),
{
    if run.len() > 0 {
        let prev = run.drop_last();
        lemma_run_indices_in_range(p, px, width, height, prev);
        let c = scanned(px, width, height, prev)[run.len() - 1];
        if !is_black(c) {
            let i = choose|i: int| is_nearest_entry(p, c, i) && run.last().0 == p[i].index && run.last().1 == difference(c, p[i].rgb);
            assert(FIRST_INDEX <= p[i].index <= LAST_INDEX);
        }
        assert forall|k: int| 0 <= k < run.len() implies FIRST_INDEX <= #[trigger] run[k].0 <= LAST_INDEX by {
            if k < run.len() - 1 {
                assert(run[k] == prev[k]);
            }
        }
    }
}

} // verus!
