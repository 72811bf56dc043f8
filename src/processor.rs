//! Per-frame orchestration: the grid shape taken from the first frame, the
//! canvas that centers a frame on whole chunks, and the pass from canvas to
//! chunks.
use crate::colors::{MapColor, MinecraftColorTree, Rgb, RgbDifference};
use crate::dither::{in_canvas, lemma_index_in_canvas, quantize_canvas, run_indices, valid_run};
use crate::tiling::{chunk_index, offset_in_chunk, tile_indices, CHUNK_LEN};
use vstd::arithmetic::div_mod::lemma_fundamental_div_mod_converse;
use vstd::prelude::*;

verus! {

/// A raster of RGB pixels, row by row.
pub struct RgbBuffer {
    pub width: u32,
    pub height: u32,
    pub pixels: Vec<Rgb>,
}

impl RgbBuffer {
    /// The buffer holds exactly one pixel per position.
    pub open spec fn wf(&self) -> bool {
        self.pixels@.len() == self.width * self.height
    }

    /// The pixel at `(x, y)`.
    pub open spec fn pixel(&self, x: int, y: int) -> Rgb {
        self.pixels@[y * self.width + x]
    }

    /// A buffer of the given size holding `pixels`, or `None` when their number
    /// is not `width * height`.
    pub fn from_pixels(width: u32, height: u32, pixels: Vec<Rgb>) -> (r: Option<RgbBuffer>)
        ensures
            r is Some <==> pixels@.len() == width * height,
            r matches Some(b) ==> b.width == width && b.height == height && b.pixels@ == pixels@,
    {
        assert(width * height <= u64::MAX) by (nonlinear_arith)
            requires
                width <= u32::MAX,
                height <= u32::MAX,
        ;
        if pixels.len() as u64 == width as u64 * height as u64 {
            Some(RgbBuffer { width, height, pixels })
        } else {
            None
        }
    }

    /// The pixel at `(x, y)`.
    pub fn get_pixel(&self, x: u32, y: u32) -> (r: Rgb)
        requires
            self.wf(),
            x < self.width,
            y < self.height,
        ensures
            r == self.pixel(x as int, y as int),
    {
        proof {
            lemma_index_in_canvas(self.width as int, self.height as int, x as int, y as int);
        }
        let len = self.pixels.len();
        self.pixels[y as usize * self.width as usize + x as usize]
    }
}

/// Why a frame could not be processed.
#[derive(Clone, Copy, Debug, PartialEq, Eq, Structural)]
pub enum ProcessError {
    /// The frame's size differs from the first frame's.
    DimensionMismatch,
}

/// The number of chunks that cover `n` pixels: `n / 128` rounded up.
pub open spec fn chunks_for(n: int) -> int {
    n / 128 + if n % 128 != 0 { 1int } else { 0int }
}

/// The canvas edge that covers `n` pixels: whole chunks.
pub open spec fn canvas_edge(n: int) -> int {
    chunks_for(n) * 128
}

/// Where a source of `source` pixels starts on a canvas of `canvas` pixels.
pub open spec fn centering_offset(canvas: int, source: int) -> int {
    (canvas - source) / 2
}

/// Canvas pixel `(x, y)` when a `width` by `height` source is centered on a
/// `canvas_width` by `canvas_height` canvas: the source pixel that lands
/// there, or exact black.
pub open spec fn centered_pixel(
    source: Seq<Rgb>,
    width: int,
    height: int,
    canvas_width: int,
    canvas_height: int,
    x: int,
    y: int,
) -> Rgb {
    let ox = centering_offset(canvas_width, width);
    let oy = centering_offset(canvas_height, height);
    if ox <= x < ox + width && oy <= y < oy + height {
        source[(y - oy) * width + (x - ox)]
    } else {
        Rgb { r: 0, g: 0, b: 0 }
    }
}

/// Source dimensions whose canvas fits the machine's integers.
pub open spec fn canvas_fits(width: int, height: int) -> bool {
    &&& canvas_edge(width) <= u32::MAX
    &&& canvas_edge(height) <= u32::MAX
    &&& canvas_edge(width) * canvas_edge(height) <= usize::MAX
}

/// The geometry of a run of frames, fixed by the first frame. Its view is the
/// first frame's `(width, height)`.
pub struct Processor {
    width: u32,
    height: u32,
    map_columns: u32,
    map_width: u32,
    map_rows: u32,
    map_height: u32,
}

impl View for Processor {
    type V = (u32, u32);

    closed spec fn view(&self) -> (u32, u32) {
        (self.width, self.height)
    }
}

fn chunks_for_of(n: u32) -> (r: u32)
    requires
        canvas_edge(n as int) <= u32::MAX,
    ensures
        r == chunks_for(n as int),
{
    n / 128 + if n % 128 != 0 { 1 } else { 0 }
}

impl Processor {
    #[verifier::type_invariant]
    spec fn geometry_matches(self) -> bool {
        &&& canvas_fits(self.width as int, self.height as int)
        &&& self.map_columns == chunks_for(self.width as int)
        &&& self.map_rows == chunks_for(self.height as int)
        &&& self.map_width == canvas_edge(self.width as int)
        &&& self.map_height == canvas_edge(self.height as int)
    }

    /// Takes the grid shape from the first frame's size.
    pub fn new(width: u32, height: u32) -> (r: Processor)
        requires
            canvas_fits(width as int, height as int),
        ensures
            r@ == (width, height),
    {
        let map_columns = chunks_for_of(width);
        let map_rows = chunks_for_of(height);
        Processor {
            width,
            height,
            map_columns,
            map_width: map_columns * 128,
            map_rows,
            map_height: map_rows * 128,
        }
    }

    /// The number of chunks across: the first frame's width over 128, rounded up.
    pub fn map_columns(&self) -> (r: u32)
        ensures
            r == chunks_for(self@.0 as int),
    {
        proof {
            use_type_invariant(self);
        }
        self.map_columns
    }

    /// The number of chunks down: the first frame's height over 128, rounded up.
    pub fn map_rows(&self) -> (r: u32)
        ensures
            r == chunks_for(self@.1 as int),
    {
        proof {
            use_type_invariant(self);
        }
        self.map_rows
    }

    /// The canvas width: whole chunks.
    pub fn map_width(&self) -> (r: u32)
        ensures
            r == canvas_edge(self@.0 as int),
    {
        proof {
            use_type_invariant(self);
        }
        self.map_width
    }

    /// The canvas height: whole chunks.
    pub fn map_height(&self) -> (r: u32)
        ensures
            r == canvas_edge(self@.1 as int),
    {
        proof {
            use_type_invariant(self);
        }
        self.map_height
    }
}

impl Processor {
    /// Checks that `image` has the first frame's size and centers it on a
    /// black canvas of whole chunks.
    pub fn process_file(&self, image: &RgbBuffer) -> (r: Result<RgbBuffer, ProcessError>)
        requires
            image.wf(),
        ensures
            r is Err <==> (image.width, image.height) != self@,
            r matches Err(e) ==> e == ProcessError::DimensionMismatch,
            r matches Ok(canvas) ==> {
                &&& canvas.wf()
                &&& canvas.width == canvas_edge(self@.0 as int)
                &&& canvas.height == canvas_edge(self@.1 as int)
                &&& forall|x: int, y: int|
                    in_canvas(canvas.width as int, canvas.height as int, x, y) ==> #[trigger] canvas.pixel(x, y)
                        == centered_pixel(
                        image.pixels@,
                        image.width as int,
                        image.height as int,
                        canvas.width as int,
                        canvas.height as int,
                        x,
                        y,
                    )
            },
    {
        proof {
            use_type_invariant(self);
        }
        if image.width != self.width || image.height != self.height {
            return Err(ProcessError::DimensionMismatch);
        }
        let (w, h) = (self.width as usize, self.height as usize);
        let (mw, mh) = (self.map_width as usize, self.map_height as usize);
        let ox = (mw - w) / 2;
        let oy = (mh - h) / 2;
        let n = mw * mh;
        let source_len = image.pixels.len();
        let mut pixels: Vec<Rgb> = Vec::with_capacity(n);
        let mut i: usize = 0;
        while i < n
            invariant
                n == mw * mh,
                w == image.width,
                h == image.height,
                w <= mw,
                h <= mh,
                ox == centering_offset(mw as int, w as int),
                oy == centering_offset(mh as int, h as int),
                image.pixels@.len() == w * h,
                source_len == w * h,
                0 <= i <= n,
                pixels@.len() == i,
                forall|j: int|
                    0 <= j < i ==> #[trigger] pixels@[j] == centered_pixel(
                        image.pixels@,
                        w as int,
                        h as int,
                        mw as int,
                        mh as int,
                        j % (mw as int),
                        j / (mw as int),
                    ),
            decreases n - i,
        {
            assert(mw > 0 && (i / mw) < mh) by (nonlinear_arith)
                requires
                    0 <= i < n,
                    n == mw * mh,
            ;
            let x = i % mw;
            let y = i / mw;
            if ox <= x && x < ox + w && oy <= y && y < oy + h {
                proof {
                    lemma_index_in_canvas(w as int, h as int, (x - ox) as int, (y - oy) as int);
                }
                pixels.push(image.pixels[(y - oy) * w + (x - ox)]);
            } else {
                pixels.push(Rgb { r: 0, g: 0, b: 0 });
            }
            i += 1;
        }
        let canvas = RgbBuffer { width: self.map_width, height: self.map_height, pixels };
        proof {
            assert forall|x: int, y: int| in_canvas(canvas.width as int, canvas.height as int, x, y) implies #[trigger] canvas.pixel(x, y)
                == centered_pixel(image.pixels@, w as int, h as int, mw as int, mh as int, x, y) by {
                lemma_index_in_canvas(mw as int, mh as int, x, y);
                lemma_fundamental_div_mod_converse(y * mw + x, mw as int, y, x);
            }
        }
        Ok(canvas)
    }

    /// Quantizes and dithers a canvas of this run's size and splits the
    /// indices into chunks, in chunk order. The canvas is consumed.
    pub fn convert_colors(&self, tree: &MinecraftColorTree, image: RgbBuffer) -> (chunks: Vec<Vec<MapColor>>)
        requires
            image.wf(),
            image.width == canvas_edge(self@.0 as int),
            image.height == canvas_edge(self@.1 as int),
        ensures
            chunks@.len() == chunks_for(self@.0 as int) * chunks_for(self@.1 as int),
            forall|c: int| 0 <= c < chunks@.len() ==> (#[trigger] chunks@[c])@.len() == CHUNK_LEN,
            exists|run: Seq<(MapColor, RgbDifference)>|
                {
                    &&& run.len() == image.pixels@.len()
                    &&& valid_run(tree@, image.pixels@, image.width as int, image.height as int, run)
                    &&& forall|x: int, y: int|
                        #![trigger chunk_index(x, y, chunks_for(self@.0 as int)), offset_in_chunk(x, y)]
                        in_canvas(image.width as int, image.height as int, x, y) ==> chunks@[chunk_index(
                            x,
                            y,
                            chunks_for(self@.0 as int),
                        )]@[offset_in_chunk(x, y)] == run_indices(run)[y * image.width + x]
                },
    {
        proof {
            use_type_invariant(self);
        }
        let width = image.width as usize;
        let height = image.height as usize;
        let mut pixels = image.pixels;
        let indices = quantize_canvas(tree, &mut pixels, width, height);
        tile_indices(&indices, self.map_columns as usize, self.map_rows as usize)
    }
}

} // verus!
