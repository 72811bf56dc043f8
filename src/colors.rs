//! The fixed palette of map colors and the search for the nearest one.
use crate::kd::{kd_build, kd_contents, kd_nearest, kd_point_in_range, kd_squared_distance, KdColorTree, KdItem};
use vstd::prelude::*;

verus! {

broadcast use vstd::seq_lib::group_to_multiset_ensures;

/// An index into the target platform's color table.
pub type MapColor = u8;

/// The number of entries of the standard palette.
pub const COLOR_COUNT: usize = 244;

/// The smallest index that a palette entry may carry (0 to 3 are reserved).
pub const FIRST_INDEX: MapColor = 4;

/// The largest index that a palette entry may carry.
pub const LAST_INDEX: MapColor = 247;

/// The index that exact black is mapped to without a search.
pub const BLACK_INDEX: MapColor = 119;

/// A color of eight bits per channel.
#[derive(Clone, Copy, Debug, PartialEq, Eq, Structural)]
pub struct Rgb {
    pub r: u8,
    pub g: u8,
    pub b: u8,
}

/// Per channel, a color minus the palette color chosen for it.
#[derive(Clone, Copy, Debug, PartialEq, Eq, Structural)]
pub struct RgbDifference {
    pub r: i16,
    pub g: i16,
    pub b: i16,
}

/// A palette entry: a reference color and the index written out for it.
#[derive(Clone, Copy, Debug, PartialEq, Eq, Structural)]
pub struct MinecraftRgb {
    pub rgb: Rgb,
    pub index: MapColor,
}

pub open spec fn is_black(c: Rgb) -> bool {
    c.r == 0 && c.g == 0 && c.b == 0
}

pub open spec fn is_zero(d: RgbDifference) -> bool {
    d.r == 0 && d.g == 0 && d.b == 0
}

/// Squared Euclidean distance in RGB space.
pub open spec fn squared_distance(a: Rgb, b: Rgb) -> int {
    (a.r - b.r) * (a.r - b.r) + (a.g - b.g) * (a.g - b.g) + (a.b - b.b) * (a.b - b.b)
}

/// `c - e` per channel.
pub open spec fn difference(c: Rgb, e: Rgb) -> RgbDifference {
    RgbDifference { r: (c.r - e.r) as i16, g: (c.g - e.g) as i16, b: (c.b - e.b) as i16 }
}

/// Entry `i` is at least as close to `c` as every other entry.
pub open spec fn is_nearest_entry(p: Seq<MinecraftRgb>, c: Rgb, i: int) -> bool {
    &&& 0 <= i < p.len()
    &&& forall|j: int|
        0 <= j < p.len() ==> squared_distance(c, p[i].rgb) <= #[trigger] squared_distance(c, p[j].rgb)
}

/// What quantizing `c` may return: the black index and no difference for exact
/// black, otherwise the index of a nearest entry and the difference to it.
/// Which of several equally near entries is left open.
pub open spec fn is_quantization(p: Seq<MinecraftRgb>, c: Rgb, r: (MapColor, RgbDifference)) -> bool {
    if is_black(c) {
        r.0 == BLACK_INDEX && is_zero(r.1)
    } else {
        exists|i: int| is_nearest_entry(p, c, i) && r.0 == p[i].index && r.1 == difference(c, p[i].rgb)
    }
}

/// A palette that the pipeline can work with: not empty, every index in the
/// output range, no color twice, and every entry nearest to black carries the
/// black index (so the fast path for black agrees with a full search).
pub open spec fn palette_wf(p: Seq<MinecraftRgb>) -> bool {
    &&& p.len() > 0
    &&& forall|i: int| 0 <= i < p.len() ==> FIRST_INDEX <= #[trigger] p[i].index <= LAST_INDEX
    &&& forall|i: int, j: int| 0 <= i < p.len() && 0 <= j < p.len() && #[trigger] p[i].rgb == #[trigger] p[j].rgb ==> i == j
    &&& forall|i: int| #[trigger] is_nearest_entry(p, Rgb { r: 0, g: 0, b: 0 }, i) ==> p[i].index == BLACK_INDEX
}

/// Why a palette was refused.
#[derive(Clone, Copy, Debug, PartialEq, Eq, Structural)]
pub enum PaletteError {
    /// The palette has no entries.
    Empty,
    /// An entry's index lies outside `FIRST_INDEX..=LAST_INDEX`.
    IndexOutOfRange,
    /// Two entries share a color.
    DuplicateColor,
    /// An entry nearest to black does not carry `BLACK_INDEX`.
    BlackNotNearest,
}


/// The first reason, checked in this order, why `p` is not a usable palette.
pub open spec fn palette_check(p: Seq<MinecraftRgb>) -> Result<(), PaletteError> {
    if p.len() == 0 {
        Err(PaletteError::Empty)
    } else if exists|i: int| 0 <= i < p.len() && !(FIRST_INDEX <= #[trigger] p[i].index <= LAST_INDEX) {
        Err(PaletteError::IndexOutOfRange)
    } else if exists|i: int, j: int|
        0 <= i < p.len() && 0 <= j < p.len() && i != j && #[trigger] p[i].rgb == #[trigger] p[j].rgb {
        Err(PaletteError::DuplicateColor)
    } else if exists|i: int| #[trigger] is_nearest_entry(p, Rgb { r: 0, g: 0, b: 0 }, i) && p[i].index != BLACK_INDEX {
        Err(PaletteError::BlackNotNearest)
    } else {
        Ok(())
    }
}

/// The tree item that stands for a palette entry.
pub open spec fn kd_item_of(e: MinecraftRgb) -> KdItem {
    ([e.rgb.r as i32, e.rgb.g as i32, e.rgb.b as i32], e.index)
}

pub(crate) fn squared_distance_of(a: Rgb, b: Rgb) -> (d: u32)
    ensures
        d == squared_distance(a, b),
{
    let dr: i32 = a.r as i32 - b.r as i32;
    let dg: i32 = a.g as i32 - b.g as i32;
    let db: i32 = a.b as i32 - b.b as i32;
    assert(0 <= dr * dr <= 65025 && 0 <= dg * dg <= 65025 && 0 <= db * db <= 65025) by (nonlinear_arith)
        requires
            -255 <= dr <= 255,
            -255 <= dg <= 255,
            -255 <= db <= 255,
    ;
    (dr * dr + dg * dg + db * db) as u32
}

/// Checks a palette against `palette_wf`, reporting the first defect found.
pub fn check_palette(p: &Vec<MinecraftRgb>) -> (r: Result<(), PaletteError>)
    ensures
        r == palette_check(p@),
{
    let n = p.len();
    if n == 0 {
        return Err(PaletteError::Empty);
    }
    let mut i: usize = 0;
    while i < n
        invariant
            n == p@.len(),
            0 <= i <= n,
            forall|k: int| 0 <= k < i ==> FIRST_INDEX <= #[trigger] p@[k].index <= LAST_INDEX,
        decreases n - i,
    {
        if p[i].index < FIRST_INDEX || p[i].index > LAST_INDEX {
            return Err(PaletteError::IndexOutOfRange);
        }
        i += 1;
    }
    let mut i: usize = 0;
    while i < n
        invariant
            n == p@.len(),
            0 <= i <= n,
            forall|a: int, b: int| 0 <= a < i && 0 <= b < n && a != b ==> #[trigger] p@[a].rgb != #[trigger] p@[b].rgb,
            forall|k: int| 0 <= k < n ==> FIRST_INDEX <= #[trigger] p@[k].index <= LAST_INDEX,
        decreases n - i,
    {
        let mut j: usize = 0;
        while j < n
            invariant
                n == p@.len(),
                0 <= i < n,
                0 <= j <= n,
                forall|a: int, b: int| 0 <= a < i && 0 <= b < n && a != b ==> #[trigger] p@[a].rgb != #[trigger] p@[b].rgb,
                forall|b: int| 0 <= b < j && i != b ==> p@[i as int].rgb != #[trigger] p@[b].rgb,
                forall|k: int| 0 <= k < n ==> FIRST_INDEX <= #[trigger] p@[k].index <= LAST_INDEX,
            decreases n - j,
        {
            if j != i && p[i].rgb == p[j].rgb {
                assert(p@[i as int].rgb == p@[j as int].rgb);
                return Err(PaletteError::DuplicateColor);
            }
            j += 1;
        }
        i += 1;
    }
    let black = Rgb { r: 0, g: 0, b: 0 };
    let mut best: u32 = squared_distance_of(black, p[0].rgb);
    let ghost mut at: int = 0;
    let mut i: usize = 1;
    while i < n
        invariant
            n == p@.len(),
            1 <= i <= n,
            0 <= at < n,
            black == (Rgb { r: 0, g: 0, b: 0 }),
            best == squared_distance(black, p@[at].rgb),
            forall|k: int| 0 <= k < i ==> best <= #[trigger] squared_distance(black, p@[k].rgb),
            forall|k: int| 0 <= k < n ==> FIRST_INDEX <= #[trigger] p@[k].index <= LAST_INDEX,
            forall|a: int, b: int| 0 <= a < n && 0 <= b < n && a != b ==> #[trigger] p@[a].rgb != #[trigger] p@[b].rgb,
        decreases n - i,
    {
        let d = squared_distance_of(black, p[i].rgb);
        if d < best {
            best = d;
            proof {
                at = i as int;
            }
        }
        i += 1;
    }
    assert(is_nearest_entry(p@, black, at));
    let mut i: usize = 0;
    while i < n
        invariant
            n == p@.len(),
            0 <= i <= n,
            0 <= at < n,
            black == (Rgb { r: 0, g: 0, b: 0 }),
            best == squared_distance(black, p@[at].rgb),
            forall|k: int| 0 <= k < n ==> best <= #[trigger] squared_distance(black, p@[k].rgb),
            forall|k: int| 0 <= k < i && #[trigger] is_nearest_entry(p@, black, k) ==> p@[k].index == BLACK_INDEX,
            forall|k: int| 0 <= k < n ==> FIRST_INDEX <= #[trigger] p@[k].index <= LAST_INDEX,
            forall|a: int, b: int| 0 <= a < n && 0 <= b < n && a != b ==> #[trigger] p@[a].rgb != #[trigger] p@[b].rgb,
        decreases n - i,
    {
        let d = squared_distance_of(black, p[i].rgb);
        if d == best && p[i].index != BLACK_INDEX {
            assert(is_nearest_entry(p@, black, i as int));
            return Err(PaletteError::BlackNotNearest);
        }
        proof {
            if is_nearest_entry(p@, black, i as int) {
                assert(squared_distance(black, p@[i as int].rgb) <= squared_distance(black, p@[at].rgb));
            }
        }
        i += 1;
    }
    Ok(())
}

/// The check accepts exactly the palettes of `palette_wf`.
pub proof fn lemma_palette_check_wf(p: Seq<MinecraftRgb>)
    ensures
        palette_check(p) is Ok <==> palette_wf(p),
{
}

proof fn lemma_square_symmetric(a: int, b: int)
    ensures
        (a - b) * (a - b) == (b - a) * (b - a),
{
    assert((a - b) * (a - b) == (b - a) * (b - a)) by (nonlinear_arith);
}

/// The tree's distance from an entry's item to a color's point is the
/// palette distance between the two colors.
proof fn lemma_kd_distance(c: Rgb, e: MinecraftRgb, q: [i32; 3])
    requires
        q[0] == c.r as i32,
        q[1] == c.g as i32,
        q[2] == c.b as i32,
    ensures
        kd_squared_distance(kd_item_of(e).0, q) == squared_distance(c, e.rgb),
{
    lemma_square_symmetric(c.r as int, e.rgb.r as int);
    lemma_square_symmetric(c.g as int, e.rgb.g as int);
    lemma_square_symmetric(c.b as int, e.rgb.b as int);
}

proof fn lemma_squared_distance_zero(a: Rgb, b: Rgb)
    ensures
        squared_distance(a, b) >= 0,
        squared_distance(a, b) == 0 <==> a == b,
{
    let x: int = a.r - b.r;
    let y: int = a.g - b.g;
    let z: int = a.b - b.b;
    assert(x * x >= 0 && (x * x == 0 <==> x == 0)) by (nonlinear_arith);
    assert(y * y >= 0 && (y * y == 0 <==> y == 0)) by (nonlinear_arith);
    assert(z * z >= 0 && (z * z == 0 <==> z == 0)) by (nonlinear_arith);
    assert(squared_distance(a, b) == x * x + y * y + z * z);
}

/// Quantizing the color of any entry of a usable palette gives that entry's
/// index and no difference, whichever way ties are broken.
pub proof fn lemma_entry_quantizes_to_itself(p: Seq<MinecraftRgb>, i: int, r: (MapColor, RgbDifference))
    requires
        palette_wf(p),
        0 <= i < p.len(),
        is_quantization(p, p[i].rgb, r),
    ensures
        r.0 == p[i].index,
        is_zero(r.1),
{
    let c = p[i].rgb;
    if is_black(c) {
        assert forall|j: int| 0 <= j < p.len() implies squared_distance(c, p[i].rgb)
            <= #[trigger] squared_distance(c, p[j].rgb) by {
            lemma_squared_distance_zero(c, p[i].rgb);
            lemma_squared_distance_zero(c, p[j].rgb);
        }
        assert(c == Rgb { r: 0, g: 0, b: 0 });
        assert(is_nearest_entry(p, Rgb { r: 0, g: 0, b: 0 }, i));
    } else {
        let k = choose|k: int| is_nearest_entry(p, c, k) && r.0 == p[k].index && r.1 == difference(c, p[k].rgb);
        assert(squared_distance(c, p[k].rgb) <= squared_distance(c, p[i].rgb));
        lemma_squared_distance_zero(c, p[i].rgb);
        lemma_squared_distance_zero(c, p[k].rgb);
        assert(p[k].rgb == p[i].rgb);
    }
}

/// On a usable palette, quantizing exact black gives the black index with no
/// difference, and every entry that a full nearest search could return for
/// black carries that same index.
pub proof fn lemma_black_fast_path(p: Seq<MinecraftRgb>, r: (MapColor, RgbDifference), i: int)
    requires
        palette_wf(p),
        is_quantization(p, Rgb { r: 0, g: 0, b: 0 }, r),
        is_nearest_entry(p, Rgb { r: 0, g: 0, b: 0 }, i),
    ensures
        r.0 == BLACK_INDEX,
        is_zero(r.1),
        p[i].index == r.0,
{
}

/// The nearest-color index: a palette and a k-d tree over its colors, built
/// once and read-only afterwards. Its view is the palette.
pub struct MinecraftColorTree {
    tree: KdColorTree,
    palette: Vec<MinecraftRgb>,
}

impl View for MinecraftColorTree {
    type V = Seq<MinecraftRgb>;

    closed spec fn view(&self) -> Seq<MinecraftRgb> {
        self.palette@
    }
}

impl MinecraftColorTree {
    #[verifier::type_invariant]
    spec fn tree_matches_palette(self) -> bool {
        &&& palette_wf(self.palette@)
        &&& kd_contents(self.tree) == self.palette@.map_values(|e: MinecraftRgb| kd_item_of(e)).to_multiset()
    }

    /// Builds the index over `palette`, or says why the palette is unusable.
    pub fn new(palette: Vec<MinecraftRgb>) -> (r: Result<MinecraftColorTree, PaletteError>)
        ensures
            match r {
                Ok(t) => palette_check(palette@) is Ok && t@ == palette@,
                Err(e) => palette_check(palette@) == Err::<(), PaletteError>(e),
            },
            r is Ok ==> palette_wf(palette@),
    {
        if let Err(e) = check_palette(&palette) {
            return Err(e);
        }
        let mut items: Vec<KdItem> = Vec::with_capacity(palette.len());
        let mut i: usize = 0;
        while i < palette.len()
            invariant
                0 <= i <= palette@.len(),
                items@ == palette@.subrange(0, i as int).map_values(|e: MinecraftRgb| kd_item_of(e)),
            decreases palette@.len() - i,
        {
            let e = palette[i];
            items.push(([e.rgb.r as i32, e.rgb.g as i32, e.rgb.b as i32], e.index));
            proof {
                assert(palette@.subrange(0, i + 1) == palette@.subrange(0, i as int).push(e));
            }
            i += 1;
        }
        proof {
            assert(palette@.subrange(0, palette@.len() as int) == palette@);
        }
        let tree = kd_build(items);
        Ok(MinecraftColorTree { tree, palette })
    }

    /// The palette that the index was built over; it is always usable.
    pub fn palette(&self) -> (r: &Vec<MinecraftRgb>)
        ensures
            r@ == self@,
            palette_wf(self@),
    {
        proof {
            use_type_invariant(self);
        }
        &self.palette
    }

    /// A nearest palette entry to `color`, by a full search of the tree.
    pub fn nearest_entry(&self, color: &Rgb) -> (r: MinecraftRgb)
        ensures
            exists|i: int| is_nearest_entry(self@, *color, i) && r == self@[i],
    {
        proof {
            use_type_invariant(self);
        }
        let ghost items = self.palette@.map_values(|e: MinecraftRgb| kd_item_of(e));
        assert forall|o: KdItem| kd_contents(self.tree).count(o) > 0 implies kd_point_in_range(o.0) by {
            assert(items.contains(o));
        }
        let query: [i32; 3] = [color.r as i32, color.g as i32, color.b as i32];
        let found = kd_nearest(&self.tree, query);
        assert(items.len() > 0);
        assert(kd_contents(self.tree).count(items[0]) > 0);
        let item = found.unwrap();
        assert(items.contains(item));
        let ghost at = choose|i: int| 0 <= i < items.len() && items[i] == item;
        let entry = MinecraftRgb {
            rgb: Rgb { r: item.0[0] as u8, g: item.0[1] as u8, b: item.0[2] as u8 },
            index: item.1,
        };
        assert(entry == self.palette@[at]);
        assert forall|j: int| 0 <= j < self.palette@.len() implies squared_distance(*color, self.palette@[at].rgb)
            <= #[trigger] squared_distance(*color, self.palette@[j].rgb) by {
            assert(kd_contents(self.tree).count(items[j]) > 0);
            lemma_kd_distance(*color, self.palette@[j], query);
            lemma_kd_distance(*color, self.palette@[at], query);
        }
        assert(is_nearest_entry(self@, *color, at));
        entry
    }

    /// Quantizes one color: exact black goes to the black index with no
    /// difference; any other color to a nearest entry, with the difference
    /// `color - entry` per channel.
    pub fn find_closest(&self, color: &Rgb) -> (r: (MapColor, RgbDifference))
        ensures
            is_quantization(self@, *color, r),
    {
        if color.r == 0 && color.g == 0 && color.b == 0 {
            return (BLACK_INDEX, RgbDifference { r: 0, g: 0, b: 0 });
        }
        let e = self.nearest_entry(color);
        let d = RgbDifference {
            r: color.r as i16 - e.rgb.r as i16,
            g: color.g as i16 - e.rgb.g as i16,
            b: color.b as i16 - e.rgb.b as i16,
        };
        (e.index, d)
    }
}

pub open spec fn palette_entry(r: u8, g: u8, b: u8, index: MapColor) -> MinecraftRgb {
    MinecraftRgb { rgb: Rgb { r, g, b }, index }
}

/// Entry `i` of the standard palette.
pub open spec fn standard_entry(i: u8) -> MinecraftRgb {
    match i {
        0 => palette_entry(89, 125, 39, 4),
        1 => palette_entry(109, 153, 48, 5),
        2 => palette_entry(127, 178, 56, 6),
        3 => palette_entry(67, 94, 29, 7),
        4 => palette_entry(174, 164, 115, 8),
        5 => palette_entry(213, 201, 140, 9),
        6 => palette_entry(247, 233, 163, 10),
        7 => palette_entry(130, 123, 86, 11),
        8 => palette_entry(140, 140, 140, 12),
        9 => palette_entry(171, 171, 171, 13),
        10 => palette_entry(199, 199, 199, 14),
        11 => palette_entry(105, 105, 105, 15),
        12 => palette_entry(180, 0, 0, 16),
        13 => palette_entry(220, 0, 0, 17),
        14 => palette_entry(255, 0, 0, 18),
        15 => palette_entry(135, 0, 0, 19),
        16 => palette_entry(112, 112, 180, 20),
        17 => palette_entry(138, 138, 220, 21),
        18 => palette_entry(160, 160, 255, 22),
        19 => palette_entry(84, 84, 135, 23),
        20 => palette_entry(117, 117, 117, 24),
        21 => palette_entry(144, 144, 144, 25),
        22 => palette_entry(167, 167, 167, 26),
        23 => palette_entry(88, 88, 88, 27),
        24 => palette_entry(0, 87, 0, 28),
        25 => palette_entry(0, 106, 0, 29),
        26 => palette_entry(0, 124, 0, 30),
        27 => palette_entry(0, 65, 0, 31),
        28 => palette_entry(180, 180, 180, 32),
        29 => palette_entry(220, 220, 220, 33),
        30 => palette_entry(255, 255, 255, 34),
        31 => palette_entry(135, 135, 135, 35),
        32 => palette_entry(115, 118, 129, 36),
        33 => palette_entry(141, 144, 158, 37),
        34 => palette_entry(164, 168, 184, 38),
        35 => palette_entry(86, 88, 97, 39),
        36 => palette_entry(106, 76, 54, 40),
        37 => palette_entry(130, 94, 66, 41),
        38 => palette_entry(151, 109, 77, 42),
        39 => palette_entry(79, 57, 40, 43),
        40 => palette_entry(79, 79, 79, 44),
        41 => palette_entry(96, 96, 96, 45),
        42 => palette_entry(112, 112, 112, 46),
        43 => palette_entry(59, 59, 59, 47),
        44 => palette_entry(45, 45, 180, 48),
        45 => palette_entry(55, 55, 220, 49),
        46 => palette_entry(64, 64, 255, 50),
        47 => palette_entry(33, 33, 135, 51),
        48 => palette_entry(100, 84, 50, 52),
        49 => palette_entry(123, 102, 62, 53),
        50 => palette_entry(143, 119, 72, 54),
        51 => palette_entry(75, 63, 38, 55),
        52 => palette_entry(180, 177, 172, 56),
        53 => palette_entry(220, 217, 211, 57),
        54 => palette_entry(255, 252, 245, 58),
        55 => palette_entry(135, 133, 129, 59),
        56 => palette_entry(152, 89, 36, 60),
        57 => palette_entry(186, 109, 44, 61),
        58 => palette_entry(216, 127, 51, 62),
        59 => palette_entry(114, 67, 27, 63),
        60 => palette_entry(125, 53, 152, 64),
        61 => palette_entry(153, 65, 186, 65),
        62 => palette_entry(178, 76, 216, 66),
        63 => palette_entry(94, 40, 114, 67),
        64 => palette_entry(72, 108, 152, 68),
        65 => palette_entry(88, 132, 186, 69),
        66 => palette_entry(102, 153, 216, 70),
        67 => palette_entry(54, 81, 114, 71),
        68 => palette_entry(161, 161, 36, 72),
        69 => palette_entry(197, 197, 44, 73),
        70 => palette_entry(229, 229, 51, 74),
        71 => palette_entry(121, 121, 27, 75),
        72 => palette_entry(89, 144, 17, 76),
        73 => palette_entry(109, 176, 21, 77),
        74 => palette_entry(127, 204, 25, 78),
        75 => palette_entry(67, 108, 13, 79),
        76 => palette_entry(170, 89, 116, 80),
        77 => palette_entry(208, 109, 142, 81),
        78 => palette_entry(242, 127, 165, 82),
        79 => palette_entry(128, 67, 87, 83),
        80 => palette_entry(53, 53, 53, 84),
        81 => palette_entry(65, 65, 65, 85),
        82 => palette_entry(76, 76, 76, 86),
        83 => palette_entry(40, 40, 40, 87),
        84 => palette_entry(108, 108, 108, 88),
        85 => palette_entry(132, 132, 132, 89),
        86 => palette_entry(153, 153, 153, 90),
        87 => palette_entry(81, 81, 81, 91),
        88 => palette_entry(53, 89, 108, 92),
        89 => palette_entry(65, 109, 132, 93),
        90 => palette_entry(76, 127, 153, 94),
        91 => palette_entry(40, 67, 81, 95),
        92 => palette_entry(89, 44, 125, 96),
        93 => palette_entry(109, 54, 153, 97),
        94 => palette_entry(127, 63, 178, 98),
        95 => palette_entry(67, 33, 94, 99),
        96 => palette_entry(36, 53, 125, 100),
        97 => palette_entry(44, 65, 153, 101),
        98 => palette_entry(51, 76, 178, 102),
        99 => palette_entry(27, 40, 94, 103),
        100 => palette_entry(72, 53, 36, 104),
        101 => palette_entry(88, 65, 44, 105),
        102 => palette_entry(102, 76, 51, 106),
        103 => palette_entry(54, 40, 27, 107),
        104 => palette_entry(72, 89, 36, 108),
        105 => palette_entry(88, 109, 44, 109),
        106 => palette_entry(102, 127, 51, 110),
        107 => palette_entry(54, 67, 27, 111),
        108 => palette_entry(108, 36, 36, 112),
        109 => palette_entry(132, 44, 44, 113),
        110 => palette_entry(153, 51, 51, 114),
        111 => palette_entry(81, 27, 27, 115),
        112 => palette_entry(17, 17, 17, 116),
        113 => palette_entry(21, 21, 21, 117),
        114 => palette_entry(25, 25, 25, 118),
        115 => palette_entry(13, 13, 13, 119),
        116 => palette_entry(176, 168, 54, 120),
        117 => palette_entry(215, 205, 66, 121),
        118 => palette_entry(250, 238, 77, 122),
        119 => palette_entry(132, 126, 40, 123),
        120 => palette_entry(64, 154, 150, 124),
        121 => palette_entry(79, 188, 183, 125),
        122 => palette_entry(92, 219, 213, 126),
        123 => palette_entry(48, 115, 112, 127),
        124 => palette_entry(52, 90, 180, 128),
        125 => palette_entry(63, 110, 220, 129),
        126 => palette_entry(74, 128, 255, 130),
        127 => palette_entry(39, 67, 135, 131),
        128 => palette_entry(0, 153, 40, 132),
        129 => palette_entry(0, 187, 50, 133),
        130 => palette_entry(0, 217, 58, 134),
        131 => palette_entry(0, 114, 30, 135),
        132 => palette_entry(91, 60, 34, 136),
        133 => palette_entry(111, 74, 42, 137),
        134 => palette_entry(129, 86, 49, 138),
        135 => palette_entry(68, 45, 25, 139),
        136 => palette_entry(79, 1, 0, 140),
        137 => palette_entry(96, 1, 0, 141),
        138 => palette_entry(112, 2, 0, 142),
        139 => palette_entry(59, 1, 0, 143),
        140 => palette_entry(147, 124, 113, 144),
        141 => palette_entry(180, 152, 138, 145),
        142 => palette_entry(209, 177, 161, 146),
        143 => palette_entry(110, 93, 85, 147),
        144 => palette_entry(112, 57, 25, 148),
        145 => palette_entry(137, 70, 31, 149),
        146 => palette_entry(159, 82, 36, 150),
        147 => palette_entry(84, 43, 19, 151),
        148 => palette_entry(105, 61, 76, 152),
        149 => palette_entry(128, 75, 93, 153),
        150 => palette_entry(149, 87, 108, 154),
        151 => palette_entry(78, 46, 57, 155),
        152 => palette_entry(79, 76, 97, 156),
        153 => palette_entry(96, 93, 119, 157),
        154 => palette_entry(112, 108, 138, 158),
        155 => palette_entry(59, 57, 73, 159),
        156 => palette_entry(131, 93, 25, 160),
        157 => palette_entry(160, 114, 31, 161),
        158 => palette_entry(186, 133, 36, 162),
        159 => palette_entry(98, 70, 19, 163),
        160 => palette_entry(72, 82, 37, 164),
        161 => palette_entry(88, 100, 45, 165),
        162 => palette_entry(103, 117, 53, 166),
        163 => palette_entry(54, 61, 28, 167),
        164 => palette_entry(112, 54, 55, 168),
        165 => palette_entry(138, 66, 67, 169),
        166 => palette_entry(160, 77, 78, 170),
        167 => palette_entry(84, 40, 41, 171),
        168 => palette_entry(40, 28, 24, 172),
        169 => palette_entry(49, 35, 30, 173),
        170 => palette_entry(57, 41, 35, 174),
        171 => palette_entry(30, 21, 18, 175),
        172 => palette_entry(95, 75, 69, 176),
        173 => palette_entry(116, 92, 84, 177),
        174 => palette_entry(135, 107, 98, 178),
        175 => palette_entry(71, 56, 51, 179),
        176 => palette_entry(61, 64, 64, 180),
        177 => palette_entry(75, 79, 79, 181),
        178 => palette_entry(87, 92, 92, 182),
        179 => palette_entry(46, 48, 48, 183),
        180 => palette_entry(86, 51, 62, 184),
        181 => palette_entry(105, 62, 75, 185),
        182 => palette_entry(122, 73, 88, 186),
        183 => palette_entry(64, 38, 46, 187),
        184 => palette_entry(53, 43, 64, 188),
        185 => palette_entry(65, 53, 79, 189),
        186 => palette_entry(76, 62, 92, 190),
        187 => palette_entry(40, 32, 48, 191),
        188 => palette_entry(53, 35, 24, 192),
        189 => palette_entry(65, 43, 30, 193),
        190 => palette_entry(76, 50, 35, 194),
        191 => palette_entry(40, 26, 18, 195),
        192 => palette_entry(53, 57, 29, 196),
        193 => palette_entry(65, 70, 36, 197),
        194 => palette_entry(76, 82, 42, 198),
        195 => palette_entry(40, 43, 22, 199),
        196 => palette_entry(100, 42, 32, 200),
        197 => palette_entry(122, 51, 39, 201),
        198 => palette_entry(142, 60, 46, 202),
        199 => palette_entry(75, 31, 24, 203),
        200 => palette_entry(26, 15, 11, 204),
        201 => palette_entry(31, 18, 13, 205),
        202 => palette_entry(37, 22, 16, 206),
        203 => palette_entry(19, 11, 8, 207),
        204 => palette_entry(133, 33, 34, 208),
        205 => palette_entry(163, 41, 42, 209),
        206 => palette_entry(189, 48, 49, 210),
        207 => palette_entry(100, 25, 25, 211),
        208 => palette_entry(104, 44, 68, 212),
        209 => palette_entry(127, 54, 83, 213),
        210 => palette_entry(148, 63, 97, 214),
        211 => palette_entry(78, 33, 51, 215),
        212 => palette_entry(64, 17, 20, 216),
        213 => palette_entry(79, 21, 25, 217),
        214 => palette_entry(92, 25, 29, 218),
        215 => palette_entry(48, 13, 15, 219),
        216 => palette_entry(15, 88, 94, 220),
        217 => palette_entry(18, 108, 115, 221),
        218 => palette_entry(22, 126, 134, 222),
        219 => palette_entry(11, 66, 70, 223),
        220 => palette_entry(40, 100, 98, 224),
        221 => palette_entry(50, 122, 120, 225),
        222 => palette_entry(58, 142, 140, 226),
        223 => palette_entry(30, 75, 74, 227),
        224 => palette_entry(60, 31, 43, 228),
        225 => palette_entry(74, 37, 53, 229),
        226 => palette_entry(86, 44, 62, 230),
        227 => palette_entry(45, 23, 32, 231),
        228 => palette_entry(14, 127, 93, 232),
        229 => palette_entry(17, 155, 114, 233),
        230 => palette_entry(20, 180, 133, 234),
        231 => palette_entry(10, 95, 70, 235),
        232 => palette_entry(70, 70, 70, 236),
        233 => palette_entry(86, 86, 86, 237),
        234 => palette_entry(100, 100, 100, 238),
        235 => palette_entry(52, 52, 52, 239),
        236 => palette_entry(152, 123, 103, 240),
        237 => palette_entry(186, 150, 126, 241),
        238 => palette_entry(216, 175, 147, 242),
        239 => palette_entry(114, 92, 77, 243),
        240 => palette_entry(89, 117, 105, 244),
        241 => palette_entry(109, 144, 129, 245),
        242 => palette_entry(127, 167, 150, 246),
        243 => palette_entry(67, 88, 79, 247),
        _ => palette_entry(0, 0, 0, 0),
    }
}

/// Where a color stands in the standard palette, or -1.
pub open spec fn standard_position(c: Rgb) -> int {
    match (c.r, c.g, c.b) {
        (89, 125, 39) => 0,
        (109, 153, 48) => 1,
        (127, 178, 56) => 2,
        (67, 94, 29) => 3,
        (174, 164, 115) => 4,
        (213, 201, 140) => 5,
        (247, 233, 163) => 6,
        (130, 123, 86) => 7,
        (140, 140, 140) => 8,
        (171, 171, 171) => 9,
        (199, 199, 199) => 10,
        (105, 105, 105) => 11,
        (180, 0, 0) => 12,
        (220, 0, 0) => 13,
        (255, 0, 0) => 14,
        (135, 0, 0) => 15,
        (112, 112, 180) => 16,
        (138, 138, 220) => 17,
        (160, 160, 255) => 18,
        (84, 84, 135) => 19,
        (117, 117, 117) => 20,
        (144, 144, 144) => 21,
        (167, 167, 167) => 22,
        (88, 88, 88) => 23,
        (0, 87, 0) => 24,
        (0, 106, 0) => 25,
        (0, 124, 0) => 26,
        (0, 65, 0) => 27,
        (180, 180, 180) => 28,
        (220, 220, 220) => 29,
        (255, 255, 255) => 30,
        (135, 135, 135) => 31,
        (115, 118, 129) => 32,
        (141, 144, 158) => 33,
        (164, 168, 184) => 34,
        (86, 88, 97) => 35,
        (106, 76, 54) => 36,
        (130, 94, 66) => 37,
        (151, 109, 77) => 38,
        (79, 57, 40) => 39,
        (79, 79, 79) => 40,
        (96, 96, 96) => 41,
        (112, 112, 112) => 42,
        (59, 59, 59) => 43,
        (45, 45, 180) => 44,
        (55, 55, 220) => 45,
        (64, 64, 255) => 46,
        (33, 33, 135) => 47,
        (100, 84, 50) => 48,
        (123, 102, 62) => 49,
        (143, 119, 72) => 50,
        (75, 63, 38) => 51,
        (180, 177, 172) => 52,
        (220, 217, 211) => 53,
        (255, 252, 245) => 54,
        (135, 133, 129) => 55,
        (152, 89, 36) => 56,
        (186, 109, 44) => 57,
        (216, 127, 51) => 58,
        (114, 67, 27) => 59,
        (125, 53, 152) => 60,
        (153, 65, 186) => 61,
        (178, 76, 216) => 62,
        (94, 40, 114) => 63,
        (72, 108, 152) => 64,
        (88, 132, 186) => 65,
        (102, 153, 216) => 66,
        (54, 81, 114) => 67,
        (161, 161, 36) => 68,
        (197, 197, 44) => 69,
        (229, 229, 51) => 70,
        (121, 121, 27) => 71,
        (89, 144, 17) => 72,
        (109, 176, 21) => 73,
        (127, 204, 25) => 74,
        (67, 108, 13) => 75,
        (170, 89, 116) => 76,
        (208, 109, 142) => 77,
        (242, 127, 165) => 78,
        (128, 67, 87) => 79,
        (53, 53, 53) => 80,
        (65, 65, 65) => 81,
        (76, 76, 76) => 82,
        (40, 40, 40) => 83,
        (108, 108, 108) => 84,
        (132, 132, 132) => 85,
        (153, 153, 153) => 86,
        (81, 81, 81) => 87,
        (53, 89, 108) => 88,
        (65, 109, 132) => 89,
        (76, 127, 153) => 90,
        (40, 67, 81) => 91,
        (89, 44, 125) => 92,
        (109, 54, 153) => 93,
        (127, 63, 178) => 94,
        (67, 33, 94) => 95,
        (36, 53, 125) => 96,
        (44, 65, 153) => 97,
        (51, 76, 178) => 98,
        (27, 40, 94) => 99,
        (72, 53, 36) => 100,
        (88, 65, 44) => 101,
        (102, 76, 51) => 102,
        (54, 40, 27) => 103,
        (72, 89, 36) => 104,
        (88, 109, 44) => 105,
        (102, 127, 51) => 106,
        (54, 67, 27) => 107,
        (108, 36, 36) => 108,
        (132, 44, 44) => 109,
        (153, 51, 51) => 110,
        (81, 27, 27) => 111,
        (17, 17, 17) => 112,
        (21, 21, 21) => 113,
        (25, 25, 25) => 114,
        (13, 13, 13) => 115,
        (176, 168, 54) => 116,
        (215, 205, 66) => 117,
        (250, 238, 77) => 118,
        (132, 126, 40) => 119,
        (64, 154, 150) => 120,
        (79, 188, 183) => 121,
        (92, 219, 213) => 122,
        (48, 115, 112) => 123,
        (52, 90, 180) => 124,
        (63, 110, 220) => 125,
        (74, 128, 255) => 126,
        (39, 67, 135) => 127,
        (0, 153, 40) => 128,
        (0, 187, 50) => 129,
        (0, 217, 58) => 130,
        (0, 114, 30) => 131,
        (91, 60, 34) => 132,
        (111, 74, 42) => 133,
        (129, 86, 49) => 134,
        (68, 45, 25) => 135,
        (79, 1, 0) => 136,
        (96, 1, 0) => 137,
        (112, 2, 0) => 138,
        (59, 1, 0) => 139,
        (147, 124, 113) => 140,
        (180, 152, 138) => 141,
        (209, 177, 161) => 142,
        (110, 93, 85) => 143,
        (112, 57, 25) => 144,
        (137, 70, 31) => 145,
        (159, 82, 36) => 146,
        (84, 43, 19) => 147,
        (105, 61, 76) => 148,
        (128, 75, 93) => 149,
        (149, 87, 108) => 150,
        (78, 46, 57) => 151,
        (79, 76, 97) => 152,
        (96, 93, 119) => 153,
        (112, 108, 138) => 154,
        (59, 57, 73) => 155,
        (131, 93, 25) => 156,
        (160, 114, 31) => 157,
        (186, 133, 36) => 158,
        (98, 70, 19) => 159,
        (72, 82, 37) => 160,
        (88, 100, 45) => 161,
        (103, 117, 53) => 162,
        (54, 61, 28) => 163,
        (112, 54, 55) => 164,
        (138, 66, 67) => 165,
        (160, 77, 78) => 166,
        (84, 40, 41) => 167,
        (40, 28, 24) => 168,
        (49, 35, 30) => 169,
        (57, 41, 35) => 170,
        (30, 21, 18) => 171,
        (95, 75, 69) => 172,
        (116, 92, 84) => 173,
        (135, 107, 98) => 174,
        (71, 56, 51) => 175,
        (61, 64, 64) => 176,
        (75, 79, 79) => 177,
        (87, 92, 92) => 178,
        (46, 48, 48) => 179,
        (86, 51, 62) => 180,
        (105, 62, 75) => 181,
        (122, 73, 88) => 182,
        (64, 38, 46) => 183,
        (53, 43, 64) => 184,
        (65, 53, 79) => 185,
        (76, 62, 92) => 186,
        (40, 32, 48) => 187,
        (53, 35, 24) => 188,
        (65, 43, 30) => 189,
        (76, 50, 35) => 190,
        (40, 26, 18) => 191,
        (53, 57, 29) => 192,
        (65, 70, 36) => 193,
        (76, 82, 42) => 194,
        (40, 43, 22) => 195,
        (100, 42, 32) => 196,
        (122, 51, 39) => 197,
        (142, 60, 46) => 198,
        (75, 31, 24) => 199,
        (26, 15, 11) => 200,
        (31, 18, 13) => 201,
        (37, 22, 16) => 202,
        (19, 11, 8) => 203,
        (133, 33, 34) => 204,
        (163, 41, 42) => 205,
        (189, 48, 49) => 206,
        (100, 25, 25) => 207,
        (104, 44, 68) => 208,
        (127, 54, 83) => 209,
        (148, 63, 97) => 210,
        (78, 33, 51) => 211,
        (64, 17, 20) => 212,
        (79, 21, 25) => 213,
        (92, 25, 29) => 214,
        (48, 13, 15) => 215,
        (15, 88, 94) => 216,
        (18, 108, 115) => 217,
        (22, 126, 134) => 218,
        (11, 66, 70) => 219,
        (40, 100, 98) => 220,
        (50, 122, 120) => 221,
        (58, 142, 140) => 222,
        (30, 75, 74) => 223,
        (60, 31, 43) => 224,
        (74, 37, 53) => 225,
        (86, 44, 62) => 226,
        (45, 23, 32) => 227,
        (14, 127, 93) => 228,
        (17, 155, 114) => 229,
        (20, 180, 133) => 230,
        (10, 95, 70) => 231,
        (70, 70, 70) => 232,
        (86, 86, 86) => 233,
        (100, 100, 100) => 234,
        (52, 52, 52) => 235,
        (152, 123, 103) => 236,
        (186, 150, 126) => 237,
        (216, 175, 147) => 238,
        (114, 92, 77) => 239,
        (89, 117, 105) => 240,
        (109, 144, 129) => 241,
        (127, 167, 150) => 242,
        (67, 88, 79) => 243,
        _ => -1,
    }
}

/// The standard palette: the target platform's map colors without the four
/// transparent ones, with the indices 4 to 247 in order.
pub open spec fn standard_palette() -> Seq<MinecraftRgb> {
    Seq::new(COLOR_COUNT as nat, |i: int| standard_entry(i as u8))
}

/// What a usable palette needs, entry by entry, of the standard one: its
/// index, its place among the colors (so no color comes twice), and its
/// distance from black, which only the black entry has as small as 507.
proof fn lemma_standard_entry(i: int)
    requires
        0 <= i < COLOR_COUNT,
    ensures
        standard_palette()[i].index == FIRST_INDEX + i,
        standard_position(standard_palette()[i].rgb) == i,
        squared_distance(Rgb { r: 0, g: 0, b: 0 }, standard_palette()[i].rgb) >= 507,
        squared_distance(Rgb { r: 0, g: 0, b: 0 }, standard_palette()[i].rgb) == 507 <==> i == 115,
{
    if i < 32 {
        lemma_standard_entries_0_32(i);
    } else if i < 64 {
        lemma_standard_entries_32_64(i);
    } else if i < 96 {
        lemma_standard_entries_64_96(i);
    } else if i < 128 {
        lemma_standard_entries_96_128(i);
    } else if i < 160 {
        lemma_standard_entries_128_160(i);
    } else if i < 192 {
        lemma_standard_entries_160_192(i);
    } else if i < 224 {
        lemma_standard_entries_192_224(i);
    } else {
        lemma_standard_entries_224_244(i);
    }
}

proof fn lemma_standard_entries_0_32(i: int)
    requires
        0 <= i < 32,
    ensures
        standard_palette()[i].index == FIRST_INDEX + i,
        standard_position(standard_palette()[i].rgb) == i,
        squared_distance(Rgb { r: 0, g: 0, b: 0 }, standard_palette()[i].rgb) >= 507,
        squared_distance(Rgb { r: 0, g: 0, b: 0 }, standard_palette()[i].rgb) == 507 <==> i == 115,
{
    if i == 0 {
        assert(standard_palette()[0].rgb == Rgb { r: 89, g: 125, b: 39 });
        assert(squared_distance(Rgb { r: 0, g: 0, b: 0 }, Rgb { r: 89, g: 125, b: 39 }) == 25067) by (nonlinear_arith);
    } else if i == 1 {
        assert(standard_palette()[1].rgb == Rgb { r: 109, g: 153, b: 48 });
        assert(squared_distance(Rgb { r: 0, g: 0, b: 0 }, Rgb { r: 109, g: 153, b: 48 }) == 37594) by (nonlinear_arith);
    } else if i == 2 {
        assert(standard_palette()[2].rgb == Rgb { r: 127, g: 178, b: 56 });
        assert(squared_distance(Rgb { r: 0, g: 0, b: 0 }, Rgb { r: 127, g: 178, b: 56 }) == 50949) by (nonlinear_arith);
    } else if i == 3 {
        assert(standard_palette()[3].rgb == Rgb { r: 67, g: 94, b: 29 });
        assert(squared_distance(Rgb { r: 0, g: 0, b: 0 }, Rgb { r: 67, g: 94, b: 29 }) == 14166) by (nonlinear_arith);
    } else if i == 4 {
        assert(standard_palette()[4].rgb == Rgb { r: 174, g: 164, b: 115 });
        assert(squared_distance(Rgb { r: 0, g: 0, b: 0 }, Rgb { r: 174, g: 164, b: 115 }) == 70397) by (nonlinear_arith);
    } else if i == 5 {
        assert(standard_palette()[5].rgb == Rgb { r: 213, g: 201, b: 140 });
        assert(squared_distance(Rgb { r: 0, g: 0, b: 0 }, Rgb { r: 213, g: 201, b: 140 }) == 105370) by (nonlinear_arith);
    } else if i == 6 {
        assert(standard_palette()[6].rgb == Rgb { r: 247, g: 233, b: 163 });
        assert(squared_distance(Rgb { r: 0, g: 0, b: 0 }, Rgb { r: 247, g: 233, b: 163 }) == 141867) by (nonlinear_arith);
    } else if i == 7 {
        assert(standard_palette()[7].rgb == Rgb { r: 130, g: 123, b: 86 });
        assert(squared_distance(Rgb { r: 0, g: 0, b: 0 }, Rgb { r: 130, g: 123, b: 86 }) == 39425) by (nonlinear_arith);
    } else if i == 8 {
        assert(standard_palette()[8].rgb == Rgb { r: 140, g: 140, b: 140 });
        assert(squared_distance(Rgb { r: 0, g: 0, b: 0 }, Rgb { r: 140, g: 140, b: 140 }) == 58800) by (nonlinear_arith);
    } else if i == 9 {
        assert(standard_palette()[9].rgb == Rgb { r: 171, g: 171, b: 171 });
        assert(squared_distance(Rgb { r: 0, g: 0, b: 0 }, Rgb { r: 171, g: 171, b: 171 }) == 87723) by (nonlinear_arith);
    } else if i == 10 {
        assert(standard_palette()[10].rgb == Rgb { r: 199, g: 199, b: 199 });
        assert(squared_distance(Rgb { r: 0, g: 0, b: 0 }, Rgb { r: 199, g: 199, b: 199 }) == 118803) by (nonlinear_arith);
    } else if i == 11 {
        assert(standard_palette()[11].rgb == Rgb { r: 105, g: 105, b: 105 });
        assert(squared_distance(Rgb { r: 0, g: 0, b: 0 }, Rgb { r: 105, g: 105, b: 105 }) == 33075) by (nonlinear_arith);
    } else if i == 12 {
        assert(standard_palette()[12].rgb == Rgb { r: 180, g: 0, b: 0 });
        assert(squared_distance(Rgb { r: 0, g: 0, b: 0 }, Rgb { r: 180, g: 0, b: 0 }) == 32400) by (nonlinear_arith);
    } else if i == 13 {
        assert(standard_palette()[13].rgb == Rgb { r: 220, g: 0, b: 0 });
        assert(squared_distance(Rgb { r: 0, g: 0, b: 0 }, Rgb { r: 220, g: 0, b: 0 }) == 48400) by (nonlinear_arith);
    } else if i == 14 {
        assert(standard_palette()[14].rgb == Rgb { r: 255, g: 0, b: 0 });
        assert(squared_distance(Rgb { r: 0, g: 0, b: 0 }, Rgb { r: 255, g: 0, b: 0 }) == 65025) by (nonlinear_arith);
    } else if i == 15 {
        assert(standard_palette()[15].rgb == Rgb { r: 135, g: 0, b: 0 });
        assert(squared_distance(Rgb { r: 0, g: 0, b: 0 }, Rgb { r: 135, g: 0, b: 0 }) == 18225) by (nonlinear_arith);
    } else if i == 16 {
        assert(standard_palette()[16].rgb == Rgb { r: 112, g: 112, b: 180 });
        assert(squared_distance(Rgb { r: 0, g: 0, b: 0 }, Rgb { r: 112, g: 112, b: 180 }) == 57488) by (nonlinear_arith);
    } else if i == 17 {
        assert(standard_palette()[17].rgb == Rgb { r: 138, g: 138, b: 220 });
        assert(squared_distance(Rgb { r: 0, g: 0, b: 0 }, Rgb { r: 138, g: 138, b: 220 }) == 86488) by (nonlinear_arith);
    } else if i == 18 {
        assert(standard_palette()[18].rgb == Rgb { r: 160, g: 160, b: 255 });
        assert(squared_distance(Rgb { r: 0, g: 0, b: 0 }, Rgb { r: 160, g: 160, b: 255 }) == 116225) by (nonlinear_arith);
    } else if i == 19 {
        assert(standard_palette()[19].rgb == Rgb { r: 84, g: 84, b: 135 });
        assert(squared_distance(Rgb { r: 0, g: 0, b: 0 }, Rgb { r: 84, g: 84, b: 135 }) == 32337) by (nonlinear_arith);
    } else if i == 20 {
        assert(standard_palette()[20].rgb == Rgb { r: 117, g: 117, b: 117 });
        assert(squared_distance(Rgb { r: 0, g: 0, b: 0 }, Rgb { r: 117, g: 117, b: 117 }) == 41067) by (nonlinear_arith);
    } else if i == 21 {
        assert(standard_palette()[21].rgb == Rgb { r: 144, g: 144, b: 144 });
        assert(squared_distance(Rgb { r: 0, g: 0, b: 0 }, Rgb { r: 144, g: 144, b: 144 }) == 62208) by (nonlinear_arith);
    } else if i == 22 {
        assert(standard_palette()[22].rgb == Rgb { r: 167, g: 167, b: 167 });
        assert(squared_distance(Rgb { r: 0, g: 0, b: 0 }, Rgb { r: 167, g: 167, b: 167 }) == 83667) by (nonlinear_arith);
    } else if i == 23 {
        assert(standard_palette()[23].rgb == Rgb { r: 88, g: 88, b: 88 });
        assert(squared_distance(Rgb { r: 0, g: 0, b: 0 }, Rgb { r: 88, g: 88, b: 88 }) == 23232) by (nonlinear_arith);
    } else if i == 24 {
        assert(standard_palette()[24].rgb == Rgb { r: 0, g: 87, b: 0 });
        assert(squared_distance(Rgb { r: 0, g: 0, b: 0 }, Rgb { r: 0, g: 87, b: 0 }) == 7569) by (nonlinear_arith);
    } else if i == 25 {
        assert(standard_palette()[25].rgb == Rgb { r: 0, g: 106, b: 0 });
        assert(squared_distance(Rgb { r: 0, g: 0, b: 0 }, Rgb { r: 0, g: 106, b: 0 }) == 11236) by (nonlinear_arith);
    } else if i == 26 {
        assert(standard_palette()[26].rgb == Rgb { r: 0, g: 124, b: 0 });
        assert(squared_distance(Rgb { r: 0, g: 0, b: 0 }, Rgb { r: 0, g: 124, b: 0 }) == 15376) by (nonlinear_arith);
    } else if i == 27 {
        assert(standard_palette()[27].rgb == Rgb { r: 0, g: 65, b: 0 });
        assert(squared_distance(Rgb { r: 0, g: 0, b: 0 }, Rgb { r: 0, g: 65, b: 0 }) == 4225) by (nonlinear_arith);
    } else if i == 28 {
        assert(standard_palette()[28].rgb == Rgb { r: 180, g: 180, b: 180 });
        assert(squared_distance(Rgb { r: 0, g: 0, b: 0 }, Rgb { r: 180, g: 180, b: 180 }) == 97200) by (nonlinear_arith);
    } else if i == 29 {
        assert(standard_palette()[29].rgb == Rgb { r: 220, g: 220, b: 220 });
        assert(squared_distance(Rgb { r: 0, g: 0, b: 0 }, Rgb { r: 220, g: 220, b: 220 }) == 145200) by (nonlinear_arith);
    } else if i == 30 {
        assert(standard_palette()[30].rgb == Rgb { r: 255, g: 255, b: 255 });
        assert(squared_distance(Rgb { r: 0, g: 0, b: 0 }, Rgb { r: 255, g: 255, b: 255 }) == 195075) by (nonlinear_arith);
    } else {
        assert(i == 31);
        assert(standard_palette()[31].rgb == Rgb { r: 135, g: 135, b: 135 });
        assert(squared_distance(Rgb { r: 0, g: 0, b: 0 }, Rgb { r: 135, g: 135, b: 135 }) == 54675) by (nonlinear_arith);
    }
}

proof fn lemma_standard_entries_32_64(i: int)
    requires
        32 <= i < 64,
    ensures
        standard_palette()[i].index == FIRST_INDEX + i,
        standard_position(standard_palette()[i].rgb) == i,
        squared_distance(Rgb { r: 0, g: 0, b: 0 }, standard_palette()[i].rgb) >= 507,
        squared_distance(Rgb { r: 0, g: 0, b: 0 }, standard_palette()[i].rgb) == 507 <==> i == 115,
{
    if i == 32 {
        assert(standard_palette()[32].rgb == Rgb { r: 115, g: 118, b: 129 });
        assert(squared_distance(Rgb { r: 0, g: 0, b: 0 }, Rgb { r: 115, g: 118, b: 129 }) == 43790) by (nonlinear_arith);
    } else if i == 33 {
        assert(standard_palette()[33].rgb == Rgb { r: 141, g: 144, b: 158 });
        assert(squared_distance(Rgb { r: 0, g: 0, b: 0 }, Rgb { r: 141, g: 144, b: 158 }) == 65581) by (nonlinear_arith);
    } else if i == 34 {
        assert(standard_palette()[34].rgb == Rgb { r: 164, g: 168, b: 184 });
        assert(squared_distance(Rgb { r: 0, g: 0, b: 0 }, Rgb { r: 164, g: 168, b: 184 }) == 88976) by (nonlinear_arith);
    } else if i == 35 {
        assert(standard_palette()[35].rgb == Rgb { r: 86, g: 88, b: 97 });
        assert(squared_distance(Rgb { r: 0, g: 0, b: 0 }, Rgb { r: 86, g: 88, b: 97 }) == 24549) by (nonlinear_arith);
    } else if i == 36 {
        assert(standard_palette()[36].rgb == Rgb { r: 106, g: 76, b: 54 });
        assert(squared_distance(Rgb { r: 0, g: 0, b: 0 }, Rgb { r: 106, g: 76, b: 54 }) == 19928) by (nonlinear_arith);
    } else if i == 37 {
        assert(standard_palette()[37].rgb == Rgb { r: 130, g: 94, b: 66 });
        assert(squared_distance(Rgb { r: 0, g: 0, b: 0 }, Rgb { r: 130, g: 94, b: 66 }) == 30092) by (nonlinear_arith);
    } else if i == 38 {
        assert(standard_palette()[38].rgb == Rgb { r: 151, g: 109, b: 77 });
        assert(squared_distance(Rgb { r: 0, g: 0, b: 0 }, Rgb { r: 151, g: 109, b: 77 }) == 40611) by (nonlinear_arith);
    } else if i == 39 {
        assert(standard_palette()[39].rgb == Rgb { r: 79, g: 57, b: 40 });
        assert(squared_distance(Rgb { r: 0, g: 0, b: 0 }, Rgb { r: 79, g: 57, b: 40 }) == 11090) by (nonlinear_arith);
    } else if i == 40 {
        assert(standard_palette()[40].rgb == Rgb { r: 79, g: 79, b: 79 });
        assert(squared_distance(Rgb { r: 0, g: 0, b: 0 }, Rgb { r: 79, g: 79, b: 79 }) == 18723) by (nonlinear_arith);
    } else if i == 41 {
        assert(standard_palette()[41].rgb == Rgb { r: 96, g: 96, b: 96 });
        assert(squared_distance(Rgb { r: 0, g: 0, b: 0 }, Rgb { r: 96, g: 96, b: 96 }) == 27648) by (nonlinear_arith);
    } else if i == 42 {
        assert(standard_palette()[42].rgb == Rgb { r: 112, g: 112, b: 112 });
        assert(squared_distance(Rgb { r: 0, g: 0, b: 0 }, Rgb { r: 112, g: 112, b: 112 }) == 37632) by (nonlinear_arith);
    } else if i == 43 {
        assert(standard_palette()[43].rgb == Rgb { r: 59, g: 59, b: 59 });
        assert(squared_distance(Rgb { r: 0, g: 0, b: 0 }, Rgb { r: 59, g: 59, b: 59 }) == 10443) by (nonlinear_arith);
    } else if i == 44 {
        assert(standard_palette()[44].rgb == Rgb { r: 45, g: 45, b: 180 });
        assert(squared_distance(Rgb { r: 0, g: 0, b: 0 }, Rgb { r: 45, g: 45, b: 180 }) == 36450) by (nonlinear_arith);
    } else if i == 45 {
        assert(standard_palette()[45].rgb == Rgb { r: 55, g: 55, b: 220 });
        assert(squared_distance(Rgb { r: 0, g: 0, b: 0 }, Rgb { r: 55, g: 55, b: 220 }) == 54450) by (nonlinear_arith);
    } else if i == 46 {
        assert(standard_palette()[46].rgb == Rgb { r: 64, g: 64, b: 255 });
        assert(squared_distance(Rgb { r: 0, g: 0, b: 0 }, Rgb { r: 64, g: 64, b: 255 }) == 73217) by (nonlinear_arith);
    } else if i == 47 {
        assert(standard_palette()[47].rgb == Rgb { r: 33, g: 33, b: 135 });
        assert(squared_distance(Rgb { r: 0, g: 0, b: 0 }, Rgb { r: 33, g: 33, b: 135 }) == 20403) by (nonlinear_arith);
    } else if i == 48 {
        assert(standard_palette()[48].rgb == Rgb { r: 100, g: 84, b: 50 });
        assert(squared_distance(Rgb { r: 0, g: 0, b: 0 }, Rgb { r: 100, g: 84, b: 50 }) == 19556) by (nonlinear_arith);
    } else if i == 49 {
        assert(standard_palette()[49].rgb == Rgb { r: 123, g: 102, b: 62 });
        assert(squared_distance(Rgb { r: 0, g: 0, b: 0 }, Rgb { r: 123, g: 102, b: 62 }) == 29377) by (nonlinear_arith);
    } else if i == 50 {
        assert(standard_palette()[50].rgb == Rgb { r: 143, g: 119, b: 72 });
        assert(squared_distance(Rgb { r: 0, g: 0, b: 0 }, Rgb { r: 143, g: 119, b: 72 }) == 39794) by (nonlinear_arith);
    } else if i == 51 {
        assert(standard_palette()[51].rgb == Rgb { r: 75, g: 63, b: 38 });
        assert(squared_distance(Rgb { r: 0, g: 0, b: 0 }, Rgb { r: 75, g: 63, b: 38 }) == 11038) by (nonlinear_arith);
    } else if i == 52 {
        assert(standard_palette()[52].rgb == Rgb { r: 180, g: 177, b: 172 });
        assert(squared_distance(Rgb { r: 0, g: 0, b: 0 }, Rgb { r: 180, g: 177, b: 172 }) == 93313) by (nonlinear_arith);
    } else if i == 53 {
        assert(standard_palette()[53].rgb == Rgb { r: 220, g: 217, b: 211 });
        assert(squared_distance(Rgb { r: 0, g: 0, b: 0 }, Rgb { r: 220, g: 217, b: 211 }) == 140010) by (nonlinear_arith);
    } else if i == 54 {
        assert(standard_palette()[54].rgb == Rgb { r: 255, g: 252, b: 245 });
        assert(squared_distance(Rgb { r: 0, g: 0, b: 0 }, Rgb { r: 255, g: 252, b: 245 }) == 188554) by (nonlinear_arith);
    } else if i == 55 {
        assert(standard_palette()[55].rgb == Rgb { r: 135, g: 133, b: 129 });
        assert(squared_distance(Rgb { r: 0, g: 0, b: 0 }, Rgb { r: 135, g: 133, b: 129 }) == 52555) by (nonlinear_arith);
    } else if i == 56 {
        assert(standard_palette()[56].rgb == Rgb { r: 152, g: 89, b: 36 });
        assert(squared_distance(Rgb { r: 0, g: 0, b: 0 }, Rgb { r: 152, g: 89, b: 36 }) == 32321) by (nonlinear_arith);
    } else if i == 57 {
        assert(standard_palette()[57].rgb == Rgb { r: 186, g: 109, b: 44 });
        assert(squared_distance(Rgb { r: 0, g: 0, b: 0 }, Rgb { r: 186, g: 109, b: 44 }) == 48413) by (nonlinear_arith);
    } else if i == 58 {
        assert(standard_palette()[58].rgb == Rgb { r: 216, g: 127, b: 51 });
        assert(squared_distance(Rgb { r: 0, g: 0, b: 0 }, Rgb { r: 216, g: 127, b: 51 }) == 65386) by (nonlinear_arith);
    } else if i == 59 {
        assert(standard_palette()[59].rgb == Rgb { r: 114, g: 67, b: 27 });
        assert(squared_distance(Rgb { r: 0, g: 0, b: 0 }, Rgb { r: 114, g: 67, b: 27 }) == 18214) by (nonlinear_arith);
    } else if i == 60 {
        assert(standard_palette()[60].rgb == Rgb { r: 125, g: 53, b: 152 });
        assert(squared_distance(Rgb { r: 0, g: 0, b: 0 }, Rgb { r: 125, g: 53, b: 152 }) == 41538) by (nonlinear_arith);
    } else if i == 61 {
        assert(standard_palette()[61].rgb == Rgb { r: 153, g: 65, b: 186 });
        assert(squared_distance(Rgb { r: 0, g: 0, b: 0 }, Rgb { r: 153, g: 65, b: 186 }) == 62230) by (nonlinear_arith);
    } else if i == 62 {
        assert(standard_palette()[62].rgb == Rgb { r: 178, g: 76, b: 216 });
        assert(squared_distance(Rgb { r: 0, g: 0, b: 0 }, Rgb { r: 178, g: 76, b: 216 }) == 84116) by (nonlinear_arith);
    } else {
        assert(i == 63);
        assert(standard_palette()[63].rgb == Rgb { r: 94, g: 40, b: 114 });
        assert(squared_distance(Rgb { r: 0, g: 0, b: 0 }, Rgb { r: 94, g: 40, b: 114 }) == 23432) by (nonlinear_arith);
    }
}

proof fn lemma_standard_entries_64_96(i: int)
    requires
        64 <= i < 96,
    ensures
        standard_palette()[i].index == FIRST_INDEX + i,
        standard_position(standard_palette()[i].rgb) == i,
        squared_distance(Rgb { r: 0, g: 0, b: 0 }, standard_palette()[i].rgb) >= 507,
        squared_distance(Rgb { r: 0, g: 0, b: 0 }, standard_palette()[i].rgb) == 507 <==> i == 115,
{
    if i == 64 {
        assert(standard_palette()[64].rgb == Rgb { r: 72, g: 108, b: 152 });
        assert(squared_distance(Rgb { r: 0, g: 0, b: 0 }, Rgb { r: 72, g: 108, b: 152 }) == 39952) by (nonlinear_arith);
    } else if i == 65 {
        assert(standard_palette()[65].rgb == Rgb { r: 88, g: 132, b: 186 });
        assert(squared_distance(Rgb { r: 0, g: 0, b: 0 }, Rgb { r: 88, g: 132, b: 186 }) == 59764) by (nonlinear_arith);
    } else if i == 66 {
        assert(standard_palette()[66].rgb == Rgb { r: 102, g: 153, b: 216 });
        assert(squared_distance(Rgb { r: 0, g: 0, b: 0 }, Rgb { r: 102, g: 153, b: 216 }) == 80469) by (nonlinear_arith);
    } else if i == 67 {
        assert(standard_palette()[67].rgb == Rgb { r: 54, g: 81, b: 114 });
        assert(squared_distance(Rgb { r: 0, g: 0, b: 0 }, Rgb { r: 54, g: 81, b: 114 }) == 22473) by (nonlinear_arith);
    } else if i == 68 {
        assert(standard_palette()[68].rgb == Rgb { r: 161, g: 161, b: 36 });
        assert(squared_distance(Rgb { r: 0, g: 0, b: 0 }, Rgb { r: 161, g: 161, b: 36 }) == 53138) by (nonlinear_arith);
    } else if i == 69 {
        assert(standard_palette()[69].rgb == Rgb { r: 197, g: 197, b: 44 });
        assert(squared_distance(Rgb { r: 0, g: 0, b: 0 }, Rgb { r: 197, g: 197, b: 44 }) == 79554) by (nonlinear_arith);
    } else if i == 70 {
        assert(standard_palette()[70].rgb == Rgb { r: 229, g: 229, b: 51 });
        assert(squared_distance(Rgb { r: 0, g: 0, b: 0 }, Rgb { r: 229, g: 229, b: 51 }) == 107483) by (nonlinear_arith);
    } else if i == 71 {
        assert(standard_palette()[71].rgb == Rgb { r: 121, g: 121, b: 27 });
        assert(squared_distance(Rgb { r: 0, g: 0, b: 0 }, Rgb { r: 121, g: 121, b: 27 }) == 30011) by (nonlinear_arith);
    } else if i == 72 {
        assert(standard_palette()[72].rgb == Rgb { r: 89, g: 144, b: 17 });
        assert(squared_distance(Rgb { r: 0, g: 0, b: 0 }, Rgb { r: 89, g: 144, b: 17 }) == 28946) by (nonlinear_arith);
    } else if i == 73 {
        assert(standard_palette()[73].rgb == Rgb { r: 109, g: 176, b: 21 });
        assert(squared_distance(Rgb { r: 0, g: 0, b: 0 }, Rgb { r: 109, g: 176, b: 21 }) == 43298) by (nonlinear_arith);
    } else if i == 74 {
        assert(standard_palette()[74].rgb == Rgb { r: 127, g: 204, b: 25 });
        assert(squared_distance(Rgb { r: 0, g: 0, b: 0 }, Rgb { r: 127, g: 204, b: 25 }) == 58370) by (nonlinear_arith);
    } else if i == 75 {
        assert(standard_palette()[75].rgb == Rgb { r: 67, g: 108, b: 13 });
        assert(squared_distance(Rgb { r: 0, g: 0, b: 0 }, Rgb { r: 67, g: 108, b: 13 }) == 16322) by (nonlinear_arith);
    } else if i == 76 {
        assert(standard_palette()[76].rgb == Rgb { r: 170, g: 89, b: 116 });
        assert(squared_distance(Rgb { r: 0, g: 0, b: 0 }, Rgb { r: 170, g: 89, b: 116 }) == 50277) by (nonlinear_arith);
    } else if i == 77 {
        assert(standard_palette()[77].rgb == Rgb { r: 208, g: 109, b: 142 });
        assert(squared_distance(Rgb { r: 0, g: 0, b: 0 }, Rgb { r: 208, g: 109, b: 142 }) == 75309) by (nonlinear_arith);
    } else if i == 78 {
        assert(standard_palette()[78].rgb == Rgb { r: 242, g: 127, b: 165 });
        assert(squared_distance(Rgb { r: 0, g: 0, b: 0 }, Rgb { r: 242, g: 127, b: 165 }) == 101918) by (nonlinear_arith);
    } else if i == 79 {
        assert(standard_palette()[79].rgb == Rgb { r: 128, g: 67, b: 87 });
        assert(squared_distance(Rgb { r: 0, g: 0, b: 0 }, Rgb { r: 128, g: 67, b: 87 }) == 28442) by (nonlinear_arith);
    } else if i == 80 {
        assert(standard_palette()[80].rgb == Rgb { r: 53, g: 53, b: 53 });
        assert(squared_distance(Rgb { r: 0, g: 0, b: 0 }, Rgb { r: 53, g: 53, b: 53 }) == 8427) by (nonlinear_arith);
    } else if i == 81 {
        assert(standard_palette()[81].rgb == Rgb { r: 65, g: 65, b: 65 });
        assert(squared_distance(Rgb { r: 0, g: 0, b: 0 }, Rgb { r: 65, g: 65, b: 65 }) == 12675) by (nonlinear_arith);
    } else if i == 82 {
        assert(standard_palette()[82].rgb == Rgb { r: 76, g: 76, b: 76 });
        assert(squared_distance(Rgb { r: 0, g: 0, b: 0 }, Rgb { r: 76, g: 76, b: 76 }) == 17328) by (nonlinear_arith);
    } else if i == 83 {
        assert(standard_palette()[83].rgb == Rgb { r: 40, g: 40, b: 40 });
        assert(squared_distance(Rgb { r: 0, g: 0, b: 0 }, Rgb { r: 40, g: 40, b: 40 }) == 4800) by (nonlinear_arith);
    } else if i == 84 {
        assert(standard_palette()[84].rgb == Rgb { r: 108, g: 108, b: 108 });
        assert(squared_distance(Rgb { r: 0, g: 0, b: 0 }, Rgb { r: 108, g: 108, b: 108 }) == 34992) by (nonlinear_arith);
    } else if i == 85 {
        assert(standard_palette()[85].rgb == Rgb { r: 132, g: 132, b: 132 });
        assert(squared_distance(Rgb { r: 0, g: 0, b: 0 }, Rgb { r: 132, g: 132, b: 132 }) == 52272) by (nonlinear_arith);
    } else if i == 86 {
        assert(standard_palette()[86].rgb == Rgb { r: 153, g: 153, b: 153 });
        assert(squared_distance(Rgb { r: 0, g: 0, b: 0 }, Rgb { r: 153, g: 153, b: 153 }) == 70227) by (nonlinear_arith);
    } else if i == 87 {
        assert(standard_palette()[87].rgb == Rgb { r: 81, g: 81, b: 81 });
        assert(squared_distance(Rgb { r: 0, g: 0, b: 0 }, Rgb { r: 81, g: 81, b: 81 }) == 19683) by (nonlinear_arith);
    } else if i == 88 {
        assert(standard_palette()[88].rgb == Rgb { r: 53, g: 89, b: 108 });
        assert(squared_distance(Rgb { r: 0, g: 0, b: 0 }, Rgb { r: 53, g: 89, b: 108 }) == 22394) by (nonlinear_arith);
    } else if i == 89 {
        assert(standard_palette()[89].rgb == Rgb { r: 65, g: 109, b: 132 });
        assert(squared_distance(Rgb { r: 0, g: 0, b: 0 }, Rgb { r: 65, g: 109, b: 132 }) == 33530) by (nonlinear_arith);
    } else if i == 90 {
        assert(standard_palette()[90].rgb == Rgb { r: 76, g: 127, b: 153 });
        assert(squared_distance(Rgb { r: 0, g: 0, b: 0 }, Rgb { r: 76, g: 127, b: 153 }) == 45314) by (nonlinear_arith);
    } else if i == 91 {
        assert(standard_palette()[91].rgb == Rgb { r: 40, g: 67, b: 81 });
        assert(squared_distance(Rgb { r: 0, g: 0, b: 0 }, Rgb { r: 40, g: 67, b: 81 }) == 12650) by (nonlinear_arith);
    } else if i == 92 {
        assert(standard_palette()[92].rgb == Rgb { r: 89, g: 44, b: 125 });
        assert(squared_distance(Rgb { r: 0, g: 0, b: 0 }, Rgb { r: 89, g: 44, b: 125 }) == 25482) by (nonlinear_arith);
    } else if i == 93 {
        assert(standard_palette()[93].rgb == Rgb { r: 109, g: 54, b: 153 });
        assert(squared_distance(Rgb { r: 0, g: 0, b: 0 }, Rgb { r: 109, g: 54, b: 153 }) == 38206) by (nonlinear_arith);
    } else if i == 94 {
        assert(standard_palette()[94].rgb == Rgb { r: 127, g: 63, b: 178 });
        assert(squared_distance(Rgb { r: 0, g: 0, b: 0 }, Rgb { r: 127, g: 63, b: 178 }) == 51782) by (nonlinear_arith);
    } else {
        assert(i == 95);
        assert(standard_palette()[95].rgb == Rgb { r: 67, g: 33, b: 94 });
        assert(squared_distance(Rgb { r: 0, g: 0, b: 0 }, Rgb { r: 67, g: 33, b: 94 }) == 14414) by (nonlinear_arith);
    }
}

proof fn lemma_standard_entries_96_128(i: int)
    requires
        96 <= i < 128,
    ensures
        standard_palette()[i].index == FIRST_INDEX + i,
        standard_position(standard_palette()[i].rgb) == i,
        squared_distance(Rgb { r: 0, g: 0, b: 0 }, standard_palette()[i].rgb) >= 507,
        squared_distance(Rgb { r: 0, g: 0, b: 0 }, standard_palette()[i].rgb) == 507 <==> i == 115,
{
    if i == 96 {
        assert(standard_palette()[96].rgb == Rgb { r: 36, g: 53, b: 125 });
        assert(squared_distance(Rgb { r: 0, g: 0, b: 0 }, Rgb { r: 36, g: 53, b: 125 }) == 19730) by (nonlinear_arith);
    } else if i == 97 {
        assert(standard_palette()[97].rgb == Rgb { r: 44, g: 65, b: 153 });
        assert(squared_distance(Rgb { r: 0, g: 0, b: 0 }, Rgb { r: 44, g: 65, b: 153 }) == 29570) by (nonlinear_arith);
    } else if i == 98 {
        assert(standard_palette()[98].rgb == Rgb { r: 51, g: 76, b: 178 });
        assert(squared_distance(Rgb { r: 0, g: 0, b: 0 }, Rgb { r: 51, g: 76, b: 178 }) == 40061) by (nonlinear_arith);
    } else if i == 99 {
        assert(standard_palette()[99].rgb == Rgb { r: 27, g: 40, b: 94 });
        assert(squared_distance(Rgb { r: 0, g: 0, b: 0 }, Rgb { r: 27, g: 40, b: 94 }) == 11165) by (nonlinear_arith);
    } else if i == 100 {
        assert(standard_palette()[100].rgb == Rgb { r: 72, g: 53, b: 36 });
        assert(squared_distance(Rgb { r: 0, g: 0, b: 0 }, Rgb { r: 72, g: 53, b: 36 }) == 9289) by (nonlinear_arith);
    } else if i == 101 {
        assert(standard_palette()[101].rgb == Rgb { r: 88, g: 65, b: 44 });
        assert(squared_distance(Rgb { r: 0, g: 0, b: 0 }, Rgb { r: 88, g: 65, b: 44 }) == 13905) by (nonlinear_arith);
    } else if i == 102 {
        assert(standard_palette()[102].rgb == Rgb { r: 102, g: 76, b: 51 });
        assert(squared_distance(Rgb { r: 0, g: 0, b: 0 }, Rgb { r: 102, g: 76, b: 51 }) == 18781) by (nonlinear_arith);
    } else if i == 103 {
        assert(standard_palette()[103].rgb == Rgb { r: 54, g: 40, b: 27 });
        assert(squared_distance(Rgb { r: 0, g: 0, b: 0 }, Rgb { r: 54, g: 40, b: 27 }) == 5245) by (nonlinear_arith);
    } else if i == 104 {
        assert(standard_palette()[104].rgb == Rgb { r: 72, g: 89, b: 36 });
        assert(squared_distance(Rgb { r: 0, g: 0, b: 0 }, Rgb { r: 72, g: 89, b: 36 }) == 14401) by (nonlinear_arith);
    } else if i == 105 {
        assert(standard_palette()[105].rgb == Rgb { r: 88, g: 109, b: 44 });
        assert(squared_distance(Rgb { r: 0, g: 0, b: 0 }, Rgb { r: 88, g: 109, b: 44 }) == 21561) by (nonlinear_arith);
    } else if i == 106 {
        assert(standard_palette()[106].rgb == Rgb { r: 102, g: 127, b: 51 });
        assert(squared_distance(Rgb { r: 0, g: 0, b: 0 }, Rgb { r: 102, g: 127, b: 51 }) == 29134) by (nonlinear_arith);
    } else if i == 107 {
        assert(standard_palette()[107].rgb == Rgb { r: 54, g: 67, b: 27 });
        assert(squared_distance(Rgb { r: 0, g: 0, b: 0 }, Rgb { r: 54, g: 67, b: 27 }) == 8134) by (nonlinear_arith);
    } else if i == 108 {
        assert(standard_palette()[108].rgb == Rgb { r: 108, g: 36, b: 36 });
        assert(squared_distance(Rgb { r: 0, g: 0, b: 0 }, Rgb { r: 108, g: 36, b: 36 }) == 14256) by (nonlinear_arith);
    } else if i == 109 {
        assert(standard_palette()[109].rgb == Rgb { r: 132, g: 44, b: 44 });
        assert(squared_distance(Rgb { r: 0, g: 0, b: 0 }, Rgb { r: 132, g: 44, b: 44 }) == 21296) by (nonlinear_arith);
    } else if i == 110 {
        assert(standard_palette()[110].rgb == Rgb { r: 153, g: 51, b: 51 });
        assert(squared_distance(Rgb { r: 0, g: 0, b: 0 }, Rgb { r: 153, g: 51, b: 51 }) == 28611) by (nonlinear_arith);
    } else if i == 111 {
        assert(standard_palette()[111].rgb == Rgb { r: 81, g: 27, b: 27 });
        assert(squared_distance(Rgb { r: 0, g: 0, b: 0 }, Rgb { r: 81, g: 27, b: 27 }) == 8019) by (nonlinear_arith);
    } else if i == 112 {
        assert(standard_palette()[112].rgb == Rgb { r: 17, g: 17, b: 17 });
        assert(squared_distance(Rgb { r: 0, g: 0, b: 0 }, Rgb { r: 17, g: 17, b: 17 }) == 867) by (nonlinear_arith);
    } else if i == 113 {
        assert(standard_palette()[113].rgb == Rgb { r: 21, g: 21, b: 21 });
        assert(squared_distance(Rgb { r: 0, g: 0, b: 0 }, Rgb { r: 21, g: 21, b: 21 }) == 1323) by (nonlinear_arith);
    } else if i == 114 {
        assert(standard_palette()[114].rgb == Rgb { r: 25, g: 25, b: 25 });
        assert(squared_distance(Rgb { r: 0, g: 0, b: 0 }, Rgb { r: 25, g: 25, b: 25 }) == 1875) by (nonlinear_arith);
    } else if i == 115 {
        assert(standard_palette()[115].rgb == Rgb { r: 13, g: 13, b: 13 });
        assert(squared_distance(Rgb { r: 0, g: 0, b: 0 }, Rgb { r: 13, g: 13, b: 13 }) == 507) by (nonlinear_arith);
    } else if i == 116 {
        assert(standard_palette()[116].rgb == Rgb { r: 176, g: 168, b: 54 });
        assert(squared_distance(Rgb { r: 0, g: 0, b: 0 }, Rgb { r: 176, g: 168, b: 54 }) == 62116) by (nonlinear_arith);
    } else if i == 117 {
        assert(standard_palette()[117].rgb == Rgb { r: 215, g: 205, b: 66 });
        assert(squared_distance(Rgb { r: 0, g: 0, b: 0 }, Rgb { r: 215, g: 205, b: 66 }) == 92606) by (nonlinear_arith);
    } else if i == 118 {
        assert(standard_palette()[118].rgb == Rgb { r: 250, g: 238, b: 77 });
        assert(squared_distance(Rgb { r: 0, g: 0, b: 0 }, Rgb { r: 250, g: 238, b: 77 }) == 125073) by (nonlinear_arith);
    } else if i == 119 {
        assert(standard_palette()[119].rgb == Rgb { r: 132, g: 126, b: 40 });
        assert(squared_distance(Rgb { r: 0, g: 0, b: 0 }, Rgb { r: 132, g: 126, b: 40 }) == 34900) by (nonlinear_arith);
    } else if i == 120 {
        assert(standard_palette()[120].rgb == Rgb { r: 64, g: 154, b: 150 });
        assert(squared_distance(Rgb { r: 0, g: 0, b: 0 }, Rgb { r: 64, g: 154, b: 150 }) == 50312) by (nonlinear_arith);
    } else if i == 121 {
        assert(standard_palette()[121].rgb == Rgb { r: 79, g: 188, b: 183 });
        assert(squared_distance(Rgb { r: 0, g: 0, b: 0 }, Rgb { r: 79, g: 188, b: 183 }) == 75074) by (nonlinear_arith);
    } else if i == 122 {
        assert(standard_palette()[122].rgb == Rgb { r: 92, g: 219, b: 213 });
        assert(squared_distance(Rgb { r: 0, g: 0, b: 0 }, Rgb { r: 92, g: 219, b: 213 }) == 101794) by (nonlinear_arith);
    } else if i == 123 {
        assert(standard_palette()[123].rgb == Rgb { r: 48, g: 115, b: 112 });
        assert(squared_distance(Rgb { r: 0, g: 0, b: 0 }, Rgb { r: 48, g: 115, b: 112 }) == 28073) by (nonlinear_arith);
    } else if i == 124 {
        assert(standard_palette()[124].rgb == Rgb { r: 52, g: 90, b: 180 });
        assert(squared_distance(Rgb { r: 0, g: 0, b: 0 }, Rgb { r: 52, g: 90, b: 180 }) == 43204) by (nonlinear_arith);
    } else if i == 125 {
        assert(standard_palette()[125].rgb == Rgb { r: 63, g: 110, b: 220 });
        assert(squared_distance(Rgb { r: 0, g: 0, b: 0 }, Rgb { r: 63, g: 110, b: 220 }) == 64469) by (nonlinear_arith);
    } else if i == 126 {
        assert(standard_palette()[126].rgb == Rgb { r: 74, g: 128, b: 255 });
        assert(squared_distance(Rgb { r: 0, g: 0, b: 0 }, Rgb { r: 74, g: 128, b: 255 }) == 86885) by (nonlinear_arith);
    } else {
        assert(i == 127);
        assert(standard_palette()[127].rgb == Rgb { r: 39, g: 67, b: 135 });
        assert(squared_distance(Rgb { r: 0, g: 0, b: 0 }, Rgb { r: 39, g: 67, b: 135 }) == 24235) by (nonlinear_arith);
    }
}

proof fn lemma_standard_entries_128_160(i: int)
    requires
        128 <= i < 160,
    ensures
        standard_palette()[i].index == FIRST_INDEX + i,
        standard_position(standard_palette()[i].rgb) == i,
        squared_distance(Rgb { r: 0, g: 0, b: 0 }, standard_palette()[i].rgb) >= 507,
        squared_distance(Rgb { r: 0, g: 0, b: 0 }, standard_palette()[i].rgb) == 507 <==> i == 115,
{
    if i == 128 {
        assert(standard_palette()[128].rgb == Rgb { r: 0, g: 153, b: 40 });
        assert(squared_distance(Rgb { r: 0, g: 0, b: 0 }, Rgb { r: 0, g: 153, b: 40 }) == 25009) by (nonlinear_arith);
    } else if i == 129 {
        assert(standard_palette()[129].rgb == Rgb { r: 0, g: 187, b: 50 });
        assert(squared_distance(Rgb { r: 0, g: 0, b: 0 }, Rgb { r: 0, g: 187, b: 50 }) == 37469) by (nonlinear_arith);
    } else if i == 130 {
        assert(standard_palette()[130].rgb == Rgb { r: 0, g: 217, b: 58 });
        assert(squared_distance(Rgb { r: 0, g: 0, b: 0 }, Rgb { r: 0, g: 217, b: 58 }) == 50453) by (nonlinear_arith);
    } else if i == 131 {
        assert(standard_palette()[131].rgb == Rgb { r: 0, g: 114, b: 30 });
        assert(squared_distance(Rgb { r: 0, g: 0, b: 0 }, Rgb { r: 0, g: 114, b: 30 }) == 13896) by (nonlinear_arith);
    } else if i == 132 {
        assert(standard_palette()[132].rgb == Rgb { r: 91, g: 60, b: 34 });
        assert(squared_distance(Rgb { r: 0, g: 0, b: 0 }, Rgb { r: 91, g: 60, b: 34 }) == 13037) by (nonlinear_arith);
    } else if i == 133 {
        assert(standard_palette()[133].rgb == Rgb { r: 111, g: 74, b: 42 });
        assert(squared_distance(Rgb { r: 0, g: 0, b: 0 }, Rgb { r: 111, g: 74, b: 42 }) == 19561) by (nonlinear_arith);
    } else if i == 134 {
        assert(standard_palette()[134].rgb == Rgb { r: 129, g: 86, b: 49 });
        assert(squared_distance(Rgb { r: 0, g: 0, b: 0 }, Rgb { r: 129, g: 86, b: 49 }) == 26438) by (nonlinear_arith);
    } else if i == 135 {
        assert(standard_palette()[135].rgb == Rgb { r: 68, g: 45, b: 25 });
        assert(squared_distance(Rgb { r: 0, g: 0, b: 0 }, Rgb { r: 68, g: 45, b: 25 }) == 7274) by (nonlinear_arith);
    } else if i == 136 {
        assert(standard_palette()[136].rgb == Rgb { r: 79, g: 1, b: 0 });
        assert(squared_distance(Rgb { r: 0, g: 0, b: 0 }, Rgb { r: 79, g: 1, b: 0 }) == 6242) by (nonlinear_arith);
    } else if i == 137 {
        assert(standard_palette()[137].rgb == Rgb { r: 96, g: 1, b: 0 });
        assert(squared_distance(Rgb { r: 0, g: 0, b: 0 }, Rgb { r: 96, g: 1, b: 0 }) == 9217) by (nonlinear_arith);
    } else if i == 138 {
        assert(standard_palette()[138].rgb == Rgb { r: 112, g: 2, b: 0 });
        assert(squared_distance(Rgb { r: 0, g: 0, b: 0 }, Rgb { r: 112, g: 2, b: 0 }) == 12548) by (nonlinear_arith);
    } else if i == 139 {
        assert(standard_palette()[139].rgb == Rgb { r: 59, g: 1, b: 0 });
        assert(squared_distance(Rgb { r: 0, g: 0, b: 0 }, Rgb { r: 59, g: 1, b: 0 }) == 3482) by (nonlinear_arith);
    } else if i == 140 {
        assert(standard_palette()[140].rgb == Rgb { r: 147, g: 124, b: 113 });
        assert(squared_distance(Rgb { r: 0, g: 0, b: 0 }, Rgb { r: 147, g: 124, b: 113 }) == 49754) by (nonlinear_arith);
    } else if i == 141 {
        assert(standard_palette()[141].rgb == Rgb { r: 180, g: 152, b: 138 });
        assert(squared_distance(Rgb { r: 0, g: 0, b: 0 }, Rgb { r: 180, g: 152, b: 138 }) == 74548) by (nonlinear_arith);
    } else if i == 142 {
        assert(standard_palette()[142].rgb == Rgb { r: 209, g: 177, b: 161 });
        assert(squared_distance(Rgb { r: 0, g: 0, b: 0 }, Rgb { r: 209, g: 177, b: 161 }) == 100931) by (nonlinear_arith);
    } else if i == 143 {
        assert(standard_palette()[143].rgb == Rgb { r: 110, g: 93, b: 85 });
        assert(squared_distance(Rgb { r: 0, g: 0, b: 0 }, Rgb { r: 110, g: 93, b: 85 }) == 27974) by (nonlinear_arith);
    } else if i == 144 {
        assert(standard_palette()[144].rgb == Rgb { r: 112, g: 57, b: 25 });
        assert(squared_distance(Rgb { r: 0, g: 0, b: 0 }, Rgb { r: 112, g: 57, b: 25 }) == 16418) by (nonlinear_arith);
    } else if i == 145 {
        assert(standard_palette()[145].rgb == Rgb { r: 137, g: 70, b: 31 });
        assert(squared_distance(Rgb { r: 0, g: 0, b: 0 }, Rgb { r: 137, g: 70, b: 31 }) == 24630) by (nonlinear_arith);
    } else if i == 146 {
        assert(standard_palette()[146].rgb == Rgb { r: 159, g: 82, b: 36 });
        assert(squared_distance(Rgb { r: 0, g: 0, b: 0 }, Rgb { r: 159, g: 82, b: 36 }) == 33301) by (nonlinear_arith);
    } else if i == 147 {
        assert(standard_palette()[147].rgb == Rgb { r: 84, g: 43, b: 19 });
        assert(squared_distance(Rgb { r: 0, g: 0, b: 0 }, Rgb { r: 84, g: 43, b: 19 }) == 9266) by (nonlinear_arith);
    } else if i == 148 {
        assert(standard_palette()[148].rgb == Rgb { r: 105, g: 61, b: 76 });
        assert(squared_distance(Rgb { r: 0, g: 0, b: 0 }, Rgb { r: 105, g: 61, b: 76 }) == 20522) by (nonlinear_arith);
    } else if i == 149 {
        assert(standard_palette()[149].rgb == Rgb { r: 128, g: 75, b: 93 });
        assert(squared_distance(Rgb { r: 0, g: 0, b: 0 }, Rgb { r: 128, g: 75, b: 93 }) == 30658) by (nonlinear_arith);
    } else if i == 150 {
        assert(standard_palette()[150].rgb == Rgb { r: 149, g: 87, b: 108 });
        assert(squared_distance(Rgb { r: 0, g: 0, b: 0 }, Rgb { r: 149, g: 87, b: 108 }) == 41434) by (nonlinear_arith);
    } else if i == 151 {
        assert(standard_palette()[151].rgb == Rgb { r: 78, g: 46, b: 57 });
        assert(squared_distance(Rgb { r: 0, g: 0, b: 0 }, Rgb { r: 78, g: 46, b: 57 }) == 11449) by (nonlinear_arith);
    } else if i == 152 {
        assert(standard_palette()[152].rgb == Rgb { r: 79, g: 76, b: 97 });
        assert(squared_distance(Rgb { r: 0, g: 0, b: 0 }, Rgb { r: 79, g: 76, b: 97 }) == 21426) by (nonlinear_arith);
    } else if i == 153 {
        assert(standard_palette()[153].rgb == Rgb { r: 96, g: 93, b: 119 });
        assert(squared_distance(Rgb { r: 0, g: 0, b: 0 }, Rgb { r: 96, g: 93, b: 119 }) == 32026) by (nonlinear_arith);
    } else if i == 154 {
        assert(standard_palette()[154].rgb == Rgb { r: 112, g: 108, b: 138 });
        assert(squared_distance(Rgb { r: 0, g: 0, b: 0 }, Rgb { r: 112, g: 108, b: 138 }) == 43252) by (nonlinear_arith);
    } else if i == 155 {
        assert(standard_palette()[155].rgb == Rgb { r: 59, g: 57, b: 73 });
        assert(squared_distance(Rgb { r: 0, g: 0, b: 0 }, Rgb { r: 59, g: 57, b: 73 }) == 12059) by (nonlinear_arith);
    } else if i == 156 {
        assert(standard_palette()[156].rgb == Rgb { r: 131, g: 93, b: 25 });
        assert(squared_distance(Rgb { r: 0, g: 0, b: 0 }, Rgb { r: 131, g: 93, b: 25 }) == 26435) by (nonlinear_arith);
    } else if i == 157 {
        assert(standard_palette()[157].rgb == Rgb { r: 160, g: 114, b: 31 });
        assert(squared_distance(Rgb { r: 0, g: 0, b: 0 }, Rgb { r: 160, g: 114, b: 31 }) == 39557) by (nonlinear_arith);
    } else if i == 158 {
        assert(standard_palette()[158].rgb == Rgb { r: 186, g: 133, b: 36 });
        assert(squared_distance(Rgb { r: 0, g: 0, b: 0 }, Rgb { r: 186, g: 133, b: 36 }) == 53581) by (nonlinear_arith);
    } else {
        assert(i == 159);
        assert(standard_palette()[159].rgb == Rgb { r: 98, g: 70, b: 19 });
        assert(squared_distance(Rgb { r: 0, g: 0, b: 0 }, Rgb { r: 98, g: 70, b: 19 }) == 14865) by (nonlinear_arith);
    }
}

proof fn lemma_standard_entries_160_192(i: int)
    requires
        160 <= i < 192,
    ensures
        standard_palette()[i].index == FIRST_INDEX + i,
        standard_position(standard_palette()[i].rgb) == i,
        squared_distance(Rgb { r: 0, g: 0, b: 0 }, standard_palette()[i].rgb) >= 507,
        squared_distance(Rgb { r: 0, g: 0, b: 0 }, standard_palette()[i].rgb) == 507 <==> i == 115,
{
    if i == 160 {
        assert(standard_palette()[160].rgb == Rgb { r: 72, g: 82, b: 37 });
        assert(squared_distance(Rgb { r: 0, g: 0, b: 0 }, Rgb { r: 72, g: 82, b: 37 }) == 13277) by (nonlinear_arith);
    } else if i == 161 {
        assert(standard_palette()[161].rgb == Rgb { r: 88, g: 100, b: 45 });
        assert(squared_distance(Rgb { r: 0, g: 0, b: 0 }, Rgb { r: 88, g: 100, b: 45 }) == 19769) by (nonlinear_arith);
    } else if i == 162 {
        assert(standard_palette()[162].rgb == Rgb { r: 103, g: 117, b: 53 });
        assert(squared_distance(Rgb { r: 0, g: 0, b: 0 }, Rgb { r: 103, g: 117, b: 53 }) == 27107) by (nonlinear_arith);
    } else if i == 163 {
        assert(standard_palette()[163].rgb == Rgb { r: 54, g: 61, b: 28 });
        assert(squared_distance(Rgb { r: 0, g: 0, b: 0 }, Rgb { r: 54, g: 61, b: 28 }) == 7421) by (nonlinear_arith);
    } else if i == 164 {
        assert(standard_palette()[164].rgb == Rgb { r: 112, g: 54, b: 55 });
        assert(squared_distance(Rgb { r: 0, g: 0, b: 0 }, Rgb { r: 112, g: 54, b: 55 }) == 18485) by (nonlinear_arith);
    } else if i == 165 {
        assert(standard_palette()[165].rgb == Rgb { r: 138, g: 66, b: 67 });
        assert(squared_distance(Rgb { r: 0, g: 0, b: 0 }, Rgb { r: 138, g: 66, b: 67 }) == 27889) by (nonlinear_arith);
    } else if i == 166 {
        assert(standard_palette()[166].rgb == Rgb { r: 160, g: 77, b: 78 });
        assert(squared_distance(Rgb { r: 0, g: 0, b: 0 }, Rgb { r: 160, g: 77, b: 78 }) == 37613) by (nonlinear_arith);
    } else if i == 167 {
        assert(standard_palette()[167].rgb == Rgb { r: 84, g: 40, b: 41 });
        assert(squared_distance(Rgb { r: 0, g: 0, b: 0 }, Rgb { r: 84, g: 40, b: 41 }) == 10337) by (nonlinear_arith);
    } else if i == 168 {
        assert(standard_palette()[168].rgb == Rgb { r: 40, g: 28, b: 24 });
        assert(squared_distance(Rgb { r: 0, g: 0, b: 0 }, Rgb { r: 40, g: 28, b: 24 }) == 2960) by (nonlinear_arith);
    } else if i == 169 {
        assert(standard_palette()[169].rgb == Rgb { r: 49, g: 35, b: 30 });
        assert(squared_distance(Rgb { r: 0, g: 0, b: 0 }, Rgb { r: 49, g: 35, b: 30 }) == 4526) by (nonlinear_arith);
    } else if i == 170 {
        assert(standard_palette()[170].rgb == Rgb { r: 57, g: 41, b: 35 });
        assert(squared_distance(Rgb { r: 0, g: 0, b: 0 }, Rgb { r: 57, g: 41, b: 35 }) == 6155) by (nonlinear_arith);
    } else if i == 171 {
        assert(standard_palette()[171].rgb == Rgb { r: 30, g: 21, b: 18 });
        assert(squared_distance(Rgb { r: 0, g: 0, b: 0 }, Rgb { r: 30, g: 21, b: 18 }) == 1665) by (nonlinear_arith);
    } else if i == 172 {
        assert(standard_palette()[172].rgb == Rgb { r: 95, g: 75, b: 69 });
        assert(squared_distance(Rgb { r: 0, g: 0, b: 0 }, Rgb { r: 95, g: 75, b: 69 }) == 19411) by (nonlinear_arith);
    } else if i == 173 {
        assert(standard_palette()[173].rgb == Rgb { r: 116, g: 92, b: 84 });
        assert(squared_distance(Rgb { r: 0, g: 0, b: 0 }, Rgb { r: 116, g: 92, b: 84 }) == 28976) by (nonlinear_arith);
    } else if i == 174 {
        assert(standard_palette()[174].rgb == Rgb { r: 135, g: 107, b: 98 });
        assert(squared_distance(Rgb { r: 0, g: 0, b: 0 }, Rgb { r: 135, g: 107, b: 98 }) == 39278) by (nonlinear_arith);
    } else if i == 175 {
        assert(standard_palette()[175].rgb == Rgb { r: 71, g: 56, b: 51 });
        assert(squared_distance(Rgb { r: 0, g: 0, b: 0 }, Rgb { r: 71, g: 56, b: 51 }) == 10778) by (nonlinear_arith);
    } else if i == 176 {
        assert(standard_palette()[176].rgb == Rgb { r: 61, g: 64, b: 64 });
        assert(squared_distance(Rgb { r: 0, g: 0, b: 0 }, Rgb { r: 61, g: 64, b: 64 }) == 11913) by (nonlinear_arith);
    } else if i == 177 {
        assert(standard_palette()[177].rgb == Rgb { r: 75, g: 79, b: 79 });
        assert(squared_distance(Rgb { r: 0, g: 0, b: 0 }, Rgb { r: 75, g: 79, b: 79 }) == 18107) by (nonlinear_arith);
    } else if i == 178 {
        assert(standard_palette()[178].rgb == Rgb { r: 87, g: 92, b: 92 });
        assert(squared_distance(Rgb { r: 0, g: 0, b: 0 }, Rgb { r: 87, g: 92, b: 92 }) == 24497) by (nonlinear_arith);
    } else if i == 179 {
        assert(standard_palette()[179].rgb == Rgb { r: 46, g: 48, b: 48 });
        assert(squared_distance(Rgb { r: 0, g: 0, b: 0 }, Rgb { r: 46, g: 48, b: 48 }) == 6724) by (nonlinear_arith);
    } else if i == 180 {
        assert(standard_palette()[180].rgb == Rgb { r: 86, g: 51, b: 62 });
        assert(squared_distance(Rgb { r: 0, g: 0, b: 0 }, Rgb { r: 86, g: 51, b: 62 }) == 13841) by (nonlinear_arith);
    } else if i == 181 {
        assert(standard_palette()[181].rgb == Rgb { r: 105, g: 62, b: 75 });
        assert(squared_distance(Rgb { r: 0, g: 0, b: 0 }, Rgb { r: 105, g: 62, b: 75 }) == 20494) by (nonlinear_arith);
    } else if i == 182 {
        assert(standard_palette()[182].rgb == Rgb { r: 122, g: 73, b: 88 });
        assert(squared_distance(Rgb { r: 0, g: 0, b: 0 }, Rgb { r: 122, g: 73, b: 88 }) == 27957) by (nonlinear_arith);
    } else if i == 183 {
        assert(standard_palette()[183].rgb == Rgb { r: 64, g: 38, b: 46 });
        assert(squared_distance(Rgb { r: 0, g: 0, b: 0 }, Rgb { r: 64, g: 38, b: 46 }) == 7656) by (nonlinear_arith);
    } else if i == 184 {
        assert(standard_palette()[184].rgb == Rgb { r: 53, g: 43, b: 64 });
        assert(squared_distance(Rgb { r: 0, g: 0, b: 0 }, Rgb { r: 53, g: 43, b: 64 }) == 8754) by (nonlinear_arith);
    } else if i == 185 {
        assert(standard_palette()[185].rgb == Rgb { r: 65, g: 53, b: 79 });
        assert(squared_distance(Rgb { r: 0, g: 0, b: 0 }, Rgb { r: 65, g: 53, b: 79 }) == 13275) by (nonlinear_arith);
    } else if i == 186 {
        assert(standard_palette()[186].rgb == Rgb { r: 76, g: 62, b: 92 });
        assert(squared_distance(Rgb { r: 0, g: 0, b: 0 }, Rgb { r: 76, g: 62, b: 92 }) == 18084) by (nonlinear_arith);
    } else if i == 187 {
        assert(standard_palette()[187].rgb == Rgb { r: 40, g: 32, b: 48 });
        assert(squared_distance(Rgb { r: 0, g: 0, b: 0 }, Rgb { r: 40, g: 32, b: 48 }) == 4928) by (nonlinear_arith);
    } else if i == 188 {
        assert(standard_palette()[188].rgb == Rgb { r: 53, g: 35, b: 24 });
        assert(squared_distance(Rgb { r: 0, g: 0, b: 0 }, Rgb { r: 53, g: 35, b: 24 }) == 4610) by (nonlinear_arith);
    } else if i == 189 {
        assert(standard_palette()[189].rgb == Rgb { r: 65, g: 43, b: 30 });
        assert(squared_distance(Rgb { r: 0, g: 0, b: 0 }, Rgb { r: 65, g: 43, b: 30 }) == 6974) by (nonlinear_arith);
    } else if i == 190 {
        assert(standard_palette()[190].rgb == Rgb { r: 76, g: 50, b: 35 });
        assert(squared_distance(Rgb { r: 0, g: 0, b: 0 }, Rgb { r: 76, g: 50, b: 35 }) == 9501) by (nonlinear_arith);
    } else {
        assert(i == 191);
        assert(standard_palette()[191].rgb == Rgb { r: 40, g: 26, b: 18 });
        assert(squared_distance(Rgb { r: 0, g: 0, b: 0 }, Rgb { r: 40, g: 26, b: 18 }) == 2600) by (nonlinear_arith);
    }
}

proof fn lemma_standard_entries_192_224(i: int)
    requires
        192 <= i < 224,
    ensures
        standard_palette()[i].index == FIRST_INDEX + i,
        standard_position(standard_palette()[i].rgb) == i,
        squared_distance(Rgb { r: 0, g: 0, b: 0 }, standard_palette()[i].rgb) >= 507,
        squared_distance(Rgb { r: 0, g: 0, b: 0 }, standard_palette()[i].rgb) == 507 <==> i == 115,
{
    if i == 192 {
        assert(standard_palette()[192].rgb == Rgb { r: 53, g: 57, b: 29 });
        assert(squared_distance(Rgb { r: 0, g: 0, b: 0 }, Rgb { r: 53, g: 57, b: 29 }) == 6899) by (nonlinear_arith);
    } else if i == 193 {
        assert(standard_palette()[193].rgb == Rgb { r: 65, g: 70, b: 36 });
        assert(squared_distance(Rgb { r: 0, g: 0, b: 0 }, Rgb { r: 65, g: 70, b: 36 }) == 10421) by (nonlinear_arith);
    } else if i == 194 {
        assert(standard_palette()[194].rgb == Rgb { r: 76, g: 82, b: 42 });
        assert(squared_distance(Rgb { r: 0, g: 0, b: 0 }, Rgb { r: 76, g: 82, b: 42 }) == 14264) by (nonlinear_arith);
    } else if i == 195 {
        assert(standard_palette()[195].rgb == Rgb { r: 40, g: 43, b: 22 });
        assert(squared_distance(Rgb { r: 0, g: 0, b: 0 }, Rgb { r: 40, g: 43, b: 22 }) == 3933) by (nonlinear_arith);
    } else if i == 196 {
        assert(standard_palette()[196].rgb == Rgb { r: 100, g: 42, b: 32 });
        assert(squared_distance(Rgb { r: 0, g: 0, b: 0 }, Rgb { r: 100, g: 42, b: 32 }) == 12788) by (nonlinear_arith);
    } else if i == 197 {
        assert(standard_palette()[197].rgb == Rgb { r: 122, g: 51, b: 39 });
        assert(squared_distance(Rgb { r: 0, g: 0, b: 0 }, Rgb { r: 122, g: 51, b: 39 }) == 19006) by (nonlinear_arith);
    } else if i == 198 {
        assert(standard_palette()[198].rgb == Rgb { r: 142, g: 60, b: 46 });
        assert(squared_distance(Rgb { r: 0, g: 0, b: 0 }, Rgb { r: 142, g: 60, b: 46 }) == 25880) by (nonlinear_arith);
    } else if i == 199 {
        assert(standard_palette()[199].rgb == Rgb { r: 75, g: 31, b: 24 });
        assert(squared_distance(Rgb { r: 0, g: 0, b: 0 }, Rgb { r: 75, g: 31, b: 24 }) == 7162) by (nonlinear_arith);
    } else if i == 200 {
        assert(standard_palette()[200].rgb == Rgb { r: 26, g: 15, b: 11 });
        assert(squared_distance(Rgb { r: 0, g: 0, b: 0 }, Rgb { r: 26, g: 15, b: 11 }) == 1022) by (nonlinear_arith);
    } else if i == 201 {
        assert(standard_palette()[201].rgb == Rgb { r: 31, g: 18, b: 13 });
        assert(squared_distance(Rgb { r: 0, g: 0, b: 0 }, Rgb { r: 31, g: 18, b: 13 }) == 1454) by (nonlinear_arith);
    } else if i == 202 {
        assert(standard_palette()[202].rgb == Rgb { r: 37, g: 22, b: 16 });
        assert(squared_distance(Rgb { r: 0, g: 0, b: 0 }, Rgb { r: 37, g: 22, b: 16 }) == 2109) by (nonlinear_arith);
    } else if i == 203 {
        assert(standard_palette()[203].rgb == Rgb { r: 19, g: 11, b: 8 });
        assert(squared_distance(Rgb { r: 0, g: 0, b: 0 }, Rgb { r: 19, g: 11, b: 8 }) == 546) by (nonlinear_arith);
    } else if i == 204 {
        assert(standard_palette()[204].rgb == Rgb { r: 133, g: 33, b: 34 });
        assert(squared_distance(Rgb { r: 0, g: 0, b: 0 }, Rgb { r: 133, g: 33, b: 34 }) == 19934) by (nonlinear_arith);
    } else if i == 205 {
        assert(standard_palette()[205].rgb == Rgb { r: 163, g: 41, b: 42 });
        assert(squared_distance(Rgb { r: 0, g: 0, b: 0 }, Rgb { r: 163, g: 41, b: 42 }) == 30014) by (nonlinear_arith);
    } else if i == 206 {
        assert(standard_palette()[206].rgb == Rgb { r: 189, g: 48, b: 49 });
        assert(squared_distance(Rgb { r: 0, g: 0, b: 0 }, Rgb { r: 189, g: 48, b: 49 }) == 40426) by (nonlinear_arith);
    } else if i == 207 {
        assert(standard_palette()[207].rgb == Rgb { r: 100, g: 25, b: 25 });
        assert(squared_distance(Rgb { r: 0, g: 0, b: 0 }, Rgb { r: 100, g: 25, b: 25 }) == 11250) by (nonlinear_arith);
    } else if i == 208 {
        assert(standard_palette()[208].rgb == Rgb { r: 104, g: 44, b: 68 });
        assert(squared_distance(Rgb { r: 0, g: 0, b: 0 }, Rgb { r: 104, g: 44, b: 68 }) == 17376) by (nonlinear_arith);
    } else if i == 209 {
        assert(standard_palette()[209].rgb == Rgb { r: 127, g: 54, b: 83 });
        assert(squared_distance(Rgb { r: 0, g: 0, b: 0 }, Rgb { r: 127, g: 54, b: 83 }) == 25934) by (nonlinear_arith);
    } else if i == 210 {
        assert(standard_palette()[210].rgb == Rgb { r: 148, g: 63, b: 97 });
        assert(squared_distance(Rgb { r: 0, g: 0, b: 0 }, Rgb { r: 148, g: 63, b: 97 }) == 35282) by (nonlinear_arith);
    } else if i == 211 {
        assert(standard_palette()[211].rgb == Rgb { r: 78, g: 33, b: 51 });
        assert(squared_distance(Rgb { r: 0, g: 0, b: 0 }, Rgb { r: 78, g: 33, b: 51 }) == 9774) by (nonlinear_arith);
    } else if i == 212 {
        assert(standard_palette()[212].rgb == Rgb { r: 64, g: 17, b: 20 });
        assert(squared_distance(Rgb { r: 0, g: 0, b: 0 }, Rgb { r: 64, g: 17, b: 20 }) == 4785) by (nonlinear_arith);
    } else if i == 213 {
        assert(standard_palette()[213].rgb == Rgb { r: 79, g: 21, b: 25 });
        assert(squared_distance(Rgb { r: 0, g: 0, b: 0 }, Rgb { r: 79, g: 21, b: 25 }) == 7307) by (nonlinear_arith);
    } else if i == 214 {
        assert(standard_palette()[214].rgb == Rgb { r: 92, g: 25, b: 29 });
        assert(squared_distance(Rgb { r: 0, g: 0, b: 0 }, Rgb { r: 92, g: 25, b: 29 }) == 9930) by (nonlinear_arith);
    } else if i == 215 {
        assert(standard_palette()[215].rgb == Rgb { r: 48, g: 13, b: 15 });
        assert(squared_distance(Rgb { r: 0, g: 0, b: 0 }, Rgb { r: 48, g: 13, b: 15 }) == 2698) by (nonlinear_arith);
    } else if i == 216 {
        assert(standard_palette()[216].rgb == Rgb { r: 15, g: 88, b: 94 });
        assert(squared_distance(Rgb { r: 0, g: 0, b: 0 }, Rgb { r: 15, g: 88, b: 94 }) == 16805) by (nonlinear_arith);
    } else if i == 217 {
        assert(standard_palette()[217].rgb == Rgb { r: 18, g: 108, b: 115 });
        assert(squared_distance(Rgb { r: 0, g: 0, b: 0 }, Rgb { r: 18, g: 108, b: 115 }) == 25213) by (nonlinear_arith);
    } else if i == 218 {
        assert(standard_palette()[218].rgb == Rgb { r: 22, g: 126, b: 134 });
        assert(squared_distance(Rgb { r: 0, g: 0, b: 0 }, Rgb { r: 22, g: 126, b: 134 }) == 34316) by (nonlinear_arith);
    } else if i == 219 {
        assert(standard_palette()[219].rgb == Rgb { r: 11, g: 66, b: 70 });
        assert(squared_distance(Rgb { r: 0, g: 0, b: 0 }, Rgb { r: 11, g: 66, b: 70 }) == 9377) by (nonlinear_arith);
    } else if i == 220 {
        assert(standard_palette()[220].rgb == Rgb { r: 40, g: 100, b: 98 });
        assert(squared_distance(Rgb { r: 0, g: 0, b: 0 }, Rgb { r: 40, g: 100, b: 98 }) == 21204) by (nonlinear_arith);
    } else if i == 221 {
        assert(standard_palette()[221].rgb == Rgb { r: 50, g: 122, b: 120 });
        assert(squared_distance(Rgb { r: 0, g: 0, b: 0 }, Rgb { r: 50, g: 122, b: 120 }) == 31784) by (nonlinear_arith);
    } else if i == 222 {
        assert(standard_palette()[222].rgb == Rgb { r: 58, g: 142, b: 140 });
        assert(squared_distance(Rgb { r: 0, g: 0, b: 0 }, Rgb { r: 58, g: 142, b: 140 }) == 43128) by (nonlinear_arith);
    } else {
        assert(i == 223);
        assert(standard_palette()[223].rgb == Rgb { r: 30, g: 75, b: 74 });
        assert(squared_distance(Rgb { r: 0, g: 0, b: 0 }, Rgb { r: 30, g: 75, b: 74 }) == 12001) by (nonlinear_arith);
    }
}

proof fn lemma_standard_entries_224_244(i: int)
    requires
        224 <= i < 244,
    ensures
        standard_palette()[i].index == FIRST_INDEX + i,
        standard_position(standard_palette()[i].rgb) == i,
        squared_distance(Rgb { r: 0, g: 0, b: 0 }, standard_palette()[i].rgb) >= 507,
        squared_distance(Rgb { r: 0, g: 0, b: 0 }, standard_palette()[i].rgb) == 507 <==> i == 115,
{
    if i == 224 {
        assert(standard_palette()[224].rgb == Rgb { r: 60, g: 31, b: 43 });
        assert(squared_distance(Rgb { r: 0, g: 0, b: 0 }, Rgb { r: 60, g: 31, b: 43 }) == 6410) by (nonlinear_arith);
    } else if i == 225 {
        assert(standard_palette()[225].rgb == Rgb { r: 74, g: 37, b: 53 });
        assert(squared_distance(Rgb { r: 0, g: 0, b: 0 }, Rgb { r: 74, g: 37, b: 53 }) == 9654) by (nonlinear_arith);
    } else if i == 226 {
        assert(standard_palette()[226].rgb == Rgb { r: 86, g: 44, b: 62 });
        assert(squared_distance(Rgb { r: 0, g: 0, b: 0 }, Rgb { r: 86, g: 44, b: 62 }) == 13176) by (nonlinear_arith);
    } else if i == 227 {
        assert(standard_palette()[227].rgb == Rgb { r: 45, g: 23, b: 32 });
        assert(squared_distance(Rgb { r: 0, g: 0, b: 0 }, Rgb { r: 45, g: 23, b: 32 }) == 3578) by (nonlinear_arith);
    } else if i == 228 {
        assert(standard_palette()[228].rgb == Rgb { r: 14, g: 127, b: 93 });
        assert(squared_distance(Rgb { r: 0, g: 0, b: 0 }, Rgb { r: 14, g: 127, b: 93 }) == 24974) by (nonlinear_arith);
    } else if i == 229 {
        assert(standard_palette()[229].rgb == Rgb { r: 17, g: 155, b: 114 });
        assert(squared_distance(Rgb { r: 0, g: 0, b: 0 }, Rgb { r: 17, g: 155, b: 114 }) == 37310) by (nonlinear_arith);
    } else if i == 230 {
        assert(standard_palette()[230].rgb == Rgb { r: 20, g: 180, b: 133 });
        assert(squared_distance(Rgb { r: 0, g: 0, b: 0 }, Rgb { r: 20, g: 180, b: 133 }) == 50489) by (nonlinear_arith);
    } else if i == 231 {
        assert(standard_palette()[231].rgb == Rgb { r: 10, g: 95, b: 70 });
        assert(squared_distance(Rgb { r: 0, g: 0, b: 0 }, Rgb { r: 10, g: 95, b: 70 }) == 14025) by (nonlinear_arith);
    } else if i == 232 {
        assert(standard_palette()[232].rgb == Rgb { r: 70, g: 70, b: 70 });
        assert(squared_distance(Rgb { r: 0, g: 0, b: 0 }, Rgb { r: 70, g: 70, b: 70 }) == 14700) by (nonlinear_arith);
    } else if i == 233 {
        assert(standard_palette()[233].rgb == Rgb { r: 86, g: 86, b: 86 });
        assert(squared_distance(Rgb { r: 0, g: 0, b: 0 }, Rgb { r: 86, g: 86, b: 86 }) == 22188) by (nonlinear_arith);
    } else if i == 234 {
        assert(standard_palette()[234].rgb == Rgb { r: 100, g: 100, b: 100 });
        assert(squared_distance(Rgb { r: 0, g: 0, b: 0 }, Rgb { r: 100, g: 100, b: 100 }) == 30000) by (nonlinear_arith);
    } else if i == 235 {
        assert(standard_palette()[235].rgb == Rgb { r: 52, g: 52, b: 52 });
        assert(squared_distance(Rgb { r: 0, g: 0, b: 0 }, Rgb { r: 52, g: 52, b: 52 }) == 8112) by (nonlinear_arith);
    } else if i == 236 {
        assert(standard_palette()[236].rgb == Rgb { r: 152, g: 123, b: 103 });
        assert(squared_distance(Rgb { r: 0, g: 0, b: 0 }, Rgb { r: 152, g: 123, b: 103 }) == 48842) by (nonlinear_arith);
    } else if i == 237 {
        assert(standard_palette()[237].rgb == Rgb { r: 186, g: 150, b: 126 });
        assert(squared_distance(Rgb { r: 0, g: 0, b: 0 }, Rgb { r: 186, g: 150, b: 126 }) == 72972) by (nonlinear_arith);
    } else if i == 238 {
        assert(standard_palette()[238].rgb == Rgb { r: 216, g: 175, b: 147 });
        assert(squared_distance(Rgb { r: 0, g: 0, b: 0 }, Rgb { r: 216, g: 175, b: 147 }) == 98890) by (nonlinear_arith);
    } else if i == 239 {
        assert(standard_palette()[239].rgb == Rgb { r: 114, g: 92, b: 77 });
        assert(squared_distance(Rgb { r: 0, g: 0, b: 0 }, Rgb { r: 114, g: 92, b: 77 }) == 27389) by (nonlinear_arith);
    } else if i == 240 {
        assert(standard_palette()[240].rgb == Rgb { r: 89, g: 117, b: 105 });
        assert(squared_distance(Rgb { r: 0, g: 0, b: 0 }, Rgb { r: 89, g: 117, b: 105 }) == 32635) by (nonlinear_arith);
    } else if i == 241 {
        assert(standard_palette()[241].rgb == Rgb { r: 109, g: 144, b: 129 });
        assert(squared_distance(Rgb { r: 0, g: 0, b: 0 }, Rgb { r: 109, g: 144, b: 129 }) == 49258) by (nonlinear_arith);
    } else if i == 242 {
        assert(standard_palette()[242].rgb == Rgb { r: 127, g: 167, b: 150 });
        assert(squared_distance(Rgb { r: 0, g: 0, b: 0 }, Rgb { r: 127, g: 167, b: 150 }) == 66518) by (nonlinear_arith);
    } else {
        assert(i == 243);
        assert(standard_palette()[243].rgb == Rgb { r: 67, g: 88, b: 79 });
        assert(squared_distance(Rgb { r: 0, g: 0, b: 0 }, Rgb { r: 67, g: 88, b: 79 }) == 18474) by (nonlinear_arith);
    }
}

/// The standard palette is usable.
pub proof fn lemma_standard_palette_wf()
    ensures
        palette_wf(standard_palette()),
        standard_palette()[115].index == BLACK_INDEX,
{
    let p = standard_palette();
    let black = Rgb { r: 0, g: 0, b: 0 };
    assert forall|i: int| 0 <= i < p.len() implies FIRST_INDEX <= #[trigger] p[i].index <= LAST_INDEX by {
        lemma_standard_entry(i);
    }
    assert forall|i: int, j: int|
        0 <= i < p.len() && 0 <= j < p.len() && #[trigger] p[i].rgb == #[trigger] p[j].rgb implies i == j by {
        lemma_standard_entry(i);
        lemma_standard_entry(j);
    }
    lemma_standard_entry(115);
    assert forall|i: int| #[trigger] is_nearest_entry(p, black, i) implies p[i].index == BLACK_INDEX by {
        lemma_standard_entry(i);
        assert(squared_distance(black, p[i].rgb) <= squared_distance(black, p[115].rgb));
    }
}

fn entry(r: u8, g: u8, b: u8, index: MapColor) -> (e: MinecraftRgb)
    ensures
        e == palette_entry(r, g, b, index),
{
    MinecraftRgb { rgb: Rgb { r, g, b }, index }
}

fn standard_entry_of(i: usize) -> (e: MinecraftRgb)
    requires
        i < COLOR_COUNT,
    ensures
        e == standard_entry(i as u8),
{
    match i {
        0 => entry(89, 125, 39, 4),
        1 => entry(109, 153, 48, 5),
        2 => entry(127, 178, 56, 6),
        3 => entry(67, 94, 29, 7),
        4 => entry(174, 164, 115, 8),
        5 => entry(213, 201, 140, 9),
        6 => entry(247, 233, 163, 10),
        7 => entry(130, 123, 86, 11),
        8 => entry(140, 140, 140, 12),
        9 => entry(171, 171, 171, 13),
        10 => entry(199, 199, 199, 14),
        11 => entry(105, 105, 105, 15),
        12 => entry(180, 0, 0, 16),
        13 => entry(220, 0, 0, 17),
        14 => entry(255, 0, 0, 18),
        15 => entry(135, 0, 0, 19),
        16 => entry(112, 112, 180, 20),
        17 => entry(138, 138, 220, 21),
        18 => entry(160, 160, 255, 22),
        19 => entry(84, 84, 135, 23),
        20 => entry(117, 117, 117, 24),
        21 => entry(144, 144, 144, 25),
        22 => entry(167, 167, 167, 26),
        23 => entry(88, 88, 88, 27),
        24 => entry(0, 87, 0, 28),
        25 => entry(0, 106, 0, 29),
        26 => entry(0, 124, 0, 30),
        27 => entry(0, 65, 0, 31),
        28 => entry(180, 180, 180, 32),
        29 => entry(220, 220, 220, 33),
        30 => entry(255, 255, 255, 34),
        31 => entry(135, 135, 135, 35),
        32 => entry(115, 118, 129, 36),
        33 => entry(141, 144, 158, 37),
        34 => entry(164, 168, 184, 38),
        35 => entry(86, 88, 97, 39),
        36 => entry(106, 76, 54, 40),
        37 => entry(130, 94, 66, 41),
        38 => entry(151, 109, 77, 42),
        39 => entry(79, 57, 40, 43),
        40 => entry(79, 79, 79, 44),
        41 => entry(96, 96, 96, 45),
        42 => entry(112, 112, 112, 46),
        43 => entry(59, 59, 59, 47),
        44 => entry(45, 45, 180, 48),
        45 => entry(55, 55, 220, 49),
        46 => entry(64, 64, 255, 50),
        47 => entry(33, 33, 135, 51),
        48 => entry(100, 84, 50, 52),
        49 => entry(123, 102, 62, 53),
        50 => entry(143, 119, 72, 54),
        51 => entry(75, 63, 38, 55),
        52 => entry(180, 177, 172, 56),
        53 => entry(220, 217, 211, 57),
        54 => entry(255, 252, 245, 58),
        55 => entry(135, 133, 129, 59),
        56 => entry(152, 89, 36, 60),
        57 => entry(186, 109, 44, 61),
        58 => entry(216, 127, 51, 62),
        59 => entry(114, 67, 27, 63),
        60 => entry(125, 53, 152, 64),
        61 => entry(153, 65, 186, 65),
        62 => entry(178, 76, 216, 66),
        63 => entry(94, 40, 114, 67),
        64 => entry(72, 108, 152, 68),
        65 => entry(88, 132, 186, 69),
        66 => entry(102, 153, 216, 70),
        67 => entry(54, 81, 114, 71),
        68 => entry(161, 161, 36, 72),
        69 => entry(197, 197, 44, 73),
        70 => entry(229, 229, 51, 74),
        71 => entry(121, 121, 27, 75),
        72 => entry(89, 144, 17, 76),
        73 => entry(109, 176, 21, 77),
        74 => entry(127, 204, 25, 78),
        75 => entry(67, 108, 13, 79),
        76 => entry(170, 89, 116, 80),
        77 => entry(208, 109, 142, 81),
        78 => entry(242, 127, 165, 82),
        79 => entry(128, 67, 87, 83),
        80 => entry(53, 53, 53, 84),
        81 => entry(65, 65, 65, 85),
        82 => entry(76, 76, 76, 86),
        83 => entry(40, 40, 40, 87),
        84 => entry(108, 108, 108, 88),
        85 => entry(132, 132, 132, 89),
        86 => entry(153, 153, 153, 90),
        87 => entry(81, 81, 81, 91),
        88 => entry(53, 89, 108, 92),
        89 => entry(65, 109, 132, 93),
        90 => entry(76, 127, 153, 94),
        91 => entry(40, 67, 81, 95),
        92 => entry(89, 44, 125, 96),
        93 => entry(109, 54, 153, 97),
        94 => entry(127, 63, 178, 98),
        95 => entry(67, 33, 94, 99),
        96 => entry(36, 53, 125, 100),
        97 => entry(44, 65, 153, 101),
        98 => entry(51, 76, 178, 102),
        99 => entry(27, 40, 94, 103),
        100 => entry(72, 53, 36, 104),
        101 => entry(88, 65, 44, 105),
        102 => entry(102, 76, 51, 106),
        103 => entry(54, 40, 27, 107),
        104 => entry(72, 89, 36, 108),
        105 => entry(88, 109, 44, 109),
        106 => entry(102, 127, 51, 110),
        107 => entry(54, 67, 27, 111),
        108 => entry(108, 36, 36, 112),
        109 => entry(132, 44, 44, 113),
        110 => entry(153, 51, 51, 114),
        111 => entry(81, 27, 27, 115),
        112 => entry(17, 17, 17, 116),
        113 => entry(21, 21, 21, 117),
        114 => entry(25, 25, 25, 118),
        115 => entry(13, 13, 13, 119),
        116 => entry(176, 168, 54, 120),
        117 => entry(215, 205, 66, 121),
        118 => entry(250, 238, 77, 122),
        119 => entry(132, 126, 40, 123),
        120 => entry(64, 154, 150, 124),
        121 => entry(79, 188, 183, 125),
        122 => entry(92, 219, 213, 126),
        123 => entry(48, 115, 112, 127),
        124 => entry(52, 90, 180, 128),
        125 => entry(63, 110, 220, 129),
        126 => entry(74, 128, 255, 130),
        127 => entry(39, 67, 135, 131),
        128 => entry(0, 153, 40, 132),
        129 => entry(0, 187, 50, 133),
        130 => entry(0, 217, 58, 134),
        131 => entry(0, 114, 30, 135),
        132 => entry(91, 60, 34, 136),
        133 => entry(111, 74, 42, 137),
        134 => entry(129, 86, 49, 138),
        135 => entry(68, 45, 25, 139),
        136 => entry(79, 1, 0, 140),
        137 => entry(96, 1, 0, 141),
        138 => entry(112, 2, 0, 142),
        139 => entry(59, 1, 0, 143),
        140 => entry(147, 124, 113, 144),
        141 => entry(180, 152, 138, 145),
        142 => entry(209, 177, 161, 146),
        143 => entry(110, 93, 85, 147),
        144 => entry(112, 57, 25, 148),
        145 => entry(137, 70, 31, 149),
        146 => entry(159, 82, 36, 150),
        147 => entry(84, 43, 19, 151),
        148 => entry(105, 61, 76, 152),
        149 => entry(128, 75, 93, 153),
        150 => entry(149, 87, 108, 154),
        151 => entry(78, 46, 57, 155),
        152 => entry(79, 76, 97, 156),
        153 => entry(96, 93, 119, 157),
        154 => entry(112, 108, 138, 158),
        155 => entry(59, 57, 73, 159),
        156 => entry(131, 93, 25, 160),
        157 => entry(160, 114, 31, 161),
        158 => entry(186, 133, 36, 162),
        159 => entry(98, 70, 19, 163),
        160 => entry(72, 82, 37, 164),
        161 => entry(88, 100, 45, 165),
        162 => entry(103, 117, 53, 166),
        163 => entry(54, 61, 28, 167),
        164 => entry(112, 54, 55, 168),
        165 => entry(138, 66, 67, 169),
        166 => entry(160, 77, 78, 170),
        167 => entry(84, 40, 41, 171),
        168 => entry(40, 28, 24, 172),
        169 => entry(49, 35, 30, 173),
        170 => entry(57, 41, 35, 174),
        171 => entry(30, 21, 18, 175),
        172 => entry(95, 75, 69, 176),
        173 => entry(116, 92, 84, 177),
        174 => entry(135, 107, 98, 178),
        175 => entry(71, 56, 51, 179),
        176 => entry(61, 64, 64, 180),
        177 => entry(75, 79, 79, 181),
        178 => entry(87, 92, 92, 182),
        179 => entry(46, 48, 48, 183),
        180 => entry(86, 51, 62, 184),
        181 => entry(105, 62, 75, 185),
        182 => entry(122, 73, 88, 186),
        183 => entry(64, 38, 46, 187),
        184 => entry(53, 43, 64, 188),
        185 => entry(65, 53, 79, 189),
        186 => entry(76, 62, 92, 190),
        187 => entry(40, 32, 48, 191),
        188 => entry(53, 35, 24, 192),
        189 => entry(65, 43, 30, 193),
        190 => entry(76, 50, 35, 194),
        191 => entry(40, 26, 18, 195),
        192 => entry(53, 57, 29, 196),
        193 => entry(65, 70, 36, 197),
        194 => entry(76, 82, 42, 198),
        195 => entry(40, 43, 22, 199),
        196 => entry(100, 42, 32, 200),
        197 => entry(122, 51, 39, 201),
        198 => entry(142, 60, 46, 202),
        199 => entry(75, 31, 24, 203),
        200 => entry(26, 15, 11, 204),
        201 => entry(31, 18, 13, 205),
        202 => entry(37, 22, 16, 206),
        203 => entry(19, 11, 8, 207),
        204 => entry(133, 33, 34, 208),
        205 => entry(163, 41, 42, 209),
        206 => entry(189, 48, 49, 210),
        207 => entry(100, 25, 25, 211),
        208 => entry(104, 44, 68, 212),
        209 => entry(127, 54, 83, 213),
        210 => entry(148, 63, 97, 214),
        211 => entry(78, 33, 51, 215),
        212 => entry(64, 17, 20, 216),
        213 => entry(79, 21, 25, 217),
        214 => entry(92, 25, 29, 218),
        215 => entry(48, 13, 15, 219),
        216 => entry(15, 88, 94, 220),
        217 => entry(18, 108, 115, 221),
        218 => entry(22, 126, 134, 222),
        219 => entry(11, 66, 70, 223),
        220 => entry(40, 100, 98, 224),
        221 => entry(50, 122, 120, 225),
        222 => entry(58, 142, 140, 226),
        223 => entry(30, 75, 74, 227),
        224 => entry(60, 31, 43, 228),
        225 => entry(74, 37, 53, 229),
        226 => entry(86, 44, 62, 230),
        227 => entry(45, 23, 32, 231),
        228 => entry(14, 127, 93, 232),
        229 => entry(17, 155, 114, 233),
        230 => entry(20, 180, 133, 234),
        231 => entry(10, 95, 70, 235),
        232 => entry(70, 70, 70, 236),
        233 => entry(86, 86, 86, 237),
        234 => entry(100, 100, 100, 238),
        235 => entry(52, 52, 52, 239),
        236 => entry(152, 123, 103, 240),
        237 => entry(186, 150, 126, 241),
        238 => entry(216, 175, 147, 242),
        239 => entry(114, 92, 77, 243),
        240 => entry(89, 117, 105, 244),
        241 => entry(109, 144, 129, 245),
        242 => entry(127, 167, 150, 246),
        243 => entry(67, 88, 79, 247),
        _ => entry(0, 0, 0, 0),
    }
}

/// The standard palette, which is usable.
pub fn color_list() -> (r: Vec<MinecraftRgb>)
    ensures
        r@ == standard_palette(),
        palette_wf(r@),
{
    let mut list: Vec<MinecraftRgb> = Vec::with_capacity(COLOR_COUNT);
    let mut i: usize = 0;
    while i < COLOR_COUNT
        invariant
            0 <= i <= COLOR_COUNT,
            list@ == standard_palette().subrange(0, i as int),
        decreases COLOR_COUNT - i,
    {
        list.push(standard_entry_of(i));
        proof {
            assert(standard_palette().subrange(0, i + 1) == standard_palette().subrange(0, i as int).push(
                standard_entry(i as u8),
            ));
        }
        i += 1;
    }
    proof {
        assert(standard_palette().subrange(0, COLOR_COUNT as int) == standard_palette());
        lemma_standard_palette_wf();
    }
    list
}

/// The nearest-color index over the standard palette.
pub fn minecraft_color_tree() -> (r: MinecraftColorTree)
    ensures
        r@ == standard_palette(),
{
    match MinecraftColorTree::new(color_list()) {
        Ok(t) => t,
        Err(_) => {
            proof {
                lemma_palette_check_wf(standard_palette());
            }
            vstd::pervasive::unreached()
        },
    }
}

} // verus!
