//! A palette searched entry by entry, without an index structure. Entry `i`
//! stands for map color `i + 4`.
use crate::colors::{is_black, squared_distance, squared_distance_of, Rgb};
use vstd::prelude::*;

verus! {

/// A list of reference colors, searched in order.
pub struct RgbColorMap {
    pub colors: Vec<Rgb>,
}

/// Entry `i` is the first of the entries nearest to `c`.
pub open spec fn is_first_nearest(colors: Seq<Rgb>, c: Rgb, i: int) -> bool {
    &&& 0 <= i < colors.len()
    &&& forall|j: int| 0 <= j < colors.len() ==> squared_distance(c, colors[i]) <= #[trigger] squared_distance(c, colors[j])
    &&& forall|j: int| 0 <= j < i ==> squared_distance(c, colors[i]) < #[trigger] squared_distance(c, colors[j])
}

impl RgbColorMap {
    /// Maps `color` to the map color of the first nearest entry (its position
    /// plus four) and the error `color - entry` per channel, wrapped to `i8`.
    /// Exact black maps to 119 with no error.
    pub fn map_indices(&self, color: &Rgb) -> (r: (usize, [i8; 3]))
        requires
            self.colors@.len() > 0,
            self.colors@.len() + 4 <= usize::MAX,
        ensures
            is_black(*color) ==> r.0 == 119 && r.1[0] == 0 && r.1[1] == 0 && r.1[2] == 0,
            !is_black(*color) ==> {
                let e = self.colors@[r.0 - 4];
                &&& r.0 >= 4
                &&& is_first_nearest(self.colors@, *color, r.0 - 4)
                &&& r.1[0] == (color.r - e.r) as i8
                &&& r.1[1] == (color.g - e.g) as i8
                &&& r.1[2] == (color.b - e.b) as i8
            },
    {
        if color.r == 0 && color.g == 0 && color.b == 0 {
            return (119, [0, 0, 0]);
        }
        let n = self.colors.len();
        let mut best: u32 = squared_distance_of(*color, self.colors[0]);
        let mut idx: usize = 0;
        let mut i: usize = 1;
        while i < n
            invariant
                n == self.colors@.len(),
                1 <= i <= n,
                0 <= idx < i,
                best == squared_distance(*color, self.colors@[idx as int]),
                forall|j: int| 0 <= j < i ==> best <= #[trigger] squared_distance(*color, self.colors@[j]),
                forall|j: int| 0 <= j < idx ==> best < #[trigger] squared_distance(*color, self.colors@[j]),
            decreases n - i,
        {
            let d = squared_distance_of(*color, self.colors[i]);
            if d < best {
                best = d;
                idx = i;
            }
            i += 1;
        }
        let e = self.colors[idx];
        let error: [i8; 3] = [
            #[verifier::truncate]
            ((color.r as i16 - e.r as i16) as i8),
            #[verifier::truncate]
            ((color.g as i16 - e.g as i16) as i8),
            #[verifier::truncate]
            ((color.b as i16 - e.b as i16) as i8),
        ];
        (idx + 4, error)
    }
}

} // verus!
