//! The run's settings: where the maps go in the world and which way they face.
use vstd::prelude::*;
use vstd::utf8::{encode_utf8, encode_utf8_decode_utf8};

verus! {

/// The direction the placed maps face.
#[derive(Clone, Copy, Debug, PartialEq, Eq, Structural)]
pub enum Direction {
    North,
    South,
    West,
    East,
}

/// A block position `(x, y, z)` in the world.
pub type Location = (i64, i64, i64);

impl Direction {
    /// The byte that the target platform's `Facing` field uses for a direction.
    pub open spec fn facing_code(self) -> u8 {
        match self {
            Direction::North => 2,
            Direction::South => 3,
            Direction::West => 4,
            Direction::East => 5,
        }
    }

    /// The `Facing` byte of this direction.
    pub fn code(&self) -> (r: u8)
        ensures
            r == self.facing_code(),
    {
        match self {
            Direction::North => 2,
            Direction::South => 3,
            Direction::West => 4,
            Direction::East => 5,
        }
    }
}

/// The direction named by a label; an unknown label means north.
pub open spec fn direction_of_label(s: Seq<char>) -> Direction {
    if s == "south"@ {
        Direction::South
    } else if s == "west"@ {
        Direction::West
    } else if s == "east"@ {
        Direction::East
    } else {
        Direction::North
    }
}

/// Whether two strings hold the same characters, compared byte by byte.
fn same_text(a: &str, b: &str) -> (r: bool)
    ensures
        r == (a@ == b@),
{
    let x = a.as_bytes();
    let y = b.as_bytes();
    proof {
        encode_utf8_decode_utf8(a@);
        encode_utf8_decode_utf8(b@);
    }
    if x.len() != y.len() {
        return false;
    }
    let mut i: usize = 0;
    while i < x.len()
        invariant
            x@ == encode_utf8(a@),
            y@ == encode_utf8(b@),
            x@.len() == y@.len(),
            0 <= i <= x@.len(),
            forall|k: int| 0 <= k < i ==> x@[k] == y@[k],
        decreases x@.len() - i,
    {
        if x[i] != y[i] {
            return false;
        }
        i += 1;
    }
    assert(x@ == y@);
    true
}

impl From<&str> for Direction {
    fn from(s: &str) -> (r: Direction) {
        if same_text(s, "south") {
            Direction::South
        } else if same_text(s, "west") {
            Direction::West
        } else if same_text(s, "east") {
            Direction::East
        } else {
            Direction::North
        }
    }
}

impl vstd::std_specs::convert::FromSpecImpl<&str> for Direction {
    open spec fn obeys_from_spec() -> bool {
        true
    }

    open spec fn from_spec(s: &str) -> Direction {
        direction_of_label(s@)
    }
}

/// What a run needs to know: where the top left map goes, which way the maps
/// face, the number of the first map, and the input and output folders.
pub struct CliArgs {
    pub top_left: Location,
    pub direction: Direction,
    pub starting_index: usize,
    pub input_path: String,
    pub output_path: String,
}

} // verus!
