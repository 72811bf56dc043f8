//! What the output collaborators need from a run: the number of each map's
//! data file, the next free map number, and where each map of a frame is
//! placed relative to the top left one.
use crate::cli::{Direction, Location};
use vstd::prelude::*;

verus! {

/// Settings of the output, before the run's shape is known.
pub struct Generator {
    pub path: String,
    pub starting_index: usize,
    pub top_left: Location,
    pub direction: Direction,
}

/// The output settings together with the run's shape.
pub struct InitializedGenerator {
    pub generator: Generator,
    pub frames: usize,
    pub map_columns: usize,
    pub map_rows: usize,
    pub maps_per_frame: usize,
}

/// Why output could not be described.
#[derive(Clone, Copy, Debug, PartialEq, Eq, Structural)]
pub enum GeneratorError {
    /// There are no frames, or no maps per frame.
    Uninitialized,
    /// `maps_per_frame` is not `map_columns * map_rows`, or the map numbers
    /// of the run do not fit in a `usize` and an `i64`.
    OutOfRange,
}

/// One map of a frame: its number and its offset from the top left map.
#[derive(Clone, Copy, Debug, PartialEq, Eq, Structural)]
pub struct MapPlacement {
    pub map_id: usize,
    pub dx: i64,
    pub dy: i64,
    pub dz: i64,
}

/// What the command files of a run are written from.
pub struct Datapack {
    pub maps_per_frame: usize,
    pub frames: usize,
    pub total_maps: usize,
    pub starting_index: usize,
    pub top_left: Location,
    pub facing: u8,
    /// One per map of a frame, in chunk order.
    pub placements: Vec<MapPlacement>,
}

/// Offset of the `i`-th map of a frame (in chunk order) from the top left
/// one. Columns run to the viewer's right, rows downwards; which world axis
/// is "right" depends on the facing.
pub open spec fn summon_offset(direction: Direction, i: int, map_columns: int) -> (int, int, int) {
    let column = i % map_columns;
    let row = i / map_columns;
    match direction {
        Direction::North => (-column, -row, 0),
        Direction::South => (column, -row, 0),
        Direction::West => (0, -row, -column),
        Direction::East => (0, -row, column),
    }
}

impl Generator {
    pub fn new(path: String, starting_index: usize, top_left: Location, direction: Direction) -> (r: Generator)
        ensures
            r.path@ == path@,
            r.starting_index == starting_index,
            r.top_left == top_left,
            r.direction == direction,
    {
        Generator { path, starting_index, top_left, direction }
    }

    /// Records the run's shape: `frames` frames of `map_columns` by
    /// `map_rows` maps.
    pub fn init_files(self, frames: usize, map_columns: usize, map_rows: usize) -> (r: InitializedGenerator)
        requires
            map_columns * map_rows <= usize::MAX,
        ensures
            r.generator == self,
            r.frames == frames,
            r.map_columns == map_columns,
            r.map_rows == map_rows,
            r.maps_per_frame == map_columns * map_rows,
    {
        InitializedGenerator { generator: self, frames, map_columns, map_rows, maps_per_frame: map_columns * map_rows }
    }
}

impl InitializedGenerator {
    /// The shape is consistent and every map number of the run fits in a
    /// `usize` and in an `i64`.
    pub open spec fn sizes_fit(&self) -> bool {
        &&& self.maps_per_frame == self.map_columns * self.map_rows
        &&& self.generator.starting_index + self.frames * self.maps_per_frame <= usize::MAX
        &&& self.generator.starting_index + self.frames * self.maps_per_frame <= i64::MAX
    }

    /// Whether output can be described for this run.
    pub open spec fn readiness(&self) -> Result<(), GeneratorError> {
        if self.frames == 0 || self.maps_per_frame == 0 {
            Err(GeneratorError::Uninitialized)
        } else if !self.sizes_fit() {
            Err(GeneratorError::OutOfRange)
        } else {
            Ok(())
        }
    }

    fn check_ready(&self) -> (r: Result<(), GeneratorError>)
        ensures
            r == self.readiness(),
    {
        if self.frames == 0 || self.maps_per_frame == 0 {
            return Err(GeneratorError::Uninitialized);
        }
        match self.map_columns.checked_mul(self.map_rows) {
            Some(m) => {
                if m != self.maps_per_frame {
                    return Err(GeneratorError::OutOfRange);
                }
            },
            None => {
                return Err(GeneratorError::OutOfRange);
            },
        }
        let total = match self.frames.checked_mul(self.maps_per_frame) {
            Some(t) => t,
            None => {
                assert(self.frames * self.maps_per_frame >= self.maps_per_frame) by (nonlinear_arith)
                    requires
                        self.frames >= 1,
                ;
                return Err(GeneratorError::OutOfRange);
            },
        };
        match self.generator.starting_index.checked_add(total) {
            Some(last) => {
                if last as u64 > i64::MAX as u64 {
                    return Err(GeneratorError::OutOfRange);
                }
            },
            None => {
                return Err(GeneratorError::OutOfRange);
            },
        }
        Ok(())
    }

    /// The number under which map `index` of frame `frame` is stored: frames
    /// one after another, `maps_per_frame` maps each, counted from zero.
    pub fn generate_dat(&self, index: usize, frame: usize) -> (r: Result<usize, GeneratorError>)
        ensures
            match self.readiness() {
                Err(e) => r == Err::<usize, GeneratorError>(e),
                Ok(_) => if frame * self.maps_per_frame + index <= usize::MAX {
                    r == Ok::<usize, GeneratorError>((frame * self.maps_per_frame + index) as usize)
                } else {
                    r == Err::<usize, GeneratorError>(GeneratorError::OutOfRange)
                },
            },
    {
        self.check_ready()?;
        match frame.checked_mul(self.maps_per_frame) {
            Some(first) => match first.checked_add(index) {
                Some(n) => Ok(n),
                None => Err(GeneratorError::OutOfRange),
            },
            None => {
                assert(frame * self.maps_per_frame + index > usize::MAX) by (nonlinear_arith)
                    requires
                        frame * self.maps_per_frame > usize::MAX,
                        index >= 0,
                ;
                Err(GeneratorError::OutOfRange)
            },
        }
    }

    /// The first map number after the run's maps, which the world's map
    /// counter must be set to.
    pub fn generate_idcounts(&self) -> (r: Result<usize, GeneratorError>)
        ensures
            match self.readiness() {
                Err(e) => r == Err::<usize, GeneratorError>(e),
                Ok(_) => r == Ok::<usize, GeneratorError>(
                    (self.generator.starting_index + self.frames * self.maps_per_frame) as usize,
                ),
            },
    {
        self.check_ready()?;
        Ok(self.generator.starting_index + self.frames * self.maps_per_frame)
    }
}

fn summon_offset_of(direction: Direction, i: usize, map_columns: usize) -> (r: (i64, i64, i64))
    requires
        map_columns > 0,
        i <= i64::MAX,
    ensures
        (r.0 as int, r.1 as int, r.2 as int) == summon_offset(direction, i as int, map_columns as int),
{
    assert(0 <= i % map_columns <= i && 0 <= i / map_columns <= i) by (nonlinear_arith)
        requires
            map_columns > 0,
    ;
    let column = (i % map_columns) as i64;
    let row = (i / map_columns) as i64;
    match direction {
        Direction::North => (-column, -row, 0),
        Direction::South => (column, -row, 0),
        Direction::West => (0, -row, -column),
        Direction::East => (0, -row, column),
    }
}

impl InitializedGenerator {
    /// Describes the command files of the run: the counts, the top left
    /// map's position and facing, and each map of a frame with its number
    /// (counted from `starting_index`) and its offset from the top left map.
    pub fn generate_datapack(&self) -> (r: Result<Datapack, GeneratorError>)
        ensures
            r is Ok <==> self.readiness() is Ok,
            r matches Err(e) ==> self.readiness() == Err::<(), GeneratorError>(e),
            r matches Ok(d) ==> {
                &&& d.maps_per_frame == self.maps_per_frame
                &&& d.frames == self.frames
                &&& d.total_maps == self.frames * self.maps_per_frame
                &&& d.starting_index == self.generator.starting_index
                &&& d.top_left == self.generator.top_left
                &&& d.facing == self.generator.direction.facing_code()
                &&& d.placements@.len() == self.maps_per_frame
                &&& forall|i: int|
                    0 <= i < self.maps_per_frame ==> {
                        let p = #[trigger] d.placements@[i];
                        &&& p.map_id == self.generator.starting_index + i
                        &&& (p.dx as int, p.dy as int, p.dz as int) == summon_offset(
                            self.generator.direction,
                            i,
                            self.map_columns as int,
                        )
                    }
            },
    {
        self.check_ready()?;
        let mpf = self.maps_per_frame;
        assert(self.map_columns > 0 && mpf <= self.frames * mpf) by (nonlinear_arith)
            requires
                mpf == self.map_columns * self.map_rows,
                mpf > 0,
                self.frames >= 1,
        ;
        let mut placements: Vec<MapPlacement> = Vec::with_capacity(mpf);
        let mut i: usize = 0;
        while i < mpf
            invariant
                mpf == self.maps_per_frame,
                self.map_columns > 0,
                self.sizes_fit(),
                mpf <= self.frames * mpf,
                0 <= i <= mpf,
                placements@.len() == i,
                forall|k: int|
                    0 <= k < i ==> {
                        let p = #[trigger] placements@[k];
                        &&& p.map_id == self.generator.starting_index + k
                        &&& (p.dx as int, p.dy as int, p.dz as int) == summon_offset(
                            self.generator.direction,
                            k,
                            self.map_columns as int,
                        )
                    },
            decreases mpf - i,
        {
            let (dx, dy, dz) = summon_offset_of(self.generator.direction, i, self.map_columns);
            placements.push(MapPlacement { map_id: self.generator.starting_index + i, dx, dy, dz });
            i += 1;
        }
        Ok(
            Datapack {
                maps_per_frame: mpf,
                frames: self.frames,
                total_maps: self.frames * mpf,
                starting_index: self.generator.starting_index,
                top_left: self.generator.top_left,
                facing: self.generator.direction.code(),
                placements,
            },
        )
    }
}

} // verus!
