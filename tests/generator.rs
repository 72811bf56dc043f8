use mapmaker::cli::{CliArgs, Direction};
use mapmaker::generator::{Generator, GeneratorError, InitializedGenerator, MapPlacement};

fn generator(direction: Direction) -> Generator {
    Generator::new("out/".to_string(), 10, (100, 64, -20), direction)
}

fn offsets(g: &InitializedGenerator) -> Vec<(i64, i64, i64)> {
    g.generate_datapack().unwrap().placements.iter().map(|p| (p.dx, p.dy, p.dz)).collect()
}

#[test]
fn direction_labels() {
    assert_eq!(Direction::from("north"), Direction::North);
    assert_eq!(Direction::from("south"), Direction::South);
    assert_eq!(Direction::from("west"), Direction::West);
    assert_eq!(Direction::from("east"), Direction::East);
    assert_eq!(Direction::from("up"), Direction::North);
    assert_eq!(Direction::from(""), Direction::North);
    assert_eq!(Direction::from("East"), Direction::North);
}

#[test]
fn direction_codes() {
    assert_eq!(Direction::North.code(), 2);
    assert_eq!(Direction::South.code(), 3);
    assert_eq!(Direction::West.code(), 4);
    assert_eq!(Direction::East.code(), 5);
}

#[test]
fn shape_is_recorded() {
    let g = generator(Direction::North).init_files(4, 3, 2);
    assert_eq!((g.frames, g.map_columns, g.map_rows, g.maps_per_frame), (4, 3, 2, 6));
    assert_eq!(g.generator.starting_index, 10);
    assert_eq!(g.generator.path, "out/");
}

#[test]
fn data_file_numbers() {
    let g = generator(Direction::North).init_files(4, 3, 2);
    assert_eq!(g.generate_dat(0, 0), Ok(0));
    assert_eq!(g.generate_dat(5, 0), Ok(5));
    assert_eq!(g.generate_dat(2, 3), Ok(20));
    assert_eq!(g.generate_dat(1, usize::MAX), Err(GeneratorError::OutOfRange));
}

#[test]
fn next_free_map_number() {
    let g = generator(Direction::North).init_files(4, 3, 2);
    assert_eq!(g.generate_idcounts(), Ok(34));
}

#[test]
fn uninitialized_generator_is_refused() {
    let g = generator(Direction::North).init_files(0, 3, 2);
    assert_eq!(g.generate_dat(0, 0), Err(GeneratorError::Uninitialized));
    assert_eq!(g.generate_idcounts(), Err(GeneratorError::Uninitialized));
    assert_eq!(g.generate_datapack().err(), Some(GeneratorError::Uninitialized));
    let g = generator(Direction::North).init_files(3, 0, 2);
    assert_eq!(g.generate_idcounts(), Err(GeneratorError::Uninitialized));
}

#[test]
fn inconsistent_shape_is_refused() {
    let mut g = generator(Direction::North).init_files(2, 3, 2);
    g.maps_per_frame = 5;
    assert_eq!(g.generate_idcounts(), Err(GeneratorError::OutOfRange));
    let g = Generator::new(String::new(), usize::MAX, (0, 0, 0), Direction::East).init_files(1, 1, 1);
    assert_eq!(g.generate_idcounts(), Err(GeneratorError::OutOfRange));
}

#[test]
fn datapack_description() {
    let g = generator(Direction::South).init_files(4, 3, 2);
    let d = g.generate_datapack().unwrap();
    assert_eq!((d.maps_per_frame, d.frames, d.total_maps, d.starting_index), (6, 4, 24, 10));
    assert_eq!(d.top_left, (100, 64, -20));
    assert_eq!(d.facing, 3);
    assert_eq!(d.placements[0], MapPlacement { map_id: 10, dx: 0, dy: 0, dz: 0 });
    assert_eq!(d.placements[5], MapPlacement { map_id: 15, dx: 2, dy: -1, dz: 0 });
}

#[test]
fn placements_follow_the_facing() {
    let north = offsets(&generator(Direction::North).init_files(1, 3, 2));
    assert_eq!(north, vec![(0, 0, 0), (-1, 0, 0), (-2, 0, 0), (0, -1, 0), (-1, -1, 0), (-2, -1, 0)]);
    let south = offsets(&generator(Direction::South).init_files(1, 3, 2));
    assert_eq!(south, vec![(0, 0, 0), (1, 0, 0), (2, 0, 0), (0, -1, 0), (1, -1, 0), (2, -1, 0)]);
    let west = offsets(&generator(Direction::West).init_files(1, 3, 2));
    assert_eq!(west, vec![(0, 0, 0), (0, 0, -1), (0, 0, -2), (0, -1, 0), (0, -1, -1), (0, -1, -2)]);
    let east = offsets(&generator(Direction::East).init_files(1, 3, 2));
    assert_eq!(east, vec![(0, 0, 0), (0, 0, 1), (0, 0, 2), (0, -1, 0), (0, -1, 1), (0, -1, 2)]);
}

#[test]
fn settings_hold_what_was_given() {
    let args = CliArgs {
        top_left: (1, 2, 3),
        direction: Direction::West,
        starting_index: 7,
        input_path: "in/".to_string(),
        output_path: "out/".to_string(),
    };
    let g = Generator::new(args.output_path.clone(), args.starting_index, args.top_left, args.direction);
    assert_eq!(g.direction.code(), 4);
    assert_eq!(g.starting_index, 7);
}
